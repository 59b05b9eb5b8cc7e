//! Errors of the UFS host.

use vstd::prelude::*;

verus! {

/// Which step of bringing up the hardware failed.
#[derive(Clone, Copy, Debug, PartialEq, Eq, Structural)]
pub enum InitFailure {
    PllLock,
    ControllerEnable,
    CommandFailed,
    CommandTimeout,
    DeviceAbsent,
    DeviceLost,
    ListsNotReady,
}

/// What else went wrong.
#[derive(Clone, Copy, Debug, PartialEq, Eq, Structural)]
pub enum Failure {
    RecoveryFailed,
    NopFailed,
    QueryInvalid,
    InitTimeout,
    ScsiInvalid,
    ReportLunsInvalid,
    NoLun,
    BufferTooSmall,
    ReadFailed,
    WriteFailed,
    Allocation,
}

/// Why an operation of the host failed. The first three ask for the controller
/// to be recovered.
#[derive(Clone, Copy, Debug, PartialEq, Eq, Structural)]
pub enum UfsError {
    /// A transfer did not end.
    Timeout,
    /// A transfer ended with a bad status.
    OcsError,
    /// The controller reported a fatal error.
    ControllerFatal,
    /// The hardware did not come up.
    Init(InitFailure),
    /// The driver or the device refused.
    Other(Failure),
}

impl UfsError {
    /// The controller is to be recovered.
    #[verifier::allow_in_spec]
    pub fn needs_recovery(self) -> (result: bool)
        returns
            self is Timeout || self is OcsError || self is ControllerFatal,
    {
        match self {
            UfsError::Timeout | UfsError::OcsError | UfsError::ControllerFatal => true,
            _ => false,
        }
    }
}

impl InitFailure {
    /// The step in words.
    pub open spec fn text(self) -> &'static str {
        match self {
            InitFailure::PllLock => "MPHY PLL lock timeout",
            InitFailure::ControllerEnable => "Controller enable failed",
            InitFailure::CommandFailed => "UIC command failed",
            InitFailure::CommandTimeout => "UIC command timeout",
            InitFailure::DeviceAbsent => "Device not present after link startup",
            InitFailure::DeviceLost => "Device lost after power mode change",
            InitFailure::ListsNotReady => "Host lists not ready",
        }
    }

    /// The step in words.
    pub fn describe(self) -> (text: &'static str)
        ensures
            text == self.text(),
    {
        match self {
            InitFailure::PllLock => "MPHY PLL lock timeout",
            InitFailure::ControllerEnable => "Controller enable failed",
            InitFailure::CommandFailed => "UIC command failed",
            InitFailure::CommandTimeout => "UIC command timeout",
            InitFailure::DeviceAbsent => "Device not present after link startup",
            InitFailure::DeviceLost => "Device lost after power mode change",
            InitFailure::ListsNotReady => "Host lists not ready",
        }
    }
}

impl Failure {
    /// What went wrong, in words.
    pub open spec fn text(self) -> &'static str {
        match self {
            Failure::RecoveryFailed => "controller recovery failed",
            Failure::NopFailed => "NOP OUT failed",
            Failure::QueryInvalid => "Invalid QUERY response",
            Failure::InitTimeout => "fDeviceInit timeout",
            Failure::ScsiInvalid => "Invalid SCSI response",
            Failure::ReportLunsInvalid => "Invalid REPORT_LUNS data",
            Failure::NoLun => "No usable LUN found",
            Failure::BufferTooSmall => "Buffer too small",
            Failure::ReadFailed => "READ_10 failed",
            Failure::WriteFailed => "WRITE_10 failed",
            Failure::Allocation => "Failed to allocate data buffer",
        }
    }

    /// What went wrong, in words.
    pub fn describe(self) -> (text: &'static str)
        ensures
            text == self.text(),
    {
        match self {
            Failure::RecoveryFailed => "controller recovery failed",
            Failure::NopFailed => "NOP OUT failed",
            Failure::QueryInvalid => "Invalid QUERY response",
            Failure::InitTimeout => "fDeviceInit timeout",
            Failure::ScsiInvalid => "Invalid SCSI response",
            Failure::ReportLunsInvalid => "Invalid REPORT_LUNS data",
            Failure::NoLun => "No usable LUN found",
            Failure::BufferTooSmall => "Buffer too small",
            Failure::ReadFailed => "READ_10 failed",
            Failure::WriteFailed => "WRITE_10 failed",
            Failure::Allocation => "Failed to allocate data buffer",
        }
    }
}

} // verus!
