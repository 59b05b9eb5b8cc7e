//! What an SD stack asks of the vendor part of a host controller.

use vstd::prelude::*;
use crate::script::{Op, Script};
use crate::sdhci::host;
use crate::sdhci::host::{K3SdhciHost, SdMode, Timing, TuningError};
use crate::sdhci::tuning;

verus! {

/// Vendor operations of a host controller.
pub trait SdhciVendorExt {
    /// Sets the controller up for a kind of card.
    fn vendor_reset(&self, mode: SdMode) -> Script;

    /// Selects a timing.
    fn vendor_set_timing(&self, timing: Timing) -> Script;

    /// Selects the transmit clock of a timing.
    fn vendor_set_clock(&self, timing: Timing) -> Script;

    /// Tunes the receive delay line.
    fn vendor_execute_tuning<F>(&mut self, timing: Timing, test_fn: F) -> Result<
        Script,
        TuningError,
    > where F: FnMut(u8) -> bool
        requires
            forall|delay: u8| call_requires(test_fn, (delay,)),
    ;
}

impl SdhciVendorExt for K3SdhciHost {
    fn vendor_reset(&self, mode: SdMode) -> (accesses: Script)
        ensures
            accesses@ == host::reset_ops(self.phy_driver_sel, mode),
    {
        self.reset(mode)
    }

    fn vendor_set_timing(&self, timing: Timing) -> (accesses: Script)
        ensures
            accesses@ == host::timing_ops(timing),
    {
        self.set_timing(timing)
    }

    fn vendor_set_clock(&self, timing: Timing) -> (accesses: Script)
        ensures
            accesses@ == host::clock_ops(timing),
    {
        self.set_clock(timing)
    }

    fn vendor_execute_tuning<F>(&mut self, timing: Timing, test_fn: F) -> (result: Result<
        Script,
        TuningError,
    >) where F: FnMut(u8) -> bool
        ensures
            !host::needs_tuning(timing) ==> *final(self) == *old(self) && (result matches Ok(
                accesses,
            ) && accesses@ == Seq::<Op>::empty()),
            host::needs_tuning(timing) ==> exists|scan: tuning::TuningWindowScan| #[trigger]
                tuning::scanned(test_fn, scan) && match result {
                    Ok(accesses) => {
                        &&& scan.max_windows >= old(self).rxtuning.window_limit
                        &&& *final(self) == host::tuned(*old(self), scan)
                        &&& accesses@ == seq![host::delay_op(final(self).rxtuning.select_delay)]
                    },
                    Err(error) => {
                        &&& scan.max_windows < old(self).rxtuning.window_limit
                        &&& error == (TuningError::WindowTooNarrow {
                            max_windows: scan.max_windows,
                        })
                        &&& *final(self) == *old(self)
                    },
                },
    {
        self.execute_tuning(timing, test_fn)
    }
}

/// The timing with a given index; unknown indices stand for the default one.
pub open spec fn timing_of(raw: u32) -> Timing {
    if raw == 1 {
        Timing::MmcHs
    } else if raw == 2 {
        Timing::SdHs
    } else if raw == 3 {
        Timing::UhsSdr12
    } else if raw == 4 {
        Timing::UhsSdr25
    } else if raw == 5 {
        Timing::UhsSdr50
    } else if raw == 6 {
        Timing::UhsSdr104
    } else if raw == 7 {
        Timing::MmcHs200
    } else if raw == 8 {
        Timing::MmcHs400
    } else {
        Timing::Legacy
    }
}

impl vstd::std_specs::convert::FromSpecImpl<u32> for Timing {
    open spec fn obeys_from_spec() -> bool {
        true
    }

    open spec fn from_spec(raw: u32) -> Timing {
        timing_of(raw)
    }
}

impl From<u32> for Timing {
    fn from(raw: u32) -> (timing: Timing) {
        match raw {
            0 => Timing::Legacy,
            1 => Timing::MmcHs,
            2 => Timing::SdHs,
            3 => Timing::UhsSdr12,
            4 => Timing::UhsSdr25,
            5 => Timing::UhsSdr50,
            6 => Timing::UhsSdr104,
            7 => Timing::MmcHs200,
            8 => Timing::MmcHs400,
            _ => Timing::Legacy,
        }
    }
}

} // verus!
