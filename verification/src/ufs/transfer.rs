//! Sending messages and waiting for their answers.
//!
//! An [`Exchange`] sends one message in a slot and waits for its end. A
//! [`Submission`] makes an exchange, and if that fails in a way that calls for
//! it, recovers the controller and tries once more.

use vstd::prelude::*;
use crate::script::{core_reg, Op, Script};
use crate::ufs::desc;
use crate::ufs::desc::{build_nop_upiu, build_query_upiu, utrd_ocs};
use crate::ufs::error::{Failure, UfsError};
use crate::ufs::host;
use crate::ufs::host::{K3UfsHost, UpiuSlotKind};
use crate::ufs::regs;

verus! {

/// How often the end of a transfer is looked for.
pub const TRANSFER_POLLS: u32 = 10000;

/// How many looks apart the interrupt status is looked at.
pub const STATUS_PERIOD: u32 = 500;

pub const NOP_OUT_RETRIES: u32 = 10;
pub const QUERY_REQ_RETRIES: u32 = 3;
pub const FDEVICEINIT_POLLS: u32 = 1000;
pub const FDEVICEINIT_POLL_MS: u32 = 10;

/// Where an exchange stands.
#[derive(Clone, Copy, Debug, PartialEq, Eq)]
pub enum ExchangeStep {
    /// Clear the interrupt status.
    Acknowledge,
    /// Ring the doorbell of the slot. What was written to memory must have
    /// arrived there before.
    Ring,
    /// Look at the doorbell, for the time `look`.
    Doorbell { look: u32 },
    /// Look at the interrupt status; `ended` tells what the doorbell said.
    Status { look: u32, ended: bool },
    /// Wait before the next look.
    Pause { look: u32 },
    /// Take the status word of the descriptor and the response from memory.
    Collect,
    /// Read the state of the controller after an error.
    Dump { error: UfsError },
    /// Clear the interrupt status of the transfer.
    Retire { result: Result<(), UfsError> },
    /// Over.
    Over { result: Result<(), UfsError> },
}

/// A message that is sent in a slot.
#[derive(Clone, Copy, Debug, PartialEq, Eq)]
pub struct Exchange {
    pub slot: usize,
    pub step: ExchangeStep,
}

/// The state of the controller that is read after an error.
pub open spec fn dump_ops() -> Seq<Op> {
    seq![
        Op::Read { reg: core_reg(regs::REG_UTP_TRANSFER_REQ_DOOR_BELL) },
        Op::Read { reg: core_reg(regs::REG_INTERRUPT_STATUS) },
        Op::Read { reg: core_reg(regs::REG_INTERRUPT_ENABLE) },
        Op::Read { reg: core_reg(regs::REG_CONTROLLER_STATUS) },
        Op::Read { reg: core_reg(regs::REG_UTP_TRANSFER_REQ_LIST_RUN_STOP) },
        Op::Read { reg: core_reg(regs::REG_UIC_ERROR_CODE_PHY_ADAPTER_LAYER) },
        Op::Read { reg: core_reg(regs::REG_UIC_ERROR_CODE_DATA_LINK_LAYER) },
        Op::Read { reg: core_reg(regs::REG_UIC_ERROR_CODE_NETWORK_LAYER) },
        Op::Read { reg: core_reg(regs::REG_UIC_ERROR_CODE_TRANSPORT_LAYER) },
        Op::Read { reg: core_reg(regs::REG_UIC_ERROR_CODE_DME) },
    ]
}

/// Reads the state of the controller after an error.
pub fn dump_transfer_state() -> (accesses: Script)
    ensures
        accesses@ == dump_ops(),
{
    let mut accesses = Script::new();
    accesses.read(core_reg(regs::REG_UTP_TRANSFER_REQ_DOOR_BELL));
    accesses.read(core_reg(regs::REG_INTERRUPT_STATUS));
    accesses.read(core_reg(regs::REG_INTERRUPT_ENABLE));
    accesses.read(core_reg(regs::REG_CONTROLLER_STATUS));
    accesses.read(core_reg(regs::REG_UTP_TRANSFER_REQ_LIST_RUN_STOP));
    accesses.read(core_reg(regs::REG_UIC_ERROR_CODE_PHY_ADAPTER_LAYER));
    accesses.read(core_reg(regs::REG_UIC_ERROR_CODE_DATA_LINK_LAYER));
    accesses.read(core_reg(regs::REG_UIC_ERROR_CODE_NETWORK_LAYER));
    accesses.read(core_reg(regs::REG_UIC_ERROR_CODE_TRANSPORT_LAYER));
    accesses.read(core_reg(regs::REG_UIC_ERROR_CODE_DME));
    accesses
}

/// The doorbell bit of a slot.
#[verifier::allow_in_spec]
pub fn slot_mask(slot: usize) -> (mask: u32)
    requires
        slot < 32,
    returns
        1u32 << slot,
{
    1u32 << slot
}

impl Exchange {
    /// An exchange before its first step.
    pub fn new(slot: usize) -> (exchange: Exchange)
        ensures
            exchange == (Exchange { slot, step: ExchangeStep::Acknowledge }),
    {
        Exchange { slot, step: ExchangeStep::Acknowledge }
    }

    /// The slot and the look are within their ranges.
    pub open spec fn wf(self) -> bool {
        &&& self.slot < desc::UFSHCI_NUM_SLOTS
        &&& match self.step {
            ExchangeStep::Doorbell { look } => look < TRANSFER_POLLS,
            ExchangeStep::Status { look, .. } => look < TRANSFER_POLLS,
            ExchangeStep::Pause { look } => look < TRANSFER_POLLS,
            _ => true,
        }
    }

    /// How many steps are left at most.
    pub open spec fn remaining(self) -> nat {
        match self.step {
            ExchangeStep::Acknowledge => (4 * TRANSFER_POLLS + 10) as nat,
            ExchangeStep::Ring => (4 * TRANSFER_POLLS + 9) as nat,
            ExchangeStep::Doorbell { look } => (4 * (TRANSFER_POLLS - look) + 8) as nat,
            ExchangeStep::Status { look, .. } => (4 * (TRANSFER_POLLS - look) + 7) as nat,
            ExchangeStep::Pause { look } => (4 * (TRANSFER_POLLS - look) + 6) as nat,
            ExchangeStep::Collect => 3,
            ExchangeStep::Dump { .. } => 2,
            ExchangeStep::Retire { .. } => 1,
            ExchangeStep::Over { .. } => 0,
        }
    }

    /// The accesses of a step. [`ExchangeStep::Collect`] has none.
    pub open spec fn ops(self) -> Seq<Op> {
        match self.step {
            ExchangeStep::Acknowledge => seq![
                Op::Write { reg: core_reg(regs::REG_INTERRUPT_STATUS), value: 0xFFFF_FFFF },
            ],
            ExchangeStep::Ring => seq![
                Op::Write {
                    reg: core_reg(regs::REG_UTP_TRANSFER_REQ_DOOR_BELL),
                    value: slot_mask(self.slot),
                },
                Op::Read { reg: core_reg(regs::REG_UTP_TRANSFER_REQ_DOOR_BELL) },
            ],
            ExchangeStep::Doorbell { .. } => seq![
                Op::Read { reg: core_reg(regs::REG_UTP_TRANSFER_REQ_DOOR_BELL) },
            ],
            ExchangeStep::Status { .. } => seq![
                Op::Read { reg: core_reg(regs::REG_INTERRUPT_STATUS) },
            ],
            ExchangeStep::Pause { .. } => seq![Op::Delay { us: 100 }],
            ExchangeStep::Dump { .. } => dump_ops(),
            ExchangeStep::Retire { .. } => seq![
                Op::Write {
                    reg: core_reg(regs::REG_INTERRUPT_STATUS),
                    value: regs::UTP_TRANSFER_REQ_COMPL,
                },
            ],
            ExchangeStep::Collect => Seq::empty(),
            ExchangeStep::Over { .. } => Seq::empty(),
        }
    }

    /// After a look that found the transfer ended, or not.
    pub open spec fn looked(look: u32, ended: bool) -> ExchangeStep {
        if ended {
            ExchangeStep::Collect
        } else {
            ExchangeStep::Pause { look }
        }
    }

    /// The step after one whose last read returned `value`. For
    /// [`ExchangeStep::Collect`], `value` is the status word of the descriptor.
    pub open spec fn next(self, value: u32) -> ExchangeStep {
        match self.step {
            ExchangeStep::Acknowledge => ExchangeStep::Ring,
            ExchangeStep::Ring => ExchangeStep::Doorbell { look: 0 },
            ExchangeStep::Doorbell { look } => {
                let ended = value & slot_mask(self.slot) == 0;
                if look % STATUS_PERIOD == 0 {
                    ExchangeStep::Status { look, ended }
                } else {
                    Exchange::looked(look, ended)
                }
            },
            ExchangeStep::Status { look, ended } => if value & regs::UFSHCD_ERROR_MASK != 0 {
                ExchangeStep::Dump { error: UfsError::ControllerFatal }
            } else {
                Exchange::looked(look, ended)
            },
            ExchangeStep::Pause { look } => if look + 1 < TRANSFER_POLLS {
                ExchangeStep::Doorbell { look: (look + 1) as u32 }
            } else {
                ExchangeStep::Dump { error: UfsError::Timeout }
            },
            ExchangeStep::Collect => if utrd_ocs(value) != 0 {
                ExchangeStep::Dump { error: UfsError::OcsError }
            } else {
                ExchangeStep::Retire { result: Ok(()) }
            },
            ExchangeStep::Dump { error } => if error is OcsError {
                ExchangeStep::Retire { result: Err(error) }
            } else {
                ExchangeStep::Over { result: Err(error) }
            },
            ExchangeStep::Retire { result } => ExchangeStep::Over { result },
            ExchangeStep::Over { .. } => self.step,
        }
    }

    /// The accesses of the current step.
    pub fn script(&self) -> (accesses: Script)
        requires
            self.wf(),
        ensures
            accesses@ == self.ops(),
    {
        let mut accesses = Script::new();
        match self.step {
            ExchangeStep::Acknowledge => accesses.write(
                core_reg(regs::REG_INTERRUPT_STATUS),
                0xFFFF_FFFF,
            ),
            ExchangeStep::Ring => {
                accesses.write(
                    core_reg(regs::REG_UTP_TRANSFER_REQ_DOOR_BELL),
                    slot_mask(self.slot),
                );
                accesses.read(core_reg(regs::REG_UTP_TRANSFER_REQ_DOOR_BELL));
            },
            ExchangeStep::Doorbell { .. } => accesses.read(
                core_reg(regs::REG_UTP_TRANSFER_REQ_DOOR_BELL),
            ),
            ExchangeStep::Status { .. } => accesses.read(core_reg(regs::REG_INTERRUPT_STATUS)),
            ExchangeStep::Pause { .. } => accesses.delay(100),
            ExchangeStep::Dump { .. } => {
                accesses = dump_transfer_state();
            },
            ExchangeStep::Retire { .. } => accesses.write(
                core_reg(regs::REG_INTERRUPT_STATUS),
                regs::UTP_TRANSFER_REQ_COMPL,
            ),
            ExchangeStep::Collect => {},
            ExchangeStep::Over { .. } => {},
        }
        accesses
    }

    /// Takes what the last read of the current step returned, or the status
    /// word of the descriptor.
    pub fn resume(&mut self, value: u32)
        requires
            old(self).wf(),
        ensures
            final(self).step == old(self).next(value),
            final(self).slot == old(self).slot,
            final(self).wf(),
            !(old(self).step is Over) ==> final(self).remaining() < old(self).remaining(),
    {
        self.step = match self.step {
            ExchangeStep::Acknowledge => ExchangeStep::Ring,
            ExchangeStep::Ring => ExchangeStep::Doorbell { look: 0 },
            ExchangeStep::Doorbell { look } => {
                let ended = value & slot_mask(self.slot) == 0;
                if look % STATUS_PERIOD == 0 {
                    ExchangeStep::Status { look, ended }
                } else if ended {
                    ExchangeStep::Collect
                } else {
                    ExchangeStep::Pause { look }
                }
            },
            ExchangeStep::Status { look, ended } => if value & regs::UFSHCD_ERROR_MASK != 0 {
                ExchangeStep::Dump { error: UfsError::ControllerFatal }
            } else if ended {
                ExchangeStep::Collect
            } else {
                ExchangeStep::Pause { look }
            },
            ExchangeStep::Pause { look } => if look + 1 < TRANSFER_POLLS {
                ExchangeStep::Doorbell { look: look + 1 }
            } else {
                ExchangeStep::Dump { error: UfsError::Timeout }
            },
            ExchangeStep::Collect => if utrd_ocs(value) != 0 {
                ExchangeStep::Dump { error: UfsError::OcsError }
            } else {
                ExchangeStep::Retire { result: Ok(()) }
            },
            ExchangeStep::Dump { error } => match error {
                UfsError::OcsError => ExchangeStep::Retire { result: Err(error) },
                _ => ExchangeStep::Over { result: Err(error) },
            },
            ExchangeStep::Retire { result } => ExchangeStep::Over { result },
            ExchangeStep::Over { result } => ExchangeStep::Over { result },
        };
    }
}

/// Where a submission stands.
#[derive(Clone, Copy, Debug, PartialEq, Eq)]
pub enum SubmitStep {
    /// Exchange the message in a slot.
    First { slot: usize },
    /// Recover the controller.
    Recover,
    /// Ask in a slot whether the device is there.
    Verify { slot: usize },
    /// Exchange the message again.
    Second { slot: usize },
    /// Over.
    Over { result: Result<(), UfsError> },
}

/// A message that is sent, with one more try after a recovery.
#[derive(Clone, Copy, Debug, PartialEq, Eq)]
pub struct Submission {
    pub kind: UpiuSlotKind,
    pub step: SubmitStep,
}

impl K3UfsHost {
    /// A message of this kind can be given a slot.
    pub open spec fn can_send(self, kind: UpiuSlotKind) -> bool {
        kind is ScsiIo ==> self.nutrs > 1
    }

    /// The slot for a message, and the host after giving it out.
    pub open spec fn slot_for(self, kind: UpiuSlotKind) -> (usize, K3UfsHost) {
        match kind {
            UpiuSlotKind::DevCmd => (self.reserved_slot(), self),
            UpiuSlotKind::ScsiIo => (
                host::io_slot(self.nutrs, self.next_io_slot) as usize,
                K3UfsHost { next_io_slot: host::following(self.next_io_slot), ..self },
            ),
        }
    }

    /// Gives out a slot for a message.
    pub fn take_slot(&mut self, kind: UpiuSlotKind) -> (slot: usize)
        requires
            old(self).can_send(kind),
        ensures
            (slot, *final(self)) == old(self).slot_for(kind),
            slot <= old(self).reserved_slot(),
    {
        match kind {
            UpiuSlotKind::DevCmd => self.reserved_slot(),
            UpiuSlotKind::ScsiIo => self.alloc_io_slot(),
        }
    }

    /// Begins to send a message. Nothing is sent once a recovery has failed.
    pub fn submit_upiu(&mut self, kind: UpiuSlotKind) -> (submission: Submission)
        requires
            old(self).can_send(kind),
        ensures
            submission.kind == kind,
            old(self).fatal ==> *final(self) == *old(self) && submission.step == (SubmitStep::Over {
                result: Err(UfsError::ControllerFatal),
            }),
            !old(self).fatal ==> {
                &&& *final(self) == old(self).slot_for(kind).1
                &&& submission.step == (SubmitStep::First { slot: old(self).slot_for(kind).0 })
            },
    {
        if self.fatal {
            return Submission {
                kind,
                step: SubmitStep::Over { result: Err(UfsError::ControllerFatal) },
            };
        }
        let slot: usize = self.take_slot(kind);
        Submission { kind, step: SubmitStep::First { slot } }
    }
}

impl Submission {
    /// The step and the host after a step that came to `outcome`. An exchange
    /// that went well has the first byte of the response as its outcome.
    pub open spec fn next(self, host: K3UfsHost, outcome: Result<u8, UfsError>) -> (
        SubmitStep,
        K3UfsHost,
    ) {
        let failed = (
            SubmitStep::Over { result: Err(UfsError::Other(Failure::RecoveryFailed)) },
            K3UfsHost { fatal: true, ..host },
        );
        match self.step {
            SubmitStep::First { .. } => match outcome {
                Ok(_) => (SubmitStep::Over { result: Ok(()) }, host),
                Err(error) => if error.needs_recovery() {
                    (SubmitStep::Recover, host)
                } else {
                    (SubmitStep::Over { result: Err(error) }, host)
                },
            },
            SubmitStep::Recover => if outcome is Ok {
                (SubmitStep::Verify { slot: host.reserved_slot() }, host)
            } else {
                failed
            },
            SubmitStep::Verify { .. } => if outcome == Ok::<u8, UfsError>(
                desc::UPIU_TRANSACTION_NOP_IN,
            ) {
                let (slot, after) = host.slot_for(self.kind);
                (SubmitStep::Second { slot }, after)
            } else {
                failed
            },
            SubmitStep::Second { .. } => (
                SubmitStep::Over {
                    result: match outcome {
                        Ok(_) => Ok(()),
                        Err(error) => Err(error),
                    },
                },
                host,
            ),
            SubmitStep::Over { .. } => (self.step, host),
        }
    }

    /// How many steps are left at most.
    pub open spec fn remaining(self) -> nat {
        match self.step {
            SubmitStep::First { .. } => 4,
            SubmitStep::Recover => 3,
            SubmitStep::Verify { .. } => 2,
            SubmitStep::Second { .. } => 1,
            SubmitStep::Over { .. } => 0,
        }
    }

    /// Takes what the current step came to.
    pub fn resume(&mut self, host: &mut K3UfsHost, outcome: Result<u8, UfsError>)
        requires
            old(host).can_send(old(self).kind),
        ensures
            (final(self).step, *final(host)) == old(self).next(*old(host), outcome),
            final(self).kind == old(self).kind,
            final(host).can_send(final(self).kind),
            !(old(self).step is Over) ==> final(self).remaining() < old(self).remaining(),
    {
        self.step = match self.step {
            SubmitStep::First { .. } => match outcome {
                Ok(_) => SubmitStep::Over { result: Ok(()) },
                Err(error) => if error.needs_recovery() {
                    SubmitStep::Recover
                } else {
                    SubmitStep::Over { result: Err(error) }
                },
            },
            SubmitStep::Recover => if outcome.is_ok() {
                SubmitStep::Verify { slot: host.reserved_slot() }
            } else {
                host.fatal = true;
                SubmitStep::Over { result: Err(UfsError::Other(Failure::RecoveryFailed)) }
            },
            SubmitStep::Verify { .. } => {
                let answered = match outcome {
                    Ok(transaction) => transaction == desc::UPIU_TRANSACTION_NOP_IN,
                    Err(_) => false,
                };
                if answered {
                    SubmitStep::Second { slot: host.take_slot(self.kind) }
                } else {
                    host.fatal = true;
                    SubmitStep::Over { result: Err(UfsError::Other(Failure::RecoveryFailed)) }
                }
            },
            SubmitStep::Second { .. } => SubmitStep::Over {
                result: match outcome {
                    Ok(_) => Ok(()),
                    Err(error) => Err(error),
                },
            },
            SubmitStep::Over { result } => SubmitStep::Over { result },
        };
    }
}

/// The message that asks whether the device is there.
pub fn nop_message() -> (upiu: [u8; 512])
    ensures
        upiu@ == desc::nop_upiu(0),
{
    let mut upiu: [u8; 512] = [0u8;512];
    build_nop_upiu(&mut upiu, 0);
    upiu
}

/// What follows a try.
#[derive(Clone, Copy, Debug, PartialEq, Eq)]
pub enum Attempt {
    /// Try again.
    Again,
    /// Wait so long, then try again.
    Wait { ms: u32 },
    /// Wait so long, then fail.
    GiveUp { ms: u32, error: UfsError },
    /// Over.
    Done(Result<(), UfsError>),
}

/// Asks whether the device is there, several times.
#[derive(Clone, Copy, Debug, PartialEq, Eq, Structural)]
pub struct NopOut {
    /// Tries that were made.
    pub tries: u32,
}

impl NopOut {
    /// No try yet.
    pub fn new() -> (nop: NopOut)
        ensures
            nop.tries == 0,
    {
        NopOut { tries: 0 }
    }

    /// Takes what a try came to: the first byte of the response, or an error.
    pub fn resume(&mut self, outcome: Result<u8, UfsError>) -> (next: Attempt)
        requires
            old(self).tries < NOP_OUT_RETRIES,
        ensures
            final(self).tries == old(self).tries + 1,
            next == (if outcome == Ok::<u8, UfsError>(desc::UPIU_TRANSACTION_NOP_IN) {
                Attempt::Done(Ok(()))
            } else if final(self).tries < NOP_OUT_RETRIES {
                Attempt::Again
            } else {
                Attempt::Done(Err(UfsError::Other(Failure::NopFailed)))
            }),
    {
        self.tries = self.tries + 1;
        let answered = match outcome {
            Ok(transaction) => transaction == desc::UPIU_TRANSACTION_NOP_IN,
            Err(_) => false,
        };
        if answered {
            Attempt::Done(Ok(()))
        } else if self.tries < NOP_OUT_RETRIES {
            Attempt::Again
        } else {
            Attempt::Done(Err(UfsError::Other(Failure::NopFailed)))
        }
    }
}

/// The kind of query that an operation on a flag is.
pub open spec fn query_function(opcode: u8) -> u8 {
    if opcode == desc::UPIU_QUERY_OPCODE_SET_FLAG {
        desc::UPIU_QUERY_FUNC_STANDARD_WRITE_REQUEST
    } else {
        desc::UPIU_QUERY_FUNC_STANDARD_READ_REQUEST
    }
}

/// The message that reads or sets a flag.
pub fn query_flag(opcode: u8, idn: u8) -> (upiu: [u8; 512])
    ensures
        upiu@ == desc::query_upiu(0, query_function(opcode), opcode, idn),
{
    let query_func: u8 = if opcode == desc::UPIU_QUERY_OPCODE_SET_FLAG {
        desc::UPIU_QUERY_FUNC_STANDARD_WRITE_REQUEST
    } else {
        desc::UPIU_QUERY_FUNC_STANDARD_READ_REQUEST
    };
    let mut upiu: [u8; 512] = [0u8;512];
    build_query_upiu(&mut upiu, 0, query_func, opcode, idn);
    upiu
}

/// The flag in the answer to a query: the lowest bit of the value, whose last
/// byte is byte 23.
pub fn query_result(response: &[u8; 512]) -> (flag: Result<bool, UfsError>)
    ensures
        flag == (if response@[0] != desc::UPIU_TRANSACTION_QUERY_RSP {
            Err::<bool, UfsError>(UfsError::Other(Failure::QueryInvalid))
        } else {
            Ok(response@[23] % 2 == 1)
        }),
{
    if response[0] != desc::UPIU_TRANSACTION_QUERY_RSP {
        return Err(UfsError::Other(Failure::QueryInvalid));
    }
    Ok(response[23] % 2 == 1)
}

/// Sets the flag that makes the device initialize itself, and waits until the
/// device clears it.
#[derive(Clone, Copy, Debug, PartialEq, Eq, Structural)]
pub enum DevInit {
    /// Set the flag; `tries` were made.
    Raise { tries: u32 },
    /// Read the flag; `polls` were made.
    Read { polls: u32 },
}

impl DevInit {
    /// Tries and polls are left.
    pub open spec fn wf(self) -> bool {
        match self {
            DevInit::Raise { tries } => tries < QUERY_REQ_RETRIES,
            DevInit::Read { polls } => polls < FDEVICEINIT_POLLS,
        }
    }

    /// How many queries are left at most.
    pub open spec fn remaining(self) -> nat {
        match self {
            DevInit::Raise { tries } => (QUERY_REQ_RETRIES - tries + FDEVICEINIT_POLLS) as nat,
            DevInit::Read { polls } => (FDEVICEINIT_POLLS - polls) as nat,
        }
    }

    /// Nothing done yet.
    pub fn new() -> (init: DevInit)
        ensures
            init == (DevInit::Raise { tries: 0 }),
            init.wf(),
    {
        DevInit::Raise { tries: 0 }
    }

    /// The query of the current step.
    pub fn message(&self) -> (upiu: [u8; 512])
        ensures
            upiu@ == (match *self {
                DevInit::Raise { .. } => desc::query_upiu(
                    0,
                    desc::UPIU_QUERY_FUNC_STANDARD_WRITE_REQUEST,
                    desc::UPIU_QUERY_OPCODE_SET_FLAG,
                    desc::QUERY_FLAG_IDN_FDEVICEINIT,
                ),
                DevInit::Read { .. } => desc::query_upiu(
                    0,
                    desc::UPIU_QUERY_FUNC_STANDARD_READ_REQUEST,
                    desc::UPIU_QUERY_OPCODE_READ_FLAG,
                    desc::QUERY_FLAG_IDN_FDEVICEINIT,
                ),
            }),
    {
        match *self {
            DevInit::Raise { .. } => query_flag(
                desc::UPIU_QUERY_OPCODE_SET_FLAG,
                desc::QUERY_FLAG_IDN_FDEVICEINIT,
            ),
            DevInit::Read { .. } => query_flag(
                desc::UPIU_QUERY_OPCODE_READ_FLAG,
                desc::QUERY_FLAG_IDN_FDEVICEINIT,
            ),
        }
    }

    /// What follows a query that came to `outcome`, and the step after it.
    /// Setting the flag is tried a few times; reading it must not fail. Each
    /// read that finds the flag still set is followed by a wait, the last one too.
    pub open spec fn next(self, outcome: Result<bool, UfsError>) -> (DevInit, Attempt) {
        match self {
            DevInit::Raise { tries } => match outcome {
                Ok(_) => (DevInit::Read { polls: 0 }, Attempt::Again),
                Err(error) => if tries + 1 < QUERY_REQ_RETRIES {
                    (DevInit::Raise { tries: (tries + 1) as u32 }, Attempt::Again)
                } else {
                    (self, Attempt::Done(Err(error)))
                },
            },
            DevInit::Read { polls } => match outcome {
                Ok(set) => if !set {
                    (self, Attempt::Done(Ok(())))
                } else if polls + 1 < FDEVICEINIT_POLLS {
                    (
                        DevInit::Read { polls: (polls + 1) as u32 },
                        Attempt::Wait { ms: FDEVICEINIT_POLL_MS },
                    )
                } else {
                    (
                        self,
                        Attempt::GiveUp {
                            ms: FDEVICEINIT_POLL_MS,
                            error: UfsError::Other(Failure::InitTimeout),
                        },
                    )
                },
                Err(error) => (self, Attempt::Done(Err(error))),
            },
        }
    }

    /// Takes what the query of the current step came to.
    pub fn resume(&mut self, outcome: Result<bool, UfsError>) -> (next: Attempt)
        requires
            old(self).wf(),
        ensures
            (*final(self), next) == old(self).next(outcome),
            final(self).wf(),
            !(next is Done || next is GiveUp) ==> final(self).remaining() < old(self).remaining(),
    {
        match *self {
            DevInit::Raise { tries } => match outcome {
                Ok(_) => {
                    *self = DevInit::Read { polls: 0 };
                    Attempt::Again
                },
                Err(error) => if tries + 1 < QUERY_REQ_RETRIES {
                    *self = DevInit::Raise { tries: tries + 1 };
                    Attempt::Again
                } else {
                    Attempt::Done(Err(error))
                },
            },
            DevInit::Read { polls } => match outcome {
                Ok(set) => if !set {
                    Attempt::Done(Ok(()))
                } else if polls + 1 < FDEVICEINIT_POLLS {
                    *self = DevInit::Read { polls: polls + 1 };
                    Attempt::Wait { ms: FDEVICEINIT_POLL_MS }
                } else {
                    Attempt::GiveUp {
                        ms: FDEVICEINIT_POLL_MS,
                        error: UfsError::Other(Failure::InitTimeout),
                    }
                },
                Err(error) => Attempt::Done(Err(error)),
            },
        }
    }
}

/// A transfer counts as done well only if the controller was seen to have given
/// the slot back and left a good status in its descriptor; and it is looked at
/// as given back only if its bit was clear.
pub proof fn law_success_needs_a_good_status(exchange: Exchange, value: u32)
    ensures
        exchange.next(value) == (ExchangeStep::Over { result: Ok(()) }) && !(exchange.step is Over)
            ==> exchange.step == (ExchangeStep::Retire { result: Ok(()) }),
        exchange.next(value) == (ExchangeStep::Retire { result: Ok(()) }) ==> exchange.step
            is Collect && utrd_ocs(value) == 0,
        exchange.next(value) is Collect ==> match exchange.step {
            ExchangeStep::Doorbell { .. } => value & slot_mask(exchange.slot) == 0,
            ExchangeStep::Status { ended, .. } => ended && value & regs::UFSHCD_ERROR_MASK == 0,
            _ => false,
        },
{
}

/// Only a recovery that failed stops the host for good, and it is reported.
pub proof fn law_fatal_only_after_failed_recovery(
    submission: Submission,
    host: K3UfsHost,
    outcome: Result<u8, UfsError>,
)
    requires
        !host.fatal,
    ensures
        ({
            let (step, after) = submission.next(host, outcome);
            after.fatal <==> (submission.step is Recover || submission.step is Verify)
                && step == (SubmitStep::Over {
                result: Err(UfsError::Other(Failure::RecoveryFailed)),
            })
        }),
{
}

/// A message that went well is not sent again, and one that failed is sent
/// again only after a recovery whose answer was as expected.
pub proof fn law_second_try_only_after_recovery(
    submission: Submission,
    host: K3UfsHost,
    outcome: Result<u8, UfsError>,
)
    ensures
        submission.next(host, outcome).0 is Second && !(submission.step is Second)
            ==> submission.step is Verify && outcome == Ok::<u8, UfsError>(
            desc::UPIU_TRANSACTION_NOP_IN,
        ),
        submission.next(host, outcome).0 is Verify && !(submission.step is Verify)
            ==> submission.step is Recover && outcome is Ok,
        submission.next(host, outcome).0 is Recover && !(submission.step is Recover)
            ==> submission.step is First && (outcome matches Err(error) && error.needs_recovery()),
{
}

} // verus!
