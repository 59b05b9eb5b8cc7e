//! Commands to the link layer.
//!
//! A command is sent through registers, and its end is waited for. The low
//! byte of the second argument register then tells whether it was carried out,
//! and the third holds the value that it read.

use vstd::prelude::*;
use crate::script::{core_reg, Op, Script};
use crate::ufs::error::{InitFailure, UfsError};
use crate::ufs::regs;

verus! {

/// A command to the link layer.
#[derive(Clone, Copy, Debug, PartialEq, Eq, Structural)]
pub struct UicCommand {
    pub cmd: u32,
    pub arg1: u32,
    pub arg2: u32,
    pub arg3: u32,
}

/// Sets an attribute.
#[verifier::allow_in_spec]
pub fn dme_set(attr: u32, value: u32) -> (command: UicCommand)
    returns
        (UicCommand { cmd: regs::UIC_CMD_DME_SET, arg1: attr, arg2: 0, arg3: value }),
{
    UicCommand { cmd: regs::UIC_CMD_DME_SET, arg1: attr, arg2: 0, arg3: value }
}

/// Reads an attribute.
#[verifier::allow_in_spec]
pub fn dme_get(attr: u32) -> (command: UicCommand)
    returns
        (UicCommand { cmd: regs::UIC_CMD_DME_GET, arg1: attr, arg2: 0, arg3: 0 }),
{
    UicCommand { cmd: regs::UIC_CMD_DME_GET, arg1: attr, arg2: 0, arg3: 0 }
}

/// Reads an attribute of the device at the other end.
#[verifier::allow_in_spec]
pub fn dme_peer_get(attr: u32) -> (command: UicCommand)
    returns
        (UicCommand { cmd: regs::UIC_CMD_DME_PEER_GET, arg1: attr, arg2: 0, arg3: 0 }),
{
    UicCommand { cmd: regs::UIC_CMD_DME_PEER_GET, arg1: attr, arg2: 0, arg3: 0 }
}

/// How often the end of a command is looked for, and how long apart.
pub const UIC_POLLS: u32 = 5000;
pub const UIC_POLL_US: u32 = 100;

/// Where a command stands.
#[derive(Clone, Copy, Debug, PartialEq, Eq, Structural)]
pub enum UicStep {
    /// Send it and wait for its end.
    Send,
    /// See whether it was carried out.
    Check,
    /// Read its value.
    Fetch,
    /// Read the error codes of the link layers.
    Report,
}

/// What follows a step of a command.
#[derive(Clone, Copy, Debug, PartialEq, Eq)]
pub enum UicNext {
    Step(UicStep),
    Done(Result<u32, UfsError>),
}

impl UicCommand {
    /// The accesses of a step.
    pub open spec fn ops(self, step: UicStep) -> Seq<Op> {
        match step {
            UicStep::Send => seq![
                Op::Write {
                    reg: core_reg(regs::REG_INTERRUPT_STATUS),
                    value: regs::UIC_COMMAND_COMPL,
                },
                Op::Write { reg: core_reg(regs::REG_UIC_COMMAND_ARG1), value: self.arg1 },
                Op::Write { reg: core_reg(regs::REG_UIC_COMMAND_ARG2), value: self.arg2 },
                Op::Write { reg: core_reg(regs::REG_UIC_COMMAND_ARG3), value: self.arg3 },
                Op::Write {
                    reg: core_reg(regs::REG_UIC_COMMAND),
                    value: self.cmd | regs::UIC_CMD_CGE,
                },
                Op::Poll {
                    reg: core_reg(regs::REG_INTERRUPT_STATUS),
                    mask: regs::UIC_COMMAND_COMPL,
                    value: regs::UIC_COMMAND_COMPL,
                    attempts: UIC_POLLS,
                    interval_us: UIC_POLL_US,
                    patient: true,
                    required: true,
                },
            ],
            UicStep::Check => seq![
                Op::Write {
                    reg: core_reg(regs::REG_INTERRUPT_STATUS),
                    value: regs::UIC_COMMAND_COMPL,
                },
                Op::Read { reg: core_reg(regs::REG_UIC_COMMAND_ARG2) },
            ],
            UicStep::Fetch => seq![Op::Read { reg: core_reg(regs::REG_UIC_COMMAND_ARG3) }],
            UicStep::Report => seq![
                Op::Read { reg: core_reg(regs::REG_UIC_ERROR_CODE_PHY_ADAPTER_LAYER) },
                Op::Read { reg: core_reg(regs::REG_UIC_ERROR_CODE_DATA_LINK_LAYER) },
                Op::Read { reg: core_reg(regs::REG_UIC_ERROR_CODE_NETWORK_LAYER) },
                Op::Read { reg: core_reg(regs::REG_UIC_ERROR_CODE_TRANSPORT_LAYER) },
                Op::Read { reg: core_reg(regs::REG_UIC_ERROR_CODE_DME) },
            ],
        }
    }

    /// The accesses of a step.
    pub fn script(&self, step: UicStep) -> (accesses: Script)
        ensures
            accesses@ == self.ops(step),
    {
        let mut accesses = Script::new();
        match step {
            UicStep::Send => {
                accesses.write(core_reg(regs::REG_INTERRUPT_STATUS), regs::UIC_COMMAND_COMPL);
                accesses.write(core_reg(regs::REG_UIC_COMMAND_ARG1), self.arg1);
                accesses.write(core_reg(regs::REG_UIC_COMMAND_ARG2), self.arg2);
                accesses.write(core_reg(regs::REG_UIC_COMMAND_ARG3), self.arg3);
                accesses.write(core_reg(regs::REG_UIC_COMMAND), self.cmd | regs::UIC_CMD_CGE);
                accesses.push(
                    Op::Poll {
                        reg: core_reg(regs::REG_INTERRUPT_STATUS),
                        mask: regs::UIC_COMMAND_COMPL,
                        value: regs::UIC_COMMAND_COMPL,
                        attempts: UIC_POLLS,
                        interval_us: UIC_POLL_US,
                        patient: true,
                        required: true,
                    },
                );
            },
            UicStep::Check => {
                accesses.write(core_reg(regs::REG_INTERRUPT_STATUS), regs::UIC_COMMAND_COMPL);
                accesses.read(core_reg(regs::REG_UIC_COMMAND_ARG2));
            },
            UicStep::Fetch => {
                accesses.read(core_reg(regs::REG_UIC_COMMAND_ARG3));
            },
            UicStep::Report => {
                accesses.read(core_reg(regs::REG_UIC_ERROR_CODE_PHY_ADAPTER_LAYER));
                accesses.read(core_reg(regs::REG_UIC_ERROR_CODE_DATA_LINK_LAYER));
                accesses.read(core_reg(regs::REG_UIC_ERROR_CODE_NETWORK_LAYER));
                accesses.read(core_reg(regs::REG_UIC_ERROR_CODE_TRANSPORT_LAYER));
                accesses.read(core_reg(regs::REG_UIC_ERROR_CODE_DME));
            },
        }
        accesses
    }
}

impl UicStep {
    /// What follows a step: `reply` is what its last read returned, or `None`
    /// if its wait ran out.
    pub open spec fn next(self, reply: Option<u32>) -> UicNext {
        match (self, reply) {
            (UicStep::Send, Some(_)) => UicNext::Step(UicStep::Check),
            (UicStep::Check, Some(result)) => if result & regs::MASK_UIC_COMMAND_RESULT != 0 {
                UicNext::Step(UicStep::Report)
            } else {
                UicNext::Step(UicStep::Fetch)
            },
            (UicStep::Fetch, Some(value)) => UicNext::Done(Ok(value)),
            (UicStep::Report, Some(_)) => UicNext::Done(
                Err(UfsError::Init(InitFailure::CommandFailed)),
            ),
            (_, None) => UicNext::Done(Err(UfsError::Init(InitFailure::CommandTimeout))),
        }
    }

    /// How many steps are left at most.
    pub open spec fn rank(self) -> nat {
        match self {
            UicStep::Send => 3,
            UicStep::Check => 2,
            _ => 1,
        }
    }

    /// What follows a step.
    pub fn resume(self, reply: Option<u32>) -> (next: UicNext)
        ensures
            next == self.next(reply),
            next matches UicNext::Step(step) ==> step.rank() < self.rank(),
    {
        match reply {
            None => UicNext::Done(Err(UfsError::Init(InitFailure::CommandTimeout))),
            Some(value) => match self {
                UicStep::Send => UicNext::Step(UicStep::Check),
                UicStep::Check => if value & regs::MASK_UIC_COMMAND_RESULT != 0 {
                    UicNext::Step(UicStep::Report)
                } else {
                    UicNext::Step(UicStep::Fetch)
                },
                UicStep::Fetch => UicNext::Done(Ok(value)),
                UicStep::Report => UicNext::Done(Err(UfsError::Init(InitFailure::CommandFailed))),
            },
        }
    }
}

/// What a command comes to, for what the waits and reads of its steps return:
/// the value, if it ended in time and was carried out.
pub open spec fn uic_result(ended: bool, result: u32, value: u32) -> Result<u32, UfsError> {
    if !ended {
        Err(UfsError::Init(InitFailure::CommandTimeout))
    } else if result & regs::MASK_UIC_COMMAND_RESULT != 0 {
        Err(UfsError::Init(InitFailure::CommandFailed))
    } else {
        Ok(value)
    }
}

/// The steps of a command come to what [`uic_result`] says.
pub proof fn law_command_result(ended: Option<u32>, result: u32, value: u32, code: u32)
    ensures
        ended is None ==> UicStep::Send.next(ended) == UicNext::Done(
            uic_result(false, result, value),
        ),
        ended is Some ==> {
            &&& UicStep::Send.next(ended) == UicNext::Step(UicStep::Check)
            &&& UicStep::Check.next(Some(result)) matches UicNext::Step(last) && last.next(
                Some(
                    if last is Fetch {
                        value
                    } else {
                        code
                    },
                ),
            ) == UicNext::Done(uic_result(true, result, value))
        },
{
}

} // verus!
