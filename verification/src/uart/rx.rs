//! Received bytes and their errors.
//!
//! Reading the line status clears its error bits, so they are kept in a latch
//! until a sample reports them.

use vstd::prelude::*;
use crate::uart::regs;
use crate::uart::types::{RxErrorFlags, RxFlag, RxSample};

verus! {

/// Bits that the latch keeps.
pub const LATCHED: u8 = regs::LSR_ERROR_MASK | regs::LSR_FIFOE;

/// Bits that mean that there is something to report.
pub const REPORTABLE: u8 = regs::LSR_DR | regs::LSR_ERROR_MASK;

/// The latch after a status was read.
#[verifier::allow_in_spec]
pub fn fold(raw_lsr: u8, saved_lsr: u8) -> (latch: u8)
    returns
        saved_lsr | (raw_lsr & LATCHED),
{
    saved_lsr | (raw_lsr & LATCHED)
}

/// What a sample reports, for a status with the latched errors put in: how the
/// byte was received, whether bytes were lost, whether there is a byte.
pub open spec fn sample_of(status: u8) -> (RxFlag, bool, bool) {
    (
        if status & regs::LSR_BI != 0 {
            RxFlag::Break
        } else if status & regs::LSR_PE != 0 {
            RxFlag::Parity
        } else if status & regs::LSR_FE != 0 {
            RxFlag::Framing
        } else {
            RxFlag::Normal
        },
        status & regs::LSR_OE != 0,
        status & regs::LSR_DR != 0,
    )
}

/// What a status reports, with the errors latched before: a sample if there is
/// a byte or an error, which empties the latch.
pub open spec fn classified(raw_lsr: u8, saved_lsr: u8) -> (Option<(RxFlag, bool, bool)>, u8) {
    let latch = fold(raw_lsr, saved_lsr);
    let status = raw_lsr | latch;
    if status & REPORTABLE == 0 {
        (None, latch)
    } else {
        (Some(sample_of(status)), latch & !LATCHED)
    }
}

/// Classifies a status that was read.
pub fn classify_rx(raw_lsr: u8, saved_lsr: &mut u8) -> (found: Option<(RxFlag, bool, bool)>)
    ensures
        (found, *final(saved_lsr)) == classified(raw_lsr, *old(saved_lsr)),
{
    let latch: u8 = fold(raw_lsr, *saved_lsr);
    let status: u8 = raw_lsr | latch;
    if status & REPORTABLE == 0 {
        *saved_lsr = latch;
        return None;
    }
    let flag = if status & regs::LSR_BI != 0 {
        RxFlag::Break
    } else if status & regs::LSR_PE != 0 {
        RxFlag::Parity
    } else if status & regs::LSR_FE != 0 {
        RxFlag::Framing
    } else {
        RxFlag::Normal
    };
    *saved_lsr = latch & !LATCHED;
    Some((flag, status & regs::LSR_OE != 0, status & regs::LSR_DR != 0))
}

/// The errors that a sample reports.
#[verifier::allow_in_spec]
pub fn rx_errors_from_sample(sample: RxSample) -> (errors: RxErrorFlags)
    returns
        (RxErrorFlags {
            break_condition: sample.flag is Break,
            parity: sample.flag is Parity,
            framing: sample.flag is Framing,
            overrun: sample.overrun,
        }),
{
    let mut errors = RxErrorFlags::empty();
    match sample.flag {
        RxFlag::Normal => {},
        RxFlag::Break => {
            errors.break_condition = true;
        },
        RxFlag::Parity => {
            errors.parity = true;
        },
        RxFlag::Framing => {
            errors.framing = true;
        },
    }
    errors.overrun = sample.overrun;
    errors
}

/// No error is lost: an error in the latch or in the status is reported by the
/// sample, and no error is left behind to be reported twice.
pub proof fn law_errors_are_reported_once(raw_lsr: u8, saved_lsr: u8)
    ensures
        ({
            let (found, latch) = classified(raw_lsr, saved_lsr);
            &&& latch & regs::LSR_ERROR_MASK == 0
            &&& found is None <==> (raw_lsr | saved_lsr) & regs::LSR_ERROR_MASK == 0 && (raw_lsr
                | saved_lsr) & regs::LSR_DR == 0
            &&& found matches Some((flag, overrun, _)) ==> {
                &&& overrun <==> (raw_lsr | saved_lsr) & regs::LSR_OE != 0
                &&& flag is Normal <==> (raw_lsr | saved_lsr) & (regs::LSR_BI | regs::LSR_PE
                    | regs::LSR_FE) == 0
            }
        }),
{
    let latch = fold(raw_lsr, saved_lsr);
    let status = raw_lsr | latch;
    assert({
        let latch = saved_lsr | (raw_lsr & (0x1Eu8 | 0x80u8));
        let status = raw_lsr | latch;
        let both = raw_lsr | saved_lsr;
        &&& status == both
        &&& (latch & !(0x1Eu8 | 0x80u8)) & 0x1E == 0
        &&& status & (0x01u8 | 0x1Eu8) == 0 ==> latch & 0x1E == 0
        &&& status & (0x01u8 | 0x1Eu8) == 0 <==> both & 0x1E == 0 && both & 0x01 == 0
        &&& both & (0x10u8 | 0x04u8 | 0x08u8) == 0 <==> both & 0x10 == 0 && both & 0x04 == 0 && both
            & 0x08 == 0
    }) by (bit_vector);
}

} // verus!
