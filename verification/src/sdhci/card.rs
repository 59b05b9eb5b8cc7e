//! Bringing up the card behind a host controller.

use vstd::prelude::*;
use fdt_edit::Node;
use crate::fdt;
use crate::fdt::{has_prop, prop_u32};
use crate::sdhci::host::SdMode;

verus! {

/// Supply setting for 3.3 V.
pub const SDHCI_POWER_330: u8 = 0x0e;

/// Which kinds of card to look for.
#[derive(Clone, Copy, Debug, PartialEq, Eq, Structural)]
pub enum CardInitPreference {
    SdOnly,
    MmcOnly,
    /// An SD card, then an MMC card.
    SdFirst,
}

/// What the properties of a controller's node say about the card behind it.
pub open spec fn preference(no_mmc: bool, no_sd: bool, non_removable: bool) -> CardInitPreference {
    if no_mmc {
        CardInitPreference::SdOnly
    } else if no_sd || non_removable {
        CardInitPreference::MmcOnly
    } else {
        CardInitPreference::SdFirst
    }
}

/// Which kinds of card to look for behind a controller.
pub fn card_init_preference(node: &Node) -> (choice: CardInitPreference)
    ensures
        choice == preference(
            fdt::present(*node, "no-mmc"@),
            fdt::present(*node, "no-sd"@),
            fdt::present(*node, "non-removable"@),
        ),
{
    if has_prop(node, "no-mmc") {
        CardInitPreference::SdOnly
    } else if has_prop(node, "no-sd") || has_prop(node, "non-removable") {
        CardInitPreference::MmcOnly
    } else {
        CardInitPreference::SdFirst
    }
}

/// Whether MMC cards may be looked for.
pub fn allow_mmc(node: &Node) -> (allowed: bool)
    ensures
        allowed == !fdt::present(*node, "no-mmc"@),
{
    !has_prop(node, "no-mmc")
}

/// What kind of card is behind a controller: an embedded one if it cannot be
/// removed.
pub fn bus_mode(node: &Node) -> (mode: SdMode)
    ensures
        mode == (if fdt::present(*node, "non-removable"@) {
            SdMode::Emmc
        } else {
            SdMode::Sd
        }),
{
    if has_prop(node, "non-removable") {
        SdMode::Emmc
    } else {
        SdMode::Sd
    }
}

/// The reference clock that the node gives, if it gives one other than 0. The
/// controller's capabilities tell it otherwise.
pub fn reference_clock_hz(node: &Node) -> (clock: Option<u32>)
    ensures
        clock == (match fdt::number(*node, "clock-frequency"@) {
            Some(hz) => if hz != 0 {
                Some(hz)
            } else {
                None
            },
            None => None,
        }),
{
    match prop_u32(node, "clock-frequency") {
        Some(hz) => if hz != 0 {
            Some(hz)
        } else {
            None
        },
        None => None,
    }
}

/// Where in an operation an error occurred.
#[derive(Clone, Copy, Debug, PartialEq, Eq, Structural)]
pub enum Phase {
    CommandSend,
    ResponseWait,
    DataRead,
    DataWrite,
    Init,
    Other,
}

/// The operation that an error interrupted.
#[derive(Clone, Copy, Debug, PartialEq, Eq, Structural)]
pub struct ErrorContext {
    pub phase: Phase,
    /// The command, if there was one.
    pub cmd: Option<u8>,
}

/// Why a card did not come up.
#[derive(Clone, Copy, Debug, PartialEq, Eq, Structural)]
pub enum CardError {
    NoCard,
    Timeout(ErrorContext),
    Crc(ErrorContext),
    BadResponse(ErrorContext),
    UnsupportedCommand,
    Other,
}

impl ErrorContext {
    /// An error outside of any command.
    pub fn new(phase: Phase) -> (context: ErrorContext)
        ensures
            context == (ErrorContext { phase, cmd: None }),
    {
        ErrorContext { phase, cmd: None }
    }

    /// An error of a command.
    pub fn for_cmd(phase: Phase, cmd: u8) -> (context: ErrorContext)
        ensures
            context == (ErrorContext { phase, cmd: Some(cmd) }),
    {
        ErrorContext { phase, cmd: Some(cmd) }
    }

    /// A command got no usable answer.
    pub open spec fn unanswered(&self) -> bool {
        self.cmd is Some && (self.phase is CommandSend || self.phase is ResponseWait
            || self.phase is Init)
    }
}

/// The error means that there is no card.
pub open spec fn absent(error: CardError) -> bool {
    match error {
        CardError::NoCard => true,
        CardError::Timeout(context) => context.unanswered(),
        CardError::Crc(context) => context.unanswered(),
        CardError::BadResponse(context) => context.unanswered(),
        CardError::UnsupportedCommand => false,
        CardError::Other => false,
    }
}

/// Whether an error during card initialization means that there is no card:
/// either it says so, or a command was not answered as it should be.
pub fn is_absent_card_init_error(err: CardError) -> (result: bool)
    ensures
        result == absent(err),
{
    match err {
        CardError::NoCard => true,
        CardError::Timeout(ctx) | CardError::Crc(ctx) | CardError::BadResponse(ctx) => {
            let unanswered = match ctx.phase {
                Phase::CommandSend | Phase::ResponseWait | Phase::Init => true,
                _ => false,
            };
            ctx.cmd.is_some() && unanswered
        },
        _ => false,
    }
}

/// Why a controller is not brought up.
#[derive(Clone, Copy, Debug, PartialEq, Eq, Structural)]
pub enum ProbeError {
    /// There is no card; the controller is left alone.
    NotMatch,
    /// Initialization failed.
    Init(CardError),
}

/// What becomes of a controller whose card did not come up.
pub fn card_init_error(err: CardError) -> (result: ProbeError)
    ensures
        result == (if absent(err) {
            ProbeError::NotMatch
        } else {
            ProbeError::Init(err)
        }),
{
    if is_absent_card_init_error(err) {
        ProbeError::NotMatch
    } else {
        ProbeError::Init(err)
    }
}

/// Refuses a controller without a reference clock.
pub fn base_clock_usable(base_clock_hz: u32) -> (result: Result<(), ProbeError>)
    ensures
        result == (if base_clock_hz == 0 {
            Err::<(), ProbeError>(
                ProbeError::Init(
                    CardError::BadResponse(ErrorContext { phase: Phase::Init, cmd: None }),
                ),
            )
        } else {
            Ok(())
        }),
{
    if base_clock_hz == 0 {
        Err(ProbeError::Init(CardError::BadResponse(ErrorContext::new(Phase::Init))))
    } else {
        Ok(())
    }
}

/// What the poll of a card initialization returned.
#[derive(Clone, Copy, Debug, PartialEq, Eq, Structural)]
pub enum InitPoll {
    /// Not done; `needs_pace` asks for a wait before the next poll.
    Pending { needs_pace: bool },
    /// Done.
    Complete,
    /// Something else.
    Other,
    /// Failed.
    Failed(CardError),
}

/// What to do after a poll.
#[derive(Clone, Copy, Debug, PartialEq, Eq, Structural)]
pub enum InitAction {
    /// Wait so long, then poll again.
    Wait { ms: u32 },
    /// Poll again.
    Spin,
    /// The card is up.
    Done,
    /// The card is not.
    Fail(CardError),
}

/// Polls a card initialization to its end.
#[derive(Clone, Copy, Debug, PartialEq, Eq, Structural)]
pub struct CardInit {
    /// How often a wait was asked for.
    pub pace_waits: u32,
}

impl CardInit {
    /// No poll yet.
    pub fn new() -> (init: CardInit)
        ensures
            init.pace_waits == 0,
    {
        CardInit { pace_waits: 0 }
    }

    /// What to do after a poll.
    pub open spec fn action(poll: InitPoll) -> InitAction {
        match poll {
            InitPoll::Pending { needs_pace } => if needs_pace {
                InitAction::Wait { ms: 10 }
            } else {
                InitAction::Spin
            },
            InitPoll::Complete => InitAction::Done,
            InitPoll::Other => InitAction::Fail(CardError::UnsupportedCommand),
            InitPoll::Failed(error) => InitAction::Fail(error),
        }
    }

    /// Takes the result of a poll and says what to do. The count of waits
    /// stays at its highest value once it is there.
    pub fn step(&mut self, poll: InitPoll) -> (action: InitAction)
        ensures
            action == CardInit::action(poll),
            final(self).pace_waits == (if action is Wait && old(self).pace_waits < u32::MAX {
                old(self).pace_waits + 1
            } else {
                old(self).pace_waits as int
            }),
    {
        match poll {
            InitPoll::Pending { needs_pace } => {
                if needs_pace {
                    self.pace_waits = self.pace_waits.saturating_add(1);
                    InitAction::Wait { ms: 10 }
                } else {
                    InitAction::Spin
                }
            },
            InitPoll::Complete => InitAction::Done,
            InitPoll::Other => InitAction::Fail(CardError::UnsupportedCommand),
            InitPoll::Failed(error) => InitAction::Fail(error),
        }
    }
}

} // verus!
