//! Finding the unit that holds the data.
//!
//! The units that the device lists are looked at in order: each is asked what
//! it is, whether it is ready and how large it is, and its first blocks are
//! read. The first one with a partition table is taken, and if there is none
//! the first one that can be used.

use vstd::prelude::*;
use crate::ufs::error::{Failure, UfsError};
use crate::ufs::host::K3UfsHost;
use crate::ufs::scsi;
use crate::ufs::scsi::{parse_capacity, CommandEnd, ScsiRequest};

verus! {

/// How often a command is tried.
pub const SCSI_CMD_RETRIES: u32 = 10;

/// Waits between tries.
pub const SCSI_RETRY_BACKOFF_MS: u32 = 100;
pub const CAPACITY_BACKOFF_MS: u32 = 50;

/// A unit that can be used.
#[derive(Clone, Copy, Debug, PartialEq, Eq, Structural)]
pub struct LunInfo {
    pub scsi_lun: u64,
    pub num_blocks: u64,
    pub block_size: u32,
}

/// Where the scan stands.
#[derive(Clone, Copy, Debug, PartialEq, Eq)]
pub enum ScanStep {
    /// Ask what the unit is.
    Inquiry,
    /// Ask whether it is ready.
    Ready { tries: u32 },
    /// Ask why it is not.
    ReadySense { tries: u32 },
    /// Wait before asking again.
    ReadyPause { tries: u32 },
    /// Ask for its capacity, in the short or the long form.
    Capacity { long: bool, tries: u32 },
    /// Ask why it does not tell.
    CapacitySense { long: bool, tries: u32 },
    /// Wait before asking again.
    CapacityPause { long: bool, tries: u32, ms: u32 },
    /// Read its first block.
    Block0,
    /// Read its second block; `marked` tells what was found in the first.
    Block1 { marked: bool },
    /// Over.
    Over { result: Result<LunInfo, UfsError> },
}

/// The state of a scan, without the list of units.
#[derive(Clone, Copy, Debug, PartialEq, Eq)]
pub struct ScanState {
    /// The unit that is looked at.
    pub index: usize,
    pub step: ScanStep,
    /// The first unit that can be used.
    pub first_usable: Option<LunInfo>,
}

/// The search for the unit that holds the data.
#[derive(Debug)]
pub struct LunScan {
    pub luns: Vec<u64>,
    pub state: ScanState,
}

/// The units to look at, for what the listing command came to: those listed, or
/// unit 0 if there is no list, and unit 0 in any case.
pub open spec fn units(end: CommandEnd, data: Seq<u8>) -> Seq<u64> {
    let listed = match (end, scsi::listed_luns(data)) {
        (CommandEnd::Good, Some(luns)) => luns,
        _ => seq![0u64],
    };
    if listed.contains(0) {
        listed
    } else {
        listed.push(0)
    }
}

/// The block sizes that can be used.
pub open spec fn usable_size(block_size: u32) -> bool {
    block_size == 512 || block_size == 1024 || block_size == 2048 || block_size == 4096
}

/// A host that works on a unit.
pub open spec fn working_on(host: K3UfsHost, info: LunInfo) -> K3UfsHost {
    K3UfsHost {
        active_lun: scsi::unit_number(info.scsi_lun),
        num_blocks: info.num_blocks,
        block_size: info.block_size as usize,
        ..host
    }
}

/// Goes to the next unit that is not a well-known one, from `index` on; at the
/// end of the list, takes the first usable one.
pub open spec fn go_to(
    luns: Seq<u64>,
    index: int,
    first_usable: Option<LunInfo>,
    host: K3UfsHost,
) -> (ScanState, K3UfsHost)
    decreases luns.len() - index,
{
    if index >= luns.len() || index < 0 {
        match first_usable {
            Some(info) => (
                ScanState {
                    index: luns.len() as usize,
                    step: ScanStep::Over { result: Ok(info) },
                    first_usable,
                },
                working_on(host, info),
            ),
            None => (
                ScanState {
                    index: luns.len() as usize,
                    step: ScanStep::Over { result: Err(UfsError::Other(Failure::NoLun)) },
                    first_usable,
                },
                host,
            ),
        }
    } else if scsi::well_known(luns[index]) {
        go_to(luns, index + 1, first_usable, host)
    } else {
        (
            ScanState { index: index as usize, step: ScanStep::Inquiry, first_usable },
            K3UfsHost { active_lun: scsi::unit_number(luns[index]), ..host },
        )
    }
}

impl ScanState {
    /// The same state at another step.
    pub open spec fn at(self, step: ScanStep) -> ScanState {
        ScanState { step, ..self }
    }

    /// Gives the current unit up.
    pub open spec fn skip(self, luns: Seq<u64>, host: K3UfsHost) -> (ScanState, K3UfsHost) {
        go_to(luns, self.index + 1, self.first_usable, host)
    }

    /// The unit is not ready, for this reason.
    pub open spec fn not_ready(
        self,
        luns: Seq<u64>,
        host: K3UfsHost,
        tries: u32,
        sense: Option<(u8, u8, u8)>,
    ) -> (ScanState, K3UfsHost) {
        if scsi::transient(sense) {
            (self.at(ScanStep::ReadyPause { tries }), host)
        } else {
            self.skip(luns, host)
        }
    }

    /// The unit does not tell its capacity in this form.
    pub open spec fn no_capacity(self, luns: Seq<u64>, host: K3UfsHost, long: bool) -> (
        ScanState,
        K3UfsHost,
    ) {
        if long {
            self.skip(luns, host)
        } else {
            (self.at(ScanStep::Capacity { long: true, tries: 0 }), host)
        }
    }

    /// The capacity was refused, for this reason.
    pub open spec fn capacity_refused(
        self,
        luns: Seq<u64>,
        host: K3UfsHost,
        long: bool,
        tries: u32,
        sense: Option<(u8, u8, u8)>,
    ) -> (ScanState, K3UfsHost) {
        if scsi::transient(sense) {
            (self.at(ScanStep::CapacityPause { long, tries, ms: SCSI_RETRY_BACKOFF_MS }), host)
        } else if sense matches Some((key, _, _)) && key == scsi::SCSI_SENSE_ILLEGAL_REQUEST {
            self.no_capacity(luns, host, long)
        } else {
            (self.at(ScanStep::CapacityPause { long, tries, ms: CAPACITY_BACKOFF_MS }), host)
        }
    }

    /// The capacity is known. A block size of 0 stands for 512.
    pub open spec fn sized(
        self,
        luns: Seq<u64>,
        host: K3UfsHost,
        num_blocks: u64,
        reported_size: u32,
    ) -> (ScanState, K3UfsHost) {
        let block_size = if reported_size == 0 {
            512
        } else {
            reported_size
        };
        if usable_size(block_size) {
            let info = LunInfo { scsi_lun: luns[self.index as int], num_blocks, block_size };
            (
                ScanState {
                    step: ScanStep::Block0,
                    first_usable: if self.first_usable is None {
                        Some(info)
                    } else {
                        self.first_usable
                    },
                    ..self
                },
                K3UfsHost { num_blocks, block_size: block_size as usize, ..host },
            )
        } else {
            self.skip(luns, host)
        }
    }

    /// The first blocks were looked at.
    pub open spec fn marked(self, luns: Seq<u64>, host: K3UfsHost, marked: bool) -> (
        ScanState,
        K3UfsHost,
    ) {
        if marked {
            let info = LunInfo {
                scsi_lun: luns[self.index as int],
                num_blocks: host.num_blocks,
                block_size: host.block_size as u32,
            };
            (self.at(ScanStep::Over { result: Ok(info) }), host)
        } else {
            self.skip(luns, host)
        }
    }

    /// The sense data that the device gave when asked for it.
    pub open spec fn asked_sense(end: CommandEnd, data: Seq<u8>) -> Option<(u8, u8, u8)> {
        if end is Good {
            scsi::fixed_sense(data)
        } else {
            None
        }
    }

    /// The state and the host after a step. `end` is what the command of the
    /// step came to and `data` what it read; after a wait they do not matter.
    pub open spec fn next(
        self,
        luns: Seq<u64>,
        host: K3UfsHost,
        end: CommandEnd,
        data: Seq<u8>,
    ) -> (ScanState, K3UfsHost) {
        match self.step {
            ScanStep::Inquiry => if end is Good {
                (self.at(ScanStep::Ready { tries: 0 }), host)
            } else {
                self.skip(luns, host)
            },
            ScanStep::Ready { tries } => match end {
                CommandEnd::Good => (
                    self.at(ScanStep::Capacity { long: false, tries: 0 }),
                    host,
                ),
                CommandEnd::Check(None) => (self.at(ScanStep::ReadySense { tries }), host),
                CommandEnd::Check(sense) => self.not_ready(luns, host, tries, sense),
                _ => self.skip(luns, host),
            },
            ScanStep::ReadySense { tries } => self.not_ready(
                luns,
                host,
                tries,
                ScanState::asked_sense(end, data),
            ),
            ScanStep::ReadyPause { tries } => if tries + 1 < SCSI_CMD_RETRIES {
                (self.at(ScanStep::Ready { tries: (tries + 1) as u32 }), host)
            } else {
                self.skip(luns, host)
            },
            ScanStep::Capacity { long, tries } => match end {
                CommandEnd::Good => {
                    let (num_blocks, block_size) = scsi::capacity_of(
                        data,
                        if long {
                            32
                        } else {
                            8
                        },
                    );
                    if !long && num_blocks == 0x1_0000_0000 {
                        self.no_capacity(luns, host, long)
                    } else {
                        self.sized(luns, host, num_blocks, block_size)
                    }
                },
                CommandEnd::Failed(_) => self.no_capacity(luns, host, long),
                CommandEnd::Check(None) => (
                    self.at(ScanStep::CapacitySense { long, tries }),
                    host,
                ),
                CommandEnd::Check(sense) => self.capacity_refused(luns, host, long, tries, sense),
                CommandEnd::Bad => self.capacity_refused(luns, host, long, tries, None),
            },
            ScanStep::CapacitySense { long, tries } => self.capacity_refused(
                luns,
                host,
                long,
                tries,
                ScanState::asked_sense(end, data),
            ),
            ScanStep::CapacityPause { long, tries, .. } => if tries + 1 < SCSI_CMD_RETRIES {
                (self.at(ScanStep::Capacity { long, tries: (tries + 1) as u32 }), host)
            } else {
                self.no_capacity(luns, host, long)
            },
            ScanStep::Block0 => if end is Good {
                if host.block_size >= 4096 && host.num_blocks > 1 {
                    (self.at(ScanStep::Block1 { marked: scsi::mbr_signature(data) }), host)
                } else {
                    self.marked(luns, host, scsi::mbr_signature(data))
                }
            } else {
                self.skip(luns, host)
            },
            ScanStep::Block1 { marked } => self.marked(
                luns,
                host,
                marked || (end is Good && scsi::gpt_signature(data)),
            ),
            ScanStep::Over { .. } => (self, host),
        }
    }

    /// The tries are counted from 0 to 9, the units and sizes are usable, and
    /// the host works on the unit that is looked at.
    pub open spec fn wf(self, luns: Seq<u64>, host: K3UfsHost) -> bool {
        &&& self.step is Over || self.index < luns.len() && !scsi::well_known(
            luns[self.index as int],
        ) && host.active_lun == scsi::unit_number(luns[self.index as int])
        &&& self.first_usable matches Some(info) ==> found_in(luns, info)
        &&& match self.step {
            ScanStep::Ready { tries } => tries < SCSI_CMD_RETRIES,
            ScanStep::ReadySense { tries } => tries < SCSI_CMD_RETRIES,
            ScanStep::ReadyPause { tries } => tries < SCSI_CMD_RETRIES,
            ScanStep::Capacity { tries, .. } => tries < SCSI_CMD_RETRIES,
            ScanStep::CapacitySense { tries, .. } => tries < SCSI_CMD_RETRIES,
            ScanStep::CapacityPause { tries, .. } => tries < SCSI_CMD_RETRIES,
            ScanStep::Block0 => host.block_size <= 4096 && usable_size(host.block_size as u32),
            ScanStep::Block1 { .. } => host.block_size <= 4096 && usable_size(
                host.block_size as u32,
            ),
            ScanStep::Over { result } => result matches Ok(info) ==> found_in(luns, info)
                && host == working_on(host, info),
            _ => true,
        }
    }

    /// How far a step is from the end of a unit.
    pub open spec fn rank(self) -> nat {
        match self.step {
            ScanStep::Inquiry => 101,
            ScanStep::Ready { tries } => (70 + 3 * (10 - tries)) as nat,
            ScanStep::ReadySense { tries } => (69 + 3 * (10 - tries)) as nat,
            ScanStep::ReadyPause { tries } => (68 + 3 * (10 - tries)) as nat,
            ScanStep::Capacity { long, tries } => (if long {
                2
            } else {
                34int
            } + 3 * (10 - tries)) as nat,
            ScanStep::CapacitySense { long, tries } => (if long {
                1
            } else {
                33int
            } + 3 * (10 - tries)) as nat,
            ScanStep::CapacityPause { long, tries, .. } => (if long {
                0
            } else {
                32int
            } + 3 * (10 - tries)) as nat,
            ScanStep::Block0 => 2,
            ScanStep::Block1 { .. } => 1,
            ScanStep::Over { .. } => 0,
        }
    }

    /// How many steps are left at most.
    pub open spec fn remaining(self, luns: Seq<u64>) -> nat {
        if self.step is Over || self.index >= luns.len() {
            0
        } else {
            (200 * (luns.len() - self.index) + self.rank()) as nat
        }
    }
}

/// A unit of the list that holds data in blocks of a usable size.
pub open spec fn found_in(luns: Seq<u64>, info: LunInfo) -> bool {
    &&& luns.contains(info.scsi_lun)
    &&& !scsi::well_known(info.scsi_lun)
    &&& usable_size(info.block_size)
}

proof fn lemma_go_to(luns: Seq<u64>, index: int, first_usable: Option<LunInfo>, host: K3UfsHost)
    requires
        0 <= index <= luns.len() <= usize::MAX,
        first_usable matches Some(info) ==> found_in(luns, info),
    ensures
        go_to(luns, index, first_usable, host).0.wf(luns, go_to(luns, index, first_usable, host).1),
        go_to(luns, index, first_usable, host).0.remaining(luns) <= 200 * (luns.len() - index) + 101,
    decreases luns.len() - index,
{
    if index < luns.len() && scsi::well_known(luns[index]) {
        lemma_go_to(luns, index + 1, first_usable, host);
    }
}

/// The scan goes on from here, with fewer than `bound` steps left.
spec fn proceeds(after: (ScanState, K3UfsHost), luns: Seq<u64>, bound: int) -> bool {
    after.0.wf(luns, after.1) && after.0.remaining(luns) < bound
}

/// The scan is at a unit of the list.
spec fn at_unit(state: ScanState, luns: Seq<u64>, host: K3UfsHost) -> bool {
    &&& luns.len() <= usize::MAX
    &&& state.index < luns.len()
    &&& !scsi::well_known(luns[state.index as int])
    &&& host.active_lun == scsi::unit_number(luns[state.index as int])
    &&& state.first_usable matches Some(info) ==> found_in(luns, info)
}

proof fn lemma_skip(state: ScanState, luns: Seq<u64>, host: K3UfsHost)
    requires
        at_unit(state, luns, host),
    ensures
        proceeds(state.skip(luns, host), luns, 200 * (luns.len() - state.index)),
{
    lemma_go_to(luns, state.index + 1, state.first_usable, host);
}

proof fn lemma_no_capacity(state: ScanState, luns: Seq<u64>, host: K3UfsHost, long: bool)
    requires
        at_unit(state, luns, host),
    ensures
        proceeds(
            state.no_capacity(luns, host, long),
            luns,
            200 * (luns.len() - state.index) + if long {
                0
            } else {
                33int
            },
        ),
{
    lemma_skip(state, luns, host);
}

proof fn lemma_capacity_refused(
    state: ScanState,
    luns: Seq<u64>,
    host: K3UfsHost,
    long: bool,
    tries: u32,
    sense: Option<(u8, u8, u8)>,
)
    requires
        at_unit(state, luns, host),
        tries < SCSI_CMD_RETRIES,
    ensures
        proceeds(
            state.capacity_refused(luns, host, long, tries, sense),
            luns,
            200 * (luns.len() - state.index) + 3 * (10 - tries) + if long {
                1
            } else {
                33int
            },
        ),
{
    lemma_no_capacity(state, luns, host, long);
}

proof fn lemma_sized(
    state: ScanState,
    luns: Seq<u64>,
    host: K3UfsHost,
    num_blocks: u64,
    reported_size: u32,
)
    requires
        at_unit(state, luns, host),
    ensures
        proceeds(
            state.sized(luns, host, num_blocks, reported_size),
            luns,
            200 * (luns.len() - state.index) + 3,
        ),
{
    lemma_skip(state, luns, host);
    assert(luns.contains(luns[state.index as int]));
}

proof fn lemma_marked(state: ScanState, luns: Seq<u64>, host: K3UfsHost, marked: bool)
    requires
        at_unit(state, luns, host),
        host.block_size <= 4096,
        usable_size(host.block_size as u32),
    ensures
        proceeds(
            state.marked(luns, host, marked),
            luns,
            200 * (luns.len() - state.index),
        ),
{
    lemma_skip(state, luns, host);
    assert(luns.contains(luns[state.index as int]));
}

proof fn lemma_capacity_step(
    state: ScanState,
    luns: Seq<u64>,
    host: K3UfsHost,
    end: CommandEnd,
    data: Seq<u8>,
    long: bool,
    tries: u32,
)
    requires
        at_unit(state, luns, host),
        tries < SCSI_CMD_RETRIES,
        state.step == (ScanStep::Capacity { long, tries }),
    ensures
        proceeds(state.next(luns, host, end, data), luns, state.remaining(luns) as int),
{
    lemma_no_capacity(state, luns, host, long);
    match end {
        CommandEnd::Good => {
            let (num_blocks, block_size) = scsi::capacity_of(
                data,
                if long {
                    32
                } else {
                    8
                },
            );
            lemma_sized(state, luns, host, num_blocks, block_size);
        },
        CommandEnd::Check(sense) => {
            lemma_capacity_refused(state, luns, host, long, tries, sense);
        },
        CommandEnd::Bad => {
            lemma_capacity_refused(state, luns, host, long, tries, None);
        },
        CommandEnd::Failed(_) => {},
    }
}

proof fn lemma_next(
    state: ScanState,
    luns: Seq<u64>,
    host: K3UfsHost,
    end: CommandEnd,
    data: Seq<u8>,
)
    requires
        luns.len() <= usize::MAX,
        state.wf(luns, host),
    ensures
        state.next(luns, host, end, data).0.wf(luns, state.next(luns, host, end, data).1),
        !(state.step is Over) ==> state.next(luns, host, end, data).0.remaining(luns)
            < state.remaining(luns),
{
    if !(state.step is Over) {
        lemma_skip(state, luns, host);
    }
    match state.step {
        ScanStep::Capacity { long, tries } => {
            lemma_capacity_step(state, luns, host, end, data, long, tries);
        },
        ScanStep::CapacitySense { long, tries } => {
            let sense = ScanState::asked_sense(end, data);
            lemma_capacity_refused(state, luns, host, long, tries, sense);
        },
        ScanStep::CapacityPause { long, tries, .. } => {
            lemma_no_capacity(state, luns, host, long);
        },
        ScanStep::Block0 => {
            lemma_marked(state, luns, host, scsi::mbr_signature(data));
        },
        ScanStep::Block1 { marked } => {
            lemma_marked(
                state,
                luns,
                host,
                marked || (end is Good && scsi::gpt_signature(data)),
            );
        },
        _ => {},
    }
}

impl K3UfsHost {
    /// Begins to look at the units, with what the listing command came to.
    pub fn select_data_lun(&mut self, end: CommandEnd, data: &[u8]) -> (scan: LunScan)
        requires
            end is Good ==> data@.len() == scsi::SCSI_REPORT_LUNS_ALLOC_LEN,
        ensures
            scan.luns@ == units(end, data@),
            (scan.state, *final(self)) == go_to(units(end, data@), 0, None, *old(self)),
            scan.state.wf(scan.luns@, *final(self)),
    {
        let mut luns: Vec<u64> = Vec::new();
        let mut listed = false;
        if let CommandEnd::Good = end {
            if let Ok(found) = K3UfsHost::parse_luns(data) {
                luns = found;
                listed = true;
            }
        }
        if !listed {
            luns.push(0);
            assert(luns@ =~= seq![0u64]);
        }
        let ghost before = luns@;
        let mut has_zero = false;
        for i in 0..luns.len()
            invariant
                luns@ == before,
                has_zero == exists|j: int| 0 <= j < i && before[j] == 0,
        {
            if luns[i] == 0 {
                has_zero = true;
            }
        }
        assert(has_zero == before.contains(0));
        if !has_zero {
            luns.push(0);
        }
        let ghost all = luns@;
        let mut scan = LunScan {
            luns,
            state: ScanState { index: 0, step: ScanStep::Inquiry, first_usable: None },
        };
        let count: usize = scan.luns.len();
        proof {
            lemma_go_to(all, 0, None, *self);
        }
        scan.advance(0, self);
        scan
    }
}

impl LunScan {
    /// Goes to the next unit from `index` on.
    fn advance(&mut self, index: usize, host: &mut K3UfsHost)
        requires
            index <= old(self).luns@.len(),
        ensures
            final(self).luns == old(self).luns,
            (final(self).state, *final(host)) == go_to(
                old(self).luns@,
                index as int,
                old(self).state.first_usable,
                *old(host),
            ),
    {
        let mut at: usize = index;
        let count: usize = self.luns.len();
        while at < count && K3UfsHost::is_wlun(self.luns[at])
            invariant
                at <= count,
                count == self.luns@.len(),
                *self == *old(self),
                *host == *old(host),
                go_to(self.luns@, at as int, self.state.first_usable, *host) == go_to(
                    self.luns@,
                    index as int,
                    self.state.first_usable,
                    *host,
                ),
            decreases count - at,
        {
            at = at + 1;
        }
        self.state.index = at;
        if at < count {
            host.active_lun = K3UfsHost::scsi_to_upiu_lun(self.luns[at]);
            self.state.step = ScanStep::Inquiry;
        } else {
            match self.state.first_usable {
                Some(info) => {
                    host.active_lun = K3UfsHost::scsi_to_upiu_lun(info.scsi_lun);
                    host.num_blocks = info.num_blocks;
                    host.block_size = info.block_size as usize;
                    self.state.step = ScanStep::Over { result: Ok(info) };
                },
                None => {
                    self.state.step = ScanStep::Over {
                        result: Err(UfsError::Other(Failure::NoLun)),
                    };
                },
            }
        }
    }

    /// The command of the current step; `None` if the step is a wait or the
    /// scan is over.
    pub fn request(&self, host: &K3UfsHost) -> (request: Option<ScsiRequest>)
        requires
            self.state.wf(self.luns@, *host),
        ensures
            match self.state.step {
                ScanStep::Inquiry => request matches Some(r) && r.reads(
                    scsi::short_cdb(scsi::SCSI_INQUIRY, scsi::SCSI_INQUIRY_ALLOC_LEN),
                    36,
                ),
                ScanStep::Ready { .. } => request matches Some(r) && r.cdb@ == scsi::plain_cdb(
                    scsi::SCSI_TEST_UNIT_READY,
                ) && r.data_len == 0 && r.direction is NoData,
                ScanStep::ReadySense { .. } => request matches Some(r) && r.reads(
                    scsi::short_cdb(scsi::SCSI_REQUEST_SENSE, scsi::REQUEST_SENSE_ALLOC_LEN),
                    18,
                ),
                ScanStep::CapacitySense { .. } => request matches Some(r) && r.reads(
                    scsi::short_cdb(scsi::SCSI_REQUEST_SENSE, scsi::REQUEST_SENSE_ALLOC_LEN),
                    18,
                ),
                ScanStep::Capacity { long, .. } => request matches Some(r) && if long {
                    r.reads(
                        scsi::capacity_cdb(
                            scsi::SCSI_SERVICE_ACTION_IN_16,
                            scsi::SAI_READ_CAPACITY_16,
                            32,
                        ),
                        32,
                    )
                } else {
                    r.reads(scsi::capacity_cdb(scsi::SCSI_READ_CAPACITY_10, 0, 8), 8)
                },
                ScanStep::Block0 => request matches Some(r) && r.reads(
                    scsi::block_cdb(scsi::SCSI_READ_10, 0, 1),
                    host.block_size as u32,
                ),
                ScanStep::Block1 { .. } => request matches Some(r) && r.reads(
                    scsi::block_cdb(scsi::SCSI_READ_10, 1, 1),
                    host.block_size as u32,
                ),
                _ => request is None,
            },
    {
        match self.state.step {
            ScanStep::Inquiry => Some(K3UfsHost::scsi_inquiry()),
            ScanStep::Ready { .. } => Some(K3UfsHost::test_unit_ready()),
            ScanStep::ReadySense { .. } => Some(K3UfsHost::request_sense()),
            ScanStep::CapacitySense { .. } => Some(K3UfsHost::request_sense()),
            ScanStep::Capacity { long, .. } => if long {
                Some(K3UfsHost::scsi_read_capacity_16())
            } else {
                Some(K3UfsHost::scsi_read_capacity_10())
            },
            ScanStep::Block0 => host.scsi_read_10(0, 1, host.block_size).ok(),
            ScanStep::Block1 { .. } => host.scsi_read_10(1, 1, host.block_size).ok(),
            _ => None,
        }
    }

    /// How many bytes the command of the current step reads.
    pub open spec fn data_len(&self, host: K3UfsHost) -> nat {
        match self.state.step {
            ScanStep::Inquiry => 36,
            ScanStep::ReadySense { .. } => 18,
            ScanStep::CapacitySense { .. } => 18,
            ScanStep::Capacity { long, .. } => if long {
                32
            } else {
                8
            },
            ScanStep::Block0 => host.block_size as nat,
            ScanStep::Block1 { .. } => host.block_size as nat,
            _ => 0,
        }
    }

    /// Takes what the command of the current step came to and what it read.
    /// After a wait they do not matter.
    pub fn resume(&mut self, host: &mut K3UfsHost, end: CommandEnd, data: &[u8])
        requires
            old(self).state.wf(old(self).luns@, *old(host)),
            end is Good ==> data@.len() == old(self).data_len(*old(host)),
        ensures
            final(self).luns == old(self).luns,
            (final(self).state, *final(host)) == old(self).state.next(
                old(self).luns@,
                *old(host),
                end,
                data@,
            ),
            final(self).state.wf(final(self).luns@, *final(host)),
            !(old(self).state.step is Over) ==> final(self).state.remaining(final(self).luns@)
                < old(self).state.remaining(old(self).luns@),
    {
        let count: usize = self.luns.len();
        proof {
            lemma_next(self.state, self.luns@, *host, end, data@);
        }
        match self.state.step {
            ScanStep::Inquiry => match end {
                CommandEnd::Good => {
                    self.state.step = ScanStep::Ready { tries: 0 };
                },
                _ => self.skip(host),
            },
            ScanStep::Ready { tries } => match end {
                CommandEnd::Good => {
                    self.state.step = ScanStep::Capacity { long: false, tries: 0 };
                },
                CommandEnd::Check(None) => {
                    self.state.step = ScanStep::ReadySense { tries };
                },
                CommandEnd::Check(sense) => self.not_ready(host, tries, sense),
                _ => self.skip(host),
            },
            ScanStep::ReadySense { tries } => {
                let sense = LunScan::asked_sense(end, data);
                self.not_ready(host, tries, sense);
            },
            ScanStep::ReadyPause { tries } => {
                if tries + 1 < SCSI_CMD_RETRIES {
                    self.state.step = ScanStep::Ready { tries: tries + 1 };
                } else {
                    self.skip(host);
                }
            },
            ScanStep::Capacity { long, tries } => match end {
                CommandEnd::Good => self.take_capacity(host, long, data),
                CommandEnd::Failed(_) => self.no_capacity(host, long),
                CommandEnd::Check(None) => {
                    self.state.step = ScanStep::CapacitySense { long, tries };
                },
                CommandEnd::Check(sense) => self.capacity_refused(host, long, tries, sense),
                CommandEnd::Bad => self.capacity_refused(host, long, tries, None),
            },
            ScanStep::CapacitySense { long, tries } => {
                let sense = LunScan::asked_sense(end, data);
                self.capacity_refused(host, long, tries, sense);
            },
            ScanStep::CapacityPause { long, tries, .. } => {
                if tries + 1 < SCSI_CMD_RETRIES {
                    self.state.step = ScanStep::Capacity { long, tries: tries + 1 };
                } else {
                    self.no_capacity(host, long);
                }
            },
            ScanStep::Block0 => match end {
                CommandEnd::Good => {
                    let marked = K3UfsHost::has_partition_signature(data);
                    if host.block_size >= 4096 && host.num_blocks > 1 {
                        self.state.step = ScanStep::Block1 { marked };
                    } else {
                        self.looked_at(host, marked);
                    }
                },
                _ => self.skip(host),
            },
            ScanStep::Block1 { marked } => {
                let table = match end {
                    CommandEnd::Good => K3UfsHost::has_gpt_signature(data),
                    _ => false,
                };
                self.looked_at(host, marked || table);
            },
            ScanStep::Over { .. } => {},
        }
    }

    fn skip(&mut self, host: &mut K3UfsHost)
        requires
            old(self).state.index < old(self).luns@.len(),
        ensures
            final(self).luns == old(self).luns,
            (final(self).state, *final(host)) == old(self).state.skip(old(self).luns@, *old(host)),
    {
        let count: usize = self.luns.len();
        self.advance(self.state.index + 1, host);
    }

    fn not_ready(&mut self, host: &mut K3UfsHost, tries: u32, sense: Option<(u8, u8, u8)>)
        requires
            old(self).state.index < old(self).luns@.len(),
        ensures
            final(self).luns == old(self).luns,
            (final(self).state, *final(host)) == old(self).state.not_ready(
                old(self).luns@,
                *old(host),
                tries,
                sense,
            ),
    {
        if K3UfsHost::sense_is_retryable(sense) {
            self.state.step = ScanStep::ReadyPause { tries };
        } else {
            self.skip(host);
        }
    }

    fn no_capacity(&mut self, host: &mut K3UfsHost, long: bool)
        requires
            old(self).state.index < old(self).luns@.len(),
        ensures
            final(self).luns == old(self).luns,
            (final(self).state, *final(host)) == old(self).state.no_capacity(
                old(self).luns@,
                *old(host),
                long,
            ),
    {
        if long {
            self.skip(host);
        } else {
            self.state.step = ScanStep::Capacity { long: true, tries: 0 };
        }
    }

    fn capacity_refused(
        &mut self,
        host: &mut K3UfsHost,
        long: bool,
        tries: u32,
        sense: Option<(u8, u8, u8)>,
    )
        requires
            old(self).state.index < old(self).luns@.len(),
        ensures
            final(self).luns == old(self).luns,
            (final(self).state, *final(host)) == old(self).state.capacity_refused(
                old(self).luns@,
                *old(host),
                long,
                tries,
                sense,
            ),
    {
        if K3UfsHost::sense_is_retryable(sense) {
            self.state.step = ScanStep::CapacityPause { long, tries, ms: SCSI_RETRY_BACKOFF_MS };
            return ;
        }
        let illegal = match sense {
            Some((key, _, _)) => key == scsi::SCSI_SENSE_ILLEGAL_REQUEST,
            None => false,
        };
        if illegal {
            self.no_capacity(host, long);
        } else {
            self.state.step = ScanStep::CapacityPause { long, tries, ms: CAPACITY_BACKOFF_MS };
        }
    }

    fn take_capacity(&mut self, host: &mut K3UfsHost, long: bool, data: &[u8])
        requires
            old(self).state.index < old(self).luns@.len(),
            data@.len() == (if long {
                32
            } else {
                8int
            }),
        ensures
            final(self).luns == old(self).luns,
            ({
                let alloc_len = if long {
                    32
                } else {
                    8
                };
                let (num_blocks, block_size) = scsi::capacity_of(data@, alloc_len);
                (final(self).state, *final(host)) == (if !long && num_blocks == 0x1_0000_0000 {
                    old(self).state.no_capacity(old(self).luns@, *old(host), long)
                } else {
                    old(self).state.sized(old(self).luns@, *old(host), num_blocks, block_size)
                })
            }),
    {
        let mut padded: [u8; 32] = [0u8;32];
        for i in 0..data.len()
            invariant
                data@.len() <= 32,
                padded@.len() == 32,
                forall|j: int| 0 <= j < i ==> padded@[j] == data@[j],
        {
            padded[i] = data[i];
        }
        let alloc_len: u32 = if long {
            32
        } else {
            8
        };
        let (num_blocks, reported_size) = parse_capacity(&padded, alloc_len);
        assert(scsi::capacity_of(padded@, alloc_len) == scsi::capacity_of(data@, alloc_len));
        if !long && num_blocks == 0x1_0000_0000 {
            self.no_capacity(host, long);
            return ;
        }
        let block_size: u32 = if reported_size == 0 {
            512
        } else {
            reported_size
        };
        if block_size == 512 || block_size == 1024 || block_size == 2048 || block_size == 4096 {
            host.num_blocks = num_blocks;
            host.block_size = block_size as usize;
            if self.state.first_usable.is_none() {
                self.state.first_usable = Some(
                    LunInfo { scsi_lun: self.luns[self.state.index], num_blocks, block_size },
                );
            }
            self.state.step = ScanStep::Block0;
        } else {
            self.skip(host);
        }
    }

    fn looked_at(&mut self, host: &mut K3UfsHost, marked: bool)
        requires
            old(self).state.index < old(self).luns@.len(),
        ensures
            final(self).luns == old(self).luns,
            (final(self).state, *final(host)) == old(self).state.marked(
                old(self).luns@,
                *old(host),
                marked,
            ),
    {
        if marked {
            let info = LunInfo {
                scsi_lun: self.luns[self.state.index],
                num_blocks: host.num_blocks,
                block_size: host.block_size as u32,
            };
            self.state.step = ScanStep::Over { result: Ok(info) };
        } else {
            self.skip(host);
        }
    }

    fn asked_sense(end: CommandEnd, data: &[u8]) -> (sense: Option<(u8, u8, u8)>)
        ensures
            sense == ScanState::asked_sense(end, data@),
    {
        match end {
            CommandEnd::Good => K3UfsHost::decode_fixed_sense(data),
            _ => None,
        }
    }
}

/// The unit that a scan ends with holds data: it is one of the units that were
/// to be looked at, not a well-known one, and its block size can be used. The
/// host addresses it and has its capacity.
pub proof fn law_selected_unit_holds_data(
    state: ScanState,
    luns: Seq<u64>,
    host: K3UfsHost,
    end: CommandEnd,
    data: Seq<u8>,
)
    requires
        luns.len() <= usize::MAX,
        state.wf(luns, host),
    ensures
        ({
            let (after, host_after) = state.next(luns, host, end, data);
            after.step matches ScanStep::Over { result: Ok(info) } ==> {
                &&& luns.contains(info.scsi_lun)
                &&& !scsi::well_known(info.scsi_lun)
                &&& usable_size(info.block_size)
                &&& host_after.active_lun == scsi::unit_number(info.scsi_lun)
                &&& host_after.num_blocks == info.num_blocks
                &&& host_after.block_size == info.block_size
            }
        }),
{
    lemma_next(state, luns, host, end, data);
}

/// Unit 0 is always looked at.
pub proof fn law_unit_zero_is_looked_at(end: CommandEnd, data: Seq<u8>)
    ensures
        units(end, data).contains(0),
{
    let listed = match (end, scsi::listed_luns(data)) {
        (CommandEnd::Good, Some(luns)) => luns,
        _ => seq![0u64],
    };
    if !listed.contains(0) {
        assert(listed.push(0).last() == 0);
    }
}

/// The first usable unit is kept to the end of the scan.
pub proof fn law_first_usable_unit_is_kept(
    state: ScanState,
    luns: Seq<u64>,
    host: K3UfsHost,
    end: CommandEnd,
    data: Seq<u8>,
)
    requires
        state.first_usable is Some,
        state.index < luns.len(),
    ensures
        state.next(luns, host, end, data).0.first_usable == state.first_usable,
{
    lemma_go_to_keeps(luns, state.index + 1, state.first_usable, host);
}

proof fn lemma_go_to_keeps(
    luns: Seq<u64>,
    index: int,
    first_usable: Option<LunInfo>,
    host: K3UfsHost,
)
    requires
        0 <= index,
    ensures
        go_to(luns, index, first_usable, host).0.first_usable == first_usable,
    decreases luns.len() - index,
{
    if index < luns.len() && scsi::well_known(luns[index]) {
        lemma_go_to_keeps(luns, index + 1, first_usable, host);
    }
}

} // verus!
