//! What the search for the unit that holds the data comes to, as a whole.

use vstd::prelude::*;
use crate::ufs::error::{Failure, UfsError};
use crate::ufs::host::K3UfsHost;
use crate::ufs::scan::{go_to, LunInfo, LunScan, ScanState, ScanStep};
use crate::ufs::scsi::{CommandEnd, ScsiRequest};

verus! {

/// A unit of a device, by what it answers.
pub struct Unit {
    /// It answers an inquiry.
    pub present: bool,
    /// It is ready.
    pub ready: bool,
    /// Its answer to the short capacity command.
    pub capacity: Seq<u8>,
    /// Its answer to the long one.
    pub long_capacity: Seq<u8>,
    /// Its first block; `None` if it cannot be read.
    pub block0: Option<Seq<u8>>,
    /// Its second block; `None` if it cannot be read.
    pub block1: Option<Seq<u8>>,
}

impl Unit {
    /// The address of its last block in the short answer.
    pub open spec fn short_last(self) -> int {
        0x100_0000 * self.capacity[0] + 0x1_0000 * self.capacity[1] + 0x100 * self.capacity[2]
            + self.capacity[3]
    }

    /// The short answer cannot tell its size.
    pub open spec fn is_long(self) -> bool {
        self.short_last() == 0xffff_ffff
    }

    /// The address of its last block in the long answer.
    pub open spec fn long_last(self) -> int {
        let d = self.long_capacity;
        0x1_0000_0000 * (0x100_0000 * d[0] + 0x1_0000 * d[1] + 0x100 * d[2] + d[3]) + (0x100_0000
            * d[4] + 0x1_0000 * d[5] + 0x100 * d[6] + d[7])
    }

    /// How many blocks it has; the highest address counts as one block less.
    pub open spec fn blocks(self) -> int {
        if !self.is_long() {
            self.short_last() + 1
        } else if self.long_last() == u64::MAX {
            u64::MAX as int
        } else {
            self.long_last() + 1
        }
    }

    /// The block size that it reports.
    pub open spec fn reported(self) -> int {
        if self.is_long() {
            let d = self.long_capacity;
            0x100_0000 * d[8] + 0x1_0000 * d[9] + 0x100 * d[10] + d[11]
        } else {
            let d = self.capacity;
            0x100_0000 * d[4] + 0x1_0000 * d[5] + 0x100 * d[6] + d[7]
        }
    }

    /// Its block size; 0 stands for 512.
    pub open spec fn size(self) -> int {
        if self.reported() == 0 {
            512
        } else {
            self.reported()
        }
    }

    /// It answers and has blocks of 512, 1024, 2048 or 4096 bytes.
    pub open spec fn usable(self) -> bool {
        self.present && self.ready && (self.size() == 512 || self.size() == 1024 || self.size()
            == 2048 || self.size() == 4096)
    }

    /// Its first block ends with the bytes 55 AA.
    pub open spec fn has_mark(self) -> bool {
        self.block0 matches Some(block) && block.len() >= 512 && block[510] == 0x55 && block[511]
            == 0xaa
    }

    /// Its blocks have 4096 bytes, there is more than one, and the second begins
    /// with `EFI PART`.
    pub open spec fn has_header(self) -> bool {
        &&& self.size() == 4096
        &&& self.blocks() > 1
        &&& self.block1 matches Some(block) && block.len() >= 8 && block[0] == 0x45 && block[1]
            == 0x46 && block[2] == 0x49 && block[3] == 0x20 && block[4] == 0x50 && block[5] == 0x41
            && block[6] == 0x52 && block[7] == 0x54
    }

    /// It can be used and has a partition table.
    pub open spec fn holds_table(self) -> bool {
        self.usable() && self.block0 is Some && (self.has_mark() || self.has_header())
    }

    /// What it answers at a step.
    pub open spec fn answer(self, step: ScanStep) -> (CommandEnd, Seq<u8>) {
        match step {
            ScanStep::Inquiry => (
                if self.present {
                    CommandEnd::Good
                } else {
                    CommandEnd::Bad
                },
                Seq::empty(),
            ),
            ScanStep::Ready { .. } => (
                if self.ready {
                    CommandEnd::Good
                } else {
                    CommandEnd::Bad
                },
                Seq::empty(),
            ),
            ScanStep::Capacity { long, .. } => (
                CommandEnd::Good,
                if long {
                    self.long_capacity
                } else {
                    self.capacity
                },
            ),
            ScanStep::Block0 => match self.block0 {
                Some(block) => (CommandEnd::Good, block),
                None => (CommandEnd::Bad, Seq::empty()),
            },
            ScanStep::Block1 { .. } => match self.block1 {
                Some(block) => (CommandEnd::Good, block),
                None => (CommandEnd::Bad, Seq::empty()),
            },
            _ => (CommandEnd::Bad, Seq::empty()),
        }
    }
}

/// A unit number that is not a well-known one: its second byte from the end is
/// not C1.
pub open spec fn is_data_unit(scsi_lun: u64) -> bool {
    (scsi_lun / 256) % 256 != 0xc1
}

/// The scan after some steps, each answered by the unit that is looked at.
pub open spec fn scanned(
    state: ScanState,
    luns: Seq<u64>,
    host: K3UfsHost,
    device: Seq<Unit>,
    steps: nat,
) -> ScanState
    decreases steps,
{
    if steps == 0 || state.step is Over {
        state
    } else {
        let (end, data) = device[state.index as int].answer(state.step);
        let (after, working) = state.next(luns, host, end, data);
        scanned(after, luns, working, device, (steps - 1) as nat)
    }
}

/// No data unit before `index` has a partition table.
pub open spec fn none_before(luns: Seq<u64>, device: Seq<Unit>, index: int) -> bool {
    forall|j: int|
        0 <= j < index && is_data_unit(luns[j]) ==> !(#[trigger] device[j]).holds_table()
}

/// The unit `index` as it is reported.
pub open spec fn info_of(luns: Seq<u64>, device: Seq<Unit>, index: int) -> LunInfo {
    LunInfo {
        scsi_lun: luns[index],
        num_blocks: device[index].blocks() as u64,
        block_size: device[index].size() as u32,
    }
}

/// `first` is the first data unit before `index` that can be used, if any.
pub open spec fn first_before(
    luns: Seq<u64>,
    device: Seq<Unit>,
    index: int,
    first: Option<LunInfo>,
) -> bool {
    match first {
        Some(info) => exists|i: int|
            {
                &&& 0 <= i < index
                &&& is_data_unit(luns[i])
                &&& (#[trigger] device[i]).usable()
                &&& info == info_of(luns, device, i)
                &&& forall|j: int|
                    0 <= j < i && is_data_unit(luns[j]) ==> !(#[trigger] device[j]).usable()
            },
        None => forall|j: int|
            0 <= j < index && is_data_unit(luns[j]) ==> !(#[trigger] device[j]).usable(),
    }
}

/// The result is the unit to take: the first data unit with a partition table,
/// without one the first that can be used, without that either an error.
pub open spec fn is_choice(
    luns: Seq<u64>,
    device: Seq<Unit>,
    result: Result<LunInfo, UfsError>,
) -> bool {
    if none_before(luns, device, luns.len() as int) {
        match result {
            Ok(info) => first_before(luns, device, luns.len() as int, Some(info)),
            Err(error) => first_before(luns, device, luns.len() as int, None) && error
                == UfsError::Other(Failure::NoLun),
        }
    } else {
        result matches Ok(info) && exists|i: int|
            {
                &&& 0 <= i < luns.len()
                &&& is_data_unit(luns[i])
                &&& (#[trigger] device[i]).holds_table()
                &&& info == info_of(luns, device, i)
                &&& none_before(luns, device, i)
            }
    }
}

/// What a scan has found out so far.
spec fn on_the_way(
    state: ScanState,
    luns: Seq<u64>,
    host: K3UfsHost,
    device: Seq<Unit>,
) -> bool {
    let at = state.index as int;
    match state.step {
        ScanStep::Over { result } => is_choice(luns, device, result),
        _ => {
            let unit = device[at];
            &&& 0 <= at < luns.len()
            &&& is_data_unit(luns[at])
            &&& none_before(luns, device, at)
            &&& match state.step {
                ScanStep::Inquiry => first_before(luns, device, at, state.first_usable),
                ScanStep::Ready { .. } => unit.present && first_before(
                    luns,
                    device,
                    at,
                    state.first_usable,
                ),
                ScanStep::Capacity { long, .. } => {
                    &&& unit.present && unit.ready
                    &&& first_before(luns, device, at, state.first_usable)
                    &&& long ==> unit.is_long()
                },
                ScanStep::Block0 => {
                    &&& unit.usable()
                    &&& first_before(luns, device, at + 1, state.first_usable)
                    &&& host.num_blocks == unit.blocks()
                    &&& host.block_size == unit.size()
                },
                ScanStep::Block1 { marked } => {
                    &&& unit.usable()
                    &&& unit.block0 is Some
                    &&& first_before(luns, device, at + 1, state.first_usable)
                    &&& host.num_blocks == unit.blocks()
                    &&& host.block_size == unit.size()
                    &&& unit.blocks() > 1
                    &&& unit.size() == 4096
                    &&& marked == unit.has_mark()
                },
                _ => false,
            }
        },
    }
}

proof fn lemma_go_to_on_the_way(
    luns: Seq<u64>,
    index: int,
    first_usable: Option<LunInfo>,
    host: K3UfsHost,
    device: Seq<Unit>,
)
    requires
        0 <= index <= luns.len() <= usize::MAX,
        none_before(luns, device, index),
        first_before(luns, device, index, first_usable),
    ensures
        on_the_way(
            go_to(luns, index, first_usable, host).0,
            luns,
            go_to(luns, index, first_usable, host).1,
            device,
        ),
    decreases luns.len() - index,
{
    if index < luns.len() && !is_data_unit(luns[index]) {
        lemma_go_to_on_the_way(luns, index + 1, first_usable, host, device);
    }
}

proof fn lemma_capacity(data: Seq<u8>)
    ensures
        crate::ufs::scsi::be32(data, 0) == 0x100_0000 * data[0] + 0x1_0000 * data[1] + 0x100
            * data[2] + data[3],
        crate::ufs::scsi::be32(data, 4) == 0x100_0000 * data[4] + 0x1_0000 * data[5] + 0x100
            * data[6] + data[7],
        crate::ufs::scsi::be32(data, 8) == 0x100_0000 * data[8] + 0x1_0000 * data[9] + 0x100
            * data[10] + data[11],
        0 <= crate::ufs::scsi::be32(data, 0) <= 0xffff_ffff,
        0 <= crate::ufs::scsi::be32(data, 4) <= 0xffff_ffff,
        0 <= crate::ufs::scsi::be32(data, 8) <= 0xffff_ffff,
{
}

proof fn lemma_header(block: Seq<u8>)
    ensures
        crate::ufs::scsi::gpt_signature(block) == (block.len() >= 8 && block[0] == 0x45 && block[1]
            == 0x46 && block[2] == 0x49 && block[3] == 0x20 && block[4] == 0x50 && block[5] == 0x41
            && block[6] == 0x52 && block[7] == 0x54),
{
    let mark = seq![0x45u8, 0x46u8, 0x49u8, 0x20u8, 0x50u8, 0x41u8, 0x52u8, 0x54u8];
    if block.len() >= 8 {
        let head = block.take(8);
        assert(forall|i: int| 0 <= i < 8 ==> head[i] == block[i]);
        if block[0] == 0x45 && block[1] == 0x46 && block[2] == 0x49 && block[3] == 0x20 && block[4]
            == 0x50 && block[5] == 0x41 && block[6] == 0x52 && block[7] == 0x54 {
            assert(head =~= mark);
        } else if head == mark {
            assert(head[0] == 0x45 && head[1] == 0x46 && head[2] == 0x49 && head[3] == 0x20
                && head[4] == 0x50 && head[5] == 0x41 && head[6] == 0x52 && head[7] == 0x54);
        }
    }
}

/// One step keeps what the scan has found out.
proof fn lemma_step_on_the_way(
    state: ScanState,
    luns: Seq<u64>,
    host: K3UfsHost,
    device: Seq<Unit>,
)
    requires
        luns.len() <= usize::MAX,
        device.len() == luns.len(),
        on_the_way(state, luns, host, device),
        !(state.step is Over),
    ensures
        ({
            let (end, data) = device[state.index as int].answer(state.step);
            let (after, working) = state.next(luns, host, end, data);
            on_the_way(after, luns, working, device)
        }),
{
    match state.step {
        ScanStep::Inquiry | ScanStep::Ready { .. } => lemma_answered_on_the_way(
            state,
            luns,
            host,
            device,
        ),
        ScanStep::Capacity { .. } => lemma_sized_on_the_way(state, luns, host, device),
        ScanStep::Block0 | ScanStep::Block1 { .. } => lemma_read_on_the_way(
            state,
            luns,
            host,
            device,
        ),
        _ => {},
    }
}

proof fn lemma_answered_on_the_way(
    state: ScanState,
    luns: Seq<u64>,
    host: K3UfsHost,
    device: Seq<Unit>,
)
    requires
        luns.len() <= usize::MAX,
        device.len() == luns.len(),
        on_the_way(state, luns, host, device),
        state.step is Inquiry || state.step is Ready,
    ensures
        ({
            let (end, data) = device[state.index as int].answer(state.step);
            let (after, working) = state.next(luns, host, end, data);
            on_the_way(after, luns, working, device)
        }),
{
    let at = state.index as int;
    let unit = device[at];
    let (end, data) = unit.answer(state.step);
    let (after, working) = state.next(luns, host, end, data);
    if !(end is Good) {
        assert(!unit.usable() && !unit.holds_table());
        lemma_pass(luns, device, at, state.first_usable);
        lemma_go_to_on_the_way(luns, at + 1, state.first_usable, host, device);
    }
}

proof fn lemma_sized_on_the_way(
    state: ScanState,
    luns: Seq<u64>,
    host: K3UfsHost,
    device: Seq<Unit>,
)
    requires
        luns.len() <= usize::MAX,
        device.len() == luns.len(),
        on_the_way(state, luns, host, device),
        state.step is Capacity,
    ensures
        ({
            let (end, data) = device[state.index as int].answer(state.step);
            let (after, working) = state.next(luns, host, end, data);
            on_the_way(after, luns, working, device)
        }),
{
    let at = state.index as int;
    let unit = device[at];
    let (end, data) = unit.answer(state.step);
    let (after, working) = state.next(luns, host, end, data);
    let long = state.step->Capacity_long;
    lemma_capacity(data);
    if !long && unit.is_long() {
        assert(after.step is Capacity);
    } else {
        let (num_blocks, reported) = crate::ufs::scsi::capacity_of(
            data,
            if long {
                32
            } else {
                8
            },
        );
        assert(long == unit.is_long());
        assert(num_blocks == unit.blocks() && reported == unit.reported());
        assert((after, working) == state.sized(luns, host, num_blocks, reported));
        if unit.usable() {
            let first = after.first_usable;
            assert(after.step is Block0);
            if state.first_usable is None {
                assert(first == Some(info_of(luns, device, at)));
                assert(first_before(luns, device, at + 1, first));
            } else {
                lemma_keep(luns, device, at, state.first_usable);
            }
        } else {
            lemma_pass(luns, device, at, state.first_usable);
            lemma_go_to_on_the_way(luns, at + 1, state.first_usable, host, device);
        }
    }
}

proof fn lemma_read_on_the_way(
    state: ScanState,
    luns: Seq<u64>,
    host: K3UfsHost,
    device: Seq<Unit>,
)
    requires
        luns.len() <= usize::MAX,
        device.len() == luns.len(),
        on_the_way(state, luns, host, device),
        state.step is Block0 || state.step is Block1,
    ensures
        ({
            let (end, data) = device[state.index as int].answer(state.step);
            let (after, working) = state.next(luns, host, end, data);
            on_the_way(after, luns, working, device)
        }),
{
    let at = state.index as int;
    let unit = device[at];
    let (end, data) = unit.answer(state.step);
    let (after, working) = state.next(luns, host, end, data);
    if state.step is Block0 {
        if unit.block0 is None {
            assert(!unit.holds_table());
            assert(none_before(luns, device, at + 1));
            lemma_go_to_on_the_way(luns, at + 1, state.first_usable, host, device);
        } else if !(host.block_size >= 4096 && host.num_blocks > 1) {
            assert(!unit.has_header());
            lemma_chosen_or_passed(state, luns, host, device, unit.has_mark());
        }
    } else {
        if let Some(block) = unit.block1 {
            lemma_header(block);
        }
        lemma_chosen_or_passed(state, luns, host, device, unit.has_mark() || unit.has_header());
    }
}

proof fn lemma_chosen_or_passed(
    state: ScanState,
    luns: Seq<u64>,
    host: K3UfsHost,
    device: Seq<Unit>,
    table: bool,
)
    requires
        luns.len() <= usize::MAX,
        0 <= state.index < luns.len(),
        is_data_unit(luns[state.index as int]),
        none_before(luns, device, state.index as int),
        first_before(luns, device, state.index + 1, state.first_usable),
        host.num_blocks == device[state.index as int].blocks(),
        host.block_size == device[state.index as int].size(),
        device[state.index as int].usable(),
        table == device[state.index as int].holds_table(),
    ensures
        on_the_way(
            state.marked(luns, host, table).0,
            luns,
            state.marked(luns, host, table).1,
            device,
        ),
{
    let at = state.index as int;
    if table {
        assert(device[at].holds_table());
        assert(!none_before(luns, device, luns.len() as int));
    } else {
        assert(none_before(luns, device, at + 1));
        lemma_go_to_on_the_way(luns, at + 1, state.first_usable, host, device);
    }
}

proof fn lemma_pass(luns: Seq<u64>, device: Seq<Unit>, at: int, first: Option<LunInfo>)
    requires
        0 <= at < luns.len(),
        none_before(luns, device, at),
        first_before(luns, device, at, first),
        !device[at].usable(),
    ensures
        none_before(luns, device, at + 1),
        first_before(luns, device, at + 1, first),
{
    if first is Some {
        lemma_keep(luns, device, at, first);
    }
}

proof fn lemma_keep(luns: Seq<u64>, device: Seq<Unit>, at: int, first: Option<LunInfo>)
    requires
        first_before(luns, device, at, first),
        first is Some,
    ensures
        first_before(luns, device, at + 1, first),
{
    let info = first.unwrap();
    let i = choose|i: int|
        {
            &&& 0 <= i < at
            &&& is_data_unit(luns[i])
            &&& (#[trigger] device[i]).usable()
            &&& info == info_of(luns, device, i)
            &&& forall|j: int|
                0 <= j < i && is_data_unit(luns[j]) ==> !(#[trigger] device[j]).usable()
        };
    assert(device[i].usable());
}

/// Over the whole scan, the result is the first listed unit that is not a
/// well-known one, answers, has a usable block size, and whose first block ends
/// with 55 AA or whose second block (of 4096 bytes) begins with `EFI PART`.
/// Without such a unit it is the first one that can be used, and without that
/// either there is none.
pub proof fn law_scan_chooses_first_unit_with_table(
    luns: Seq<u64>,
    host: K3UfsHost,
    device: Seq<Unit>,
    steps: nat,
)
    requires
        luns.len() <= usize::MAX,
        device.len() == luns.len(),
    ensures
        ({
            let (start, working) = go_to(luns, 0, None, host);
            let end = scanned(start, luns, working, device, steps);
            end.step matches ScanStep::Over { result } ==> is_choice(luns, device, result)
        }),
{
    let (start, working) = go_to(luns, 0, None, host);
    assert(none_before(luns, device, 0));
    assert(first_before(luns, device, 0, None));
    lemma_go_to_on_the_way(luns, 0, None, host, device);
    lemma_scanned_on_the_way(start, luns, working, device, steps);
}

proof fn lemma_scanned_on_the_way(
    state: ScanState,
    luns: Seq<u64>,
    host: K3UfsHost,
    device: Seq<Unit>,
    steps: nat,
)
    requires
        luns.len() <= usize::MAX,
        device.len() == luns.len(),
        on_the_way(state, luns, host, device),
    ensures
        scanned(state, luns, host, device, steps).step matches ScanStep::Over { result }
            ==> is_choice(luns, device, result),
    decreases steps,
{
    if steps > 0 && !(state.step is Over) {
        let (end, data) = device[state.index as int].answer(state.step);
        let (after, working) = state.next(luns, host, end, data);
        lemma_step_on_the_way(state, luns, host, device);
        lemma_scanned_on_the_way(after, luns, working, device, (steps - 1) as nat);
    }
}

/// Whatever the other steps came to: once the first block of a unit was read
/// and ends with 55 AA, or its second block was read and begins with `EFI PART`,
/// the scan ends with that unit; a first block that is read and has no mark, and
/// a second one that is not read or has no header, leave the unit behind.
pub proof fn law_table_ends_the_scan(
    state: ScanState,
    luns: Seq<u64>,
    host: K3UfsHost,
    end0: CommandEnd,
    block0: Seq<u8>,
    end1: CommandEnd,
    block1: Seq<u8>,
)
    requires
        state.step is Block0,
        0 <= state.index < luns.len() <= usize::MAX,
        host.block_size <= 4096,
    ensures
        ({
            let mark = end0 is Good && block0.len() >= 512 && block0[510] == 0x55 && block0[511]
                == 0xaa;
            let header = end1 is Good && block1.len() >= 8 && block1[0] == 0x45 && block1[1] == 0x46
                && block1[2] == 0x49 && block1[3] == 0x20 && block1[4] == 0x50 && block1[5] == 0x41
                && block1[6] == 0x52 && block1[7] == 0x54;
            let second = end0 is Good && host.block_size == 4096 && host.num_blocks > 1;
            let (after0, host0) = state.next(luns, host, end0, block0);
            let (after1, host1) = after0.next(luns, host0, end1, block1);
            let (end, working) = if second {
                (after1, host1)
            } else {
                (after0, host0)
            };
            let info = LunInfo {
                scsi_lun: luns[state.index as int],
                num_blocks: host.num_blocks,
                block_size: host.block_size as u32,
            };
            &&& second == (after0.step is Block1)
            &&& mark || (second && header) ==> end.step == (ScanStep::Over { result: Ok(info) })
                && working == host
            &&& !mark && !(second && header) ==> (end, working) == go_to(
                luns,
                state.index + 1,
                state.first_usable,
                host,
            )
        }),
{
    lemma_header(block1);
    lemma_go_to_step(luns, state.index + 1, state.first_usable, host);
}

proof fn lemma_go_to_step(
    luns: Seq<u64>,
    index: int,
    first_usable: Option<LunInfo>,
    host: K3UfsHost,
)
    ensures
        go_to(luns, index, first_usable, host).0.step is Inquiry || go_to(
            luns,
            index,
            first_usable,
            host,
        ).0.step is Over,
    decreases luns.len() - index,
{
    if 0 <= index < luns.len() && !is_data_unit(luns[index]) {
        lemma_go_to_step(luns, index + 1, first_usable, host);
    }
}

/// How many steps are left at most.
spec fn left(state: ScanState, luns: Seq<u64>) -> int {
    10 * (luns.len() - state.index) + (match state.step {
        ScanStep::Inquiry => 6int,
        ScanStep::Ready { .. } => 5,
        ScanStep::Capacity { long, .. } => if long {
            3
        } else {
            4
        },
        ScanStep::Block0 => 2,
        _ => 1,
    })
}

proof fn lemma_go_to_left(
    luns: Seq<u64>,
    index: int,
    first_usable: Option<LunInfo>,
    host: K3UfsHost,
)
    requires
        0 <= index <= luns.len() <= usize::MAX,
    ensures
        go_to(luns, index, first_usable, host).0.step is Over || left(
            go_to(luns, index, first_usable, host).0,
            luns,
        ) <= 10 * (luns.len() - index) + 6,
    decreases luns.len() - index,
{
    if index < luns.len() && !is_data_unit(luns[index]) {
        lemma_go_to_left(luns, index + 1, first_usable, host);
    }
}

proof fn lemma_scan_ends(
    state: ScanState,
    luns: Seq<u64>,
    host: K3UfsHost,
    device: Seq<Unit>,
    steps: nat,
)
    requires
        luns.len() <= usize::MAX,
        device.len() == luns.len(),
        on_the_way(state, luns, host, device),
        state.step is Over || left(state, luns) <= steps,
    ensures
        scanned(state, luns, host, device, steps).step is Over,
    decreases steps,
{
    if !(state.step is Over) {
        let (end, data) = device[state.index as int].answer(state.step);
        let (after, working) = state.next(luns, host, end, data);
        lemma_step_on_the_way(state, luns, host, device);
        lemma_go_to_left(luns, state.index + 1, state.first_usable, host);
        assert(after.step is Over || left(after, luns) < left(state, luns));
        lemma_scan_ends(after, luns, working, device, (steps - 1) as nat);
    }
}

/// A scan is over after at most ten steps for each unit and six more.
pub proof fn law_scan_ends(luns: Seq<u64>, host: K3UfsHost, device: Seq<Unit>)
    requires
        luns.len() <= usize::MAX,
        device.len() == luns.len(),
    ensures
        ({
            let (start, working) = go_to(luns, 0, None, host);
            scanned(start, luns, working, device, (10 * luns.len() + 6) as nat).step is Over
        }),
{
    let (start, working) = go_to(luns, 0, None, host);
    assert(none_before(luns, device, 0));
    assert(first_before(luns, device, 0, None));
    lemma_go_to_on_the_way(luns, 0, None, host, device);
    lemma_go_to_left(luns, 0, None, host);
    lemma_scan_ends(start, luns, working, device, (10 * luns.len() + 6) as nat);
}

/// What a unit is asked at a step: what it is (12), whether it is ready (00), why
/// not (03), how large it is (25, or 9E in the long form), and for its first and
/// second block (28, one block from address 0 or 1).
pub proof fn law_scan_requests(scan: LunScan, host: K3UfsHost, request: Option<ScsiRequest>)
    requires
        scan.state.wf(scan.luns@, host),
        call_ensures(LunScan::request, (&scan, &host), request),
    ensures
        ({
            let cdb = request.unwrap().cdb@;
            let lba = 0x100_0000 * cdb[2] + 0x1_0000 * cdb[3] + 0x100 * cdb[4] + cdb[5];
            let count = 0x100 * cdb[7] + cdb[8];
            let step = scan.state.step;
            &&& request is None <==> step is ReadyPause || step is CapacityPause || step is Over
            &&& step is Inquiry ==> cdb[0] == 0x12
            &&& step is Ready ==> cdb[0] == 0x00
            &&& step is ReadySense || step is CapacitySense ==> cdb[0] == 0x03
            &&& step matches ScanStep::Capacity { long, .. } ==> cdb[0] == (if long {
                0x9e
            } else {
                0x25int
            })
            &&& step is Block0 ==> cdb[0] == 0x28 && lba == 0 && count == 1
            &&& step is Block1 ==> cdb[0] == 0x28 && lba == 1 && count == 1
            &&& step is Block0 || step is Block1 ==> request.unwrap().data_len == host.block_size
        }),
{
}

} // verus!
