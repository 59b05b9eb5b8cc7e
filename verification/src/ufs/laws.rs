//! What the messages, transfers and mode changes are in bytes and numbers.

use vstd::prelude::*;
use crate::bits;
use crate::bits::bit;
use crate::script;
use crate::script::{core_reg, Op, Reg};
use crate::ufs::desc::DataDirection;
use crate::ufs::error::{Failure, UfsError};
use crate::ufs::host;
use crate::ufs::host::{K3UfsHost, SlotImage};
use crate::ufs::link;
use crate::ufs::power;
use crate::ufs::power::{DeviceCaps, HsStep, HsUpgrade, PwrModeParams};
use crate::ufs::scan::{ScanState, ScanStep};
use crate::ufs::scsi;
use crate::ufs::scsi::{CommandEnd, ScsiRequest};
use crate::ufs::transfer;
use crate::ufs::transfer::{Attempt, DevInit, Exchange, ExchangeStep};
use crate::ufs::uic::{UicCommand, UicNext, UicStep};

verus! {

/// The number in four bytes, the first one highest.
pub open spec fn number(bytes: Seq<u8>, at: int) -> int {
    0x100_0000 * bytes[at] + 0x1_0000 * bytes[at + 1] + 0x100 * bytes[at + 2] + bytes[at + 3]
}

/// A read of blocks (28) and a write (2A) carry the address in bytes 2 to 5 and
/// the count in bytes 7 and 8, and move as many bytes as the blocks have, to the
/// host or to the device. They are refused if the buffer is smaller.
pub proof fn law_block_commands(
    host: K3UfsHost,
    lba: u32,
    num_blocks: u16,
    buffer_len: usize,
    read: Result<ScsiRequest, UfsError>,
    write: Result<ScsiRequest, UfsError>,
)
    requires
        num_blocks * host.block_size <= u32::MAX,
        host.block_size <= u32::MAX,
        call_ensures(K3UfsHost::scsi_read_10, (&host, lba, num_blocks, buffer_len), read),
        call_ensures(K3UfsHost::scsi_write_10, (&host, lba, num_blocks, buffer_len), write),
    ensures
        read is Ok <==> buffer_len >= num_blocks * host.block_size,
        write is Ok <==> buffer_len >= num_blocks * host.block_size,
        read is Ok ==> {
            let (r, w) = (read->Ok_0, write->Ok_0);
            &&& r.cdb@[0] == 0x28 && w.cdb@[0] == 0x2a
            &&& number(r.cdb@, 2) == lba && number(w.cdb@, 2) == lba
            &&& 256 * r.cdb@[7] + r.cdb@[8] == num_blocks && 256 * w.cdb@[7] + w.cdb@[8]
                == num_blocks
            &&& r.cdb@[1] == 0 && r.cdb@[6] == 0 && r.cdb@[9] == 0
            &&& w.cdb@[1] == 0 && w.cdb@[6] == 0 && w.cdb@[9] == 0
            &&& r.data_len == num_blocks * host.block_size && w.data_len == num_blocks
                * host.block_size
            &&& r.direction == DataDirection::ToHost && w.direction == DataDirection::ToDevice
        },
{
}

/// A message to a unit is a command (01) whose flags tell the direction of the
/// data (40 to the host, 20 to the device), with the unit in byte 2, the length
/// of the data in bytes 12 to 15 and the command from byte 16 on.
pub proof fn law_command_message(request: ScsiRequest, lun: u8, upiu: [u8; 512], i: int)
    requires
        call_ensures(ScsiRequest::message, (&request, lun), upiu),
        0 <= i < 16,
    ensures
        upiu@[0] == 0x01,
        upiu@[1] == (match request.direction {
            DataDirection::ToHost => 0x40,
            DataDirection::ToDevice => 0x20,
            DataDirection::NoData => 0x00int,
        }),
        upiu@[2] == lun,
        number(upiu@, 12) == request.data_len,
        upiu@[16 + i] == request.cdb@[i],
        upiu@[4] == 0 && upiu@[5] == 0 && upiu@[32] == 0,
{
}

/// The direction of the data is in bits 25 and 26 of the first word of a
/// transfer: 1 to the device, 2 to the host.
pub proof fn law_direction_words(direction: DataDirection, word: u32)
    requires
        call_ensures(DataDirection::dw0, (direction,), word),
    ensures
        word == (match direction {
            DataDirection::NoData => 0x1100_0000,
            DataDirection::ToDevice => 0x1300_0000,
            DataDirection::ToHost => 0x1500_0000int,
        }),
{
}

/// A slot has 3072 bytes of its own: its command at the start, the response 512
/// bytes further on and the list of regions at 1024. The status is preset to 15,
/// and the message carries the number of the slot.
pub proof fn law_slot_layout(
    upiu: [u8; 512],
    addr: u64,
    len: u32,
    direction: DataDirection,
    slot: usize,
    base: u64,
    filled: SlotImage,
    bare: SlotImage,
)
    requires
        slot < 32,
        base + 32 * 3072 <= u64::MAX,
        1 <= len <= 0x10_0000,
        call_ensures(
            K3UfsHost::prepare_slot,
            (&upiu, Some((addr, len)), direction, slot, base),
            filled,
        ),
        call_ensures(K3UfsHost::prepare_slot, (&upiu, None, direction, slot, base), bare),
    ensures
        0x1_0000_0000 * filled.utrd.ucdbau + filled.utrd.ucdba == base + 3072 * slot,
        4 * filled.utrd.ruo == 512 && 4 * filled.utrd.rul == 512 && 4 * filled.utrd.prdto == 1024,
        filled.utrd.dw2 == 15 && filled.utrd.dw1 == 0 && filled.utrd.dw3 == 0,
        filled.utrd.prdtl == 1 && bare.utrd.prdtl == 0,
        0x1_0000_0000 * filled.prdt.dbau + filled.prdt.dba == addr,
        filled.prdt.dbc == len - 1,
        filled.command@[3] == slot && bare.command@[3] == slot,
        forall|i: int|
            0 <= i < 512 && i != 3 ==> #[trigger] filled.command@[i] == upiu@[i],
{
}

/// The short capacity command is 25; the long one is 9E with action 10 and asks
/// for 32 bytes.
pub proof fn law_capacity_commands(short: ScsiRequest, long: ScsiRequest)
    requires
        call_ensures(K3UfsHost::scsi_read_capacity_10, (), short),
        call_ensures(K3UfsHost::scsi_read_capacity_16, (), long),
    ensures
        short.cdb@[0] == 0x25 && short.cdb@[1] == 0 && number(short.cdb@, 10) == 0,
        short.data_len == 8,
        long.cdb@[0] == 0x9e && long.cdb@[1] == 0x10 && number(long.cdb@, 10) == 32,
        long.data_len == 32,
        short.direction == DataDirection::ToHost && long.direction == DataDirection::ToHost,
{
}

/// The other commands: ready (00), sense (03, 18 bytes), inquiry (12, 36 bytes)
/// and the list of units (A0, 4096 bytes).
pub proof fn law_plain_commands(
    ready: ScsiRequest,
    sense: ScsiRequest,
    inquiry: ScsiRequest,
    luns: ScsiRequest,
)
    requires
        call_ensures(K3UfsHost::test_unit_ready, (), ready),
        call_ensures(K3UfsHost::request_sense, (), sense),
        call_ensures(K3UfsHost::scsi_inquiry, (), inquiry),
        call_ensures(K3UfsHost::report_luns, (), luns),
    ensures
        ready.cdb@[0] == 0x00 && ready.data_len == 0 && ready.direction == DataDirection::NoData,
        sense.cdb@[0] == 0x03 && sense.cdb@[4] == 18 && sense.data_len == 18,
        inquiry.cdb@[0] == 0x12 && inquiry.cdb@[4] == 36 && inquiry.data_len == 36,
        luns.cdb@[0] == 0xa0 && number(luns.cdb@, 6) == 4096 && luns.data_len == 4096,
        sense.direction == DataDirection::ToHost && inquiry.direction == DataDirection::ToHost
            && luns.direction == DataDirection::ToHost,
{
}

/// The answer to the short capacity command is the last address and the block
/// size, four bytes each; that to the long one has eight bytes of address.
pub proof fn law_capacity_answers(data: [u8; 32], short: (u64, u32), long: (u64, u32))
    requires
        call_ensures(scsi::parse_capacity, (&data, 8), short),
        call_ensures(scsi::parse_capacity, (&data, 32), long),
    ensures
        ({
            let (blocks, size) = short;
            let (many, wide) = long;
            let last = 0x1_0000_0000 * number(data@, 0) + number(data@, 4);
            &&& blocks == number(data@, 0) + 1
            &&& size == number(data@, 4)
            &&& many == (if last == 0xffff_ffff_ffff_ffff {
                last
            } else {
                last + 1
            })
            &&& wide == number(data@, 8)
        }),
{
}

/// Sense data of a fixed format (70 or 71 in the low seven bits of its first
/// byte) has the key in the low half of byte 2, and code and qualifier in bytes
/// 12 and 13.
pub proof fn law_sense_bytes(sense: Seq<u8>)
    ensures
        ({
            let found = scsi::fixed_sense(sense);
            let kind = sense[0] % 128;
            &&& found is Some <==> sense.len() >= 14 && (kind == 0x70 || kind == 0x71)
            &&& found matches Some((key, code, qualifier)) ==> key == sense[2] % 16 && code
                == sense[12] && qualifier == sense[13]
            &&& scsi::transient(found) <==> found is Some && (sense[2] % 16 == 6 || sense[2] % 16
                == 2)
        }),
{
}

/// A response (21) says in byte 7 what its command came to: 0 well, 2 refused,
/// anything else badly. The sense data of a refusal begins at byte 34; bytes 32
/// and 33 are its length.
pub proof fn law_response_status(response: [u8; 512], end: CommandEnd)
    requires
        call_ensures(scsi::classify_response, (Ok(&response),), end),
    ensures
        ({
            let (kind, status) = (response@[0], response@[7]);
            let len = 256 * response@[32] + response@[33];
            &&& end is Failed <==> kind != 0x21
            &&& end is Good <==> kind == 0x21 && status == 0
            &&& end is Check <==> kind == 0x21 && status == 2
            &&& end is Bad <==> kind == 0x21 && status != 0 && status != 2
            &&& end matches CommandEnd::Check(sense) ==> {
                &&& len < 14 ==> sense is None
                &&& sense matches Some((key, code, qualifier)) ==> key == response@[36] % 16 && code
                    == response@[46] && qualifier == response@[47]
                &&& len >= 14 ==> (sense is Some <==> response@[34] % 128 == 0x70 || response@[34]
                    % 128 == 0x71)
            }
        }),
{
    let len = 256 * response@[32] + response@[33];
    let upto = if 34 + len <= 512 {
        34 + len
    } else {
        512
    };
    let sense = response@.subrange(34, upto);
    if len >= 14 {
        assert(sense[0] == response@[34] && sense[2] == response@[36] && sense[12] == response@[46]
            && sense[13] == response@[47]);
    }
}

/// Reads and writes that went badly are reported as what they are; another
/// error is passed on.
pub proof fn law_block_results(end: CommandEnd, write: bool, result: Result<(), UfsError>)
    requires
        call_ensures(K3UfsHost::block_result, (end, write), result),
    ensures
        result is Ok <==> end is Good,
        end is Check || end is Bad ==> result == Err::<(), UfsError>(
            UfsError::Other(
                if write {
                    Failure::WriteFailed
                } else {
                    Failure::ReadFailed
                },
            ),
        ),
        end matches CommandEnd::Failed(error) ==> error == UfsError::Other(Failure::ScsiInvalid)
            || result == Err::<(), UfsError>(error),
{
}

/// A request for `count` whole blocks is taken exactly if it lies within the
/// unit and fits a command, and it names the same blocks.
pub proof fn law_requests_of_whole_blocks(
    host: K3UfsHost,
    block_id: u64,
    len: usize,
    count: int,
    result: Result<host::BlockRequest, crate::block::BlkError>,
)
    requires
        host.block_size > 0,
        count >= 0,
        len == count * host.block_size,
        call_ensures(K3UfsHost::check_request, (&host, block_id, len), result),
    ensures
        result is Ok <==> 1 <= count <= 0xffff && block_id <= 0xffff_ffff && block_id + count
            <= host.num_blocks,
        result matches Ok(request) ==> request.lba == block_id && request.num_blocks == count,
{
    vstd::arithmetic::div_mod::lemma_div_multiples_vanish(count, host.block_size as int);
    vstd::arithmetic::div_mod::lemma_mod_multiples_basic(count, host.block_size as int);
    assert(count * host.block_size == host.block_size * count) by (nonlinear_arith);
}

/// A command is tried ten times, with 100 ms in between if the unit was not
/// ready and 50 ms if it gave no reason to ask for the capacity again.
pub proof fn law_scan_retries(
    state: ScanState,
    luns: Seq<u64>,
    host: K3UfsHost,
    end: CommandEnd,
    data: Seq<u8>,
    tries: u32,
    key: u8,
    code: u8,
    qualifier: u8,
)
    requires
        tries < 10,
    ensures
        ({
            let after = state.next(luns, host, end, data).0;
            let ready = state.step == (ScanStep::Ready { tries });
            let paused = state.step == (ScanStep::ReadyPause { tries });
            let refused = end == CommandEnd::Check(Some((key, code, qualifier)));
            let waiting = key == 2 || key == 6;
            let short = state.step == (ScanStep::Capacity { long: false, tries });
            &&& ready && end is Good ==> after.step == (ScanStep::Capacity { long: false, tries: 0 })
            &&& ready && refused && waiting ==> after.step == (ScanStep::ReadyPause { tries })
            &&& paused && tries < 9 ==> after.step == (ScanStep::Ready { tries: (tries + 1) as u32 })
            &&& short && refused && waiting ==> after.step == (ScanStep::CapacityPause {
                long: false,
                tries,
                ms: 100,
            })
            &&& short && refused && key == 5 ==> after.step == (ScanStep::Capacity {
                long: true,
                tries: 0,
            })
            &&& short && refused && !waiting && key != 5 || short && end is Bad ==> after.step == (
            ScanStep::CapacityPause { long: false, tries, ms: 50 })
            &&& state.step == (ScanStep::CapacityPause { long: false, tries, ms: 50 }) ==> after.step
                == (if tries < 9 {
                ScanStep::Capacity { long: false, tries: (tries + 1) as u32 }
            } else {
                ScanStep::Capacity { long: true, tries: 0 }
            })
        }),
{
}

/// A transfer has ended when its own bit of the doorbell is clear; the bits of
/// the other slots do not matter.
pub proof fn law_doorbell_bit(exchange: Exchange, look: u32, value: u32, other: u32)
    requires
        exchange.wf(),
        exchange.step == (ExchangeStep::Doorbell { look }),
        bit(value, exchange.slot as u32) == bit(other, exchange.slot as u32),
    ensures
        exchange.next(value) == exchange.next(other),
        ({
            let ended = !bit(value, exchange.slot as u32);
            exchange.next(value) == (if look % 500 == 0 {
                ExchangeStep::Status { look, ended }
            } else if ended {
                ExchangeStep::Collect
            } else {
                ExchangeStep::Pause { look }
            })
        }),
{
    broadcast use bits::group_masks;

    let slot = exchange.slot as u32;
    assert(transfer::slot_mask(exchange.slot) == 1u32 << slot);
    assert((value & (1u32 << slot)) != 0 <==> bit(value, slot));
    assert((other & (1u32 << slot)) != 0 <==> bit(other, slot));
}

/// Ringing the doorbell writes the bit of the slot alone, and the end of a
/// transfer is acknowledged by bit 0 of the interrupt status (0x20).
pub proof fn law_ring_bit(exchange: Exchange, image: Map<Reg, u32>, index: u32)
    requires
        exchange.wf(),
        index < 32,
    ensures
        ({
            let after = script::settle(exchange.ops(), image);
            &&& exchange.step is Ring ==> bit(after[core_reg(0x58)], index) == (index
                == exchange.slot)
            &&& exchange.step is Retire ==> after[core_reg(0x20)] == 1
            &&& exchange.step is Acknowledge ==> after[core_reg(0x20)] == 0xffff_ffff
        }),
{
    broadcast use {bits::group_bits, script::group_settle};

    let slot = exchange.slot as u32;
    assert(transfer::slot_mask(exchange.slot) == 1u32 << slot);
}

/// Bits 2, 7, 11, 12, 16, 17 and 18 of the interrupt status end a transfer;
/// others do not.
pub proof fn law_fatal_status_bits(exchange: Exchange, look: u32, ended: bool, value: u32)
    requires
        exchange.step == (ExchangeStep::Status { look, ended }),
    ensures
        ({
            let fatal = bit(value, 2) || bit(value, 7) || bit(value, 11) || bit(value, 12) || bit(
                value,
                16,
            ) || bit(value, 17) || bit(value, 18);
            exchange.next(value) == (if fatal {
                ExchangeStep::Dump { error: UfsError::ControllerFatal }
            } else if ended {
                ExchangeStep::Collect
            } else {
                ExchangeStep::Pause { look }
            })
        }),
{
    lemma_fatal_mask(value);
}

proof fn lemma_fatal_mask(value: u32)
    by (bit_vector)
    ensures
        (value & crate::ufs::regs::UFSHCD_ERROR_MASK != 0) == (bit(value, 2) || bit(value, 7) || bit(
            value,
            11,
        ) || bit(value, 12) || bit(value, 16) || bit(value, 17) || bit(value, 18)),
        value & 0x0f == value % 16,
        value & 0xff == value % 256,
{
}

/// A transfer went well exactly if the low four bits of its status are 0.
pub proof fn law_transfer_status(exchange: Exchange, value: u32)
    requires
        exchange.step is Collect,
    ensures
        exchange.next(value) == (if value % 16 == 0 {
            ExchangeStep::Retire { result: Ok(()) }
        } else {
            ExchangeStep::Dump { error: UfsError::OcsError }
        }),
{
    lemma_fatal_mask(value);
}

/// A link command puts its arguments into 0x94, 0x98 and 0x9C before its number,
/// with bit 8, goes to 0x90.
pub proof fn law_link_command_registers(command: UicCommand, image: Map<Reg, u32>, index: u32)
    requires
        index < 32,
    ensures
        ({
            let ops = command.ops(UicStep::Send);
            let after = script::settle(ops, image);
            &&& after[core_reg(0x94)] == command.arg1
            &&& after[core_reg(0x98)] == command.arg2
            &&& after[core_reg(0x9c)] == command.arg3
            &&& bit(after[core_reg(0x90)], index) == (index == 8 || bit(command.cmd, index))
            &&& ops[4] matches Op::Write { reg, .. } && reg == core_reg(0x90)
            &&& ops[5] matches Op::Poll { reg, mask, value, .. } && reg == core_reg(0x20) && mask
                == value && mask == 1u32 << 10
        }),
{
    broadcast use {bits::group_bits, script::group_settle};

}

/// Attributes are read by command 1, set by 2 and read from the other side by 3;
/// the attribute is the upper half of the first argument, the value the third.
pub proof fn law_attribute_commands(attr: u32, lane: u32, value: u32)
    requires
        attr < 0x1_0000,
        lane < 0x1_0000,
    ensures
        ({
            let set = UicCommand { cmd: 2, arg1: (0x1_0000 * attr) as u32, arg2: 0, arg3: value };
            let at = UicCommand {
                cmd: 2,
                arg1: (0x1_0000 * attr + lane) as u32,
                arg2: 0,
                arg3: value,
            };
            &&& link::must_set(attr, value) == (link::LinkOp::Command {
                command: set,
                tolerated: false,
            })
            &&& link::try_set(attr, value) == (link::LinkOp::Command {
                command: set,
                tolerated: true,
            })
            &&& link::set_lane(attr, lane, value) == (link::LinkOp::Command {
                command: at,
                tolerated: false,
            })
            &&& power::get_plan(attr, false) == seq![
                link::LinkOp::Command {
                    command: UicCommand { cmd: 1, ..UicCommand { arg3: 0, ..set } },
                    tolerated: false,
                },
            ]
            &&& power::get_plan(attr, true) == seq![
                link::LinkOp::Command {
                    command: UicCommand { cmd: 3, ..UicCommand { arg3: 0, ..set } },
                    tolerated: false,
                },
            ]
        }),
{
    crate::ufs::regs::law_selector_parts(attr, lane);
}

/// A link command failed exactly if the low byte of its result is not 0.
pub proof fn law_link_command_status(result: u32)
    ensures
        UicStep::Check.next(Some(result)) == UicNext::Step(
            if result % 256 == 0 {
                UicStep::Fetch
            } else {
                UicStep::Report
            },
        ),
{
    lemma_fatal_mask(result);
}

/// A change of mode sets gear (1583, 1568), lanes (1580, 1560), terminations
/// (1584, 1569) and series (156A) of both directions first, and then the mode
/// itself (1571), which is sixteen times the receiver's and the transmitter's.
pub proof fn law_mode_change(params: PwrModeParams, plan: Vec<link::LinkOp>)
    requires
        params.pwr_rx < 16,
        params.pwr_tx < 16,
        call_ensures(power::config_pwr_mode, (&params,), plan),
    ensures
        plan@[0] == link::try_set(0x1583, params.gear_rx),
        plan@[1] == link::try_set(0x1580, params.lane_rx),
        plan@[2] == link::try_set(0x1584, 1),
        plan@[3] == link::try_set(0x1568, params.gear_tx),
        plan@[4] == link::try_set(0x1560, params.lane_tx),
        plan@[5] == link::try_set(0x1569, 1),
        plan@[6] == link::try_set(0x156a, params.hs_rate),
        plan@[16] == link::must_set(0x1571, (16 * params.pwr_rx + params.pwr_tx) as u32),
{
    let (a, b) = (params.pwr_rx, params.pwr_tx);
    assert((a << 4) | b == 16 * a + b) by (bit_vector)
        requires
            a < 16,
            b < 16,
    ;
}

/// The mode to change to is the fastest that both sides have: its gear is no
/// more than either side's and 3, and is one of these; its lanes no more than
/// the device's and 2, and one of these. There is none exactly if a side is
/// slow, or has no gear or lane.
pub proof fn law_fastest_mode(caps: DeviceCaps, chosen: Option<(u32, u32)>)
    requires
        call_ensures(power::choose_mode, (caps,), chosen),
    ensures
        chosen is None <==> caps.rx.pwr != 1 || caps.tx.pwr != 1 || caps.rx.gear == 0
            || caps.tx.gear == 0 || caps.lanes == 0,
        chosen matches Some((gear, lanes)) ==> {
            &&& gear <= caps.rx.gear && gear <= caps.tx.gear && gear <= 3
            &&& gear == caps.rx.gear || gear == caps.tx.gear || gear == 3
            &&& lanes <= caps.lanes && lanes <= 2
            &&& lanes == caps.lanes || lanes == 2
        },
{
}

/// The modes that are tried: the gear at rate B (2), at rate A (1), and the next
/// lower gear at rate A.
pub proof fn law_tried_modes(gear: u32, attempt: u32, mode: Option<(u32, u32)>)
    requires
        call_ensures(power::candidate_mode, (gear, attempt), mode),
    ensures
        attempt == 0 ==> mode == Some((gear, 2u32)),
        attempt == 1 ==> mode == Some((gear, 1u32)),
        attempt == 2 && gear > 1 ==> mode == Some(((gear - 1) as u32, 1u32)),
        attempt > 2 || (attempt == 2 && gear <= 1) ==> mode is None,
{
}

/// A fast mode has the same gear and lanes in both directions, and both are
/// fast.
pub proof fn law_fast_modes(gear: u32, lanes: u32, rate: u32)
    ensures
        ({
            let params = PwrModeParams::fast(gear, lanes, rate);
            &&& params.gear_rx == gear && params.gear_tx == gear
            &&& params.lane_rx == lanes && params.lane_tx == lanes
            &&& params.pwr_rx == 1 && params.pwr_tx == 1
            &&& params.hs_rate == rate
        }),
{
}

/// A mode that was changed to is the one that was tried. One that was not is
/// given back by a restart of the link, after which the next one is tried.
pub proof fn law_upgrade_reports_the_tried_mode(upgrade: HsUpgrade, outcome: Result<u32, UfsError>)
    requires
        upgrade.wf(),
    ensures
        upgrade.step matches HsStep::Change { gear, lanes, attempt, mode_gear, rate } ==> {
            &&& outcome is Ok ==> upgrade.next(outcome) == (HsStep::Upgraded {
                gear: mode_gear,
                lanes,
                rate,
            })
            &&& outcome is Err ==> upgrade.next(outcome) == (HsStep::Restore {
                gear,
                lanes,
                attempt,
            })
        },
        upgrade.step matches HsStep::Restore { gear, lanes, attempt } ==> {
            &&& outcome is Ok ==> upgrade.next(outcome) == (HsStep::Finish { gear, lanes, attempt })
            &&& outcome is Err ==> upgrade.next(outcome) is Stayed
        },
        upgrade.step matches HsStep::Finish { gear, lanes, attempt } ==> (upgrade.next(
            outcome,
        ) matches HsStep::Change { attempt: again, lanes: same, .. } ==> again == attempt + 1 && same
            == lanes),
        upgrade.step matches HsStep::RxFast { lanes } ==> (outcome is Ok && outcome->Ok_0
            != 0 ==> (upgrade.next(outcome) matches HsStep::TxFast { lanes: same, rx } && same
            == lanes && rx.gear == outcome->Ok_0 && rx.pwr == 1)),
        upgrade.step matches HsStep::RxSlow { lanes } ==> (outcome is Ok && outcome->Ok_0
            != 0 ==> (upgrade.next(outcome) matches HsStep::TxFast { lanes: same, rx } && same
            == lanes && rx.gear == outcome->Ok_0 && rx.pwr == 2)),
{
}

/// The lists of requests are where the controller is told: each address is in
/// the two words of its list (0x50 and 0x54, 0x70 and 0x74), and both lists run
/// (0x80 and 0x60) only after the controller is ready (bits 1 to 3 of 0x30).
pub proof fn law_list_addresses(
    requests: u64,
    tasks: u64,
    plan: Vec<link::LinkOp>,
    low: u32,
    high: u32,
    task_low: u32,
    task_high: u32,
)
    requires
        call_ensures(link::program_transfer_lists, (requests, tasks), plan),
        plan@[1] == link::put(0x50, low),
        plan@[2] == link::put(0x54, high),
        plan@[3] == link::put(0x70, task_low),
        plan@[4] == link::put(0x74, task_high),
    ensures
        0x1_0000_0000 * high + low == requests,
        0x1_0000_0000 * task_high + task_low == tasks,
        plan@[7] matches link::LinkOp::Await { offset, mask, value, .. } && offset == 0x30 && mask
            == value && bit(mask, 1) && bit(mask, 2) && bit(mask, 3) && !bit(mask, 0),
        plan@[8] == link::put(0x80, 1),
        plan@[9] == link::put(0x60, 1),
{
    broadcast use bits::group_bits;

}

/// A flag is raised up to three times; it is then looked at up to a thousand
/// times, 10 ms apart, until it is clear. Errors of the looking end it at once.
pub proof fn law_device_init(init: DevInit, set: bool, error: UfsError)
    requires
        init.wf(),
    ensures
        init matches DevInit::Raise { tries } ==> {
            &&& init.next(Ok(set)) == (DevInit::Read { polls: 0 }, Attempt::Again)
            &&& tries < 2 ==> init.next(Err(error)) == (
                DevInit::Raise { tries: (tries + 1) as u32 },
                Attempt::Again,
            )
            &&& tries == 2 ==> init.next(Err(error)) == (init, Attempt::Done(Err(error)))
        },
        init matches DevInit::Read { polls } ==> {
            &&& init.next(Ok(false)) == (init, Attempt::Done(Ok(())))
            &&& init.next(Err(error)) == (init, Attempt::Done(Err(error)))
            &&& polls < 999 ==> init.next(Ok(true)) == (
                DevInit::Read { polls: (polls + 1) as u32 },
                Attempt::Wait { ms: 10 },
            )
            &&& polls == 999 ==> init.next(Ok(true)) == (
                init,
                Attempt::GiveUp { ms: 10, error: UfsError::Other(Failure::InitTimeout) },
            )
        },
{
}

/// A query (16) carries its function (81 to set a flag, 01 to read one) in byte
/// 5, its operation in byte 12 and the flag in byte 13.
pub proof fn law_query_messages(idn: u8, set: [u8; 512], read: [u8; 512])
    requires
        call_ensures(transfer::query_flag, (0x06u8, idn), set),
        call_ensures(transfer::query_flag, (0x05u8, idn), read),
    ensures
        set@[0] == 0x16 && read@[0] == 0x16,
        set@[5] == 0x81 && read@[5] == 0x01,
        set@[12] == 0x06 && read@[12] == 0x05,
        set@[13] == idn && read@[13] == idn,
{
}

/// The flag is the lowest bit of byte 23 of the answer (36).
pub proof fn law_query_answers(response: [u8; 512], flag: Result<bool, UfsError>)
    requires
        call_ensures(transfer::query_result, (&response,), flag),
    ensures
        flag is Ok <==> response@[0] == 0x36,
        flag matches Ok(set) ==> set == (response@[23] % 2 == 1),
{
}

/// Interrupts by three cells: a shared one (0) counts from 32, a private one (1)
/// from 16, and any other as it is; by one or two cells the first is the number.
pub proof fn law_interrupt_numbers(cells: Seq<u32>)
    ensures
        cells.len() == 3 ==> host::irq_of(cells) == Some(cells[1] + (if cells[0] == 0 {
            32int
        } else if cells[0] == 1 {
            16
        } else {
            0
        })),
        cells.len() == 1 || cells.len() == 2 ==> host::irq_of(cells) == Some(cells[0] as int),
        cells.len() == 0 || cells.len() > 3 ==> host::irq_of(cells) is None,
{
}

/// The plans in numbers: the power-up of the PHY, the timers by the clock in
/// MHz, the restart of the controller and the start of the link.
pub proof fn law_bring_up_plans(clock_freq: u32, timers: Vec<link::LinkOp>)
    requires
        call_ensures(link::link_startup_pre, (clock_freq,), timers),
    ensures
        ({
            let phy = link::mphy_plan();
            let restart = link::host_plan();
            let start = link::startup_plan();
            &&& phy[0] == link::put(0x1b00, 0x003)
            &&& phy[1] == link::put(0x1b04, 0x87f) && phy[2] == link::put(0x1b04, 0xb7f)
            &&& phy[4] == link::put(0x1b04, 0x87f) && phy[5] == link::put(0x1b0c, 0x101)
            &&& phy[8] == link::put(0x1b08, 1) && phy[9] == link::put(0x1f08, 0x40) && phy[10]
                == link::put(0x1b08, 0)
            &&& timers@[0] == link::put(0xd8, 0xffff_fff0)
            &&& timers@[1] == link::put(0xc0, clock_freq / 1_000_000)
            &&& timers@[2] == link::put(0xc4, 0x800)
            &&& restart[2] == link::put(0x34, 0) && restart[4] == link::put(0x34, 1)
            &&& start[0] == (link::LinkOp::Command {
                command: UicCommand { cmd: 0x16, arg1: 0, arg2: 0, arg3: 0 },
                tolerated: false,
            })
            &&& start[1] matches link::LinkOp::Await { offset, attempts, interval_us, .. } && offset
                == 0x30 && attempts == 1000 && interval_us == 1000
        }),
{
}

} // verus!
