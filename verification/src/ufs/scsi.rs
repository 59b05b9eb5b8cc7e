//! Commands to the units of the device.
//!
//! A command is built here, sent by the caller, and its answer is understood
//! here. [`LunScan`](crate::ufs::scan::LunScan) builds on it.

use vstd::prelude::*;
use crate::ufs::desc;
use crate::ufs::desc::{build_scsi_upiu, DataDirection};
use crate::ufs::error::{Failure, UfsError};
use crate::ufs::host::K3UfsHost;

verus! {

// Commands.
pub const SCSI_TEST_UNIT_READY: u8 = 0x00;
pub const SCSI_REQUEST_SENSE: u8 = 0x03;
pub const SCSI_INQUIRY: u8 = 0x12;
pub const SCSI_READ_CAPACITY_10: u8 = 0x25;
pub const SCSI_READ_10: u8 = 0x28;
pub const SCSI_WRITE_10: u8 = 0x2A;
pub const SCSI_SERVICE_ACTION_IN_16: u8 = 0x9E;
pub const SCSI_REPORT_LUNS: u8 = 0xA0;
pub const SAI_READ_CAPACITY_16: u8 = 0x10;

// Status codes.
pub const SAM_STAT_GOOD: u8 = 0x00;
pub const SAM_STAT_CHECK_CONDITION: u8 = 0x02;

// Sense keys.
pub const SCSI_SENSE_NOT_READY: u8 = 0x02;
pub const SCSI_SENSE_ILLEGAL_REQUEST: u8 = 0x05;
pub const SCSI_SENSE_UNIT_ATTENTION: u8 = 0x06;

pub const SCSI_REPORT_LUNS_ALLOC_LEN: usize = 4096;
pub const SCSI_INQUIRY_ALLOC_LEN: u8 = 36;
pub const REQUEST_SENSE_ALLOC_LEN: u8 = 18;

/// The number in the four bytes from `at` on, most significant byte first.
pub open spec fn be32(data: Seq<u8>, at: int) -> int {
    data[at] * 0x100_0000 + data[at + 1] * 0x1_0000 + data[at + 2] * 0x100 + data[at + 3]
}

/// The number in the eight bytes from `at` on, most significant byte first.
pub open spec fn be64(data: Seq<u8>, at: int) -> int {
    be32(data, at) * 0x1_0000_0000 + be32(data, at + 4)
}

/// The number in the four bytes from `at` on.
pub fn read_be32(data: &[u8], at: usize) -> (value: u32)
    requires
        at + 4 <= data@.len(),
    ensures
        value == be32(data@, at as int),
{
    data[at] as u32 * 0x100_0000 + data[at + 1] as u32 * 0x1_0000 + data[at + 2] as u32 * 0x100
        + data[at + 3] as u32
}

/// A command without arguments.
pub open spec fn plain_cdb(opcode: u8) -> Seq<u8> {
    Seq::new(
        16,
        |i: int|
            if i == 0 {
                opcode
            } else {
                0
            },
    )
}

/// A command with a one-byte allocation length.
pub open spec fn short_cdb(opcode: u8, alloc_len: u8) -> Seq<u8> {
    Seq::new(
        16,
        |i: int|
            if i == 0 {
                opcode
            } else if i == 4 {
                alloc_len
            } else {
                0
            },
    )
}

/// The command that asks for the capacity. Only the long form has a service
/// action and an allocation length.
pub open spec fn capacity_cdb(opcode: u8, service_action: u8, alloc_len: u32) -> Seq<u8> {
    Seq::new(
        16,
        |i: int|
            if i == 0 {
                opcode
            } else if opcode == SCSI_SERVICE_ACTION_IN_16 && i == 1 {
                service_action
            } else if opcode == SCSI_SERVICE_ACTION_IN_16 && 10 <= i < 14 {
                desc::be_byte(alloc_len, i - 10)
            } else {
                0
            },
    )
}

/// The command that lists the units.
pub open spec fn report_cdb(alloc_len: u32) -> Seq<u8> {
    Seq::new(
        16,
        |i: int|
            if i == 0 {
                SCSI_REPORT_LUNS
            } else if 6 <= i < 10 {
                desc::be_byte(alloc_len, i - 6)
            } else {
                0
            },
    )
}

/// The command that reads or writes blocks.
pub open spec fn block_cdb(opcode: u8, lba: u32, num_blocks: u16) -> Seq<u8> {
    Seq::new(
        16,
        |i: int|
            if i == 0 {
                opcode
            } else if 2 <= i < 6 {
                desc::be_byte(lba, i - 2)
            } else if i == 7 {
                (num_blocks / 256) as u8
            } else if i == 8 {
                (num_blocks % 256) as u8
            } else {
                0
            },
    )
}

/// Builds the command that asks for the capacity.
pub fn build_read_capacity_cdb(opcode: u8, service_action: u8, alloc_len: u32) -> (cdb: [u8; 16])
    ensures
        cdb@ == capacity_cdb(opcode, service_action, alloc_len),
{
    let mut cdb: [u8; 16] = [0u8;16];
    cdb[0] = opcode;
    if opcode == SCSI_SERVICE_ACTION_IN_16 {
        cdb[1] = service_action;
        cdb[10] = (alloc_len / 0x100_0000) as u8;
        cdb[11] = (alloc_len / 0x1_0000 % 0x100) as u8;
        cdb[12] = (alloc_len / 0x100 % 0x100) as u8;
        cdb[13] = (alloc_len % 0x100) as u8;
    }
    assert(cdb@ =~= capacity_cdb(opcode, service_action, alloc_len));
    cdb
}

/// Builds a command with a one-byte allocation length.
fn build_short_cdb(opcode: u8, alloc_len: u8) -> (cdb: [u8; 16])
    ensures
        cdb@ == short_cdb(opcode, alloc_len),
{
    let mut cdb: [u8; 16] = [0u8;16];
    cdb[0] = opcode;
    cdb[4] = alloc_len;
    assert(cdb@ =~= short_cdb(opcode, alloc_len));
    cdb
}

/// Builds the command that reads or writes blocks.
fn build_block_cdb(opcode: u8, lba: u32, num_blocks: u16) -> (cdb: [u8; 16])
    ensures
        cdb@ == block_cdb(opcode, lba, num_blocks),
{
    let mut cdb: [u8; 16] = [0u8;16];
    cdb[0] = opcode;
    cdb[2] = (lba / 0x100_0000) as u8;
    cdb[3] = (lba / 0x1_0000 % 0x100) as u8;
    cdb[4] = (lba / 0x100 % 0x100) as u8;
    cdb[5] = (lba % 0x100) as u8;
    cdb[7] = (num_blocks / 256) as u8;
    cdb[8] = (num_blocks % 256) as u8;
    assert(cdb@ =~= block_cdb(opcode, lba, num_blocks));
    cdb
}

/// Number of blocks and block size in the answer to a capacity command. The
/// answer to the long form begins with an eight-byte address. A device whose
/// last block has the highest address counts as having one block less.
pub open spec fn capacity_of(data: Seq<u8>, alloc_len: u32) -> (u64, u32) {
    let last = if alloc_len >= 32 {
        be64(data, 0)
    } else {
        be32(data, 0)
    };
    (
        if last < u64::MAX {
            (last + 1) as u64
        } else {
            u64::MAX
        },
        (if alloc_len >= 32 {
            be32(data, 8)
        } else {
            be32(data, 4)
        }) as u32,
    )
}

/// Number of blocks and block size in the answer to a capacity command.
pub fn parse_capacity(data: &[u8; 32], alloc_len: u32) -> (capacity: (u64, u32))
    ensures
        capacity == capacity_of(data@, alloc_len),
{
    let bytes = data.as_slice();
    let last_lba: u64 = if alloc_len >= 32 {
        read_be32(bytes, 0) as u64 * 0x1_0000_0000 + read_be32(bytes, 4) as u64
    } else {
        read_be32(bytes, 0) as u64
    };
    let block_size: u32 = if alloc_len >= 32 {
        read_be32(bytes, 8)
    } else {
        read_be32(bytes, 4)
    };
    (last_lba.saturating_add(1), block_size)
}

/// The number belongs to a well-known unit, which holds no data.
pub open spec fn well_known(scsi_lun: u64) -> bool {
    scsi_lun / 256 % 256 == 0xC1
}

/// The number of a unit in messages.
pub open spec fn unit_number(scsi_lun: u64) -> u8 {
    if well_known(scsi_lun) {
        (scsi_lun % 128 + 128) as u8
    } else {
        (scsi_lun % 128) as u8
    }
}

/// Two bytes of a unit address.
pub open spec fn lun_pair(lun: Seq<u8>, pair: int) -> int {
    if 2 * pair + 1 < lun.len() {
        lun[2 * pair] * 256 + lun[2 * pair + 1]
    } else {
        0
    }
}

/// The number that a unit address stands for: its four pairs of bytes, the
/// first of which counts least.
pub open spec fn lun_number(lun: Seq<u8>) -> int {
    lun_pair(lun, 0) + lun_pair(lun, 1) * 0x1_0000 + lun_pair(lun, 2) * 0x1_0000_0000 + lun_pair(
        lun,
        3,
    ) * 0x1_0000_0000_0000
}

/// Sense data: key, code and qualifier.
pub open spec fn fixed_sense(sense: Seq<u8>) -> Option<(u8, u8, u8)> {
    if sense.len() >= 14 && (sense[0] % 128 == 0x70 || sense[0] % 128 == 0x71) {
        Some(((sense[2] % 16) as u8, sense[12], sense[13]))
    } else {
        None
    }
}

/// The sense data in a response, whose length is in bytes 32 and 33.
pub open spec fn response_sense(response: Seq<u8>) -> Option<(u8, u8, u8)> {
    let len = response[32] * 256 + response[33];
    if len == 0 {
        None
    } else {
        fixed_sense(
            response.subrange(
                34,
                if 34 + len <= 512 {
                    34 + len
                } else {
                    512
                },
            ),
        )
    }
}

/// The sense data says that the command is worth another try.
pub open spec fn transient(sense: Option<(u8, u8, u8)>) -> bool {
    sense matches Some((key, _, _)) && (key == SCSI_SENSE_UNIT_ATTENTION || key
        == SCSI_SENSE_NOT_READY)
}

/// The units that an answer lists, or why it cannot be used.
pub open spec fn listed_luns(data: Seq<u8>) -> Option<Seq<u64>> {
    let len = be32(data, 0);
    if len == 0 || len + 8 > SCSI_REPORT_LUNS_ALLOC_LEN || len % 8 != 0 {
        None
    } else {
        Some(
            Seq::new(
                (len / 8) as nat,
                |i: int| lun_number(data.subrange(8 + 8 * i, 16 + 8 * i)) as u64,
            ),
        )
    }
}

/// The second block begins a partition table.
pub open spec fn gpt_signature(block1: Seq<u8>) -> bool {
    block1.len() >= 8 && block1.take(8) == seq![
        0x45u8,
        0x46u8,
        0x49u8,
        0x20u8,
        0x50u8,
        0x41u8,
        0x52u8,
        0x54u8,
    ]
}

/// The first block ends with the mark of a partition table.
pub open spec fn mbr_signature(block0: Seq<u8>) -> bool {
    block0.len() >= 512 && block0[510] == 0x55 && block0[511] == 0xaa
}

/// A command and its data.
#[derive(Clone, Copy, Debug)]
pub struct ScsiRequest {
    pub cdb: [u8; 16],
    pub data_len: u32,
    pub direction: DataDirection,
}

impl ScsiRequest {
    /// The command asks for data from the device.
    pub open spec fn reads(&self, cdb: Seq<u8>, data_len: u32) -> bool {
        self.cdb@ == cdb && self.data_len == data_len && self.direction is ToHost
    }

    /// The flags of the message that carries the command.
    pub open spec fn flags(&self) -> u8 {
        match self.direction {
            DataDirection::NoData => desc::UPIU_CMD_FLAGS_NONE,
            DataDirection::ToHost => desc::UPIU_CMD_FLAGS_READ,
            DataDirection::ToDevice => desc::UPIU_CMD_FLAGS_WRITE,
        }
    }

    /// The message that carries the command to a unit.
    pub fn message(&self, lun: u8) -> (upiu: [u8; 512])
        ensures
            upiu@ == desc::scsi_upiu(0, lun, self.flags(), self.cdb@, self.data_len),
    {
        let flags: u8 = match self.direction {
            DataDirection::NoData => desc::UPIU_CMD_FLAGS_NONE,
            DataDirection::ToHost => desc::UPIU_CMD_FLAGS_READ,
            DataDirection::ToDevice => desc::UPIU_CMD_FLAGS_WRITE,
        };
        let mut upiu: [u8; 512] = [0u8;512];
        build_scsi_upiu(&mut upiu, 0, lun, flags, self.cdb.as_slice(), self.data_len);
        upiu
    }
}

/// What a command came to.
#[derive(Clone, Copy, Debug, PartialEq, Eq)]
pub enum CommandEnd {
    /// It was not answered.
    Failed(UfsError),
    /// It was carried out.
    Good,
    /// It was refused, with the sense data of the response.
    Check(Option<(u8, u8, u8)>),
    /// It ended with another status.
    Bad,
}

/// What a command came to, for its response.
pub open spec fn command_end(response: Seq<u8>) -> CommandEnd {
    if response[0] != desc::UPIU_TRANSACTION_RESPONSE {
        CommandEnd::Failed(UfsError::Other(Failure::ScsiInvalid))
    } else if response[7] == SAM_STAT_GOOD {
        CommandEnd::Good
    } else if response[7] == SAM_STAT_CHECK_CONDITION {
        CommandEnd::Check(response_sense(response))
    } else {
        CommandEnd::Bad
    }
}

/// What a command came to: `Err` if it was not answered.
pub fn classify_response(outcome: Result<&[u8; 512], UfsError>) -> (end: CommandEnd)
    ensures
        end == (match outcome {
            Ok(response) => command_end(response@),
            Err(error) => CommandEnd::Failed(error),
        }),
{
    match outcome {
        Ok(response) => {
            if response[0] != desc::UPIU_TRANSACTION_RESPONSE {
                CommandEnd::Failed(UfsError::Other(Failure::ScsiInvalid))
            } else if response[7] == SAM_STAT_GOOD {
                CommandEnd::Good
            } else if response[7] == SAM_STAT_CHECK_CONDITION {
                CommandEnd::Check(K3UfsHost::sense_from_response(response))
            } else {
                CommandEnd::Bad
            }
        },
        Err(error) => CommandEnd::Failed(error),
    }
}

impl K3UfsHost {
    /// Whether a number belongs to a well-known unit.
    pub fn is_wlun(scsi_lun: u64) -> (result: bool)
        ensures
            result == well_known(scsi_lun),
    {
        scsi_lun / 256 % 256 == 0xC1
    }

    /// The number of a unit in messages.
    pub fn scsi_to_upiu_lun(scsi_lun: u64) -> (lun: u8)
        ensures
            lun == unit_number(scsi_lun),
    {
        if K3UfsHost::is_wlun(scsi_lun) {
            (scsi_lun % 128 + 128) as u8
        } else {
            (scsi_lun % 128) as u8
        }
    }

    /// The number that a unit address stands for.
    pub fn scsilun_to_int(lun: &[u8]) -> (value: u64)
        ensures
            value == lun_number(lun@),
    {
        let mut value: u64 = 0;
        if lun.len() >= 2 {
            value = lun[0] as u64 * 256 + lun[1] as u64;
        }
        if lun.len() >= 4 {
            value = value + (lun[2] as u64 * 256 + lun[3] as u64) * 0x1_0000;
        }
        if lun.len() >= 6 {
            value = value + (lun[4] as u64 * 256 + lun[5] as u64) * 0x1_0000_0000;
        }
        if lun.len() >= 8 {
            value = value + (lun[6] as u64 * 256 + lun[7] as u64) * 0x1_0000_0000_0000;
        }
        value
    }

    /// Whether the first block ends with the mark of a partition table.
    pub fn has_partition_signature(block0: &[u8]) -> (result: bool)
        ensures
            result == mbr_signature(block0@),
    {
        block0.len() >= 512 && block0[510] == 0x55 && block0[511] == 0xaa
    }

    /// Whether the second block begins a partition table.
    pub fn has_gpt_signature(block1: &[u8]) -> (result: bool)
        ensures
            result == gpt_signature(block1@),
    {
        let result = block1.len() >= 8 && block1[0] == 0x45 && block1[1] == 0x46 && block1[2]
            == 0x49 && block1[3] == 0x20 && block1[4] == 0x50 && block1[5] == 0x41 && block1[6]
            == 0x52 && block1[7] == 0x54;
        proof {
            let mark = seq![
                0x45u8,
                0x46u8,
                0x49u8,
                0x20u8,
                0x50u8,
                0x41u8,
                0x52u8,
                0x54u8,
            ];
            if result {
                assert(block1@.take(8) =~= mark);
            }
            if block1@.len() >= 8 && block1@.take(8) == mark {
                assert forall|i: int| 0 <= i < 8 implies block1@[i] == mark[i] by {
                    assert(block1@[i] == block1@.take(8)[i]);
                }
            }
        }
        result
    }

    /// Key, code and qualifier of sense data in the fixed format.
    pub fn decode_fixed_sense(sense: &[u8]) -> (decoded: Option<(u8, u8, u8)>)
        ensures
            decoded == fixed_sense(sense@),
    {
        if sense.len() < 14 {
            return None;
        }
        let response_code: u8 = sense[0] % 128;
        if response_code != 0x70 && response_code != 0x71 {
            return None;
        }
        Some((sense[2] % 16, sense[12], sense[13]))
    }

    /// The sense data in a response.
    pub fn sense_from_response(response: &[u8; 512]) -> (decoded: Option<(u8, u8, u8)>)
        ensures
            decoded == response_sense(response@),
    {
        let sense_len: usize = response[32] as usize * 256 + response[33] as usize;
        if sense_len == 0 {
            return None;
        }
        let sense_end: usize = if 34 + sense_len <= 512 {
            34 + sense_len
        } else {
            512
        };
        K3UfsHost::decode_fixed_sense(
            vstd::slice::slice_subrange(response.as_slice(), 34, sense_end),
        )
    }

    /// Whether sense data says that the command is worth another try.
    pub fn sense_is_retryable(sense: Option<(u8, u8, u8)>) -> (result: bool)
        ensures
            result == transient(sense),
    {
        match sense {
            Some((key, _, _)) => key == SCSI_SENSE_UNIT_ATTENTION || key == SCSI_SENSE_NOT_READY,
            None => false,
        }
    }

    /// Asks whether the unit is ready.
    pub fn test_unit_ready() -> (request: ScsiRequest)
        ensures
            request.cdb@ == plain_cdb(SCSI_TEST_UNIT_READY),
            request.data_len == 0,
            request.direction is NoData,
    {
        let mut cdb: [u8; 16] = [0u8;16];
        cdb[0] = SCSI_TEST_UNIT_READY;
        assert(cdb@ =~= plain_cdb(SCSI_TEST_UNIT_READY));
        ScsiRequest { cdb, data_len: 0, direction: DataDirection::NoData }
    }

    /// Asks for the sense data of a refused command.
    pub fn request_sense() -> (request: ScsiRequest)
        ensures
            request.reads(
                short_cdb(SCSI_REQUEST_SENSE, REQUEST_SENSE_ALLOC_LEN),
                REQUEST_SENSE_ALLOC_LEN as u32,
            ),
    {
        ScsiRequest {
            cdb: build_short_cdb(SCSI_REQUEST_SENSE, REQUEST_SENSE_ALLOC_LEN),
            data_len: REQUEST_SENSE_ALLOC_LEN as u32,
            direction: DataDirection::ToHost,
        }
    }

    /// Asks what the unit is.
    pub fn scsi_inquiry() -> (request: ScsiRequest)
        ensures
            request.reads(
                short_cdb(SCSI_INQUIRY, SCSI_INQUIRY_ALLOC_LEN),
                SCSI_INQUIRY_ALLOC_LEN as u32,
            ),
    {
        ScsiRequest {
            cdb: build_short_cdb(SCSI_INQUIRY, SCSI_INQUIRY_ALLOC_LEN),
            data_len: SCSI_INQUIRY_ALLOC_LEN as u32,
            direction: DataDirection::ToHost,
        }
    }

    /// Asks for the capacity in the short form.
    pub fn scsi_read_capacity_10() -> (request: ScsiRequest)
        ensures
            request.reads(capacity_cdb(SCSI_READ_CAPACITY_10, 0, 8), 8),
    {
        ScsiRequest {
            cdb: build_read_capacity_cdb(SCSI_READ_CAPACITY_10, 0, 8),
            data_len: 8,
            direction: DataDirection::ToHost,
        }
    }

    /// Asks for the capacity in the long form.
    pub fn scsi_read_capacity_16() -> (request: ScsiRequest)
        ensures
            request.reads(capacity_cdb(SCSI_SERVICE_ACTION_IN_16, SAI_READ_CAPACITY_16, 32), 32),
    {
        ScsiRequest {
            cdb: build_read_capacity_cdb(SCSI_SERVICE_ACTION_IN_16, SAI_READ_CAPACITY_16, 32),
            data_len: 32,
            direction: DataDirection::ToHost,
        }
    }

    /// Asks for the list of units.
    pub fn report_luns() -> (request: ScsiRequest)
        ensures
            request.reads(
                report_cdb(SCSI_REPORT_LUNS_ALLOC_LEN as u32),
                SCSI_REPORT_LUNS_ALLOC_LEN as u32,
            ),
    {
        let mut cdb: [u8; 16] = [0u8;16];
        let alloc_len: u32 = SCSI_REPORT_LUNS_ALLOC_LEN as u32;
        cdb[0] = SCSI_REPORT_LUNS;
        cdb[6] = (alloc_len / 0x100_0000) as u8;
        cdb[7] = (alloc_len / 0x1_0000 % 0x100) as u8;
        cdb[8] = (alloc_len / 0x100 % 0x100) as u8;
        cdb[9] = (alloc_len % 0x100) as u8;
        assert(cdb@ =~= report_cdb(alloc_len));
        ScsiRequest { cdb, data_len: alloc_len, direction: DataDirection::ToHost }
    }

    /// The units that an answer lists.
    pub fn parse_luns(data: &[u8]) -> (result: Result<Vec<u64>, UfsError>)
        requires
            data@.len() == SCSI_REPORT_LUNS_ALLOC_LEN,
        ensures
            match result {
                Ok(luns) => listed_luns(data@) == Some(luns@),
                Err(error) => listed_luns(data@) is None && error == UfsError::Other(
                    Failure::ReportLunsInvalid,
                ),
            },
    {
        let list_len: usize = read_be32(data, 0) as usize;
        if list_len == 0 || list_len > SCSI_REPORT_LUNS_ALLOC_LEN - 8 || list_len % 8 != 0 {
            return Err(UfsError::Other(Failure::ReportLunsInvalid));
        }
        let mut luns: Vec<u64> = Vec::new();
        let count: usize = list_len / 8;
        for i in 0..count
            invariant
                data@.len() == SCSI_REPORT_LUNS_ALLOC_LEN,
                count * 8 + 8 <= SCSI_REPORT_LUNS_ALLOC_LEN,
                luns@.len() == i,
                forall|j: int|
                    0 <= j < i ==> luns@[j] == lun_number(
                        #[trigger] data@.subrange(8 + 8 * j, 16 + 8 * j),
                    ),
        {
            let entry = vstd::slice::slice_subrange(data, 8 + 8 * i, 16 + 8 * i);
            luns.push(K3UfsHost::scsilun_to_int(entry));
        }
        proof {
            let found = listed_luns(data@).unwrap();
            assert(luns@.len() == found.len());
            assert forall|j: int| 0 <= j < found.len() implies luns@[j] == found[j] by {
                let entry = data@.subrange(8 + 8 * j, 16 + 8 * j);
                assert(luns@[j] == lun_number(entry));
            }
            assert(luns@ =~= found);
        }
        Ok(luns)
    }

    /// Bytes that a number of blocks takes.
    pub open spec fn transfer_len(self, num_blocks: u16) -> int {
        num_blocks * self.block_size
    }

    /// Reads blocks into a buffer of `buffer_len` bytes.
    pub fn scsi_read_10(&self, lba: u32, num_blocks: u16, buffer_len: usize) -> (result: Result<
        ScsiRequest,
        UfsError,
    >)
        requires
            self.transfer_len(num_blocks) <= u32::MAX,
            self.block_size <= u32::MAX,
        ensures
            match result {
                Ok(request) => buffer_len >= self.transfer_len(num_blocks) && request.reads(
                    block_cdb(SCSI_READ_10, lba, num_blocks),
                    self.transfer_len(num_blocks) as u32,
                ),
                Err(error) => buffer_len < self.transfer_len(num_blocks) && error
                    == UfsError::Other(Failure::BufferTooSmall),
            },
    {
        let transfer_len: u32 = num_blocks as u32 * self.block_size as u32;
        if buffer_len < transfer_len as usize {
            return Err(UfsError::Other(Failure::BufferTooSmall));
        }
        Ok(
            ScsiRequest {
                cdb: build_block_cdb(SCSI_READ_10, lba, num_blocks),
                data_len: transfer_len,
                direction: DataDirection::ToHost,
            },
        )
    }

    /// Writes blocks from a buffer of `buffer_len` bytes.
    pub fn scsi_write_10(&self, lba: u32, num_blocks: u16, buffer_len: usize) -> (result: Result<
        ScsiRequest,
        UfsError,
    >)
        requires
            self.transfer_len(num_blocks) <= u32::MAX,
            self.block_size <= u32::MAX,
        ensures
            match result {
                Ok(request) => {
                    &&& buffer_len >= self.transfer_len(num_blocks)
                    &&& request.cdb@ == block_cdb(SCSI_WRITE_10, lba, num_blocks)
                    &&& request.data_len == self.transfer_len(num_blocks)
                    &&& request.direction is ToDevice
                },
                Err(error) => buffer_len < self.transfer_len(num_blocks) && error
                    == UfsError::Other(Failure::BufferTooSmall),
            },
    {
        let transfer_len: u32 = num_blocks as u32 * self.block_size as u32;
        if buffer_len < transfer_len as usize {
            return Err(UfsError::Other(Failure::BufferTooSmall));
        }
        Ok(
            ScsiRequest {
                cdb: build_block_cdb(SCSI_WRITE_10, lba, num_blocks),
                data_len: transfer_len,
                direction: DataDirection::ToDevice,
            },
        )
    }

    /// What reading or writing blocks came to, for what its command came to.
    pub fn block_result(end: CommandEnd, write: bool) -> (result: Result<(), UfsError>)
        ensures
            result == (match end {
                CommandEnd::Good => Ok::<(), UfsError>(()),
                CommandEnd::Failed(error) => if error == UfsError::Other(Failure::ScsiInvalid) {
                    Err(UfsError::Other(block_failure(write)))
                } else {
                    Err(error)
                },
                _ => Err(UfsError::Other(block_failure(write))),
            }),
    {
        let failure = if write {
            Failure::WriteFailed
        } else {
            Failure::ReadFailed
        };
        match end {
            CommandEnd::Good => Ok(()),
            CommandEnd::Failed(error) => match error {
                UfsError::Other(Failure::ScsiInvalid) => Err(UfsError::Other(failure)),
                _ => Err(error),
            },
            _ => Err(UfsError::Other(failure)),
        }
    }
}

/// The failure of a read or write.
pub open spec fn block_failure(write: bool) -> Failure {
    if write {
        Failure::WriteFailed
    } else {
        Failure::ReadFailed
    }
}

/// The number of a unit address with only its first two bytes used is those
/// two bytes, most significant byte first; the second one gives the number of
/// the unit in messages.
pub proof fn law_simple_unit_addresses(lun: Seq<u8>)
    requires
        lun.len() == 8,
        forall|i: int| 2 <= i < 8 ==> lun[i] == 0,
    ensures
        lun_number(lun) == lun[0] * 256 + lun[1],
        well_known(lun_number(lun) as u64) <==> lun[0] == 0xC1,
        unit_number(lun_number(lun) as u64) == (if lun[0] == 0xC1 {
            lun[1] % 128 + 128
        } else {
            (lun[1] % 128) as int
        }),
{
}

} // verus!
