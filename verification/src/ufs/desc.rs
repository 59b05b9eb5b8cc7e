//! Transfer descriptors and the messages in them.

use vstd::prelude::*;

verus! {

/// Command type of every transfer.
pub const UTP_CMD_TYPE_UFS_STORAGE: u8 = 0x01;

pub const UTP_CMD_TYPE_SHIFT: u32 = 28;
pub const UTP_TRANSFER_REQ_DATA_DIR_SHIFT: u32 = 25;
pub const UTP_TRANSFER_REQ_INT_SHIFT: u32 = 24;
pub const UTP_DATA_DIR_NONE: u32 = 0x00;
pub const UTP_DATA_DIR_TO_DEVICE: u32 = 0x01;
pub const UTP_DATA_DIR_TO_HOST: u32 = 0x02;

/// Status field of a transfer, and what it holds before the transfer.
pub const OCS_MASK: u32 = 0x0F;
pub const OCS_INVALID_COMMAND_STATUS: u32 = 0x0F;

/// Transfer slots.
pub const UFSHCI_NUM_SLOTS: usize = 32;

/// Bytes that one region entry can describe.
pub const PRDT_MAX_BYTES: u32 = 0x10_0000;

/// Layout of the command descriptor of a slot.
pub const UCD_COMMAND_UPIU_SIZE: usize = 512;
pub const UCD_RESPONSE_UPIU_SIZE: usize = 512;
pub const UCD_PRDT_OFFSET: usize = 1024;
pub const UCD_SLOT_SIZE: usize = 3072;

/// Size of the transfer descriptor of a slot.
pub const UTRD_SIZE: usize = 32;

// Kinds of message.
pub const UPIU_TRANSACTION_NOP_OUT: u8 = 0x00;
pub const UPIU_TRANSACTION_COMMAND: u8 = 0x01;
pub const UPIU_TRANSACTION_NOP_IN: u8 = 0x20;
pub const UPIU_TRANSACTION_RESPONSE: u8 = 0x21;
pub const UPIU_TRANSACTION_QUERY_REQ: u8 = 0x16;
pub const UPIU_TRANSACTION_QUERY_RSP: u8 = 0x36;

// Direction of the data of a command.
pub const UPIU_CMD_FLAGS_NONE: u8 = 0x00;
pub const UPIU_CMD_FLAGS_READ: u8 = 0x40;
pub const UPIU_CMD_FLAGS_WRITE: u8 = 0x20;

// Queries.
pub const UPIU_QUERY_OPCODE_READ_FLAG: u8 = 0x5;
pub const UPIU_QUERY_OPCODE_SET_FLAG: u8 = 0x6;
pub const UPIU_QUERY_FUNC_STANDARD_READ_REQUEST: u8 = 0x01;
pub const UPIU_QUERY_FUNC_STANDARD_WRITE_REQUEST: u8 = 0x81;
pub const QUERY_FLAG_IDN_FDEVICEINIT: u8 = 0x01;

/// Where the data of a transfer goes.
#[derive(Clone, Copy, Debug, PartialEq, Eq, Structural)]
pub enum DataDirection {
    /// There is none.
    NoData,
    ToDevice,
    ToHost,
}

impl DataDirection {
    /// The direction field.
    pub open spec fn field(self) -> u32 {
        match self {
            DataDirection::NoData => UTP_DATA_DIR_NONE,
            DataDirection::ToDevice => UTP_DATA_DIR_TO_DEVICE,
            DataDirection::ToHost => UTP_DATA_DIR_TO_HOST,
        }
    }

    /// The direction field.
    fn dt_field(self) -> (field: u32)
        ensures
            field == self.field(),
    {
        match self {
            DataDirection::NoData => UTP_DATA_DIR_NONE,
            DataDirection::ToDevice => UTP_DATA_DIR_TO_DEVICE,
            DataDirection::ToHost => UTP_DATA_DIR_TO_HOST,
        }
    }

    /// The first word of a transfer descriptor: command type, direction, and
    /// the request to report the end.
    pub fn dw0(self) -> (word: u32)
        ensures
            word == 0x1100_0000 + self.field() * 0x200_0000,
    {
        let field: u32 = self.dt_field();
        assert(field <= 2 ==> ((1u32 << 28) | (field << 25) | (1u32 << 24)) == 0x1100_0000 + field
            * 0x200_0000) by (bit_vector);
        ((UTP_CMD_TYPE_UFS_STORAGE as u32) << UTP_CMD_TYPE_SHIFT) | (field
            << UTP_TRANSFER_REQ_DATA_DIR_SHIFT) | (1u32 << UTP_TRANSFER_REQ_INT_SHIFT)
    }
}

/// Transfer descriptor.
#[derive(Clone, Copy, Debug, PartialEq, Eq, Structural)]
pub struct Utrd {
    pub dw0: u32,
    pub dw1: u32,
    pub dw2: u32,
    pub dw3: u32,
    /// Address of the command descriptor.
    pub ucdba: u32,
    pub ucdbau: u32,
    /// Length and place of the response, in words.
    pub rul: u16,
    pub ruo: u16,
    /// Number and place of the region entries, in words.
    pub prdtl: u16,
    pub prdto: u16,
}

/// Region entry: where the data of a transfer lies.
#[derive(Clone, Copy, Debug, PartialEq, Eq, Structural)]
pub struct Prdt {
    pub dba: u32,
    pub dbau: u32,
    pub reserved: u32,
    /// Number of bytes, less one.
    pub dbc: u32,
}

/// The entry for some bytes at an address.
pub open spec fn region(dma_addr: u64, byte_count: u32) -> Prdt {
    Prdt {
        dba: (dma_addr % 0x1_0000_0000) as u32,
        dbau: (dma_addr / 0x1_0000_0000) as u32,
        reserved: 0,
        dbc: (byte_count - 1) as u32,
    }
}

/// Fills a region entry.
pub fn fill_prdt(prdt: &mut Prdt, dma_addr: u64, byte_count: u32)
    requires
        1 <= byte_count <= PRDT_MAX_BYTES,
    ensures
        *final(prdt) == region(dma_addr, byte_count),
{
    prdt.dba = (dma_addr % 0x1_0000_0000) as u32;
    prdt.dbau = (dma_addr / 0x1_0000_0000) as u32;
    prdt.reserved = 0;
    prdt.dbc = byte_count - 1;
}

/// The status of a transfer, from the word of its descriptor that holds it.
#[verifier::allow_in_spec]
pub fn utrd_ocs(dw2: u32) -> (ocs: u32)
    returns
        dw2 & OCS_MASK,
{
    dw2 & OCS_MASK
}

/// Byte `i` of the four bytes of a number, most significant byte first.
pub open spec fn be_byte(value: u32, i: int) -> u8 {
    if i == 0 {
        (value / 0x100_0000) as u8
    } else if i == 1 {
        (value / 0x1_0000 % 0x100) as u8
    } else if i == 2 {
        (value / 0x100 % 0x100) as u8
    } else {
        (value % 0x100) as u8
    }
}

/// The message that asks whether the device is there.
pub open spec fn nop_upiu(task_tag: u8) -> Seq<u8> {
    Seq::new(
        512,
        |i: int|
            if i == 3 {
                task_tag
            } else {
                0
            },
    )
}

/// The message that reads or sets a flag of the device.
pub open spec fn query_upiu(task_tag: u8, query_func: u8, opcode: u8, idn: u8) -> Seq<u8> {
    Seq::new(
        512,
        |i: int|
            if i == 0 {
                UPIU_TRANSACTION_QUERY_REQ
            } else if i == 3 {
                task_tag
            } else if i == 5 {
                query_func
            } else if i == 12 {
                opcode
            } else if i == 13 {
                idn
            } else {
                0
            },
    )
}

/// The message that carries a command to a unit. Of the command, the first 16
/// bytes are sent.
pub open spec fn scsi_upiu(
    task_tag: u8,
    lun: u8,
    flags: u8,
    cdb: Seq<u8>,
    exp_len: u32,
) -> Seq<u8> {
    Seq::new(
        512,
        |i: int|
            if i == 0 {
                UPIU_TRANSACTION_COMMAND
            } else if i == 1 {
                flags
            } else if i == 2 {
                lun
            } else if i == 3 {
                task_tag
            } else if 12 <= i < 16 {
                be_byte(exp_len, i - 12)
            } else if 16 <= i < 32 && i - 16 < cdb.len() {
                cdb[i - 16]
            } else {
                0
            },
    )
}

/// Builds the message that asks whether the device is there.
pub fn build_nop_upiu(upiu: &mut [u8; 512], task_tag: u8)
    ensures
        final(upiu)@ == nop_upiu(task_tag),
{
    *upiu = [0u8;512];
    upiu[0] = UPIU_TRANSACTION_NOP_OUT;
    upiu[3] = task_tag;
    assert(upiu@ =~= nop_upiu(task_tag));
}

/// Builds the message that reads or sets a flag of the device.
pub fn build_query_upiu(upiu: &mut [u8; 512], task_tag: u8, query_func: u8, opcode: u8, idn: u8)
    ensures
        final(upiu)@ == query_upiu(task_tag, query_func, opcode, idn),
{
    *upiu = [0u8;512];
    upiu[0] = UPIU_TRANSACTION_QUERY_REQ;
    upiu[3] = task_tag;
    upiu[5] = query_func;
    upiu[12] = opcode;
    upiu[13] = idn;
    assert(upiu@ =~= query_upiu(task_tag, query_func, opcode, idn));
}

/// Builds the message that carries a command to a unit.
pub fn build_scsi_upiu(
    upiu: &mut [u8; 512],
    task_tag: u8,
    lun: u8,
    flags: u8,
    cdb: &[u8],
    exp_len: u32,
)
    ensures
        final(upiu)@ == scsi_upiu(task_tag, lun, flags, cdb@, exp_len),
{
    *upiu = [0u8;512];
    upiu[0] = UPIU_TRANSACTION_COMMAND;
    upiu[1] = flags;
    upiu[2] = lun;
    upiu[3] = task_tag;
    upiu[12] = (exp_len / 0x100_0000) as u8;
    upiu[13] = (exp_len / 0x1_0000 % 0x100) as u8;
    upiu[14] = (exp_len / 0x100 % 0x100) as u8;
    upiu[15] = (exp_len % 0x100) as u8;
    let cdb_len: usize = if cdb.len() < 16 {
        cdb.len()
    } else {
        16
    };
    let ghost header = upiu@;
    for i in 0..cdb_len
        invariant
            cdb_len <= 16,
            cdb_len <= cdb@.len(),
            upiu@.len() == 512,
            header.len() == 512,
            forall|j: int|
                0 <= j < 512 ==> upiu@[j] == (if 16 <= j < 16 + i {
                    cdb@[j - 16]
                } else {
                    header[j]
                }),
    {
        upiu[16 + i] = cdb[i];
    }
    assert(upiu@ =~= scsi_upiu(task_tag, lun, flags, cdb@, exp_len));
}

/// The number of bytes is found again in a region entry, and so is the address.
pub proof fn law_region_describes_buffer(dma_addr: u64, byte_count: u32)
    requires
        1 <= byte_count <= PRDT_MAX_BYTES,
    ensures
        region(dma_addr, byte_count).dbc + 1 == byte_count,
        region(dma_addr, byte_count).dbau * 0x1_0000_0000 + region(dma_addr, byte_count).dba
            == dma_addr,
        region(dma_addr, byte_count).dbc < 0x10_0000,
{
}

} // verus!
