//! State of the UFS host, and requests to it.

use vstd::prelude::*;
use crate::block::BlkError;
use crate::ufs::desc;
use crate::ufs::desc::{fill_prdt, DataDirection, Prdt, Utrd};

verus! {

/// Binding of the controller.
pub const COMPATIBLE: &'static str = "spacemit,k3-ufshcd";

/// Reference clock of the PHY.
pub const DEFAULT_K3_UFS_CLOCK_HZ: u32 = 491_520_000;

/// Size of the register window if the device tree does not give one.
pub const DEFAULT_K3_UFS_MMIO_SIZE: u64 = 0x40000;

/// A UFS host.
#[derive(Clone, Copy, Debug, PartialEq, Eq, Structural)]
pub struct K3UfsHost {
    pub clock_freq: u32,
    /// Transfer slots of the controller.
    pub nutrs: usize,
    /// The unit that commands go to.
    pub active_lun: u8,
    pub num_blocks: u64,
    pub block_size: usize,
    /// Counts the slots given out for input and output.
    pub next_io_slot: usize,
    /// Recovery has failed; no more transfers are made.
    pub fatal: bool,
}

/// What kind of message is sent. The last slot is kept for messages about the
/// device itself.
#[derive(Clone, Copy, Debug, PartialEq, Eq, Structural)]
pub enum UpiuSlotKind {
    DevCmd,
    ScsiIo,
}

/// The slot that a count stands for.
pub open spec fn io_slot(nutrs: usize, counter: usize) -> int {
    counter as int % io_slots(nutrs)
}

/// The slots for input and output: all but the last, and at least one.
pub open spec fn io_slots(nutrs: usize) -> int {
    if nutrs <= 2 {
        1
    } else {
        nutrs - 1
    }
}

/// The count after another; after the highest comes 0.
pub open spec fn following(counter: usize) -> usize {
    if counter == usize::MAX {
        0
    } else {
        (counter + 1) as usize
    }
}

/// What is written to memory before a transfer.
#[derive(Debug)]
pub struct SlotImage {
    /// The message.
    pub command: [u8; 512],
    /// The transfer descriptor.
    pub utrd: Utrd,
    /// The first region entry. The others, and the place for the response, are
    /// zero.
    pub prdt: Prdt,
}

/// The transfer descriptor of a slot.
pub open spec fn slot_utrd(ucd_base: u64, slot: usize, dir: DataDirection, regions: u16) -> Utrd {
    let ucd = ucd_base + slot * desc::UCD_SLOT_SIZE;
    Utrd {
        dw0: (0x1100_0000 + dir.field() * 0x200_0000) as u32,
        dw1: 0,
        dw2: desc::OCS_INVALID_COMMAND_STATUS,
        dw3: 0,
        ucdba: (ucd % 0x1_0000_0000) as u32,
        ucdbau: (ucd / 0x1_0000_0000) as u32,
        rul: 128,
        ruo: 128,
        prdtl: regions,
        prdto: 256,
    }
}

impl K3UfsHost {
    /// A host before its bring-up.
    pub fn new() -> (host: K3UfsHost)
        ensures
            host == (K3UfsHost {
                clock_freq: DEFAULT_K3_UFS_CLOCK_HZ,
                nutrs: 0,
                active_lun: 0,
                num_blocks: 0,
                block_size: 512,
                next_io_slot: 0,
                fatal: false,
            }),
    {
        K3UfsHost {
            clock_freq: DEFAULT_K3_UFS_CLOCK_HZ,
            nutrs: 0,
            active_lun: 0,
            num_blocks: 0,
            block_size: 512,
            next_io_slot: 0,
            fatal: false,
        }
    }

    /// Takes the number of slots from the capabilities of the controller.
    pub fn setup_transfer_lists(&mut self, cap: u32)
        ensures
            *final(self) == (K3UfsHost { nutrs: (cap % 32 + 1) as usize, ..*old(self) }),
            1 <= final(self).nutrs <= desc::UFSHCI_NUM_SLOTS,
    {
        self.nutrs = (cap % 32 + 1) as usize;
    }

    /// The slot for input and output that a count stands for, and the next
    /// count. The slots go round, and the last one is left out.
    pub fn next_io_slot(nutrs: usize, counter: usize) -> (result: (usize, usize))
        ensures
            result.0 == io_slot(nutrs, counter),
            result.1 == following(counter),
            nutrs > 1 ==> result.0 < nutrs - 1,
    {
        let less: usize = nutrs.saturating_sub(1);
        let n: usize = if less > 1 {
            less
        } else {
            1
        };
        let slot: usize = counter % n;
        let next: usize = if counter == usize::MAX {
            0
        } else {
            counter + 1
        };
        (slot, next)
    }

    /// Gives out a slot for input and output.
    pub fn alloc_io_slot(&mut self) -> (slot: usize)
        requires
            old(self).nutrs > 1,
        ensures
            slot == io_slot(old(self).nutrs, old(self).next_io_slot),
            slot < old(self).nutrs - 1,
            *final(self) == (K3UfsHost {
                next_io_slot: following(old(self).next_io_slot),
                ..*old(self)
            }),
    {
        let (slot, next) = K3UfsHost::next_io_slot(self.nutrs, self.next_io_slot);
        self.next_io_slot = next;
        slot
    }

    /// The slot for messages about the device.
    #[verifier::allow_in_spec]
    pub fn reserved_slot(&self) -> (slot: usize)
        returns
            (if self.nutrs == 0 {
                0
            } else {
                (self.nutrs - 1) as usize
            }),
    {
        self.nutrs.saturating_sub(1)
    }

    /// What is to be written to memory for a transfer: the message with the
    /// slot as its tag, and the descriptors. `ucd_base` is the address of the
    /// command descriptors; `data` gives address and length of the data.
    pub fn prepare_slot(
        upiu: &[u8; 512],
        data: Option<(u64, u32)>,
        data_dir: DataDirection,
        slot: usize,
        ucd_base: u64,
    ) -> (image: SlotImage)
        requires
            slot < desc::UFSHCI_NUM_SLOTS,
            ucd_base + desc::UFSHCI_NUM_SLOTS * desc::UCD_SLOT_SIZE <= u64::MAX,
            data matches Some((_, len)) ==> 1 <= len <= desc::PRDT_MAX_BYTES,
        ensures
            image.command@ == upiu@.update(3, slot as u8),
            match data {
                Some((addr, len)) => image.prdt == desc::region(addr, len) && image.utrd
                    == slot_utrd(ucd_base, slot, data_dir, 1),
                None => image.prdt == (Prdt { dba: 0, dbau: 0, reserved: 0, dbc: 0 }) && image.utrd
                    == slot_utrd(ucd_base, slot, data_dir, 0),
            },
    {
        let mut command: [u8; 512] = *upiu;
        command[3] = slot as u8;
        let mut prdt = Prdt { dba: 0, dbau: 0, reserved: 0, dbc: 0 };
        let ucd: u64 = ucd_base + (slot * desc::UCD_SLOT_SIZE) as u64;
        let mut utrd = Utrd {
            dw0: data_dir.dw0(),
            dw1: 0,
            dw2: desc::OCS_INVALID_COMMAND_STATUS,
            dw3: 0,
            ucdba: (ucd % 0x1_0000_0000) as u32,
            ucdbau: (ucd / 0x1_0000_0000) as u32,
            rul: (desc::UCD_RESPONSE_UPIU_SIZE / 4) as u16,
            ruo: (desc::UCD_COMMAND_UPIU_SIZE / 4) as u16,
            prdtl: 0,
            prdto: (desc::UCD_PRDT_OFFSET / 4) as u16,
        };
        if let Some((addr, len)) = data {
            fill_prdt(&mut prdt, addr, len);
            utrd.prdtl = 1;
        }
        SlotImage { command, utrd, prdt }
    }
}

/// A request in blocks of the device.
#[derive(Clone, Copy, Debug, PartialEq, Eq, Structural)]
pub struct BlockRequest {
    pub lba: u32,
    pub num_blocks: u16,
}

/// A buffer of `len` bytes from block `block_id` on makes a request: it is a
/// whole number of blocks, at least one, that the command can address and that
/// the device has.
pub open spec fn acceptable(host: K3UfsHost, block_id: u64, len: usize) -> bool {
    &&& len as int / host.block_size as int >= 1
    &&& len as int % host.block_size as int == 0
    &&& block_id <= u32::MAX
    &&& len as int / host.block_size as int <= u16::MAX
    &&& block_id + len as int / host.block_size as int <= host.num_blocks
}

impl K3UfsHost {
    /// Checks a request to read or write `len` bytes from block `block_id` on.
    pub fn check_request(&self, block_id: u64, len: usize) -> (result: Result<
        BlockRequest,
        BlkError,
    >)
        requires
            self.block_size > 0,
        ensures
            match result {
                Ok(request) => {
                    &&& acceptable(*self, block_id, len)
                    &&& request.lba == block_id
                    &&& request.num_blocks == len as int / self.block_size as int
                },
                Err(error) => !acceptable(*self, block_id, len)
                    && error is InvalidRequest,
            },
    {
        let num_blocks: usize = len / self.block_size;
        if num_blocks == 0 || len % self.block_size != 0 {
            return Err(BlkError::InvalidRequest);
        }
        if block_id > u32::MAX as u64 || num_blocks > u16::MAX as usize {
            return Err(BlkError::InvalidRequest);
        }
        if block_id + num_blocks as u64 > self.num_blocks {
            return Err(BlkError::InvalidRequest);
        }
        Ok(BlockRequest { lba: block_id as u32, num_blocks: num_blocks as u16 })
    }
}

/// The interrupt that a specifier stands for. One cell or two give the number
/// itself; of three, the first tells where the second counts from.
pub open spec fn irq_of(specifier: Seq<u32>) -> Option<int> {
    if specifier.len() == 1 || specifier.len() == 2 {
        Some(specifier[0] as int)
    } else if specifier.len() == 3 {
        if specifier[0] == 0 {
            Some(specifier[1] + 32)
        } else if specifier[0] == 1 {
            Some(specifier[1] + 16)
        } else {
            Some(specifier[1] as int)
        }
    } else {
        None
    }
}

/// The first interrupt of a node, if it has one that can be understood. Each
/// interrupt is given by the cells of its specifier.
pub fn decode_fdt_irq(interrupts: &Vec<Vec<u32>>) -> (irq: Option<usize>)
    requires
        interrupts@.len() > 0 && interrupts@[0]@.len() == 3 ==> interrupts@[0]@[1] + 32
            <= usize::MAX,
    ensures
        (match irq {
            Some(number) => Some(number as int),
            None => None,
        }) == (if interrupts@.len() == 0 {
            None
        } else {
            irq_of(interrupts@[0]@)
        }),
{
    if interrupts.len() == 0 {
        return None;
    }
    let specifier = &interrupts[0];
    if specifier.len() == 1 || specifier.len() == 2 {
        Some(specifier[0] as usize)
    } else if specifier.len() == 3 {
        if specifier[0] == 0 {
            Some(specifier[1] as usize + 32)
        } else if specifier[0] == 1 {
            Some(specifier[1] as usize + 16)
        } else {
            Some(specifier[1] as usize)
        }
    } else {
        None
    }
}

/// Input and output never get the slot that is kept for messages about the
/// device, whatever the count.
pub proof fn law_io_slots_spare_the_reserved_one(host: K3UfsHost, counter: usize)
    requires
        host.nutrs > 1,
    ensures
        0 <= io_slot(host.nutrs, counter) < host.reserved_slot(),
{
    vstd::arithmetic::div_mod::lemma_mod_bound(counter as int, io_slots(host.nutrs));
}

/// As long as the count does not wrap, slots that are given out in a row are
/// different, until all were given out.
pub proof fn law_io_slots_rotate(nutrs: usize, counter: usize, ahead: usize)
    requires
        0 < ahead < io_slots(nutrs),
        counter + ahead <= usize::MAX,
    ensures
        io_slot(nutrs, counter) != io_slot(nutrs, (counter + ahead) as usize),
{
    let n = io_slots(nutrs);
    let a = counter as int;
    let b = a + ahead;
    if a % n == b % n {
        vstd::arithmetic::div_mod::lemma_fundamental_div_mod(a, n);
        vstd::arithmetic::div_mod::lemma_fundamental_div_mod(b, n);
        let d = b / n - a / n;
        assert(n * (b / n) - n * (a / n) == n * d) by (nonlinear_arith)
            requires
                d == b / n - a / n,
        ;
        assert(n * d == ahead);
        assert(false) by (nonlinear_arith)
            requires
                n * d == ahead,
                0 < ahead < n,
        ;
    }
}

/// An accepted request lies within the device.
pub proof fn law_accepted_requests_fit(host: K3UfsHost, block_id: u64, len: usize)
    requires
        host.block_size > 0,
        acceptable(host, block_id, len),
    ensures
        len > 0,
        block_id * host.block_size + len <= host.num_blocks * host.block_size,
{
    let size = host.block_size as int;
    let count = len as int / size;
    vstd::arithmetic::div_mod::lemma_fundamental_div_mod(len as int, size);
    assert(block_id * size + size * count <= host.num_blocks * size) by (nonlinear_arith)
        requires
            block_id + count <= host.num_blocks,
            size > 0,
    ;
    assert(len > 0) by (nonlinear_arith)
        requires
            len == size * count,
            size > 0,
            count >= 1,
    ;
}

} // verus!
