//! Incoming message-signalled interrupt controller (IMSIC).
//!
//! Each hart has a page per interrupt file: one for itself and one for each
//! guest. Writing an interrupt identity to a page makes it pending there. The
//! files of the own hart are controlled through indirect registers.

use vstd::prelude::*;

verus! {

/// Size of an interrupt file.
pub const PAGE_SIZE: usize = 4096;

/// Indirect register that turns delivery on.
pub const EIDELIVERY: u32 = 0x70;
/// Indirect register with the priority threshold.
pub const EITHRESHOLD: u32 = 0x72;
/// First word of the enable bitmap.
pub const EIE0: u32 = 0xC0;
/// Identities in one word of a bitmap.
pub const BITS_PER_REG: u32 = 32;

/// Identity that stands for an inter-processor interrupt.
pub const IPI_EIID: u32 = 0;

/// How the interrupt files are laid out in memory.
#[derive(Clone, Copy, Debug, PartialEq, Eq, Structural)]
pub struct ImsicGeometry {
    /// Address of the first interrupt file.
    pub base_addr: usize,
    pub hart_index_bits: u32,
    pub guest_index_bits: u32,
    pub group_index_bits: u32,
    pub group_index_shift: u32,
    /// Number of interrupt identities.
    pub num_ids: u32,
}

/// Two to the power of `bits`.
pub open spec fn pow2(bits: u32) -> nat {
    vstd::arithmetic::power2::pow2(bits as nat)
}

impl ImsicGeometry {
    /// The files of a hart fit in memory.
    pub open spec fn stride_fits(&self) -> bool {
        self.guest_index_bits + 12 < usize::BITS
    }

    /// Distance between the files of neighbouring harts.
    pub open spec fn stride(&self) -> int {
        pow2(self.guest_index_bits) * PAGE_SIZE
    }

    /// The address of an interrupt file.
    pub open spec fn file_addr(&self, hart_index: u32, guest_index: u32) -> int {
        self.base_addr + hart_index * self.stride() + guest_index * PAGE_SIZE
    }

    /// The number of the page where the span of all files begins.
    pub open spec fn base_page(&self) -> int {
        (self.base_addr as int / pow2((self.guest_index_bits + self.hart_index_bits + 12) as u32)
            as int) * pow2((self.guest_index_bits + self.hart_index_bits) as u32)
    }

    /// Distance between the files of neighbouring harts: a page for each value
    /// of the guest index.
    pub fn hart_stride(&self) -> (stride: usize)
        requires
            self.stride_fits(),
        ensures
            stride == self.stride(),
    {
        proof {
            lemma_page_shift(self.guest_index_bits);
        }
        (1usize << self.guest_index_bits) * PAGE_SIZE
    }

    /// How many harts there can be.
    pub fn max_harts(&self) -> (harts: u32)
        requires
            self.hart_index_bits < 32,
        ensures
            harts == pow2(self.hart_index_bits),
    {
        proof {
            vstd::bits::lemma_u32_pow2_no_overflow(self.hart_index_bits as nat);
            vstd::bits::lemma_u32_shl_is_mul(1, self.hart_index_bits);
        }
        1u32 << self.hart_index_bits
    }
}

proof fn lemma_page_shift(bits: u32)
    requires
        bits + 12 < usize::BITS,
    ensures
        1usize << bits == pow2(bits),
        pow2(bits) * PAGE_SIZE <= usize::MAX,
        pow2(bits) * PAGE_SIZE == vstd::arithmetic::power2::pow2((bits + 12) as nat),
        pow2(bits) > 0,
{
    vstd::bits::lemma_usize_pow2_no_overflow(bits as nat);
    vstd::bits::lemma_usize_pow2_no_overflow((bits + 12) as nat);
    vstd::arithmetic::power2::lemma_pow2_adds(bits as nat, 12);
    vstd::arithmetic::power2::lemma2_to64();
    vstd::bits::lemma_usize_shl_is_mul(1, bits as usize);
}

/// A message: the address to write to and the word to write.
#[derive(Clone, Copy, Debug, PartialEq, Eq, Structural)]
pub struct MsiMessage {
    pub address: usize,
    pub data: u32,
}

/// The address of an interrupt file.
pub fn interrupt_file_addr(geo: &ImsicGeometry, hart_index: u32, guest_index: u32) -> (addr: usize)
    requires
        geo.stride_fits(),
        geo.file_addr(hart_index, guest_index) <= usize::MAX,
    ensures
        addr == geo.file_addr(hart_index, guest_index),
{
    let stride: usize = geo.hart_stride();
    proof {
        assert(0 <= hart_index * geo.stride()) by (nonlinear_arith)
            requires
                geo.stride() >= 0,
        ;
    }
    geo.base_addr + (hart_index as usize) * stride + (guest_index as usize) * PAGE_SIZE
}

/// The message that makes an identity pending in an interrupt file.
pub fn compose_msi_message(
    geo: &ImsicGeometry,
    hart_index: u32,
    guest_index: u32,
    eiid: u32,
) -> (message: MsiMessage)
    requires
        geo.stride_fits(),
        geo.file_addr(hart_index, guest_index) <= usize::MAX,
    ensures
        message.address == geo.file_addr(hart_index, guest_index),
        message.data == eiid,
{
    MsiMessage { address: interrupt_file_addr(geo, hart_index, guest_index), data: eiid }
}

/// The page number of the first interrupt file, with the hart and guest index
/// bits cleared.
pub fn group_base_ppn(geo: &ImsicGeometry) -> (ppn: u64)
    requires
        geo.guest_index_bits + geo.hart_index_bits + 12 < usize::BITS,
    ensures
        ppn == geo.base_page(),
{
    let index_bits: u32 = geo.guest_index_bits + geo.hart_index_bits;
    let size: usize = 1usize << (index_bits + 12);
    proof {
        let n = (index_bits + 12) as nat;
        vstd::bits::lemma_usize_pow2_no_overflow(n);
        vstd::bits::lemma_usize_shl_is_mul(1, n as usize);
        assert(size == vstd::arithmetic::power2::pow2(n));
    }
    let mask: usize = !(size - 1);
    let start: usize = geo.base_addr & mask;
    proof {
        let base = geo.base_addr;
        let low: usize = (size - 1) as usize;
        let n = (index_bits + 12) as nat;
        let p = vstd::arithmetic::power2::pow2(n) as int;
        let q = vstd::arithmetic::power2::pow2(index_bits as nat) as int;
        vstd::bits::lemma_usize_low_bits_mask_is_mod(base, n);
        assert(base & low == base as int % p);
        assert((base & !low) + (base & low) == base) by (bit_vector);
        vstd::arithmetic::div_mod::lemma_fundamental_div_mod(base as int, p);
        assert(start == p * (base as int / p));
        vstd::arithmetic::power2::lemma_pow2_adds(index_bits as nat, 12);
        vstd::arithmetic::power2::lemma2_to64();
        assert(p == q * 4096);
        let k = base as int / p;
        assert(start == (k * q) * 4096) by (nonlinear_arith)
            requires
                start == p * k,
                p == q * 4096,
        ;
        let wide = start as u64;
        assert(wide >> 12 == wide / 4096) by (bit_vector);
    }
    (start as u64) >> 12
}

/// The identity and the priority in a claimed interrupt; 0 stands for none.
pub fn parse_stopei(raw: u32) -> (claimed: Option<(u32, u32)>)
    ensures
        claimed == (if raw == 0 {
            None::<(u32, u32)>
        } else {
            Some(((raw % 0x1_0000) as u32, (raw / 0x1_0000) as u32))
        }),
{
    proof {
        crate::bits::lemma_bytes(raw, 0);
    }
    if raw == 0 {
        None
    } else {
        Some((raw & 0xFFFF, raw >> 16))
    }
}

/// An access to the registers of the own hart.
#[derive(Clone, Copy, Debug, PartialEq, Eq, Structural)]
pub enum CsrOp {
    /// Choose the indirect register that the accesses after it go to.
    Select { register: u32 },
    /// Write the chosen register.
    Write { value: u64 },
    /// Write the chosen register back with bits set.
    SetBits { bits: u64 },
    /// Write the chosen register back with bits cleared.
    ClearBits { bits: u64 },
    /// Write the claim register, which completes the claimed interrupt.
    Complete { claimed: u32 },
}

/// The word pair of the enable bitmap with identity `eiid`. On a 64-bit hart
/// two words form one register, which has the number of the first.
pub open spec fn enable_register(eiid: u32) -> u32 {
    (EIE0 + (eiid / 64) * 2) as u32
}

/// The accesses that make the own interrupt file ready: delivery on, no
/// threshold, every identity disabled.
pub open spec fn init_ops(num_ids: u32) -> Seq<CsrOp> {
    seq![
        CsrOp::Select { register: EIDELIVERY },
        CsrOp::Write { value: 1 },
        CsrOp::Select { register: EITHRESHOLD },
        CsrOp::Write { value: 0 },
    ] + disable_pairs(((num_ids + 63) / 64) as nat)
}

/// The accesses that disable the identities of the first `count` word pairs.
pub open spec fn disable_pairs(count: nat) -> Seq<CsrOp>
    decreases count,
{
    if count == 0 {
        Seq::empty()
    } else {
        disable_pairs((count - 1) as nat).push(
            CsrOp::Select { register: (EIE0 + (count - 1) * 2) as u32 },
        ).push(CsrOp::Write { value: 0 })
    }
}

/// Makes the own interrupt file ready.
pub fn init_local_file(num_ids: u32) -> (ops: Vec<CsrOp>)
    ensures
        ops@ == init_ops(num_ids),
{
    let mut ops: Vec<CsrOp> = Vec::new();
    ops.push(CsrOp::Select { register: EIDELIVERY });
    ops.push(CsrOp::Write { value: 1 });
    ops.push(CsrOp::Select { register: EITHRESHOLD });
    ops.push(CsrOp::Write { value: 0 });
    let ghost head = ops@;
    let per_pair: u32 = BITS_PER_REG * 2;
    let pairs: u32 = num_ids / per_pair + (if num_ids % per_pair != 0 {
        1u32
    } else {
        0
    });
    assert(pairs == (num_ids + 63) / 64);
    assert(ops@ =~= head + disable_pairs(0));
    for i in 0..pairs
        invariant
            pairs <= 0x400_0000,
            ops@ == head + disable_pairs(i as nat),
    {
        ops.push(CsrOp::Select { register: EIE0 + i * 2 });
        ops.push(CsrOp::Write { value: 0 });
        assert(ops@ =~= head + disable_pairs((i + 1) as nat));
    }
    ops
}

/// Enables an identity. The one for inter-processor interrupts is not enabled
/// this way.
pub fn enable_eid(eiid: u32) -> (ops: Vec<CsrOp>)
    requires
        eiid != IPI_EIID,
    ensures
        ops@ == seq![
            CsrOp::Select { register: enable_register(eiid) },
            CsrOp::SetBits { bits: 1u64 << (eiid % 64) },
        ],
{
    let mut ops: Vec<CsrOp> = Vec::new();
    ops.push(CsrOp::Select { register: EIE0 + (eiid / 64) * 2 });
    ops.push(CsrOp::SetBits { bits: 1u64 << (eiid % 64) });
    ops
}

/// Disables an identity.
pub fn disable_eid(eiid: u32) -> (ops: Vec<CsrOp>)
    ensures
        ops@ == seq![
            CsrOp::Select { register: enable_register(eiid) },
            CsrOp::ClearBits { bits: 1u64 << (eiid % 64) },
        ],
{
    let mut ops: Vec<CsrOp> = Vec::new();
    ops.push(CsrOp::Select { register: EIE0 + (eiid / 64) * 2 });
    ops.push(CsrOp::ClearBits { bits: 1u64 << (eiid % 64) });
    ops
}

/// The interrupt that a read of the claim register returned.
pub fn claim(raw: u32) -> (claimed: Option<(u32, u32)>)
    ensures
        claimed == (if raw == 0 {
            None::<(u32, u32)>
        } else {
            Some(((raw % 0x1_0000) as u32, (raw / 0x1_0000) as u32))
        }),
{
    parse_stopei(raw)
}

/// Completes a claimed interrupt.
pub fn complete_stopei(val: u32) -> (op: CsrOp)
    ensures
        op == (CsrOp::Complete { claimed: val }),
{
    CsrOp::Complete { claimed: val }
}

/// The message that interrupts the hart with the given interrupt file.
pub fn send_ipi(target_file_addr: usize) -> (message: MsiMessage)
    ensures
        message == (MsiMessage { address: target_file_addr, data: IPI_EIID }),
{
    MsiMessage { address: target_file_addr, data: IPI_EIID }
}

/// The registers of a hart: which one is chosen, and what they hold.
pub type Registers = (u32, Map<u32, u64>);

/// The registers after an access.
pub open spec fn access(registers: Registers, op: CsrOp) -> Registers {
    let (chosen, values) = registers;
    match op {
        CsrOp::Select { register } => (register, values),
        CsrOp::Write { value } => (chosen, values.insert(chosen, value)),
        CsrOp::SetBits { bits } => (chosen, values.insert(chosen, values[chosen] | bits)),
        CsrOp::ClearBits { bits } => (chosen, values.insert(chosen, values[chosen] & !bits)),
        CsrOp::Complete { .. } => registers,
    }
}

/// The registers after accesses in turn.
pub open spec fn access_all(registers: Registers, ops: Seq<CsrOp>) -> Registers
    decreases ops.len(),
{
    if ops.len() == 0 {
        registers
    } else {
        access(access_all(registers, ops.drop_last()), ops.last())
    }
}

/// An identity is enabled.
pub open spec fn is_enabled(registers: Registers, eiid: u32) -> bool {
    registers.1[enable_register(eiid)] & (1u64 << (eiid % 64)) != 0
}

proof fn lemma_two_accesses(registers: Registers, first: Seq<CsrOp>, op: CsrOp, then_op: CsrOp)
    ensures
        access_all(registers, first.push(op).push(then_op)) == access(
            access(access_all(registers, first), op),
            then_op,
        ),
{
    reveal_with_fuel(access_all, 3);
    assert(first.push(op).push(then_op).drop_last() =~= first.push(op));
    assert(first.push(op).drop_last() =~= first);
}

proof fn lemma_pairs_are_cleared(registers: Registers, head: Seq<CsrOp>, count: nat)
    requires
        count <= 0x400_0000,
    ensures
        ({
            let after = access_all(registers, head + disable_pairs(count)).1;
            &&& forall|pair: int|
                0 <= pair < count ==> #[trigger] after[(EIE0 + pair * 2) as u32] == 0
            &&& forall|register: u32|
                register < EIE0 ==> #[trigger] after[register] == access_all(registers, head).1[register]
        }),
    decreases count,
{
    if count == 0 {
        assert(head + disable_pairs(0) =~= head);
    } else {
        let less = (count - 1) as nat;
        lemma_pairs_are_cleared(registers, head, less);
        let choice = CsrOp::Select { register: (EIE0 + less * 2) as u32 };
        let write = CsrOp::Write { value: 0 };
        assert(head + disable_pairs(count) =~= (head + disable_pairs(less)).push(choice).push(
            write,
        ));
        lemma_two_accesses(registers, head + disable_pairs(less), choice, write);
    }
}

/// Making the interrupt file ready turns delivery on, takes the threshold away
/// and leaves every identity disabled.
pub proof fn law_init_disables_every_identity(registers: Registers, num_ids: u32, eiid: u32)
    requires
        eiid < num_ids,
    ensures
        ({
            let after = access_all(registers, init_ops(num_ids));
            &&& !is_enabled(after, eiid)
            &&& after.1[EIDELIVERY] == 1
            &&& after.1[EITHRESHOLD] == 0
        }),
{
    let head = seq![
        CsrOp::Select { register: EIDELIVERY },
        CsrOp::Write { value: 1 },
        CsrOp::Select { register: EITHRESHOLD },
        CsrOp::Write { value: 0 },
    ];
    let none = Seq::<CsrOp>::empty();
    lemma_two_accesses(registers, none, head[0], head[1]);
    lemma_two_accesses(registers, none.push(head[0]).push(head[1]), head[2], head[3]);
    assert(head =~= none.push(head[0]).push(head[1]).push(head[2]).push(head[3]));
    let count = ((num_ids + 63) / 64) as nat;
    lemma_pairs_are_cleared(registers, head, count);
    let pair = eiid as int / 64;
    assert(pair < count);
    let after = access_all(registers, init_ops(num_ids));
    assert(after.1[(EIE0 + pair * 2) as u32] == 0);
    let bit = 1u64 << (eiid % 64);
    assert(0u64 & bit == 0) by (bit_vector);
}

/// Enabling an identity enables it and touches no other.
pub proof fn law_enabling_affects_one_identity(registers: Registers, eiid: u32, other: u32)
    ensures
        ({
            let after = access_all(
                registers,
                seq![
                    CsrOp::Select { register: enable_register(eiid) },
                    CsrOp::SetBits { bits: 1u64 << (eiid % 64) },
                ],
            );
            &&& is_enabled(after, eiid)
            &&& other != eiid ==> is_enabled(after, other) == is_enabled(registers, other)
        }),
{
    let choice = CsrOp::Select { register: enable_register(eiid) };
    let change = CsrOp::SetBits { bits: 1u64 << (eiid % 64) };
    let none = Seq::<CsrOp>::empty();
    assert(seq![choice, change] =~= none.push(choice).push(change));
    lemma_two_accesses(registers, none, choice, change);
    let value = registers.1[enable_register(eiid)];
    let a = eiid % 64;
    let b = other % 64;
    assert((value | (1u64 << a)) & (1u64 << a) != 0 && (a != b ==> (value | (1u64 << a)) & (1u64
        << b) == value & (1u64 << b))) by (bit_vector)
        requires
            a < 64,
            b < 64,
    ;
}

/// Disabling an identity disables it and touches no other.
pub proof fn law_disabling_affects_one_identity(registers: Registers, eiid: u32, other: u32)
    ensures
        ({
            let after = access_all(
                registers,
                seq![
                    CsrOp::Select { register: enable_register(eiid) },
                    CsrOp::ClearBits { bits: 1u64 << (eiid % 64) },
                ],
            );
            &&& !is_enabled(after, eiid)
            &&& other != eiid ==> is_enabled(after, other) == is_enabled(registers, other)
        }),
{
    let choice = CsrOp::Select { register: enable_register(eiid) };
    let change = CsrOp::ClearBits { bits: 1u64 << (eiid % 64) };
    let none = Seq::<CsrOp>::empty();
    assert(seq![choice, change] =~= none.push(choice).push(change));
    lemma_two_accesses(registers, none, choice, change);
    let value = registers.1[enable_register(eiid)];
    let a = eiid % 64;
    let b = other % 64;
    assert((value & !(1u64 << a)) & (1u64 << a) == 0 && (a != b ==> (value & !(1u64 << a)) & (1u64
        << b) == value & (1u64 << b))) by (bit_vector)
        requires
            a < 64,
            b < 64,
    ;
}

/// No two interrupt files overlap.
pub proof fn law_interrupt_files_are_disjoint(
    geo: ImsicGeometry,
    hart: u32,
    guest: u32,
    other_hart: u32,
    other_guest: u32,
)
    requires
        guest < pow2(geo.guest_index_bits),
        other_guest < pow2(geo.guest_index_bits),
        hart < other_hart || (hart == other_hart && guest < other_guest),
    ensures
        geo.file_addr(hart, guest) + PAGE_SIZE <= geo.file_addr(other_hart, other_guest),
{
    let s = pow2(geo.guest_index_bits) as int;
    if hart < other_hart {
        assert(hart * (s * 4096) + guest * 4096 + 4096 <= other_hart * (s * 4096) + other_guest
            * 4096) by (nonlinear_arith)
            requires
                guest < s,
                hart < other_hart,
        ;
    }
}

/// The interrupt files of all harts lie within one span.
pub proof fn law_interrupt_files_fill_the_span(geo: ImsicGeometry, hart: u32, guest: u32)
    requires
        hart < pow2(geo.hart_index_bits),
        guest < pow2(geo.guest_index_bits),
    ensures
        geo.base_addr <= geo.file_addr(hart, guest),
        geo.file_addr(hart, guest) + PAGE_SIZE <= geo.base_addr + pow2(geo.hart_index_bits)
            * geo.stride(),
{
    let s = pow2(geo.guest_index_bits) as int;
    let h = pow2(geo.hart_index_bits) as int;
    assert(0 <= hart * (s * 4096) + guest * 4096 && hart * (s * 4096) + guest * 4096 + 4096 <= h * (
    s * 4096)) by (nonlinear_arith)
        requires
            guest < s,
            hart < h,
    ;
}

/// The page of an interrupt file is the base page with the hart and the guest
/// index put in, if the first file is aligned to the span of all files.
pub proof fn law_base_page_and_index_make_the_file(geo: ImsicGeometry, hart: u32, guest: u32)
    requires
        geo.guest_index_bits + geo.hart_index_bits + 12 < usize::BITS,
        geo.base_addr as int % pow2((geo.guest_index_bits + geo.hart_index_bits + 12) as u32) as int
            == 0,
    ensures
        (geo.base_page() + hart * pow2(geo.guest_index_bits) + guest) * PAGE_SIZE
            == geo.file_addr(hart, guest),
{
    let index_bits = (geo.guest_index_bits + geo.hart_index_bits) as u32;
    lemma_page_shift(index_bits);
    let p = pow2((index_bits + 12) as u32) as int;
    let q = pow2(index_bits) as int;
    let s = pow2(geo.guest_index_bits) as int;
    let base = geo.base_addr as int;
    let k = base / p;
    vstd::arithmetic::div_mod::lemma_fundamental_div_mod(base, p);
    assert((k * q + hart * s + guest) * 4096 == base + hart * (s * 4096) + guest * 4096)
        by (nonlinear_arith)
        requires
            base == p * k,
            p == q * 4096,
    ;
}

proof fn lemma_put_in_is_sum(a: u64, b: u64, bits: nat)
    requires
        bits < 64,
        a as int % vstd::arithmetic::power2::pow2(bits) as int == 0,
        b < vstd::arithmetic::power2::pow2(bits),
    ensures
        a | b == a + b,
{
    vstd::bits::lemma_u64_pow2_no_overflow(bits);
    let mask = vstd::bits::low_bits_mask(bits) as u64;
    vstd::bits::lemma_u64_low_bits_mask_is_mod(a, bits);
    vstd::bits::lemma_u64_low_bits_mask_is_mod(b, bits);
    vstd::arithmetic::div_mod::lemma_small_mod(
        b as nat,
        vstd::arithmetic::power2::pow2(bits) as nat,
    );
    assert(a | b == a + b) by (bit_vector)
        requires
            a & mask == 0,
            b & mask == b,
    ;
}

/// The base page has every hart and guest index bit clear, and the first file
/// lies within the span that begins there. If the first file is aligned to the
/// span, putting the hart and the guest index into the index bits of the base
/// page gives the page of the interrupt file.
pub proof fn law_index_bits_select_the_file(
    geo: ImsicGeometry,
    page: u64,
    hart: u32,
    guest: u32,
)
    requires
        geo.guest_index_bits + geo.hart_index_bits + 12 < usize::BITS,
        page == geo.base_page(),
        hart < pow2(geo.hart_index_bits),
        guest < pow2(geo.guest_index_bits),
    ensures
        page as int % pow2((geo.guest_index_bits + geo.hart_index_bits) as u32) as int == 0,
        page * PAGE_SIZE <= geo.base_addr < page * PAGE_SIZE + pow2(
            (geo.guest_index_bits + geo.hart_index_bits + 12) as u32,
        ),
        geo.base_addr as int % pow2((geo.guest_index_bits + geo.hart_index_bits + 12) as u32) as int
            == 0 ==> (page | ((hart as u64) << geo.guest_index_bits) | guest as u64) << 12u64
            == geo.file_addr(hart, guest),
{
    let g = geo.guest_index_bits;
    let n = (geo.guest_index_bits + geo.hart_index_bits) as u32;
    lemma_page_shift(n);
    lemma_page_shift(g);
    let p = pow2((n + 12) as u32) as int;
    let q = pow2(n) as int;
    let s = pow2(g) as int;
    let h = pow2(geo.hart_index_bits) as int;
    let base = geo.base_addr as int;
    let k = base / p;
    vstd::arithmetic::div_mod::lemma_fundamental_div_mod(base, p);
    vstd::arithmetic::div_mod::lemma_mod_bound(base, p);
    assert(page * 4096 == p * k) by (nonlinear_arith)
        requires
            page == k * q,
            p == q * 4096,
    ;
    vstd::arithmetic::div_mod::lemma_mod_multiples_basic(k, q);
    if base % p == 0 {
        vstd::arithmetic::power2::lemma_pow2_adds(g as nat, geo.hart_index_bits as nat);
        assert(0 <= hart * s && hart * s + s <= q) by (nonlinear_arith)
            requires
                0 <= hart < h,
                q == s * h,
                s > 0,
        ;
        vstd::bits::lemma_u64_pow2_no_overflow(n as nat);
        vstd::bits::lemma_u64_shl_is_mul(hart as u64, g as u64);
        let shifted = (hart as u64) << g;
        assert(shifted == hart * s);
        assert(page as int % q == 0);
        lemma_put_in_is_sum(page, shifted, n as nat);
        assert((page + shifted) % s == 0) by {
            assert(page + shifted == s * (k * h + hart)) by (nonlinear_arith)
                requires
                    page == k * q,
                    q == s * h,
                    shifted == hart * s,
            ;
            vstd::arithmetic::div_mod::lemma_mod_multiples_basic(k * h + hart, s);
            assert(s * (k * h + hart) == (k * h + hart) * s) by (nonlinear_arith);
        }
        lemma_put_in_is_sum(page | shifted, guest as u64, g as nat);
        let put_in = page | shifted | guest as u64;
        assert(put_in == page + hart * s + guest);
        let r = vstd::arithmetic::power2::pow2((64 - (n + 12)) as nat) as int;
        vstd::arithmetic::power2::lemma_pow2_adds((n + 12) as nat, (64 - (n + 12)) as nat);
        vstd::arithmetic::power2::lemma2_to64();
        assert(p * k + p <= p * r) by (nonlinear_arith)
            requires
                p > 0,
                p * k < p * r,
        ;
        assert(put_in * 4096 <= u64::MAX);
        vstd::bits::lemma_u64_shl_is_mul(put_in, 12);
        law_base_page_and_index_make_the_file(geo, hart, guest);
    }
}

/// The identity of a claimed interrupt is its low half, the priority the high
/// one, and an identity is enabled in one bit of 64 of every second register
/// from 0xC0 on.
pub proof fn law_claims_and_enables(raw: u32, claimed: Option<(u32, u32)>, eiid: u32)
    requires
        call_ensures(parse_stopei, (raw,), claimed),
    ensures
        claimed is None <==> raw == 0,
        claimed matches Some((identity, priority)) ==> identity < 0x1_0000 && raw == 0x1_0000
            * priority + identity,
        eiid < 0x1000 ==> enable_register(eiid) == 0xC0 + 2 * (eiid as int / 64),
{
}

} // verus!
