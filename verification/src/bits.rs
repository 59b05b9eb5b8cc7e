//! Single bits of registers and bytes.

use vstd::prelude::*;

verus! {

/// Bit `index` of a 32-bit word is set.
pub open spec fn bit(value: u32, index: u32) -> bool {
    (value >> index) & 1 == 1
}

/// Bit `index` of a byte is set.
pub open spec fn bit8(value: u8, index: u8) -> bool {
    (value >> index) & 1 == 1
}

/// The bits of a sum, a product, a complement and a shifted word, and those of
/// a word of ones.
pub proof fn lemma_bit(a: u32, b: u32, shift: u32, index: u32)
    by (bit_vector)
    requires
        index < 32,
        shift < 32,
    ensures
        bit(a | b, index) == (bit(a, index) || bit(b, index)),
        bit(a & b, index) == (bit(a, index) && bit(b, index)),
        bit(!a, index) == !bit(a, index),
        bit(a << shift, index) == (shift <= index && bit(a, (index - shift) as u32)),
        bit(a >> shift, index) == (index + shift < 32 && bit(a, (index + shift) as u32)),
        !bit(0, index),
        bit(1, index) == (index == 0),
        bit(3, index) == (index < 2),
        bit(7, index) == (index < 3),
        bit(0xf, index) == (index < 4),
        bit(0x1f, index) == (index < 5),
        bit(0x3f, index) == (index < 6),
        bit(0x7f, index) == (index < 7),
        bit(0xff, index) == (index < 8),
        bit(0xffff, index) == (index < 16),
        bit(0xffff_ffff, index),
        a < 8 && bit(a, index) ==> index < 3,
        a < 0x100 && bit(a, index) ==> index < 8,
        a < 0x1_0000 && bit(a, index) ==> index < 16,
        bit(2, index) == (index == 1),
        bit(4, index) == (index == 2),
        bit(5, index) == (index == 0 || index == 2),
        bit(6, index) == (index == 1 || index == 2),
        bit(8, index) == (index == 3),
        bit(9, index) == (index == 0 || index == 3),
        bit(0xa, index) == (index == 1 || index == 3),
        bit(0x3ff, index) == (index < 10),
        bit(0x800, index) == (index == 11),
        bit(0x3fff, index) == (index < 14),
        bit(0x7fff, index) == (index < 15),
        bit(0x7ffe, index) == (1 <= index < 15),
        bit(0x92, index) == (index == 1 || index == 4 || index == 7),
        bit(0x19001, index) == (index == 0 || index == 12 || index == 15 || index == 16),
        bit(0xffff_ff00, index) == (index >= 8),
        1u32 << 0u32 == 1,
        (a & (1u32 << shift) != 0) == bit(a, shift),
        a < 16 && bit(a, index) ==> index < 4,
        bit(a, index) ==> a != 0,
{
}

/// Some bit of a mask of two parts is set.
pub proof fn lemma_either(a: u32, b: u32, c: u32)
    by (bit_vector)
    ensures
        (a & (b | c) != 0) == (a & b != 0 || a & c != 0),
{
}

/// Shifts and masks by whole bytes, as arithmetic.
pub proof fn lemma_bytes(a: u32, b: u32)
    by (bit_vector)
    ensures
        a & 0xff == a % 0x100,
        a & 0xffff == a % 0x1_0000,
        a >> 8 == a / 0x100,
        a >> 16 == a / 0x1_0000,
        a >> 24 == a / 0x100_0000,
        (a << 16) | (b & 0xffff) == 0x1_0000 * (a % 0x1_0000) + b % 0x1_0000,
        a < 0x4000_0000 ==> a << 2 == 4 * a,
        0u32 | a == a,
{
}

/// The same of a byte.
pub proof fn lemma_bit8(a: u8, b: u8, index: u8)
    by (bit_vector)
    requires
        index < 8,
    ensures
        bit8(a | b, index) == (bit8(a, index) || bit8(b, index)),
        bit8(a & b, index) == (bit8(a, index) && bit8(b, index)),
        bit8(!a, index) == !bit8(a, index),
        bit8(a, index) == bit(a as u32, index as u32),
        !bit8(0, index),
        bit8(0x01, index) == (index == 0),
        bit8(0x02, index) == (index == 1),
        bit8(0x04, index) == (index == 2),
        bit8(0x08, index) == (index == 3),
        bit8(0x10, index) == (index == 4),
        bit8(0x20, index) == (index == 5),
        bit8(0x40, index) == (index == 6),
        bit8(0x80, index) == (index == 7),
        bit8(0x03, index) == (index < 2),
        bit8(0x1e, index) == (1 <= index <= 4),
        bit8(0x0e, index) == (1 <= index <= 3),
        a & 0x01 != 0 <==> bit8(a, 0),
        a & 0x02 != 0 <==> bit8(a, 1),
        a & 0x04 != 0 <==> bit8(a, 2),
        a & 0x08 != 0 <==> bit8(a, 3),
        a & 0x10 != 0 <==> bit8(a, 4),
        a & 0x20 != 0 <==> bit8(a, 5),
        a & 0x40 != 0 <==> bit8(a, 6),
        a & 0x80 != 0 <==> bit8(a, 7),
        0x01u8 | 0x02u8 | 0x04u8 == 7,
        a & 0x03 == a % 4,
        a & 0x1e != 0 <==> bit8(a, 1) || bit8(a, 2) || bit8(a, 3) || bit8(a, 4),
        a & 0x0e == 2 * ((a / 2) % 8),
        a & (0x01u8 | 0x1eu8) != 0 <==> bit8(a, 0) || bit8(a, 1) || bit8(a, 2) || bit8(a, 3) || bit8(
            a,
            4,
        ),
        a & (0x04u8 | 0x08u8 | 0x10u8) != 0 <==> bit8(a, 2) || bit8(a, 3) || bit8(a, 4),
        a & (0x20u8 | 0x40u8) == 0x20u8 | 0x40u8 <==> bit8(a, 5) && bit8(a, 6),
        a % 2 == 1 <==> bit8(a, 0),
        a % 4 == (if bit8(a, 0) { 1int } else { 0 }) + (if bit8(a, 1) { 2int } else { 0 }),
{
}

pub broadcast proof fn bit_of_or(a: u32, b: u32, index: u32)
    requires
        index < 32,
    ensures
        #[trigger] bit(a | b, index) == (bit(a, index) || bit(b, index)),
{
    lemma_bit(a, b, 0, index);
}

pub broadcast proof fn bit_of_and(a: u32, b: u32, index: u32)
    requires
        index < 32,
    ensures
        #[trigger] bit(a & b, index) == (bit(a, index) && bit(b, index)),
{
    lemma_bit(a, b, 0, index);
}

pub broadcast proof fn bit_of_not(a: u32, index: u32)
    requires
        index < 32,
    ensures
        #[trigger] bit(!a, index) == !bit(a, index),
{
    lemma_bit(a, 0, 0, index);
}

pub broadcast proof fn bit_of_shift(a: u32, shift: u32, index: u32)
    requires
        index < 32,
        shift < 32,
    ensures
        #[trigger] bit(a << shift, index) == (shift <= index && bit(a, (index - shift) as u32)),
{
    lemma_bit(a, 0, shift, index);
}

pub broadcast proof fn bit_of_literal(index: u32)
    requires
        index < 32,
    ensures
        #![trigger bit(2, index)]
        #![trigger bit(4, index)]
        #![trigger bit(5, index)]
        #![trigger bit(6, index)]
        #![trigger bit(8, index)]
        #![trigger bit(9, index)]
        #![trigger bit(0xa, index)]
        #![trigger bit(0xf, index)]
        #![trigger bit(0x3f, index)]
        #![trigger bit(0x3ff, index)]
        #![trigger bit(0x800, index)]
        #![trigger bit(0x3fff, index)]
        #![trigger bit(0x7fff, index)]
        #![trigger bit(0x7ffe, index)]
        #![trigger bit(0x92, index)]
        #![trigger bit(0x19001, index)]
        #![trigger bit(0xffff_ff00, index)]
        #![trigger bit(0, index)]
        #![trigger bit(1, index)]
        #![trigger bit(3, index)]
        #![trigger bit(7, index)]
        #![trigger bit(0xff, index)]
        #![trigger bit(0xffff, index)]
        #![trigger bit(0xffff_ffff, index)]
        !bit(0, index),
        bit(1, index) == (index == 0),
        bit(2, index) == (index == 1),
        bit(3, index) == (index < 2),
        bit(4, index) == (index == 2),
        bit(5, index) == (index == 0 || index == 2),
        bit(6, index) == (index == 1 || index == 2),
        bit(7, index) == (index < 3),
        bit(8, index) == (index == 3),
        bit(9, index) == (index == 0 || index == 3),
        bit(0xa, index) == (index == 1 || index == 3),
        bit(0xf, index) == (index < 4),
        bit(0x3f, index) == (index < 6),
        bit(0xff, index) == (index < 8),
        bit(0x3ff, index) == (index < 10),
        bit(0x800, index) == (index == 11),
        bit(0x3fff, index) == (index < 14),
        bit(0x7fff, index) == (index < 15),
        bit(0x7ffe, index) == (1 <= index < 15),
        bit(0x92, index) == (index == 1 || index == 4 || index == 7),
        bit(0x19001, index) == (index == 0 || index == 12 || index == 15 || index == 16),
        bit(0xffff_ff00, index) == (index >= 8),
        bit(0xffff, index) == (index < 16),
        bit(0xffff_ffff, index),
{
    lemma_bit(0, 0, 0, index);
}

/// A mask of one bit tests that bit.
pub broadcast proof fn mask_of_bit(a: u32, shift: u32)
    requires
        shift < 32,
    ensures
        (#[trigger] (a & (1u32 << shift)) != 0) == bit(a, shift),
{
    lemma_bit(a, 0, shift, 0);
}

/// A mask of two parts tests both.
pub broadcast proof fn mask_of_either(a: u32, b: u32, c: u32)
    ensures
        (#[trigger] (a & (b | c)) != 0) == (a & b != 0 || a & c != 0),
{
    lemma_either(a, b, c);
}

pub broadcast group group_masks {
    mask_of_bit,
    mask_of_either,
}

/// The word that has bit 0 alone is 1.
pub proof fn lemma_one()
    ensures
        1u32 << 0u32 == 1,
{
    lemma_bit(0, 0, 0, 0);
}

pub broadcast group group_bits {
    bit_of_or,
    bit_of_and,
    bit_of_not,
    bit_of_shift,
    bit_of_literal,
}

pub broadcast proof fn bit8_of_or(a: u8, b: u8, index: u8)
    requires
        index < 8,
    ensures
        #[trigger] bit8(a | b, index) == (bit8(a, index) || bit8(b, index)),
{
    lemma_bit8(a, b, index);
}

pub broadcast proof fn bit8_of_and(a: u8, b: u8, index: u8)
    requires
        index < 8,
    ensures
        #[trigger] bit8(a & b, index) == (bit8(a, index) && bit8(b, index)),
{
    lemma_bit8(a, b, index);
}

pub broadcast proof fn bit8_of_not(a: u8, index: u8)
    requires
        index < 8,
    ensures
        #[trigger] bit8(!a, index) == !bit8(a, index),
{
    lemma_bit8(a, 0, index);
}

pub broadcast proof fn bit8_of_literal(index: u8)
    requires
        index < 8,
    ensures
        #![trigger bit8(0, index)]
        #![trigger bit8(0x01, index)]
        #![trigger bit8(0x02, index)]
        #![trigger bit8(0x03, index)]
        #![trigger bit8(0x04, index)]
        #![trigger bit8(0x08, index)]
        #![trigger bit8(0x10, index)]
        #![trigger bit8(0x1e, index)]
        #![trigger bit8(0x20, index)]
        #![trigger bit8(0x40, index)]
        #![trigger bit8(0x80, index)]
        !bit8(0, index),
        bit8(0x01, index) == (index == 0),
        bit8(0x02, index) == (index == 1),
        bit8(0x03, index) == (index < 2),
        bit8(0x04, index) == (index == 2),
        bit8(0x08, index) == (index == 3),
        bit8(0x10, index) == (index == 4),
        bit8(0x1e, index) == (1 <= index <= 4),
        bit8(0x20, index) == (index == 5),
        bit8(0x40, index) == (index == 6),
        bit8(0x80, index) == (index == 7),
{
    lemma_bit8(0, 0, index);
}

pub broadcast group group_bits8 {
    bit8_of_or,
    bit8_of_and,
    bit8_of_not,
    bit8_of_literal,
}

/// Masks of a byte test its bits.
pub proof fn lemma_masks8(a: u8)
    ensures
        a & 0x01 != 0 <==> bit8(a, 0),
        a & 0x02 != 0 <==> bit8(a, 1),
        a & 0x04 != 0 <==> bit8(a, 2),
        a & 0x08 != 0 <==> bit8(a, 3),
        a & 0x10 != 0 <==> bit8(a, 4),
        a & 0x20 != 0 <==> bit8(a, 5),
        a & 0x40 != 0 <==> bit8(a, 6),
        a & 0x80 != 0 <==> bit8(a, 7),
        a & 0x03 == a % 4,
        a & 0x1e != 0 <==> bit8(a, 1) || bit8(a, 2) || bit8(a, 3) || bit8(a, 4),
        a & 0x0e == 2 * ((a / 2) % 8),
        a & (0x01u8 | 0x1eu8) != 0 <==> bit8(a, 0) || bit8(a, 1) || bit8(a, 2) || bit8(a, 3) || bit8(
            a,
            4,
        ),
        a & (0x04u8 | 0x08u8 | 0x10u8) != 0 <==> bit8(a, 2) || bit8(a, 3) || bit8(a, 4),
        a & (0x20u8 | 0x40u8) == 0x20u8 | 0x40u8 <==> bit8(a, 5) && bit8(a, 6),
        a % 2 == 1 <==> bit8(a, 0),
        a % 4 == (if bit8(a, 0) { 1int } else { 0 }) + (if bit8(a, 1) { 2int } else { 0 }),
{
    lemma_bit8(a, 0, 0);
}

} // verus!
