//! Registers of the pin controller.

use vstd::prelude::*;

verus! {

/// Function of a pin.
pub const PAD_MUX: u32 = 0b111;
/// Strong pull-up.
pub const PAD_STRONG_PULL: u32 = 1 << 3;
/// Schmitt trigger on the input.
pub const PAD_SCHMITT_K3: u32 = 1 << 8;
/// Drive strength.
pub const PAD_DRIVE_K3: u32 = 0b1111 << 9;
pub const PAD_DRIVE_K3_SHIFT: u32 = 9;
/// Pull-down, pull-up and pull enable.
pub const PAD_PULLDOWN: u32 = 1 << 13;
pub const PAD_PULLUP: u32 = 1 << 14;
pub const PAD_PULL_EN: u32 = 1 << 15;

/// 1.8 V selection of an IO power-domain register; 3.3 V without it.
pub const IO_PWR_DOMAIN_V18EN: u32 = 1 << 2;

/// Access keys of the IO power-domain registers.
pub const APBC_ASFAR: u32 = 0x00;
pub const APBC_ASSAR: u32 = 0x04;
pub const APBC_ASFAR_AKEY: u32 = 0xbaba;
pub const APBC_ASSAR_AKEY: u32 = 0xeb10;

/// IO power-domain registers of the pin banks.
pub const GPIO1_K3: u32 = 0x04;
pub const GPIO2_KX: u32 = 0x0c;
pub const GPIO4_K3: u32 = 0x20;
pub const GPIO5_K3: u32 = 0x10;
pub const MMC_KX: u32 = 0x1c;
pub const QSPI_K3: u32 = 0x2c;

/// The offset of a pin's register: one word per pin, with two unused words
/// after pin 130.
#[verifier::allow_in_spec]
pub fn pin_to_offset(pin: u32) -> (offset: u32)
    requires
        pin <= u32::MAX - 2,
    returns
        (if pin > 130 {
            (pin + 2) as u32
        } else {
            pin
        }) << 2,
{
    let pin: u32 = if pin > 130 {
        pin + 2
    } else {
        pin
    };
    pin << 2
}

/// The offset of the IO power-domain register of a pin; 0 if it has none.
#[verifier::allow_in_spec]
pub fn pin_to_io_pd_offset(pin: u32) -> (offset: u32)
    returns
        (if pin <= 20 {
            GPIO1_K3
        } else if pin <= 41 {
            GPIO2_KX
        } else if 76 <= pin <= 98 {
            GPIO4_K3
        } else if 99 <= pin <= 127 {
            GPIO5_K3
        } else if 132 <= pin <= 137 {
            MMC_KX
        } else if 138 <= pin <= 144 {
            QSPI_K3
        } else {
            0
        }),
{
    match pin {
        0..=20 => GPIO1_K3,
        21..=41 => GPIO2_KX,
        76..=98 => GPIO4_K3,
        99..=127 => GPIO5_K3,
        132..=137 => MMC_KX,
        138..=144 => QSPI_K3,
        _ => 0,
    }
}

/// Drive strengths at 1.8 V: register value and milliamperes.
pub const K3_DS_1V8: [(u32, u32); 16] = [
    (0, 2),
    (1, 4),
    (2, 6),
    (3, 7),
    (4, 9),
    (5, 11),
    (6, 13),
    (7, 14),
    (8, 21),
    (9, 23),
    (10, 25),
    (11, 26),
    (12, 28),
    (13, 30),
    (14, 31),
    (15, 33),
];

/// Drive strengths at 3.3 V: register value and milliamperes.
pub const K3_DS_3V3: [(u32, u32); 16] = [
    (0, 3),
    (1, 5),
    (2, 7),
    (3, 9),
    (4, 11),
    (5, 13),
    (6, 15),
    (7, 17),
    (8, 25),
    (9, 27),
    (10, 29),
    (11, 31),
    (12, 33),
    (13, 35),
    (14, 37),
    (15, 38),
];

/// The register value of the first table entry that gives at least `ma`; the
/// last entry's if none does, and 0 for an empty table.
pub open spec fn strength(table: Seq<(u32, u32)>, ma: u32) -> u32
    decreases table.len(),
{
    if table.len() == 0 {
        0
    } else if table[0].1 >= ma || table.len() == 1 {
        table[0].0
    } else {
        strength(table.drop_first(), ma)
    }
}

/// The register value of the first table entry that gives at least `ma`.
pub fn ds_to_val(table: &[(u32, u32)], ma: u32) -> (value: u32)
    ensures
        value == strength(table@, ma),
{
    assert(table@.skip(0) =~= table@);
    for i in 0..table.len()
        invariant
            strength(table@, ma) == strength(table@.skip(i as int), ma),
            i == table@.len() ==> table@.len() == 0,
    {
        let (value, threshold_ma) = table[i];
        assert(table@.skip(i as int).drop_first() =~= table@.skip(i + 1));
        if threshold_ma >= ma {
            return value;
        }
        if i + 1 == table.len() {
            return value;
        }
    }
    0
}

} // verus!
