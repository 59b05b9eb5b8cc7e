//! What the device tree says of an Ethernet controller.

use vstd::prelude::*;
use fdt_edit::Node;
use crate::fdt;
use crate::fdt::{prop_bytes, prop_u32};
use crate::gmac::controller::K3GmacConfig;

verus! {

/// The driver's name.
pub const DRIVER_NAME: &'static str = "spacemit,k3-gmac";

/// Size of the register window if the node does not say.
pub const DEFAULT_WINDOW_SIZE: u64 = 0x2000;

/// The first six bytes of a property, if it has that many.
pub open spec fn mac_property(node: Node, name: Seq<char>) -> Option<Seq<u8>> {
    if fdt::present(node, name) && fdt::properties(node)[name].len() >= 6 {
        Some(fdt::properties(node)[name].take(6))
    } else {
        None
    }
}

/// The station address that a node names: `local-mac-address`, or else
/// `mac-address`. An address of zeros is none.
pub open spec fn mac_named(node: Node) -> Option<Seq<u8>> {
    let found = match mac_property(node, "local-mac-address"@) {
        Some(mac) => Some(mac),
        None => mac_property(node, "mac-address"@),
    };
    match found {
        Some(mac) => if mac == seq![0u8, 0, 0, 0, 0, 0] {
            None
        } else {
            Some(mac)
        },
        None => None,
    }
}

/// The first six bytes of a property.
pub fn prop_mac(node: &Node, name: &str) -> (mac: Option<[u8; 6]>)
    ensures
        (match mac {
            Some(mac) => Some(mac@),
            None => None,
        }) == mac_property(*node, name@),
{
    let data = match prop_bytes(node, name) {
        Some(data) => data,
        None => {
            return None;
        },
    };
    if data.len() < 6 {
        return None;
    }
    let mac: [u8; 6] = [data[0], data[1], data[2], data[3], data[4], data[5]];
    assert(mac@ =~= data@.take(6));
    Some(mac)
}

/// The station address that a node names.
pub fn parse_mac(node: &Node) -> (mac: Option<[u8; 6]>)
    ensures
        (match mac {
            Some(mac) => Some(mac@),
            None => None,
        }) == mac_named(*node),
{
    let found = match prop_mac(node, "local-mac-address") {
        Some(mac) => Some(mac),
        None => prop_mac(node, "mac-address"),
    };
    match found {
        Some(mac) => {
            if mac[0] == 0 && mac[1] == 0 && mac[2] == 0 && mac[3] == 0 && mac[4] == 0 && mac[5]
                == 0 {
                assert(mac@ =~= seq![0u8, 0, 0, 0, 0, 0]);
                None
            } else {
                Some(mac)
            }
        },
        None => None,
    }
}

/// A station address made from a register address: locally administered,
/// unicast, ending in the low three bytes of the address.
pub fn generated_mac(base: u64) -> (mac: [u8; 6])
    ensures
        mac@ == seq![
            0x02u8,
            0x4b,
            0x33,
            ((base >> 16) & 0xff) as u8,
            ((base >> 8) & 0xff) as u8,
            (base & 0xff) as u8,
        ],
        mac@[3] * 0x1_0000 + mac@[4] * 0x100 + mac@[5] == base % 0x100_0000,
{
    assert(((base >> 16) & 0xff) as u8 * 0x1_0000 + ((base >> 8) & 0xff) as u8 * 0x100 + (base
        & 0xff) as u8 == base % 0x100_0000) by (bit_vector);
    [
        0x02,
        0x4b,
        0x33,
        ((base >> 16) & 0xff) as u8,
        ((base >> 8) & 0xff) as u8,
        (base & 0xff) as u8,
    ]
}

/// A number property, or a default.
pub open spec fn number_or(node: Node, name: Seq<char>, default: u32) -> u32 {
    match fdt::number(node, name) {
        Some(value) => value,
        None => default,
    }
}

fn prop_u32_or(node: &Node, name: &str, default: u32) -> (value: u32)
    ensures
        value == number_or(*node, name@, default),
{
    match prop_u32(node, name) {
        Some(value) => value,
        None => default,
    }
}

/// The settings of the controller whose registers start at `base`: at most
/// 1000 Mbit/s, full duplex, no checksum offload.
pub fn parse_config(node: &Node, base: u64) -> (config: K3GmacConfig)
    ensures
        match mac_named(*node) {
            Some(mac) => config.mac@ == mac,
            None => config.mac@ == seq![
                0x02u8,
                0x4b,
                0x33,
                ((base >> 16) & 0xff) as u8,
                ((base >> 8) & 0xff) as u8,
                (base & 0xff) as u8,
            ],
        },
        config.tx_fifo_depth == number_or(*node, "tx-fifo-depth"@, 4096),
        config.rx_fifo_depth == number_or(*node, "rx-fifo-depth"@, 4096),
        config.speed_mbps == (if number_or(*node, "max-speed"@, 1000) < 1000 {
            number_or(*node, "max-speed"@, 1000)
        } else {
            1000
        }),
        !config.checksum_offload,
        config.full_duplex,
{
    let mac = match parse_mac(node) {
        Some(mac) => mac,
        None => generated_mac(base),
    };
    let max_speed: u32 = prop_u32_or(node, "max-speed", 1000);
    let speed_mbps: u32 = if max_speed < 1000 {
        max_speed
    } else {
        1000
    };
    K3GmacConfig {
        mac,
        tx_fifo_depth: prop_u32_or(node, "tx-fifo-depth", 4096),
        rx_fifo_depth: prop_u32_or(node, "rx-fifo-depth", 4096),
        checksum_offload: false,
        speed_mbps,
        full_duplex: true,
    }
}

} // verus!
