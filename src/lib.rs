//! Telemetry decoding and ingest decisions for Gran Turismo 7, and a
//! DualShock 4 controller model with its platform adapters.

pub mod f32bits;
pub mod le;
pub mod types;
pub mod error;
pub mod text;
pub mod packet;
pub mod gamepad_error;
pub mod macos;
pub mod controller;
pub mod vigem;
pub mod gamepad;
pub mod ingest;

use crate::text::{has_prefix, str_equal, str_starts_with};
use vstd::prelude::*;

verus! {

/// UDP port on which the console sends telemetry.
pub const GT7_TELEMETRY_PORT: u16 = 33740;

/// Length of one telemetry frame in bytes.
pub const GT7_PACKET_SIZE: usize = 296;

/// The single byte of a heartbeat datagram, ASCII `A`.
pub const GT7_HEARTBEAT: u8 = 0x41;

/// The address lies in one of the LAN ranges that a console may use:
/// `192.168.*`, `10.*`, `172.*`, or the loopback address `127.0.0.1`.
pub open spec fn lan_address(ip: Seq<char>) -> bool {
    has_prefix(ip, "192.168."@) || has_prefix(ip, "10."@) || has_prefix(ip, "172."@) || ip
        == "127.0.0.1"@
}

/// Whether `ip` is in the allow-list of LAN ranges.
pub fn is_valid_gt7_ip(ip: &str) -> (r: bool)
    ensures
        r == lan_address(ip@),
{
    str_starts_with(ip, "192.168.") || str_starts_with(ip, "10.") || str_starts_with(ip, "172.")
        || str_equal(ip, "127.0.0.1")
}

} // verus!
