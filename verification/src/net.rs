//! Source addresses held as plain values.

use vstd::prelude::*;

verus! {

/// A local network address a client handle binds to for outbound
/// connections, held as plain values: four octets for IPv4, eight
/// 16-bit groups for IPv6.
#[derive(Debug, Clone, Copy, PartialEq, Eq, Structural)]
pub enum IpAddress {
    V4(u8, u8, u8, u8),
    V6(u16, u16, u16, u16, u16, u16, u16, u16),
}

} // verus!
