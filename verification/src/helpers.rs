use vstd::prelude::*;

verus! {

/// An IP address: the 32 bits of a version 4 address, or the 128 bits of a
/// version 6 address, each with its first octet highest.
#[derive(Debug, Clone, Copy, PartialEq, Eq, Structural)]
pub enum IpAddress {
    V4(u32),
    V6(u128),
}

/// The version 4 loopback address, `127.0.0.1`.
pub const LOOPBACK_V4: u32 = 0x7F00_0001;

/// The version 6 loopback address, `::1`.
pub const LOOPBACK_V6: u128 = 1;

/// Checks if the address is the loopback address.
pub fn is_loopback_address(ip: &IpAddress) -> (r: bool)
    ensures
        r == (*ip == IpAddress::V4(LOOPBACK_V4) || *ip == IpAddress::V6(LOOPBACK_V6)),
{
    match ip {
        IpAddress::V4(bits) => *bits == LOOPBACK_V4,
        IpAddress::V6(bits) => *bits == LOOPBACK_V6,
    }
}

} // verus!
