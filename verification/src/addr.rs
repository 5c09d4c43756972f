//! Socket addresses as plain numbers.

use vstd::prelude::*;

verus! {

/// An internet socket address. An IPv4 address is its four octets read as
/// one big-endian number, an IPv6 address its sixteen octets likewise.
#[allow(inconsistent_fields)]
#[derive(Clone, Copy, Debug, PartialEq, Eq, Structural)]
pub enum SocketAddress {
    V4 { ip: u32, port: u16 },
    V6 { ip: u128, port: u16 },
}

impl SocketAddress {
    /// Whether the address is of the IPv4 family.
    pub fn is_ipv4(&self) -> (r: bool)
        ensures
            r == (*self is V4),
    {
        match self {
            SocketAddress::V4 { .. } => true,
            SocketAddress::V6 { .. } => false,
        }
    }
}

} // verus!
