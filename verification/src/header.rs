//! Decoding of a PROXY protocol preamble. The byte layout of the two forms
//! is decoded by the `ppp` crate; this module turns what it reports into
//! plain values.

use vstd::prelude::*;
use ppp::HeaderResult;
use ppp::HeaderResult::{V1, V2};
use ppp::PartialResult;
use ppp::v1::Addresses::{Tcp4, Tcp6, Unknown};
use ppp::v2::Addresses::{IPv4, IPv6, Unix, Unspecified};
use crate::addr::SocketAddress;

verus! {

/// The addresses of a preamble in the text form, as far as they are used:
/// the source side, as the address and the port.
#[derive(Clone, Copy, Debug, PartialEq, Eq, Structural)]
pub enum V1Address {
    Unknown,
    Tcp4(u32, u16),
    Tcp6(u128, u16),
}

/// The addresses of a preamble in the binary form, as far as they are used:
/// the source side, as the address and the port.
#[derive(Clone, Copy, Debug, PartialEq, Eq, Structural)]
pub enum V2Address {
    Unspecified,
    IPv4(u32, u16),
    IPv6(u128, u16),
    Unix,
}

impl V1Address {
    /// The socket address of the source, where the preamble names an
    /// internet address.
    pub open spec fn source(&self) -> Option<SocketAddress> {
        match *self {
            V1Address::Tcp4(ip, port) => Some(SocketAddress::V4 { ip, port }),
            V1Address::Tcp6(ip, port) => Some(SocketAddress::V6 { ip, port }),
            V1Address::Unknown => None,
        }
    }

    /// The socket address of the source, where the preamble names an
    /// internet address.
    pub fn source_addr(&self) -> (r: Option<SocketAddress>)
        ensures
            r == self.source(),
    {
        match self {
            V1Address::Tcp4(ip, port) => Some(SocketAddress::V4 { ip: *ip, port: *port }),
            V1Address::Tcp6(ip, port) => Some(SocketAddress::V6 { ip: *ip, port: *port }),
            V1Address::Unknown => None,
        }
    }
}

impl V2Address {
    /// The socket address of the source, where the preamble names an
    /// internet address.
    pub open spec fn source(&self) -> Option<SocketAddress> {
        match *self {
            V2Address::IPv4(ip, port) => Some(SocketAddress::V4 { ip, port }),
            V2Address::IPv6(ip, port) => Some(SocketAddress::V6 { ip, port }),
            V2Address::Unspecified => None,
            V2Address::Unix => None,
        }
    }

    /// The socket address of the source, where the preamble names an
    /// internet address.
    pub fn source_addr(&self) -> (r: Option<SocketAddress>)
        ensures
            r == self.source(),
    {
        match self {
            V2Address::IPv4(ip, port) => Some(SocketAddress::V4 { ip: *ip, port: *port }),
            V2Address::IPv6(ip, port) => Some(SocketAddress::V6 { ip: *ip, port: *port }),
            _ => None,
        }
    }
}

/// What the decoder reports of a run of bytes.
#[allow(inconsistent_fields)]
#[derive(Clone, Copy, Debug, PartialEq, Eq, Structural)]
pub enum ParsedHeader {
    /// A whole preamble in the text form, of `header_len` bytes.
    V1 { header_len: usize, addresses: V1Address },
    /// A whole preamble in the binary form, of `header_len` bytes.
    V2 { header_len: usize, addresses: V2Address },
    /// No preamble. With `incomplete` more bytes may still make one.
    Failed { incomplete: bool },
}

/// What `ppp::HeaderResult::parse` reports of `data`.
pub uninterp spec fn parsed_header(data: Seq<u8>) -> ParsedHeader;

impl ParsedHeader {
    /// The length of the preamble, 0 where there is none.
    pub open spec fn header_len(self) -> nat {
        match self {
            ParsedHeader::V1 { header_len, .. } => header_len as nat,
            ParsedHeader::V2 { header_len, .. } => header_len as nat,
            ParsedHeader::Failed { .. } => 0,
        }
    }
}

/// Calls `ppp::HeaderResult::parse` on `data` and hands out, for a preamble
/// that it found, the form, the number of bytes that the preamble takes and
/// the source side of its addresses; else, through
/// `ppp::PartialResult::is_incomplete`, whether more bytes could still make
/// a preamble. Trusted: the report is a function of the bytes alone, and a
/// preamble that was found is a leading part of `data`.
#[verifier::external_body]
fn decode(data: &[u8]) -> (r: ParsedHeader)
    ensures
        r == parsed_header(data@),
        r.header_len() <= data@.len(),
{
    match HeaderResult::parse(data) {
        V1(Ok(h)) => ParsedHeader::V1 { header_len: h.header.len(), addresses: match h.addresses {
            Tcp4(a) => V1Address::Tcp4(a.source_address.into(), a.source_port),
            Tcp6(a) => V1Address::Tcp6(a.source_address.into(), a.source_port),
            Unknown => V1Address::Unknown,
        } },
        V2(Ok(h)) => ParsedHeader::V2 { header_len: h.header.len(), addresses: match h.addresses {
            IPv4(a) => V2Address::IPv4(a.source_address.into(), a.source_port),
            IPv6(a) => V2Address::IPv6(a.source_address.into(), a.source_port),
            Unix(_) => V2Address::Unix,
            Unspecified => V2Address::Unspecified,
        } },
        r => ParsedHeader::Failed { incomplete: r.is_incomplete() },
    }
}

/// Decodes a preamble from the beginning of `data`.
pub fn parse_header(data: &[u8]) -> (r: ParsedHeader)
    ensures
        r == parsed_header(data@),
        r.header_len() <= data@.len(),
{
    decode(data)
}

} // verus!
