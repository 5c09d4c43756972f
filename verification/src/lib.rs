//! Connection establishment rules for a TCP-facing proxy: detection of an
//! optional PROXY protocol preamble in front of a byte stream, the layering
//! of a stream out of a raw socket, a sniffer and a TLS session, a cache of
//! resolved addresses, and the verdict on a non-blocking connect.
//!
//! The crate holds decisions only. The sockets, the clock and the resolver
//! belong to the caller, who hands in what was read and carries out what is
//! returned.

pub mod addr;
pub mod signature;
pub mod header;
pub mod proxy_tcp_stream;
pub mod any_stream;
pub mod dns;
pub mod tcp;
