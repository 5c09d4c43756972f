//! Detection of a PROXY protocol preamble in front of a TCP stream.
//!
//! The stream starts out with its kind unknown. Before the first read the
//! caller peeks at the bytes that have arrived, at most [`PEEK_LIMIT`] of
//! them, and asks [`detect`] what they are. On a preamble the caller reads
//! its bytes off the socket; then [`ProxyTcpStream::settle`] records the
//! verdict. From then on the stream is passed through untouched.

use vstd::prelude::*;
use crate::addr::SocketAddress;
use crate::header::{parse_header, parsed_header, ParsedHeader, V1Address, V2Address};
use crate::signature::{match_v1, match_v2, prefix_match, v1_signature, v2_signature, PrefixMatch};

verus! {

/// The most bytes that are looked at to find a preamble.
pub const PEEK_LIMIT: usize = 512;

/// The longest preamble in the text form.
pub const V1_MAX_HEADER: usize = 108;

/// The longest preamble in the binary form that is waited for.
pub const V2_MAX_HEADER: usize = 232;

/// What a stream has been found to be.
#[derive(Clone, Copy, Debug, PartialEq, Eq, Structural)]
pub enum ProxyStreamType {
    /// Not looked at yet, or not enough bytes so far.
    Unknown,
    /// It began with a preamble in the text form.
    ProxyV1,
    /// It began with a preamble in the binary form.
    ProxyV2,
    /// It carries no preamble.
    Normal,
}

/// The verdict on the bytes that were peeked.
#[allow(inconsistent_fields)]
#[derive(Clone, Copy, Debug, PartialEq, Eq, Structural)]
pub enum Detection {
    /// Too few bytes to tell: ask again when more have arrived.
    WouldBlock,
    /// No preamble: every byte is payload.
    Normal,
    /// A preamble in the text form takes the first `header_len` bytes.
    ProxyV1 { header_len: usize, addresses: V1Address },
    /// A preamble in the binary form takes the first `header_len` bytes.
    ProxyV2 { header_len: usize, addresses: V2Address },
}

impl Detection {
    /// The number of bytes to take off the socket before payload is read.
    pub open spec fn consumed(&self) -> nat {
        match *self {
            Detection::ProxyV1 { header_len, .. } => header_len as nat,
            Detection::ProxyV2 { header_len, .. } => header_len as nat,
            _ => 0,
        }
    }

    /// The number of bytes to take off the socket before payload is read.
    pub fn header_len(&self) -> (r: usize)
        ensures
            r == self.consumed(),
    {
        match self {
            Detection::ProxyV1 { header_len, .. } => *header_len,
            Detection::ProxyV2 { header_len, .. } => *header_len,
            _ => 0,
        }
    }

    /// The kind of stream that the verdict leads to.
    pub open spec fn stream_type(&self) -> ProxyStreamType {
        match *self {
            Detection::WouldBlock => ProxyStreamType::Unknown,
            Detection::Normal => ProxyStreamType::Normal,
            Detection::ProxyV1 { .. } => ProxyStreamType::ProxyV1,
            Detection::ProxyV2 { .. } => ProxyStreamType::ProxyV2,
        }
    }
}

/// Whether waiting for more bytes is pointless: a signature is still in
/// play, and more bytes have arrived than a preamble of its form can have.
pub open spec fn past_limit(len: nat, v1: PrefixMatch, v2: PrefixMatch) -> bool {
    (v1.is_candidate() && len > V1_MAX_HEADER) || (v2.is_candidate() && len > V2_MAX_HEADER)
}

/// The verdict on `len` peeked bytes that stand to the two signatures as
/// `v1` and `v2` say and that the decoder reports on as `parsed`.
pub open spec fn detection_of(
    len: nat,
    v1: PrefixMatch,
    v2: PrefixMatch,
    parsed: ParsedHeader,
) -> Detection {
    if !v1.is_candidate() && !v2.is_candidate() {
        Detection::Normal
    } else {
        match parsed {
            ParsedHeader::V1 { header_len, addresses } => Detection::ProxyV1 {
                header_len,
                addresses,
            },
            ParsedHeader::V2 { header_len, addresses } => Detection::ProxyV2 {
                header_len,
                addresses,
            },
            ParsedHeader::Failed { incomplete } => if !incomplete || past_limit(len, v1, v2) {
                Detection::Normal
            } else {
                Detection::WouldBlock
            },
        }
    }
}

/// The verdict on the peeked bytes `data`.
pub open spec fn detection(data: Seq<u8>) -> Detection {
    detection_of(
        data.len(),
        prefix_match(data, v1_signature()),
        prefix_match(data, v2_signature()),
        parsed_header(data),
    )
}

/// Decides on `len` peeked bytes from how they stand to the two signatures
/// and from the decoder's report.
pub fn classify(
    len: usize,
    v1: PrefixMatch,
    v2: PrefixMatch,
    parsed: ParsedHeader,
) -> (r: Detection)
    ensures
        r == detection_of(len as nat, v1, v2, parsed),
{
    let is_v1: bool = v1.is_candidate();
    let is_v2: bool = v2.is_candidate();
    if !is_v1 && !is_v2 {
        return Detection::Normal;
    }
    match parsed {
        ParsedHeader::V1 { header_len, addresses } => Detection::ProxyV1 { header_len, addresses },
        ParsedHeader::V2 { header_len, addresses } => Detection::ProxyV2 { header_len, addresses },
        ParsedHeader::Failed { incomplete } => {
            if !incomplete {
                Detection::Normal
            } else if is_v1 && len > V1_MAX_HEADER {
                Detection::Normal
            } else if is_v2 && len > V2_MAX_HEADER {
                Detection::Normal
            } else {
                Detection::WouldBlock
            }
        },
    }
}

/// Decides what the peeked bytes are. Nothing is taken off the socket here:
/// the verdict says how many bytes the caller is to take.
pub fn detect(peeked: &[u8]) -> (r: Detection)
    ensures
        r == detection(peeked@),
        r.consumed() <= peeked@.len(),
{
    let v1 = match_v1(peeked);
    let v2 = match_v2(peeked);
    if !v1.is_candidate() && !v2.is_candidate() {
        return Detection::Normal;
    }
    let parsed = parse_header(peeked);
    classify(peeked.len(), v1, v2, parsed)
}

/// Where the address of the peer is to be had.
#[derive(Clone, Copy, Debug, PartialEq, Eq, Structural)]
pub enum PeerAddr {
    /// The client's address, as the preamble gave it.
    Forwarded(SocketAddress),
    /// The stream carries no preamble: the peer is the socket's own.
    Socket,
}

/// Why no address of the peer can be given.
#[derive(Clone, Copy, Debug, PartialEq, Eq, Structural)]
pub enum PeerAddrError {
    /// The stream has not been looked at yet.
    DetectionNotReady,
    /// The preamble in the text form names no internet address.
    InvalidV1AddressFamily,
    /// The preamble in the binary form names no internet address.
    InvalidV2AddressFamily,
}

impl PeerAddrError {
    /// The error in words.
    pub fn message(&self) -> (r: &'static str)
        ensures
            r@ == match *self {
                PeerAddrError::DetectionNotReady => "Need to unwrap first"@,
                PeerAddrError::InvalidV1AddressFamily => "Invalid v1 address type"@,
                PeerAddrError::InvalidV2AddressFamily => "Invalid v2 address type"@,
            },
    {
        match self {
            PeerAddrError::DetectionNotReady => "Need to unwrap first",
            PeerAddrError::InvalidV1AddressFamily => "Invalid v1 address type",
            PeerAddrError::InvalidV2AddressFamily => "Invalid v2 address type",
        }
    }
}

/// The state of a stream that may begin with a preamble: what it was found
/// to be, and the addresses that the preamble gave.
#[derive(Clone, Copy, Debug, PartialEq, Eq, Structural)]
pub struct ProxyTcpStream {
    pub ty: ProxyStreamType,
    pub proxy_protocol_v1_address: V1Address,
    pub proxy_protocol_v2_address: V2Address,
}

impl ProxyTcpStream {
    /// The state before anything was read.
    pub open spec fn initial() -> Self {
        ProxyTcpStream {
            ty: ProxyStreamType::Unknown,
            proxy_protocol_v1_address: V1Address::Unknown,
            proxy_protocol_v2_address: V2Address::Unspecified,
        }
    }

    /// The state after the verdict `d`. A stream whose kind is known keeps
    /// it; one that is still unknown takes what the verdict says.
    pub open spec fn settled(self, d: Detection) -> Self {
        if self.ty != ProxyStreamType::Unknown {
            self
        } else {
            match d {
                Detection::WouldBlock => self,
                Detection::Normal => ProxyTcpStream { ty: ProxyStreamType::Normal, ..self },
                Detection::ProxyV1 { addresses, .. } => ProxyTcpStream {
                    ty: ProxyStreamType::ProxyV1,
                    proxy_protocol_v1_address: addresses,
                    ..self
                },
                Detection::ProxyV2 { addresses, .. } => ProxyTcpStream {
                    ty: ProxyStreamType::ProxyV2,
                    proxy_protocol_v2_address: addresses,
                    ..self
                },
            }
        }
    }

    /// The state after the verdicts `ds`, recorded one after the other.
    pub open spec fn settled_all(self, ds: Seq<Detection>) -> Self
        decreases ds.len(),
    {
        if ds.len() == 0 {
            self
        } else {
            self.settled(ds[0]).settled_all(ds.drop_first())
        }
    }

    /// The address of the peer in this state: none before the kind is
    /// known, the socket's own on a stream without preamble, and else the
    /// source that the preamble of the recorded form names.
    pub open spec fn peer(self) -> Result<PeerAddr, PeerAddrError> {
        match self.ty {
            ProxyStreamType::Unknown => Err(PeerAddrError::DetectionNotReady),
            ProxyStreamType::Normal => Ok(PeerAddr::Socket),
            ProxyStreamType::ProxyV1 => match self.proxy_protocol_v1_address.source() {
                Some(a) => Ok(PeerAddr::Forwarded(a)),
                None => Err(PeerAddrError::InvalidV1AddressFamily),
            },
            ProxyStreamType::ProxyV2 => match self.proxy_protocol_v2_address.source() {
                Some(a) => Ok(PeerAddr::Forwarded(a)),
                None => Err(PeerAddrError::InvalidV2AddressFamily),
            },
        }
    }

    /// A stream that has not been looked at.
    pub fn new() -> (r: Self)
        ensures
            r == Self::initial(),
    {
        ProxyTcpStream {
            ty: ProxyStreamType::Unknown,
            proxy_protocol_v1_address: V1Address::Unknown,
            proxy_protocol_v2_address: V2Address::Unspecified,
        }
    }

    /// Whether the next read has to begin with a detection.
    pub fn needs_detection(&self) -> (r: bool)
        ensures
            r == (self.ty == ProxyStreamType::Unknown),
    {
        match self.ty {
            ProxyStreamType::Unknown => true,
            _ => false,
        }
    }

    /// Records the verdict `d`. Call it once the bytes of the preamble, if
    /// there is one, have been taken off the socket.
    pub fn settle(&mut self, d: Detection)
        ensures
            *final(self) == old(self).settled(d),
    {
        if self.needs_detection() {
            match d {
                Detection::WouldBlock => {},
                Detection::Normal => {
                    self.ty = ProxyStreamType::Normal;
                },
                Detection::ProxyV1 { header_len: _, addresses } => {
                    self.ty = ProxyStreamType::ProxyV1;
                    self.proxy_protocol_v1_address = addresses;
                },
                Detection::ProxyV2 { header_len: _, addresses } => {
                    self.ty = ProxyStreamType::ProxyV2;
                    self.proxy_protocol_v2_address = addresses;
                },
            }
        }
    }

    /// The address of the peer: the one that the preamble gave, or word that
    /// the socket's own is the one to take.
    pub fn peer_addr(&self) -> (r: Result<PeerAddr, PeerAddrError>)
        ensures
            r == self.peer(),
    {
        match self.ty {
            ProxyStreamType::Unknown => Err(PeerAddrError::DetectionNotReady),
            ProxyStreamType::ProxyV1 => match self.proxy_protocol_v1_address.source_addr() {
                Some(a) => Ok(PeerAddr::Forwarded(a)),
                None => Err(PeerAddrError::InvalidV1AddressFamily),
            },
            ProxyStreamType::ProxyV2 => match self.proxy_protocol_v2_address.source_addr() {
                Some(a) => Ok(PeerAddr::Forwarded(a)),
                None => Err(PeerAddrError::InvalidV2AddressFamily),
            },
            ProxyStreamType::Normal => Ok(PeerAddr::Socket),
        }
    }
}

/// Bytes that agree with neither signature are payload at once: the verdict
/// is `Normal` whatever the decoder would say, and no byte is taken.
pub proof fn law_unmatched_is_normal(data: Seq<u8>, s: ProxyTcpStream)
    requires
        prefix_match(data, v1_signature()) is Mismatch,
        prefix_match(data, v2_signature()) is Mismatch,
    ensures
        detection(data) == Detection::Normal,
        detection(data).consumed() == 0,
        s.ty is Unknown ==> s.settled(detection(data)).ty is Normal,
{
}

/// More than 108 bytes that begin with the text signature are never waited
/// on: the verdict is not `WouldBlock`, and it is `Normal` where the decoder
/// found no whole preamble.
pub proof fn law_overlong_v1_is_decided(data: Seq<u8>)
    requires
        data.len() > V1_MAX_HEADER,
        prefix_match(data, v1_signature()).is_candidate(),
    ensures
        !(detection(data) is WouldBlock),
        parsed_header(data) is Failed ==> detection(data) == Detection::Normal,
{
}

/// More than 232 bytes that begin with the binary signature are never waited
/// on either.
pub proof fn law_overlong_v2_is_decided(data: Seq<u8>)
    requires
        data.len() > V2_MAX_HEADER,
        prefix_match(data, v2_signature()).is_candidate(),
    ensures
        !(detection(data) is WouldBlock),
        parsed_header(data) is Failed ==> detection(data) == Detection::Normal,
{
}

/// A verdict of `WouldBlock` takes no byte and leaves the state as it was;
/// every other verdict decides a stream that was unknown.
pub proof fn law_would_block_changes_nothing(s: ProxyTcpStream, d: Detection)
    ensures
        d is WouldBlock ==> d.consumed() == 0 && s.settled(d) == s,
        s.ty is Unknown ==> s.settled(d).ty == d.stream_type(),
{
}

/// The kind of a stream is settled once: a state whose kind is known is not
/// changed by any later verdict, and a verdict never makes a kind unknown.
pub proof fn law_kind_is_settled_once(s: ProxyTcpStream, d1: Detection, d2: Detection)
    ensures
        !(s.ty is Unknown) ==> s.settled(d1) == s,
        !(s.settled(d1).ty is Unknown) ==> s.settled(d1).settled(d2) == s.settled(d1),
{
}

/// No run of verdicts changes a state whose kind is known.
pub proof fn law_known_kind_survives_every_run(s: ProxyTcpStream, ds: Seq<Detection>)
    requires
        !(s.ty is Unknown),
    ensures
        s.settled_all(ds) == s,
    decreases ds.len(),
{
    if ds.len() > 0 {
        law_known_kind_survives_every_run(s.settled(ds[0]), ds.drop_first());
    }
}

/// A preamble is taken whole and nothing else is: the bytes to take are
/// those of the decoded preamble where one was found, and none otherwise.
pub proof fn law_preamble_is_taken_whole(data: Seq<u8>)
    ensures
        detection(data) is ProxyV1 || detection(data) is ProxyV2 ==> detection(data).consumed()
            == parsed_header(data).header_len(),
        detection(data) is Normal || detection(data) is WouldBlock ==> detection(data).consumed()
            == 0,
{
}

/// A stream whose preamble was recorded gives the source that the
/// preamble names as its peer, and fails where the preamble names none. A
/// stream without preamble points to the socket, and one that still waits
/// has no peer yet.
pub proof fn law_forwarded_peer(s: ProxyTcpStream, d: Detection)
    requires
        s.ty is Unknown,
    ensures
        d matches Detection::ProxyV1 { addresses, .. } ==> s.settled(d).peer() == (
        match addresses.source() {
            Some(a) => Ok::<PeerAddr, PeerAddrError>(PeerAddr::Forwarded(a)),
            None => Err::<PeerAddr, PeerAddrError>(PeerAddrError::InvalidV1AddressFamily),
        }),
        d matches Detection::ProxyV2 { addresses, .. } ==> s.settled(d).peer() == (
        match addresses.source() {
            Some(a) => Ok::<PeerAddr, PeerAddrError>(PeerAddr::Forwarded(a)),
            None => Err::<PeerAddr, PeerAddrError>(PeerAddrError::InvalidV2AddressFamily),
        }),
        d is Normal ==> s.settled(d).peer() == Ok::<PeerAddr, PeerAddrError>(PeerAddr::Socket),
        d is WouldBlock ==> s.settled(d).peer() == Err::<PeerAddr, PeerAddrError>(
            PeerAddrError::DetectionNotReady,
        ),
{
}

} // verus!
