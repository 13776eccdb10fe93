//! Boundary to the external header codec.
//!
//! The engine's logic works on plain header fields; parsing raw bytes into
//! those fields and serializing an outbound IP+TCP segment (including its
//! checksum) are delegated to the `etherparse` codec behind trusted wrappers.
//! `classify` is the verified entry point that turns one raw IPv4 datagram
//! into the connection key and TCP header fields the engine consumes.

use vstd::prelude::*;
use vstd::slice::slice_subrange;

verus! {

/// The IP protocol number that marks a TCP payload.
pub const IP_PROTO_TCP: u8 = 6;

/// Identity key of a connection: source address and port, destination
/// address and port.
#[derive(Debug, Clone, Copy, Hash, Eq, PartialEq)]
pub struct Quad {
    pub src: ([u8; 4], u16),
    pub dst: ([u8; 4], u16),
}

/// The fields of a parsed IPv4 header that the engine reads.
#[derive(Debug, Clone, Copy, PartialEq, Eq)]
pub struct Ipv4HeaderFields {
    pub source: [u8; 4],
    pub destination: [u8; 4],
    pub protocol: u8,
    /// Length in bytes of the header inside the datagram, options included.
    pub header_len: usize,
}

/// The fields of a parsed TCP header that the engine reads.
#[derive(Debug, Clone, Copy, PartialEq, Eq)]
pub struct TcpHeaderFields {
    pub source_port: u16,
    pub destination_port: u16,
    pub sequence_number: u32,
    pub acknowledgment_number: u32,
    pub window_size: u16,
    pub syn: bool,
    pub ack: bool,
    pub fin: bool,
    pub rst: bool,
    /// Length in bytes of the header inside the segment, options included.
    pub header_len: usize,
}

/// Cached outbound IPv4 header template: the fields the engine chooses; the
/// codec fills in everything else (lengths, checksum) at serialization time.
#[derive(Debug, Clone, Copy, PartialEq, Eq)]
pub struct IpTemplate {
    pub source: [u8; 4],
    pub destination: [u8; 4],
    pub time_to_live: u8,
}

/// Cached outbound TCP header template, reused across writes; sequence and
/// acknowledgment numbers are stamped immediately before serialization.
#[derive(Debug, Clone, Copy, PartialEq, Eq)]
pub struct TcpTemplate {
    pub source_port: u16,
    pub destination_port: u16,
    pub sequence_number: u32,
    pub acknowledgment_number: u32,
    pub window_size: u16,
    pub syn: bool,
    pub ack: bool,
    pub fin: bool,
    pub rst: bool,
}

/// The serialized IP+TCP datagram the codec builds from an IP template, a
/// TCP template and a payload, TCP checksum included; a pure function of its
/// arguments.
pub uninterp spec fn datagram_bytes(ip: IpTemplate, tcp: TcpTemplate, payload: Seq<u8>) -> Seq<u8>;

/// A 16-bit value assembled from two bytes in network (big-endian) order.
pub open spec fn spec_be16(hi: u8, lo: u8) -> u16 {
    (hi * 0x100 + lo) as u16
}

/// A 32-bit value assembled from four bytes in network (big-endian) order.
pub open spec fn spec_be32(b3: u8, b2: u8, b1: u8, b0: u8) -> u32 {
    (b3 * 0x100_0000 + b2 * 0x1_0000 + b1 * 0x100 + b0) as u32
}

/// The header length in bytes that an IPv4 header's IHL nibble declares.
pub open spec fn spec_ipv4_header_len(b: Seq<u8>) -> int {
    (b[0] & 0xf) * 4
}

/// When a byte prefix parses as an IPv4 header: enough bytes for the minimum
/// header, version 4, a declared header length of at least 20 bytes that the
/// input covers, and a total length that covers the header.
pub open spec fn spec_ipv4_ok(b: Seq<u8>) -> bool {
    &&& b.len() >= 20
    &&& b[0] >> 4 == 4
    &&& (b[0] & 0xf) >= 5
    &&& spec_ipv4_header_len(b) <= b.len()
    &&& spec_ipv4_header_len(b) <= spec_be16(b[2], b[3])
}

/// What the codec parses out of a byte prefix as an IPv4 header: the fields
/// at their fixed offsets when the prefix is well formed, `None` otherwise.
pub open spec fn spec_parse_ipv4(b: Seq<u8>) -> Option<Ipv4HeaderFields> {
    if spec_ipv4_ok(b) {
        Option::Some(
            Ipv4HeaderFields {
                source: [b[12], b[13], b[14], b[15]],
                destination: [b[16], b[17], b[18], b[19]],
                protocol: b[9],
                header_len: spec_ipv4_header_len(b) as usize,
            },
        )
    } else {
        Option::None
    }
}

/// The header length in bytes that a TCP header's data-offset nibble
/// declares.
pub open spec fn spec_tcp_header_len(b: Seq<u8>) -> int {
    ((b[12] & 0xf0) >> 4) * 4
}

/// When a byte prefix parses as a TCP header: enough bytes for the minimum
/// header and a declared header length of at least 20 bytes that the input
/// covers.
pub open spec fn spec_tcp_ok(b: Seq<u8>) -> bool {
    &&& b.len() >= 20
    &&& ((b[12] & 0xf0) >> 4) >= 5
    &&& spec_tcp_header_len(b) <= b.len()
}

/// What the codec parses out of a byte prefix as a TCP header: the fields at
/// their fixed offsets when the prefix is well formed, `None` otherwise.
pub open spec fn spec_parse_tcp(b: Seq<u8>) -> Option<TcpHeaderFields> {
    if spec_tcp_ok(b) {
        Option::Some(
            TcpHeaderFields {
                source_port: spec_be16(b[0], b[1]),
                destination_port: spec_be16(b[2], b[3]),
                sequence_number: spec_be32(b[4], b[5], b[6], b[7]),
                acknowledgment_number: spec_be32(b[8], b[9], b[10], b[11]),
                window_size: spec_be16(b[14], b[15]),
                syn: (b[13] & 0x02) != 0,
                ack: (b[13] & 0x10) != 0,
                fin: (b[13] & 0x01) != 0,
                rst: (b[13] & 0x04) != 0,
                header_len: spec_tcp_header_len(b) as usize,
            },
        )
    } else {
        Option::None
    }
}

/// Relies on `etherparse::Ipv4HeaderSlice::from_slice` and its accessors
/// `source`, `destination`, `protocol` and `slice`: `from_slice` succeeds
/// exactly when the input holds at least 20 bytes, the version nibble is 4,
/// the IHL nibble is at least 5, and the input and the total-length field
/// both cover the declared header length; the accessors read the fields at
/// their fixed offsets in network byte order.
#[verifier::external_body]
fn parse_ipv4(buf: &[u8]) -> (r: Option<Ipv4HeaderFields>)
    ensures
        r == spec_parse_ipv4(buf@),
{
    match etherparse::Ipv4HeaderSlice::from_slice(buf) {
        Ok(h) => Some(Ipv4HeaderFields {
            source: h.source(),
            destination: h.destination(),
            protocol: h.protocol(),
            header_len: h.slice().len(),
        }),
        Err(_) => None,
    }
}

/// Relies on `etherparse::TcpHeaderSlice::from_slice` and its accessors for
/// ports, sequence/acknowledgment numbers, window size, flags and `slice`:
/// `from_slice` succeeds exactly when the input holds at least 20 bytes and
/// covers the header length its data-offset nibble declares (at least 5
/// words); the accessors read the fields at their fixed offsets in network
/// byte order and the flag bits out of byte 13.
#[verifier::external_body]
fn parse_tcp(buf: &[u8]) -> (r: Option<TcpHeaderFields>)
    ensures
        r == spec_parse_tcp(buf@),
{
    match etherparse::TcpHeaderSlice::from_slice(buf) {
        Ok(h) => Some(TcpHeaderFields {
            source_port: h.source_port(),
            destination_port: h.destination_port(),
            sequence_number: h.sequence_number(),
            acknowledgment_number: h.acknowledgment_number(),
            window_size: h.window_size(),
            syn: h.syn(),
            ack: h.ack(),
            fin: h.fin(),
            rst: h.rst(),
            header_len: h.slice().len(),
        }),
        Err(_) => None,
    }
}

/// Relies on `etherparse::Ipv4Header::new`, `etherparse::TcpHeader::new`,
/// `TcpHeader::calc_checksum_ipv4` and the two `write` methods: both headers
/// are built option-less (20 bytes each) from exactly the template fields,
/// the TCP checksum is computed over the IPv4 pseudo-header, TCP header and
/// payload, and the serialized bytes are a pure function of the templates and
/// the payload. `calc_checksum_ipv4` only fails when the TCP length exceeds
/// 65535, which the payload bound rules out.
#[verifier::external_body]
pub(crate) fn serialize_datagram(ip: &IpTemplate, tcp: &TcpTemplate, payload: &[u8]) -> (r: Vec<u8>)
    requires
        payload@.len() <= 65000,
    ensures
        r@ == datagram_bytes(*ip, *tcp, payload@),
        r@.len() == 40 + payload@.len(),
{
    let mut th = etherparse::TcpHeader::new(tcp.source_port, tcp.destination_port, tcp.sequence_number, tcp.window_size);
    th.acknowledgment_number = tcp.acknowledgment_number;
    th.syn = tcp.syn;
    th.ack = tcp.ack;
    th.fin = tcp.fin;
    th.rst = tcp.rst;
    let mut iph = etherparse::Ipv4Header::new(th.header_len() + payload.len() as u16, ip.time_to_live, etherparse::IpNumber::Tcp as u8, ip.source, ip.destination);
    th.checksum = th.calc_checksum_ipv4(&iph, payload).unwrap();
    let mut out: Vec<u8> = Vec::new();
    iph.write(&mut out).unwrap();
    th.write(&mut out).unwrap();
    out.extend_from_slice(payload);
    out
}

/// The connection key a TCP segment routes by: the segment's source as seen
/// by us, and its destination.
pub open spec fn spec_quad_of(iph: Ipv4HeaderFields, tcph: TcpHeaderFields) -> Quad {
    Quad { src: (iph.source, tcph.source_port), dst: (iph.destination, tcph.destination_port) }
}

/// Build the connection key of a parsed segment.
pub fn quad_of(iph: &Ipv4HeaderFields, tcph: &TcpHeaderFields) -> (r: Quad)
    ensures
        r == spec_quad_of(*iph, *tcph),
{
    Quad { src: (iph.source, tcph.source_port), dst: (iph.destination, tcph.destination_port) }
}

/// How one raw datagram classifies: `None` for anything that is not a
/// well-formed IPv4 datagram carrying a well-formed TCP header; otherwise the
/// parsed IPv4 fields, the parsed TCP header fields, and the offset where the
/// TCP payload starts.
pub open spec fn spec_classify(b: Seq<u8>) -> Option<
    (Ipv4HeaderFields, TcpHeaderFields, usize),
> {
    match spec_parse_ipv4(b) {
        Option::None => Option::None,
        Option::Some(iph) => {
            if iph.protocol != IP_PROTO_TCP {
                Option::None
            } else {
                match spec_parse_tcp(b.subrange(iph.header_len as int, b.len() as int)) {
                    Option::None => Option::None,
                    Option::Some(tcph) => Option::Some(
                        (iph, tcph, (iph.header_len + tcph.header_len) as usize),
                    ),
                }
            }
        },
    }
}

/// Classify one raw datagram: parse its IPv4 header, filter out anything that
/// is not TCP, parse the TCP header, and return both parsed headers and the
/// offset of the TCP payload inside `buf`.
pub fn classify(buf: &[u8]) -> (r: Option<(Ipv4HeaderFields, TcpHeaderFields, usize)>)
    ensures
        r == spec_classify(buf@),
        r is Some ==> r.unwrap().2 <= buf@.len(),
{
    match parse_ipv4(buf) {
        Option::None => Option::None,
        Option::Some(iph) => {
            if iph.protocol != IP_PROTO_TCP {
                return Option::None;
            }
            let rest = slice_subrange(buf, iph.header_len, buf.len());
            match parse_tcp(rest) {
                Option::None => Option::None,
                Option::Some(tcph) => {
                    proof {
                        // both header lengths come from 4-bit nibbles, so the
                        // sum stays far below any machine limit
                        let ghost b0 = buf@[0];
                        let ghost b12 = rest@[12];
                        assert((b0 & 0xf) <= 15) by (bit_vector);
                        assert(((b12 & 0xf0) >> 4) <= 15) by (bit_vector);
                    }
                    Option::Some((iph, tcph, iph.header_len + tcph.header_len))
                },
            }
        },
    }
}

} // verus!
