//! The per-connection TCP protocol engine: sequence-space bookkeeping,
//! segment acceptability, the passive-open state machine, and outbound
//! segment assembly.

use crate::codec::{serialize_datagram, IpTemplate, Ipv4HeaderFields, TcpHeaderFields, TcpTemplate};
use crate::codec::datagram_bytes;
use crate::seqnum::{
    is_between_wrapped, lemma_seq_add_add, seq_add, seq_sub, spec_between_wrapped, wrap_add,
    wrap_sub, SEQ_SPACE,
};
use vstd::arithmetic::div_mod::{lemma_add_mod_noop_right, lemma_mod_bound};
use vstd::prelude::*;
use vstd::slice::slice_subrange;

verus! {

/// Scratch capacity for one outbound datagram: the path MTU, headers
/// included.
pub const MTU: usize = 1500;

/// Largest payload one outbound segment carries: the MTU minus the two
/// 20-byte headers.
pub const MAX_PAYLOAD: usize = MTU - 40;

/// Initial send sequence number. Fixed at zero, which keeps this reference
/// engine deterministic; a hardened deployment must pick it unpredictably
/// (RFC 6528) to resist sequence-prediction attacks.
pub const INITIAL_SEND_SEQ: u32 = 0;

/// The receive window this engine advertises during the handshake, standing
/// in for a real buffer-backed window.
pub const LOCAL_WINDOW: u16 = 10;

/// Time-to-live stamped into outbound IPv4 headers.
pub const LOCAL_TTL: u8 = 64;

/// The protocol state of one connection.
#[derive(Debug, Clone, Copy)]
pub enum State {
    /// Terminal: the connection may be evicted.
    Closed,
    /// Passive open: waiting for the peer's SYN (folded into `accept`).
    Listen,
    /// A SYN was accepted and a SYN-ACK sent; waiting for the final ACK.
    SynRcvd,
    /// The handshake completed; sequence numbers are synchronized.
    Established,
}

impl State {
    /// True once the connection's sequence numbers are synchronized with the
    /// peer, that is, once the handshake has completed.
    pub fn is_synchronized(&self) -> (r: bool)
        ensures
            r == (*self is Established),
    {
        match *self {
            State::Closed => false,
            State::Listen => false,
            State::SynRcvd => false,
            State::Established => true,
        }
    }
}

impl Default for State {
    /// A freshly materialized connection starts where `accept` leaves it.
    fn default() -> (r: Self)
        ensures
            r is SynRcvd,
    {
        State::SynRcvd
    }
}

/// Send sequence space (RFC 793 section 3.2): bookkeeping for the bytes this
/// side sends.
#[derive(Debug, Clone, Copy, PartialEq, Eq, Structural)]
pub struct SendSequenceSpace {
    /// SND.UNA: oldest sent sequence number not yet acknowledged.
    pub una: u32,
    /// SND.NXT: next sequence number to send.
    pub nxt: u32,
    /// SND.WND: window the peer advertised for our sends.
    pub wnd: u32,
    /// SND.UP: urgent flag; kept for completeness, never exercised.
    pub up: bool,
    /// Segment sequence number of the last window update.
    pub wl1: usize,
    /// Segment acknowledgment number of the last window update.
    pub wl2: usize,
    /// ISS: initial send sequence number this side chose.
    pub iss: u32,
}

/// Receive sequence space (RFC 793 section 3.2): bookkeeping for the bytes
/// the peer sends.
#[derive(Debug, Clone, Copy, PartialEq, Eq, Structural)]
pub struct RecvSequenceSpace {
    /// RCV.NXT: next sequence number expected from the peer.
    pub nxt: u32,
    /// RCV.WND: receive window this side advertises.
    pub wnd: u16,
    /// RCV.UP: urgent flag; kept for completeness, never exercised.
    pub up: bool,
    /// IRS: the peer's initial sequence number.
    pub irs: u32,
}

/// ACK acceptability (RFC 793): the acknowledgment must cover data actually
/// sent and not yet acknowledged, `SND.UNA < SEG.ACK <= SND.NXT` on the
/// circular sequence-number line.
pub open spec fn spec_ack_acceptable(send: SendSequenceSpace, ackn: u32) -> bool {
    spec_between_wrapped(send.una, ackn, seq_add(send.nxt, 1))
}

/// The length a segment occupies in sequence space: its payload bytes, plus
/// one for SYN and one for FIN, each of which consumes a sequence number.
pub open spec fn spec_segment_len(data_len: nat, syn: bool, fin: bool) -> nat {
    data_len + (if syn {
        1nat
    } else {
        0nat
    }) + (if fin {
        1nat
    } else {
        0nat
    })
}

/// Window acceptability of an inbound segment (RFC 793 section 3.3), with
/// `wend = RCV.NXT + RCV.WND` on the circular line:
/// - a zero-length segment at a zero window is acceptable only as a probe at
///   exactly `RCV.NXT`;
/// - a zero-length segment otherwise must have its sequence number inside
///   `[RCV.NXT, wend)`;
/// - a segment with length never fits a zero window;
/// - a segment with length otherwise must have its first or its last occupied
///   sequence number inside `[RCV.NXT, wend)`.
pub open spec fn spec_seq_acceptable(
    recv: RecvSequenceSpace,
    seqn: u32,
    data_len: nat,
    syn: bool,
    fin: bool,
) -> bool {
    let slen = spec_segment_len(data_len, syn, fin);
    let wend = seq_add(recv.nxt, recv.wnd as int);
    if slen == 0 {
        if recv.wnd == 0 {
            seqn == recv.nxt
        } else {
            spec_between_wrapped(seq_sub(recv.nxt, 1), seqn, wend)
        }
    } else {
        if recv.wnd == 0 {
            false
        } else {
            spec_between_wrapped(seq_sub(recv.nxt, 1), seqn, wend) || spec_between_wrapped(
                seq_sub(recv.nxt, 1),
                seq_add(seqn, slen - 1),
                wend,
            )
        }
    }
}

/// Decide ACK acceptability for an inbound acknowledgment number.
pub fn ack_acceptable(send: &SendSequenceSpace, ackn: u32) -> (r: bool)
    ensures
        r == spec_ack_acceptable(*send, ackn),
{
    is_between_wrapped(send.una, ackn, wrap_add(send.nxt, 1))
}

/// Decide window acceptability for an inbound segment with sequence number
/// `seqn`, `data_len` payload bytes, and the given SYN/FIN flags.
pub fn segment_acceptable(
    recv: &RecvSequenceSpace,
    seqn: u32,
    data_len: usize,
    syn: bool,
    fin: bool,
) -> (r: bool)
    ensures
        r == spec_seq_acceptable(*recv, seqn, data_len as nat, syn, fin),
{
    let ghost slen = spec_segment_len(data_len as nat, syn, fin);
    let wend = wrap_add(recv.nxt, recv.wnd as u32);
    if data_len == 0 && !syn && !fin {
        if recv.wnd == 0 {
            seqn == recv.nxt
        } else {
            is_between_wrapped(wrap_sub(recv.nxt, 1), seqn, wend)
        }
    } else {
        if recv.wnd == 0 {
            false
        } else {
            // The last occupied sequence number, `seqn + slen - 1` on the
            // circular line; the payload length is reduced modulo the
            // sequence space so the computation stays inside 64 bits.
            let flags: u64 = (if syn {
                1u64
            } else {
                0u64
            }) + (if fin {
                1u64
            } else {
                0u64
            });
            let last = if data_len == 0 {
                // Only a flag occupies sequence space here, so `slen - 1`
                // is `flags - 1`.
                wrap_add(seqn, (flags - 1) as u32)
            } else {
                let dl1_mod: u64 = (data_len - 1) as u64 % SEQ_SPACE;
                let off_wide: u64 = (dl1_mod + flags) % SEQ_SPACE;
                proof {
                    let m = SEQ_SPACE as int;
                    lemma_mod_bound((data_len - 1) as int, m);
                    lemma_mod_bound(dl1_mod + flags, m);
                    lemma_add_mod_noop_right(seqn as int, dl1_mod + flags, m);
                    lemma_add_mod_noop_right(seqn + flags, (data_len - 1) as int, m);
                }
                wrap_add(seqn, off_wide as u32)
            };
            assert(last == seq_add(seqn, slen - 1));
            is_between_wrapped(wrap_sub(recv.nxt, 1), seqn, wend) || is_between_wrapped(
                wrap_sub(recv.nxt, 1),
                last,
                wend,
            )
        }
    }
}

/// One TCP connection: its protocol state, both sequence spaces, and the
/// cached outbound header templates reused across writes.
#[derive(Debug)]
pub struct Connection {
    pub state: State,
    pub send: SendSequenceSpace,
    pub recv: RecvSequenceSpace,
    pub ip: IpTemplate,
    pub tcp: TcpTemplate,
}

/// A template with the sequence and acknowledgment numbers stamped in, as
/// done immediately before each serialization.
pub open spec fn spec_stamped(t: TcpTemplate, seq: u32, ack: u32) -> TcpTemplate {
    TcpTemplate { sequence_number: seq, acknowledgment_number: ack, ..t }
}

/// A template after its control flags were consumed: SYN and FIN cleared so
/// their sequence-number cost is never counted twice.
pub open spec fn spec_consumed(t: TcpTemplate) -> TcpTemplate {
    TcpTemplate { syn: false, fin: false, ..t }
}

/// The sequence-number cost of the control flags pending in a template.
pub open spec fn spec_flag_cost(t: TcpTemplate) -> int {
    (if t.syn {
        1int
    } else {
        0int
    }) + (if t.fin {
        1int
    } else {
        0int
    })
}

/// How many payload bytes one call to `write` transmits: everything, up to
/// the scratch capacity left beside the headers.
pub open spec fn spec_write_len(payload_len: nat) -> nat {
    if payload_len <= MAX_PAYLOAD {
        payload_len
    } else {
        MAX_PAYLOAD as nat
    }
}

/// The connection after one `write` of `payload_len` offered payload bytes:
/// the template is stamped and its flags consumed, and `SND.NXT` advances by
/// the transmitted length plus one per consumed control flag.
pub open spec fn spec_after_write(c: Connection, payload_len: nat) -> Connection {
    Connection {
        send: SendSequenceSpace {
            nxt: seq_add(c.send.nxt, spec_write_len(payload_len) + spec_flag_cost(c.tcp)),
            ..c.send
        },
        tcp: spec_consumed(spec_stamped(c.tcp, c.send.nxt, c.recv.nxt)),
        ..c
    }
}

/// Whether an inbound segment passes the full acceptability pipeline: the
/// ACK check, the window check, and the state-specific gate that the
/// handshake's final segment must carry ACK.
pub open spec fn spec_segment_ok(c: Connection, tcph: TcpHeaderFields, data_len: nat) -> bool {
    &&& spec_ack_acceptable(c.send, tcph.acknowledgment_number)
    &&& spec_seq_acceptable(c.recv, tcph.sequence_number, data_len, tcph.syn, tcph.fin)
    &&& (c.state is SynRcvd ==> tcph.ack)
}

/// The connection after processing one inbound segment: an unacceptable
/// segment is dropped silently and changes nothing; an acceptable one
/// completes the handshake when the connection was waiting for its final ACK,
/// and otherwise changes nothing.
pub open spec fn spec_step(c: Connection, tcph: TcpHeaderFields, data_len: nat) -> Connection {
    if spec_segment_ok(c, tcph, data_len) && c.state is SynRcvd {
        Connection { state: State::Established, ..c }
    } else {
        c
    }
}

/// The send sequence space `accept` sets up: `ISS` is chosen locally, nothing
/// is unacknowledged yet, and the next send is one past `ISS`.
pub open spec fn spec_accept_send() -> SendSequenceSpace {
    SendSequenceSpace {
        una: INITIAL_SEND_SEQ,
        nxt: seq_add(INITIAL_SEND_SEQ, 1),
        wnd: LOCAL_WINDOW as u32,
        up: false,
        wl1: 0,
        wl2: 0,
        iss: INITIAL_SEND_SEQ,
    }
}

/// The receive sequence space `accept` derives from the peer's SYN: `IRS` is
/// the SYN's sequence number, the next expected byte is one past it, and the
/// window is what the peer advertised.
pub open spec fn spec_accept_recv(tcph: TcpHeaderFields) -> RecvSequenceSpace {
    RecvSequenceSpace {
        irs: tcph.sequence_number,
        nxt: seq_add(tcph.sequence_number, 1),
        wnd: tcph.window_size,
        up: false,
    }
}

/// The SYN-ACK template `accept` builds, addressed back at the SYN's sender,
/// before `write` stamps and consumes it.
pub open spec fn spec_synack_template(tcph: TcpHeaderFields) -> TcpTemplate {
    TcpTemplate {
        source_port: tcph.destination_port,
        destination_port: tcph.source_port,
        sequence_number: INITIAL_SEND_SEQ,
        acknowledgment_number: seq_add(tcph.sequence_number, 1),
        window_size: LOCAL_WINDOW,
        syn: true,
        ack: true,
        fin: false,
        rst: false,
    }
}

/// The connection `accept` builds from an inbound SYN, before the SYN-ACK is
/// written.
pub open spec fn spec_accept_conn(iph: Ipv4HeaderFields, tcph: TcpHeaderFields) -> Connection {
    Connection {
        state: State::SynRcvd,
        send: spec_accept_send(),
        recv: spec_accept_recv(tcph),
        ip: IpTemplate {
            source: iph.destination,
            destination: iph.source,
            time_to_live: LOCAL_TTL,
        },
        tcp: spec_synack_template(tcph),
    }
}

impl Connection {
    /// True once the connection reached its terminal state and the caller may
    /// evict it from the routing table.
    pub fn is_closed(&self) -> (r: bool)
        ensures
            r == (self.state is Closed),
    {
        matches!(self.state, State::Closed)
    }

    /// Passive open: on an inbound SYN, set up both sequence spaces and the
    /// cached header templates, and assemble the SYN-ACK reply; any other
    /// segment creates no connection (a non-event, not an error). Returns the
    /// new connection together with the serialized reply datagram for the
    /// caller to transmit.
    pub fn accept(iph: &Ipv4HeaderFields, tcph: &TcpHeaderFields, _data: &[u8]) -> (r: Option<
        (Connection, Vec<u8>),
    >)
        ensures
            (r is Some) == tcph.syn,
            r is Some ==> r.unwrap().0 == spec_after_write(spec_accept_conn(*iph, *tcph), 0),
            r is Some ==> r.unwrap().1@ == datagram_bytes(
                spec_accept_conn(*iph, *tcph).ip,
                spec_stamped(
                    spec_synack_template(*tcph),
                    spec_accept_send().nxt,
                    spec_accept_recv(*tcph).nxt,
                ),
                Seq::<u8>::empty(),
            ),
            r is Some ==> r.unwrap().1@.len() == 40,
    {
        if !tcph.syn {
            return Option::None;
        }
        let recv_nxt = wrap_add(tcph.sequence_number, 1);
        let mut conn = Connection {
            state: State::SynRcvd,
            send: SendSequenceSpace {
                una: INITIAL_SEND_SEQ,
                nxt: wrap_add(INITIAL_SEND_SEQ, 1),
                wnd: LOCAL_WINDOW as u32,
                up: false,
                wl1: 0,
                wl2: 0,
                iss: INITIAL_SEND_SEQ,
            },
            recv: RecvSequenceSpace {
                irs: tcph.sequence_number,
                nxt: recv_nxt,
                wnd: tcph.window_size,
                up: false,
            },
            ip: IpTemplate {
                source: iph.destination,
                destination: iph.source,
                time_to_live: LOCAL_TTL,
            },
            tcp: TcpTemplate {
                source_port: tcph.destination_port,
                destination_port: tcph.source_port,
                sequence_number: INITIAL_SEND_SEQ,
                acknowledgment_number: recv_nxt,
                window_size: LOCAL_WINDOW,
                syn: true,
                ack: true,
                fin: false,
                rst: false,
            },
        };
        let empty: [u8; 0] = [];
        let (datagram, _n) = conn.write(&empty);
        proof {
            assert(empty@.take(0) =~= Seq::<u8>::empty());
        }
        Option::Some((conn, datagram))
    }

    /// Assemble and account for one outbound segment: stamp the cached
    /// template with `SND.NXT` and `RCV.NXT`, serialize IP header, TCP header
    /// and as much payload as fits beside them, then advance `SND.NXT` by the
    /// transmitted length plus one for a consumed SYN and one for a consumed
    /// FIN, clearing each consumed flag. Returns the serialized datagram for
    /// the caller to transmit and the number of payload bytes it carries.
    pub fn write(&mut self, payload: &[u8]) -> (r: (Vec<u8>, usize))
        ensures
            r.1 == spec_write_len(payload@.len()),
            r.0@ == datagram_bytes(
                old(self).ip,
                spec_stamped(old(self).tcp, old(self).send.nxt, old(self).recv.nxt),
                payload@.take(r.1 as int),
            ),
            r.0@.len() == 40 + r.1,
            *final(self) == spec_after_write(*old(self), payload@.len()),
    {
        self.tcp.sequence_number = self.send.nxt;
        self.tcp.acknowledgment_number = self.recv.nxt;
        let n = if payload.len() <= MAX_PAYLOAD {
            payload.len()
        } else {
            MAX_PAYLOAD
        };
        let datagram = serialize_datagram(&self.ip, &self.tcp, slice_subrange(payload, 0, n));
        self.send.nxt = wrap_add(self.send.nxt, n as u32);
        proof {
            lemma_seq_add_add(old(self).send.nxt, n as int, 1);
            lemma_seq_add_add(old(self).send.nxt, n as int + 1, 1);
        }
        if self.tcp.syn {
            self.send.nxt = wrap_add(self.send.nxt, 1);
            self.tcp.syn = false;
        }
        if self.tcp.fin {
            self.send.nxt = wrap_add(self.send.nxt, 1);
            self.tcp.fin = false;
        }
        (datagram, n)
    }

    /// Assemble a reset segment: set RST in the cached template, zero its
    /// sequence and acknowledgment numbers (the following `write` stamps them
    /// from `SND.NXT` and `RCV.NXT` again), and serialize it with no payload.
    /// Returns the datagram for the caller to transmit.
    pub fn send_rst(&mut self) -> (r: Vec<u8>)
        ensures
            *final(self) == spec_after_write(spec_reset(*old(self)), 0),
            r@ == datagram_bytes(
                old(self).ip,
                spec_stamped(spec_reset(*old(self)).tcp, old(self).send.nxt, old(self).recv.nxt),
                Seq::<u8>::empty(),
            ),
            r@.len() == 40,
    {
        self.tcp.rst = true;
        self.tcp.sequence_number = 0;
        self.tcp.acknowledgment_number = 0;
        let empty: [u8; 0] = [];
        let (datagram, _n) = self.write(&empty);
        proof {
            assert(empty@.take(0) =~= Seq::<u8>::empty());
        }
        datagram
    }

    /// Process one inbound segment through the acceptability pipeline: the
    /// ACK check, the window check, and the state gate. An unacceptable
    /// segment is dropped silently with no state change and no reply; an
    /// acceptable one completes the handshake when this side was in
    /// `SynRcvd`. Returns whether the segment was accepted, for the caller's
    /// observability hook.
    pub fn on_packet(&mut self, tcph: &TcpHeaderFields, data: &[u8]) -> (r: bool)
        ensures
            r == spec_segment_ok(*old(self), *tcph, data@.len()),
            *final(self) == spec_step(*old(self), *tcph, data@.len()),
    {
        if !ack_acceptable(&self.send, tcph.acknowledgment_number) {
            return false;
        }
        if !segment_acceptable(&self.recv, tcph.sequence_number, data.len(), tcph.syn, tcph.fin) {
            return false;
        }
        match self.state {
            State::SynRcvd => {
                if !tcph.ack {
                    return false;
                }
                self.state = State::Established;
            },
            State::Established => {},
            State::Listen => {},
            State::Closed => {},
        }
        true
    }
}

/// A connection with the reset flag raised and the template's sequence and
/// acknowledgment numbers zeroed, as `send_rst` leaves it before writing.
pub open spec fn spec_reset(c: Connection) -> Connection {
    Connection {
        tcp: TcpTemplate { rst: true, sequence_number: 0, acknowledgment_number: 0, ..c.tcp },
        ..c
    }
}

} // verus!
