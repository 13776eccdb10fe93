//! A minimal user-space TCP protocol engine over raw IPv4/TCP segments.
//!
//! The verified core is the per-connection state machine of RFC 793 section 3:
//! the send/receive sequence-space bookkeeping, the wraparound-safe
//! sequence-number comparator, the segment-acceptability rules, the passive
//! handshake (`Listen` -> `SynRcvd` -> `Established`), and outbound segment
//! construction. Header parsing, serialization and checksum computation are
//! delegated to an external codec behind trusted wrappers; raw packet I/O on
//! the virtual interface is left to the surrounding program.

pub mod codec;
pub mod seqnum;
pub mod tcp;

pub use codec::{classify, quad_of, Quad};
pub use seqnum::is_between_wrapped;
pub use tcp::{Connection, State};
