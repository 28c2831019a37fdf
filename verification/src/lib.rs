//! Verified core of a bidirectional streaming recognizer client.
//!
//! The library models the session lifecycle of a duplex streaming call:
//! a bounded outbound queue carrying one configuration message followed by
//! data chunks, ownership-transfer based closing of the producer side, a
//! replaceable bounded result-delivery channel, and a drive loop that moves
//! queued outbound messages to the transport and forwards inbound messages
//! to the result channel. The asynchronous transport itself (connection
//! establishment, credential resolution, the RPC) is outside the core and
//! interacts with it through plain values.
pub mod bridge;
pub mod errors;
pub mod laws;
pub mod messages;
pub mod session;
