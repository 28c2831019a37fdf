//! The plain-value shapes of the messages the session moves around.
use vstd::prelude::*;

verus! {

/// Initial session parameters. The core does not interpret them beyond
/// requiring that exactly one configuration message precedes any data.
#[derive(Clone, Copy, Debug, PartialEq, Eq, Structural)]
pub struct RecognitionConfig {
    pub sample_rate_hertz: u32,
    pub audio_channel_count: u32,
}

/// One outbound item: either the mandatory leading configuration message
/// or a chunk of raw audio bytes.
#[derive(Clone, Debug, PartialEq, Eq)]
pub enum OutboundMessage {
    Configuration(RecognitionConfig),
    DataChunk(Vec<u8>),
}

/// One inbound item: an opaque response payload, delivered in receipt
/// order. `is_terminal` is a marker interpreted by the external response
/// model, never by the core.
#[derive(Clone, Debug, PartialEq, Eq)]
pub struct InboundMessage {
    pub payload: Vec<u8>,
    pub is_terminal: bool,
}

/// How the remote side ended the inbound sequence: a clean half-close, or
/// a transport fault carrying its description.
#[derive(Clone, Debug, PartialEq, Eq)]
pub enum StreamEnd {
    Closed,
    Fault(String),
}

} // verus!
