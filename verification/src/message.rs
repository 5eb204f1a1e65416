//! Protocol envelopes.

use vstd::prelude::*;

verus! {

/// A protocol envelope.
///
/// The adapter inspects only the destination header field — the textual
/// form of the peer the message is addressed to — and carries the engine's
/// payload through untouched.
#[derive(PartialEq, Eq, Debug)]
pub struct Message {
    /// Textual form of the destination's identity.
    pub destination: String,
    /// Engine-specific payload; opaque to the adapter.
    pub payload: Vec<u8>,
}

} // verus!
