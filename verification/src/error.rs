use vstd::prelude::*;

verus! {

/// Every failure the gateway core can report.
///
/// Handshake failures (`InvalidKey`, `ReplayDetected`, `AuthenticationFailed`,
/// `UnknownPeer`) and codec failures (`MalformedMessage`, `UnsupportedVersion`,
/// `EncodingFailure`) are returned to the immediate caller; registry operations
/// never fail, absence there is an ordinary `None`.
#[derive(Clone, Copy, Debug, PartialEq, Eq, Structural)]
pub enum Error {
    /// The presented peer public key does not have the required shape.
    InvalidKey,
    /// The `(peer key, nonce)` pair was already seen within the validity window.
    ReplayDetected,
    /// The presented authentication tag does not match the expected one.
    AuthenticationFailed,
    /// The operation refers to a peer with no pending or admitted record.
    UnknownPeer,
    /// The byte buffer is truncated or otherwise not a valid message image.
    MalformedMessage,
    /// The leading version byte differs from the current protocol version.
    UnsupportedVersion,
    /// An in-memory value violated its own shape; unreachable for well-formed values.
    EncodingFailure,
}

} // verus!
