//! An RLPx transport endpoint: the ECIES-protected initiator handshake that
//! derives the session secrets, and the framed codec that encrypts and
//! authenticates traffic afterwards. The enclosing application owns the TCP
//! stream and hands byte buffers in and out; everything here is pure
//! computation over those buffers.

use vstd::prelude::*;

pub mod bytes;
pub mod crypto;
pub mod kdf;
pub mod ecies;
pub mod rlpx;
pub mod frame;

verus! {

/// The error kinds of the transport. Every error is terminal for its session:
/// the caller drops the session and releases the stream.
#[derive(Clone, Copy, Debug, PartialEq, Eq, Structural)]
pub enum Error {
    /// Wrong length, an invalid curve point, or a body length of zero.
    Malformed,
    /// The ECIES HMAC tag did not match during handshake decryption.
    AuthFailed,
    /// A frame header MAC or body MAC did not match.
    MacFailed,
    /// The elliptic-curve or cipher engine refused its input, or the random
    /// source kept yielding invalid scalars; neither occurs for valid inputs.
    Crypto,
    /// The byte stream ended or failed; raised by the caller that owns the stream.
    Io,
}

} // verus!
