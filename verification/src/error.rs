//! The failures that the transport reports to its caller.

use vstd::prelude::*;

verus! {

/// A failure of the cryptographic session. Each one is fatal to the session.
#[derive(Clone, Copy, Debug, PartialEq, Eq, Structural)]
pub enum CryptoError {
    /// An operation came out of the order that the handshake prescribes for
    /// this role, or a handshake step was asked for after completion.
    HandshakeViolation,
    /// The integrity check of an incoming message failed.
    AuthenticationFailed,
    /// The key-exchange engine failed for another reason.
    Engine,
}

/// A failure of the codec.
#[derive(Clone, Copy, Debug, PartialEq, Eq, Structural)]
pub enum CodecError {
    /// An incoming frame is malformed.
    Format,
    /// An outgoing frame would exceed the largest frame of the wire format.
    Oversize,
    /// The session refused or could not process the message.
    Crypto(CryptoError),
}

impl CodecError {
    /// A short description of the failure.
    pub fn message(&self) -> (text: &'static str)
        ensures
            text@ == describe(*self),
    {
        match self {
            CodecError::Format => "malformed frame",
            CodecError::Oversize => "Invalid Input",
            CodecError::Crypto(CryptoError::HandshakeViolation) => "handshake violation",
            CodecError::Crypto(CryptoError::AuthenticationFailed) => "authentication failed",
            CodecError::Crypto(CryptoError::Engine) => "key-exchange engine failure",
        }
    }
}

/// The text that describes each failure.
pub open spec fn describe(e: CodecError) -> Seq<char> {
    match e {
        CodecError::Format => "malformed frame"@,
        CodecError::Oversize => "Invalid Input"@,
        CodecError::Crypto(CryptoError::HandshakeViolation) => "handshake violation"@,
        CodecError::Crypto(CryptoError::AuthenticationFailed) => "authentication failed"@,
        CodecError::Crypto(CryptoError::Engine) => "key-exchange engine failure"@,
    }
}

} // verus!
