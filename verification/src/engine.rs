//! The key-exchange engine. Everything in this file is believed, not proved:
//! each function makes one call into the engine, and its contract repeats
//! what the engine's source shows of that call.

use snow::params::NoiseParams;
use snow::{HandshakeState, TransportState};
use vstd::prelude::*;

verus! {

/// Bytes that the authentication tag adds to a sealed transport message.
pub const TAG_LEN: usize = 16;

/// The longest message that the engine reads or writes.
pub const MAX_MESSAGE_LEN: usize = 65535;

/// The engine's handshake state, opaque to the proofs.
#[verifier::external_type_specification]
#[verifier::external_body]
pub struct ExHandshakeState(snow::HandshakeState);

/// The engine's pair of directional cipher states, opaque to the proofs.
#[verifier::external_type_specification]
#[verifier::external_body]
pub struct ExTransportState(snow::TransportState);

/// The engine's parsed pattern parameters, opaque to the proofs.
#[verifier::external_type_specification]
#[verifier::external_body]
pub struct ExNoiseParams(snow::params::NoiseParams);

/// The engine's error, opaque to the proofs.
#[verifier::external_type_specification]
#[verifier::external_body]
pub struct ExEngineError(snow::Error);

/// The kinds of failure that the engine reports.
#[derive(Clone, Copy, Debug, PartialEq, Eq, Structural)]
pub enum EngineFault {
    /// The pattern string did not parse.
    Pattern,
    /// The engine could not be set up.
    Init,
    /// A key that the pattern needs is missing.
    Prereq,
    /// The call does not fit the state of the engine.
    State,
    /// An input or output is too long or too short.
    Input,
    /// A key agreement failed.
    Dh,
    /// Decryption or the integrity check failed.
    Decrypt,
    /// A failure of a kind not listed here.
    Other,
}

/// Tells the variants of `snow::Error` apart. Nothing is claimed of which
/// variant a given error is.
#[verifier::external_body]
pub(crate) fn fault_of(e: &snow::Error) -> (fault: EngineFault) {
    match e {
        snow::Error::Pattern(_) => EngineFault::Pattern,
        snow::Error::Init(_) => EngineFault::Init,
        snow::Error::Prereq(_) => EngineFault::Prereq,
        snow::Error::State(_) => EngineFault::State,
        snow::Error::Input => EngineFault::Input,
        snow::Error::Dh => EngineFault::Dh,
        snow::Error::Decrypt => EngineFault::Decrypt,
        _ => EngineFault::Other,
    }
}

/// The longest private key that the engine's key agreement holds.
pub const PRIVATE_KEY_LEN: usize = 32;

/// Whether the engine's parser accepts a pattern string: the answer of
/// `NoiseParams::from_str`, which reads nothing but the string.
pub uninterp spec fn pattern_accepted(pattern: Seq<char>) -> bool;

/// Parses a pattern string with `NoiseParams::from_str`. The parser reads
/// the string alone, so whether it succeeds is a property of the string.
#[verifier::external_body]
pub(crate) fn parse_params(pattern: &str) -> (res: Result<NoiseParams, snow::Error>)
    ensures
        res is Ok <==> pattern_accepted(pattern@),
{
    pattern.parse::<NoiseParams>()
}

/// Draws a fresh static private key with `snow::Builder::generate_keypair`.
/// The key is random; only its length is known: the engine's one key
/// agreement has private keys of 32 bytes.
#[verifier::external_body]
pub(crate) fn generate_private_key(params: &NoiseParams) -> (res: Result<Vec<u8>, snow::Error>)
    ensures
        res is Ok ==> res.unwrap()@.len() == PRIVATE_KEY_LEN,
{
    snow::Builder::new(params.clone()).generate_keypair().map(|pair| pair.private)
}

/// Builds the initiator's handshake state with
/// `snow::Builder::build_initiator`, from the parameters and the local
/// private key. The engine copies the key into 32 bytes, so a longer one is
/// left out. Nothing is claimed of the result.
#[verifier::external_body]
pub(crate) fn build_initiator(params: NoiseParams, key: &Vec<u8>) -> (res: Result<
    HandshakeState,
    snow::Error,
>)
    requires
        key@.len() <= PRIVATE_KEY_LEN,
{
    snow::Builder::new(params).local_private_key(key).build_initiator()
}

/// Builds the responder's handshake state with
/// `snow::Builder::build_responder`, from the parameters and the local
/// private key. The engine copies the key into 32 bytes, so a longer one is
/// left out. Nothing is claimed of the result.
#[verifier::external_body]
pub(crate) fn build_responder(params: NoiseParams, key: &Vec<u8>) -> (res: Result<
    HandshakeState,
    snow::Error,
>)
    requires
        key@.len() <= PRIVATE_KEY_LEN,
{
    snow::Builder::new(params).local_private_key(key).build_responder()
}

/// Writes the next handshake message with
/// `snow::HandshakeState::write_message`, into a buffer of `room` bytes,
/// which must hold the engine's largest message. The engine refuses a
/// message longer than that, so one that it returns is no longer.
#[verifier::external_body]
pub(crate) fn handshake_write(
    state: &mut HandshakeState,
    payload: &Vec<u8>,
    room: usize,
) -> (res: Result<Vec<u8>, snow::Error>)
    requires
        room >= MAX_MESSAGE_LEN,
    ensures
        res is Ok ==> res.unwrap()@.len() <= MAX_MESSAGE_LEN,
{
    let mut message = vec![0u8; room];
    let n = state.write_message(payload, &mut message)?;
    message.truncate(n);
    Ok(message)
}

/// Reads the next handshake message with
/// `snow::HandshakeState::read_message`. The payload that a message carries
/// is no longer than the message.
#[verifier::external_body]
pub(crate) fn handshake_read(state: &mut HandshakeState, message: &Vec<u8>) -> (res: Result<
    Vec<u8>,
    snow::Error,
>)
    ensures
        res is Ok ==> res.unwrap()@.len() <= message@.len(),
{
    let mut payload = vec![0u8; message.len()];
    let n = state.read_message(message, &mut payload)?;
    payload.truncate(n);
    Ok(payload)
}

/// Asks the engine with `snow::HandshakeState::is_handshake_finished`
/// whether every message of the pattern went through. Nothing is claimed of
/// the answer.
#[verifier::external_body]
pub(crate) fn handshake_finished(state: &HandshakeState) -> (finished: bool) {
    state.is_handshake_finished()
}

/// Turns a finished handshake into transport mode with
/// `snow::HandshakeState::into_transport_mode`. Nothing is claimed of the
/// result.
#[verifier::external_body]
pub(crate) fn into_transport(state: HandshakeState) -> (res: Result<TransportState, snow::Error>) {
    state.into_transport_mode()
}

/// Seals one message with `snow::TransportState::write_message`, into a
/// buffer of `room` bytes. The engine refuses a payload that with its tag
/// exceeds the buffer or the engine's largest message, and a sealed message
/// is the payload's length plus the tag.
#[verifier::external_body]
pub(crate) fn transport_write(
    state: &mut TransportState,
    payload: &Vec<u8>,
    room: usize,
) -> (res: Result<Vec<u8>, snow::Error>)
    ensures
        res is Ok ==> res.unwrap()@.len() == payload@.len() + TAG_LEN && res.unwrap()@.len()
            <= MAX_MESSAGE_LEN && res.unwrap()@.len() <= room,
{
    let mut message = vec![0u8; room];
    let n = state.write_message(payload, &mut message)?;
    message.truncate(n);
    Ok(message)
}

/// Opens one message with `snow::TransportState::read_message`. The engine
/// refuses a message longer than its largest or shorter than a tag, and the
/// payload it returns is the message's length less the tag.
#[verifier::external_body]
pub(crate) fn transport_read(state: &mut TransportState, message: &Vec<u8>) -> (res: Result<
    Vec<u8>,
    snow::Error,
>)
    ensures
        res is Ok ==> res.unwrap()@.len() + TAG_LEN == message@.len() && message@.len()
            <= MAX_MESSAGE_LEN,
{
    let mut payload = vec![0u8; message.len()];
    let n = state.read_message(message, &mut payload)?;
    payload.truncate(n);
    Ok(payload)
}

} // verus!
