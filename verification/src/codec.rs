//! The session: a role, a cryptographic mode that moves once from handshake
//! to transport, and the codec that seals outgoing messages into frames and
//! opens incoming frames.

use crate::engine::{
    build_initiator, build_responder, fault_of, generate_private_key, handshake_finished,
    handshake_read, handshake_write, into_transport, parse_params, pattern_accepted,
    transport_read, transport_write, EngineFault, TAG_LEN,
};
use crate::error::{CodecError, CryptoError};
use crate::frame::{
    after_first, first_payload, frame_bytes, frame_ready, read_frame, unread, write_frame,
    MAX_FRAME_SIZE,
};
use crate::handshake::{
    next_action, planned_step, role_of, step_at, HandshakeAction, HandshakeProgress, Phase, Role,
    Step,
};
use snow::{HandshakeState, TransportState};
use vstd::prelude::*;

verus! {

/// The handshake pattern, key agreement, cipher and hash that both ends use.
pub const NOISE_PARAMS: &'static str = "Noise_XX_25519_ChaChaPoly_BLAKE2s";

/// The pattern and the role from which a session is made.
#[derive(Clone, Copy, Debug)]
pub struct Builder {
    params: &'static str,
    initiator: bool,
}

enum Mode {
    Handshake(HandshakeState),
    Transport(TransportState),
    Invalid,
}

/// One end of a session.
pub struct NoiseCodec {
    builder: Builder,
    state: Mode,
    steps: u8,
    pending: Option<u16>,
}

/// The error that a failed write of the engine is reported as.
pub open spec fn write_error_of(fault: EngineFault) -> CodecError {
    match fault {
        EngineFault::Input => CodecError::Oversize,
        EngineFault::State => CodecError::Crypto(CryptoError::HandshakeViolation),
        _ => CodecError::Crypto(CryptoError::Engine),
    }
}

/// The error that a failed read of the engine is reported as.
pub open spec fn read_error_of(fault: EngineFault) -> CodecError {
    match fault {
        EngineFault::Decrypt => CodecError::Crypto(CryptoError::AuthenticationFailed),
        EngineFault::State => CodecError::Crypto(CryptoError::HandshakeViolation),
        EngineFault::Input => CodecError::Format,
        _ => CodecError::Crypto(CryptoError::Engine),
    }
}

/// Bytes that sealing adds to a plaintext that is known before the engine
/// is asked: the tag in transport mode.
pub open spec fn seal_overhead(phase: Phase) -> nat {
    if phase == Phase::Transport {
        TAG_LEN as nat
    } else {
        0
    }
}

/// Why a plaintext of `len` bytes is refused before the engine is asked, if
/// it is: it would not fit a frame, or no message is due to be sent.
pub open spec fn seal_refusal(phase: Phase, initiator: bool, steps: nat, len: nat) -> Option<
    CodecError,
> {
    if len + seal_overhead(phase) > MAX_FRAME_SIZE {
        Some(CodecError::Oversize)
    } else if phase == Phase::Invalid || (phase == Phase::Handshake && planned_step(
        initiator,
        steps,
    ) != Some(Step::Send)) {
        Some(CodecError::Crypto(CryptoError::HandshakeViolation))
    } else {
        None
    }
}

/// Why an incoming message is refused before the engine is asked, if it is:
/// no message is due to be received.
pub open spec fn unseal_refusal(phase: Phase, initiator: bool, steps: nat) -> Option<CodecError> {
    if phase == Phase::Invalid || (phase == Phase::Handshake && planned_step(initiator, steps)
        != Some(Step::Receive)) {
        Some(CodecError::Crypto(CryptoError::HandshakeViolation))
    } else {
        None
    }
}

/// The count of processed handshake messages after one more message went
/// through in `phase`.
pub open spec fn steps_after(phase: Phase, steps: nat) -> nat {
    if phase == Phase::Handshake {
        steps + 1
    } else {
        steps
    }
}

/// Maps a failed write of the engine to the error that is reported.
pub fn write_error(fault: EngineFault) -> (e: CodecError)
    ensures
        e == write_error_of(fault),
{
    match fault {
        EngineFault::Input => CodecError::Oversize,
        EngineFault::State => CodecError::Crypto(CryptoError::HandshakeViolation),
        _ => CodecError::Crypto(CryptoError::Engine),
    }
}

/// Maps a failed read of the engine to the error that is reported.
pub fn read_error(fault: EngineFault) -> (e: CodecError)
    ensures
        e == read_error_of(fault),
{
    match fault {
        EngineFault::Decrypt => CodecError::Crypto(CryptoError::AuthenticationFailed),
        EngineFault::State => CodecError::Crypto(CryptoError::HandshakeViolation),
        EngineFault::Input => CodecError::Format,
        _ => CodecError::Crypto(CryptoError::Engine),
    }
}

impl Builder {
    /// A builder for a session with this pattern and role.
    pub fn new(params: &'static str, initiator: bool) -> (b: Builder)
        ensures
            b.params() == params,
            b.is_initiator() == initiator,
    {
        Builder { params, initiator }
    }

    /// The pattern string.
    pub closed spec fn params(&self) -> &'static str {
        self.params
    }

    /// Whether the session will initiate the handshake.
    pub closed spec fn is_initiator(&self) -> bool {
        self.initiator
    }

    /// Makes a session in handshake mode with a fresh static key. A pattern
    /// that the engine's parser does not accept is refused; for one that it
    /// accepts the engine still has to find its primitives. A session that
    /// is returned has the builder's role and has processed no message.
    pub fn new_codec(self) -> (res: Result<NoiseCodec, CodecError>)
        ensures
            res is Ok ==> res.unwrap().inv() && res.unwrap().phase() == Phase::Handshake
                && res.unwrap().steps() == 0 && res.unwrap().is_initiator() == self.is_initiator()
                && res.unwrap().pending() is None,
            res is Err ==> res->Err_0 == CodecError::Crypto(CryptoError::Engine),
            !pattern_accepted(self.params()@) ==> res is Err,
    {
        let parsed = match parse_params(self.params) {
            Ok(p) => p,
            Err(_) => {
                return Err(CodecError::Crypto(CryptoError::Engine));
            },
        };
        let key = match generate_private_key(&parsed) {
            Ok(k) => k,
            Err(_) => {
                return Err(CodecError::Crypto(CryptoError::Engine));
            },
        };
        let built = if self.initiator {
            build_initiator(parsed, &key)
        } else {
            build_responder(parsed, &key)
        };
        match built {
            Ok(noise) => Ok(
                NoiseCodec { builder: self, state: Mode::Handshake(noise), steps: 0, pending: None },
            ),
            Err(_) => Err(CodecError::Crypto(CryptoError::Engine)),
        }
    }
}

impl NoiseCodec {
    /// The mode of the session.
    pub closed spec fn phase(&self) -> Phase {
        match self.state {
            Mode::Handshake(_) => Phase::Handshake,
            Mode::Transport(_) => Phase::Transport,
            Mode::Invalid => Phase::Invalid,
        }
    }

    /// Handshake messages that the session has sealed or opened.
    pub closed spec fn steps(&self) -> nat {
        self.steps as nat
    }

    /// Whether the session initiates the handshake.
    pub closed spec fn is_initiator(&self) -> bool {
        self.builder.initiator
    }

    /// A frame header that was read before its payload had arrived.
    pub closed spec fn pending(&self) -> Option<u16> {
        self.pending
    }

    /// A session never counts more than the three handshake messages, and
    /// reaches transport mode only after all of them.
    pub closed spec fn inv(&self) -> bool {
        self.steps <= 3 && (self.phase() == Phase::Transport ==> self.steps == 3)
    }

    /// Why this session refuses to seal a plaintext of `len` bytes, if it does.
    pub open spec fn refuses_seal(&self, len: nat) -> Option<CodecError> {
        seal_refusal(self.phase(), self.is_initiator(), self.steps(), len)
    }

    /// Why this session refuses to open a message, if it does.
    pub open spec fn refuses_unseal(&self) -> Option<CodecError> {
        unseal_refusal(self.phase(), self.is_initiator(), self.steps())
    }

    /// The step of the handshake that is due on this session, if one is.
    pub open spec fn due(&self) -> Option<Step> {
        if self.phase() == Phase::Handshake {
            planned_step(self.is_initiator(), self.steps())
        } else {
            None
        }
    }

    /// The incoming bytes that this session has not yet delivered, when
    /// `buf` is what is buffered.
    pub open spec fn inbound(&self, buf: Seq<u8>) -> Seq<u8> {
        unread(self.pending(), buf)
    }

    /// Whether `next` is this session after one more message went through:
    /// the same role and mode, and one more step if in handshake mode.
    pub open spec fn advanced_to(&self, next: &NoiseCodec) -> bool {
        &&& next.is_initiator() == self.is_initiator()
        &&& next.phase() == self.phase()
        &&& next.steps() == steps_after(self.phase(), self.steps())
    }

    /// Whether `next` has the role, mode and step count of this session.
    pub open spec fn same_progress(&self, next: &NoiseCodec) -> bool {
        &&& next.is_initiator() == self.is_initiator()
        &&& next.phase() == self.phase()
        &&& next.steps() == self.steps()
    }

    /// A builder for a session with this pattern and role.
    pub fn builder(params: &'static str, initiator: bool) -> (b: Builder)
        ensures
            b.params() == params,
            b.is_initiator() == initiator,
    {
        Builder::new(params, initiator)
    }

    /// The mode of the session.
    pub fn current_phase(&self) -> (p: Phase)
        ensures
            p == self.phase(),
    {
        match &self.state {
            Mode::Handshake(_) => Phase::Handshake,
            Mode::Transport(_) => Phase::Transport,
            Mode::Invalid => Phase::Invalid,
        }
    }

    /// Handshake messages that the session has sealed or opened.
    pub fn handshake_steps(&self) -> (n: u8)
        ensures
            n == self.steps(),
    {
        self.steps
    }

    /// Whether the session initiates the handshake.
    pub fn initiator(&self) -> (b: bool)
        ensures
            b == self.is_initiator(),
    {
        self.builder.initiator
    }

    /// The role of the session.
    pub fn role(&self) -> (r: Role)
        ensures
            r == role_of(self.is_initiator()),
    {
        if self.builder.initiator {
            Role::Initiator
        } else {
            Role::Responder
        }
    }

    /// What a handshake driver does next on this session, given the payload
    /// of the message it received last.
    pub fn next_handshake_action(&self, last_received: Vec<u8>) -> (action: HandshakeAction)
        ensures
            match action {
                HandshakeAction::Send(payload) => self.due() == Some(Step::Send) && payload@
                    == last_received@,
                HandshakeAction::Receive => self.due() == Some(Step::Receive),
                HandshakeAction::Complete => self.phase() == Phase::Handshake && self.steps() == 3,
                HandshakeAction::Refuse => self.phase() != Phase::Handshake || self.steps() > 3,
            },
    {
        next_action(self.builder.initiator, self.current_phase(), self.steps, last_received)
    }

    /// Seals one message. A plaintext that cannot fit a frame, or that is
    /// offered when no message is due to be sent, is refused and the session
    /// is untouched. Otherwise the engine decides: a handshake message that
    /// it writes counts as one more step, a transport message is the
    /// plaintext's length plus the tag, and a failure of the engine leaves
    /// the mode and the count as they were.
    pub fn seal(&mut self, plaintext: &Vec<u8>) -> (res: Result<Vec<u8>, CodecError>)
        requires
            old(self).inv(),
        ensures
            final(self).inv(),
            final(self).pending() == old(self).pending(),
            old(self).refuses_seal(plaintext@.len()) matches Some(e) ==> ({
                &&& res == Err::<Vec<u8>, CodecError>(e)
                &&& *final(self) == *old(self)
            }),
            res is Err ==> old(self).same_progress(final(self)),
            res is Err && old(self).refuses_seal(plaintext@.len()) is None ==> exists|
                fault: EngineFault,
            | res->Err_0 == #[trigger] write_error_of(fault),
            res is Ok ==> ({
                &&& old(self).advanced_to(final(self))
                &&& res.unwrap()@.len() <= MAX_FRAME_SIZE
                &&& old(self).phase() == Phase::Transport ==> res.unwrap()@.len()
                    == plaintext@.len() + TAG_LEN
            }),
    {
        let initiator = self.builder.initiator;
        let steps: u8 = self.steps;
        let n: usize = plaintext.len();
        match &mut self.state {
            Mode::Transport(cipher) => {
                if n > MAX_FRAME_SIZE - TAG_LEN {
                    return Err(CodecError::Oversize);
                }
                match transport_write(cipher, plaintext, MAX_FRAME_SIZE) {
                    Ok(sealed) => Ok(sealed),
                    Err(e) => {
                        let fault = fault_of(&e);
                        Err(write_error(fault))
                    },
                }
            },
            Mode::Handshake(exchange) => {
                if n > MAX_FRAME_SIZE {
                    return Err(CodecError::Oversize);
                }
                match step_at(initiator, steps) {
                    Some(Step::Send) => {},
                    _ => {
                        return Err(CodecError::Crypto(CryptoError::HandshakeViolation));
                    },
                }
                match handshake_write(exchange, plaintext, MAX_FRAME_SIZE) {
                    Ok(message) => {
                        self.steps = steps + 1;
                        Ok(message)
                    },
                    Err(e) => {
                        let fault = fault_of(&e);
                        Err(write_error(fault))
                    },
                }
            },
            Mode::Invalid => {
                if n > MAX_FRAME_SIZE {
                    Err(CodecError::Oversize)
                } else {
                    Err(CodecError::Crypto(CryptoError::HandshakeViolation))
                }
            },
        }
    }

    /// Opens one message. One that arrives when no message is due to be
    /// received is refused and the session is untouched. Otherwise the
    /// engine decides: a handshake message that it accepts counts as one
    /// more step and yields a payload no longer than the message, a
    /// transport message yields its length less the tag, and a failure of
    /// the engine leaves the mode and the count as they were.
    pub fn unseal(&mut self, input: &Vec<u8>) -> (res: Result<Vec<u8>, CodecError>)
        requires
            old(self).inv(),
        ensures
            final(self).inv(),
            final(self).pending() == old(self).pending(),
            old(self).refuses_unseal() matches Some(e) ==> ({
                &&& res == Err::<Vec<u8>, CodecError>(e)
                &&& *final(self) == *old(self)
            }),
            res is Err ==> old(self).same_progress(final(self)),
            res is Err && old(self).refuses_unseal() is None ==> exists|fault: EngineFault|
                res->Err_0 == #[trigger] read_error_of(fault),
            res is Ok ==> ({
                &&& old(self).advanced_to(final(self))
                &&& res.unwrap()@.len() <= input@.len()
                &&& old(self).phase() == Phase::Transport ==> res.unwrap()@.len() + TAG_LEN
                    == input@.len()
            }),
    {
        let initiator = self.builder.initiator;
        let steps: u8 = self.steps;
        match &mut self.state {
            Mode::Transport(cipher) => {
                match transport_read(cipher, input) {
                    Ok(opened) => Ok(opened),
                    Err(e) => {
                        let fault = fault_of(&e);
                        Err(read_error(fault))
                    },
                }
            },
            Mode::Handshake(exchange) => {
                match step_at(initiator, steps) {
                    Some(Step::Receive) => {},
                    _ => {
                        return Err(CodecError::Crypto(CryptoError::HandshakeViolation));
                    },
                }
                match handshake_read(exchange, input) {
                    Ok(payload) => {
                        self.steps = steps + 1;
                        Ok(payload)
                    },
                    Err(e) => {
                        let fault = fault_of(&e);
                        Err(read_error(fault))
                    },
                }
            },
            Mode::Invalid => Err(CodecError::Crypto(CryptoError::HandshakeViolation)),
        }
    }

    /// Seals `item` and appends its frame to `dst`. On any failure nothing
    /// is appended; a refusal is decided before the engine is asked and
    /// leaves the session untouched as well. On success `dst` grows by
    /// exactly one frame, which in transport mode carries the item's length
    /// plus the tag.
    pub fn encode(&mut self, item: &Vec<u8>, dst: &mut Vec<u8>) -> (res: Result<(), CodecError>)
        requires
            old(self).inv(),
        ensures
            final(self).inv(),
            final(self).pending() == old(self).pending(),
            old(self).refuses_seal(item@.len()) matches Some(e) ==> ({
                &&& res == Err::<(), CodecError>(e)
                &&& *final(self) == *old(self)
            }),
            res is Err ==> ({
                &&& final(dst)@ == old(dst)@
                &&& old(self).same_progress(final(self))
            }),
            res is Err && old(self).refuses_seal(item@.len()) is None ==> exists|
                fault: EngineFault,
            | res->Err_0 == #[trigger] write_error_of(fault),
            res is Ok ==> ({
                &&& old(self).advanced_to(final(self))
                &&& exists|sealed: Seq<u8>|
                    ({
                        &&& final(dst)@ == old(dst)@ + #[trigger] frame_bytes(sealed)
                        &&& sealed.len() <= MAX_FRAME_SIZE
                        &&& old(self).phase() == Phase::Transport ==> sealed.len() == item@.len()
                            + TAG_LEN
                    })
            }),
    {
        match self.seal(item) {
            Ok(sealed) => {
                let written = write_frame(&sealed, dst);
                assert(final(dst)@ == old(dst)@ + frame_bytes(sealed@));
                written
            },
            Err(e) => Err(e),
        }
    }

    /// Reads one frame from `src`, if a whole one has arrived, and opens it.
    /// Until then nothing is lost: the unread stream is what it was. Once a
    /// frame is complete it leaves the stream, whatever the session then
    /// makes of it, and the result is its plaintext or the failure.
    pub fn decode(&mut self, src: &mut Vec<u8>) -> (res: Result<Option<Vec<u8>>, CodecError>)
        requires
            old(self).inv(),
        ensures
            final(self).inv(),
            !frame_ready(old(self).inbound(old(src)@)) ==> ({
                &&& res is Ok && res.unwrap() is None
                &&& old(self).same_progress(final(self))
                &&& final(self).inbound(final(src)@) == old(self).inbound(old(src)@)
            }),
            frame_ready(old(self).inbound(old(src)@)) ==> ({
                &&& final(self).inbound(final(src)@) == after_first(old(self).inbound(old(src)@))
                &&& final(self).pending() is None
                &&& res is Ok ==> res.unwrap() is Some
                &&& old(self).refuses_unseal() matches Some(e) ==> res == Err::<
                    Option<Vec<u8>>,
                    CodecError,
                >(e)
            }),
            res is Err ==> old(self).same_progress(final(self)),
            res is Err && old(self).refuses_unseal() is None ==> exists|fault: EngineFault|
                res->Err_0 == #[trigger] read_error_of(fault),
            res is Ok && res.unwrap() is Some ==> ({
                &&& old(self).advanced_to(final(self))
                &&& res.unwrap().unwrap()@.len() <= first_payload(
                    old(self).inbound(old(src)@),
                ).len()
                &&& old(self).phase() == Phase::Transport ==> res.unwrap().unwrap()@.len()
                    + TAG_LEN == first_payload(old(self).inbound(old(src)@)).len()
            }),
    {
        match read_frame(&mut self.pending, src) {
            None => Ok(None),
            Some(payload) => match self.unseal(&payload) {
                Ok(plaintext) => Ok(Some(plaintext)),
                Err(e) => Err(e),
            },
        }
    }

    /// Leaves handshake mode for transport mode. This is owed once, after
    /// the three handshake messages: at any other time, and when the engine
    /// does not hold the handshake for finished, it is refused and the
    /// session is untouched. Should the engine decline the transition after
    /// it has said that the handshake is finished, the handshake state is
    /// spent and the session is left invalid, fit only to be dropped.
    pub fn switch_transport_mode(&mut self) -> (res: Result<(), CryptoError>)
        requires
            old(self).inv(),
        ensures
            final(self).inv(),
            final(self).is_initiator() == old(self).is_initiator(),
            final(self).pending() == old(self).pending(),
            final(self).steps() == old(self).steps(),
            !(old(self).phase() == Phase::Handshake && old(self).steps() == 3) ==> res == Err::<
                (),
                CryptoError,
            >(CryptoError::HandshakeViolation),
            res is Ok ==> final(self).phase() == Phase::Transport,
            res is Err ==> res->Err_0 == CryptoError::HandshakeViolation || res->Err_0
                == CryptoError::Engine,
            res == Err::<(), CryptoError>(CryptoError::HandshakeViolation) ==> *final(self) == *old(
                self,
            ),
            res == Err::<(), CryptoError>(CryptoError::Engine) ==> old(self).phase()
                == Phase::Handshake && final(self).phase() == Phase::Invalid,
    {
        let ready = match &self.state {
            Mode::Handshake(exchange) => self.steps == 3 && handshake_finished(exchange),
            _ => false,
        };
        if !ready {
            return Err(CryptoError::HandshakeViolation);
        }
        let mut taken = Mode::Invalid;
        std::mem::swap(&mut self.state, &mut taken);
        match taken {
            Mode::Handshake(exchange) => match into_transport(exchange) {
                Ok(cipher) => {
                    self.state = Mode::Transport(cipher);
                    Ok(())
                },
                Err(_) => Err(CryptoError::Engine),
            },
            _ => Err(CryptoError::Engine),
        }
    }

    /// Takes the handshake one step further without touching the network.
    /// The step that is due decides: a message to send is sealed from
    /// `carry` and its frame appended to `outbox`; a message to receive is
    /// read from `inbox` once a whole frame is there, and its payload
    /// becomes `carry`; after the third message the session switches to
    /// transport mode, as `switch_transport_mode` does. On a session that
    /// is not in handshake mode the step is refused and nothing changes.
    pub fn handshake_step(
        &mut self,
        carry: &mut Vec<u8>,
        inbox: &mut Vec<u8>,
        outbox: &mut Vec<u8>,
    ) -> (res: Result<HandshakeProgress, CodecError>)
        requires
            old(self).inv(),
        ensures
            final(self).inv(),
            final(self).is_initiator() == old(self).is_initiator(),
            old(self).phase() != Phase::Handshake ==> ({
                &&& res == Err::<HandshakeProgress, CodecError>(
                    CodecError::Crypto(CryptoError::HandshakeViolation),
                )
                &&& *final(self) == *old(self)
                &&& final(carry)@ == old(carry)@
                &&& final(inbox)@ == old(inbox)@
                &&& final(outbox)@ == old(outbox)@
            }),
            old(self).due() == Some(Step::Send) ==> ({
                &&& final(inbox)@ == old(inbox)@
                &&& final(carry)@ == old(carry)@
                &&& final(self).phase() == Phase::Handshake
                &&& final(self).pending() == old(self).pending()
                &&& old(carry)@.len() > MAX_FRAME_SIZE ==> res == Err::<
                    HandshakeProgress,
                    CodecError,
                >(CodecError::Oversize)
                &&& res is Err ==> ({
                    &&& final(outbox)@ == old(outbox)@
                    &&& final(self).steps() == old(self).steps()
                })
                &&& res is Ok ==> ({
                    &&& res == Ok::<HandshakeProgress, CodecError>(HandshakeProgress::Wrote)
                    &&& final(self).steps() == old(self).steps() + 1
                    &&& exists|sealed: Seq<u8>|
                        ({
                            &&& final(outbox)@ == old(outbox)@ + #[trigger] frame_bytes(sealed)
                            &&& sealed.len() <= MAX_FRAME_SIZE
                        })
                })
            }),
            old(self).due() == Some(Step::Receive) ==> ({
                &&& final(outbox)@ == old(outbox)@
                &&& final(self).phase() == Phase::Handshake
                &&& !frame_ready(old(self).inbound(old(inbox)@)) ==> ({
                    &&& res == Ok::<HandshakeProgress, CodecError>(HandshakeProgress::NeedInput)
                    &&& final(self).inbound(final(inbox)@) == old(self).inbound(old(inbox)@)
                    &&& final(carry)@ == old(carry)@
                    &&& final(self).steps() == old(self).steps()
                })
                &&& frame_ready(old(self).inbound(old(inbox)@)) ==> ({
                    &&& final(self).inbound(final(inbox)@) == after_first(
                        old(self).inbound(old(inbox)@),
                    )
                    &&& res is Ok ==> ({
                        &&& res == Ok::<HandshakeProgress, CodecError>(HandshakeProgress::Received)
                        &&& final(self).steps() == old(self).steps() + 1
                        &&& final(carry)@.len() <= first_payload(
                            old(self).inbound(old(inbox)@),
                        ).len()
                    })
                    &&& res is Err ==> ({
                        &&& final(carry)@ == old(carry)@
                        &&& final(self).steps() == old(self).steps()
                    })
                })
            }),
            old(self).phase() == Phase::Handshake && old(self).steps() == 3 ==> ({
                &&& final(carry)@ == old(carry)@
                &&& final(inbox)@ == old(inbox)@
                &&& final(outbox)@ == old(outbox)@
                &&& final(self).pending() == old(self).pending()
                &&& final(self).steps() == 3
                &&& res is Ok ==> ({
                    &&& res == Ok::<HandshakeProgress, CodecError>(HandshakeProgress::Done)
                    &&& final(self).phase() == Phase::Transport
                })
                &&& res is Err ==> res == Err::<HandshakeProgress, CodecError>(
                    CodecError::Crypto(CryptoError::HandshakeViolation),
                ) || res == Err::<HandshakeProgress, CodecError>(
                    CodecError::Crypto(CryptoError::Engine),
                )
                &&& res == Err::<HandshakeProgress, CodecError>(
                    CodecError::Crypto(CryptoError::HandshakeViolation),
                ) ==> *final(self) == *old(self)
                &&& res == Err::<HandshakeProgress, CodecError>(
                    CodecError::Crypto(CryptoError::Engine),
                ) ==> final(self).phase() == Phase::Invalid
            }),
    {
        match self.current_phase() {
            Phase::Handshake => {},
            _ => {
                return Err(CodecError::Crypto(CryptoError::HandshakeViolation));
            },
        }
        match step_at(self.builder.initiator, self.steps) {
            Some(Step::Send) => match self.encode(carry, outbox) {
                Ok(()) => Ok(HandshakeProgress::Wrote),
                Err(e) => Err(e),
            },
            Some(Step::Receive) => match self.decode(inbox) {
                Ok(Some(payload)) => {
                    *carry = payload;
                    Ok(HandshakeProgress::Received)
                },
                Ok(None) => Ok(HandshakeProgress::NeedInput),
                Err(e) => Err(e),
            },
            None => match self.switch_transport_mode() {
                Ok(()) => Ok(HandshakeProgress::Done),
                Err(e) => Err(CodecError::Crypto(e)),
            },
        }
    }
}

} // verus!
