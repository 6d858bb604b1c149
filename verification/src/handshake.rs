//! The order of the three-message handshake. Each role walks a fixed list of
//! steps; the functions here say which step is due, so that the loop that
//! moves the bytes holds no decision of its own.

use vstd::prelude::*;

verus! {

/// Messages that the handshake exchanges before transport mode.
pub const HANDSHAKE_MESSAGES: u8 = 3;

/// The side that a session takes in the handshake, fixed when it is made.
#[derive(Clone, Copy, Debug, PartialEq, Eq, Structural)]
pub enum Role {
    /// The side that sends the first message.
    Initiator,
    /// The side that receives the first message.
    Responder,
}

/// The role of a session that does or does not initiate.
pub open spec fn role_of(initiator: bool) -> Role {
    if initiator {
        Role::Initiator
    } else {
        Role::Responder
    }
}

/// One step of the handshake, as seen by one side.
#[derive(Clone, Copy, Debug, PartialEq, Eq, Structural)]
pub enum Step {
    /// This side writes the next handshake message.
    Send,
    /// This side reads the next handshake message.
    Receive,
}

/// The cryptographic mode of a session.
#[derive(Clone, Copy, Debug, PartialEq, Eq, Structural)]
pub enum Phase {
    /// The key exchange is under way.
    Handshake,
    /// The key exchange is done and messages are sealed with the derived keys.
    Transport,
    /// The session was lost in a failed transition and can only be dropped.
    Invalid,
}

/// What the driver of a handshake does next.
#[derive(Debug)]
pub enum HandshakeAction {
    /// Seal this payload as the next handshake message and write its frame.
    Send(Vec<u8>),
    /// Wait for the next frame and unseal it.
    Receive,
    /// Every message was exchanged: switch to transport mode.
    Complete,
    /// No handshake is under way on this session.
    Refuse,
}

/// How far one step took the handshake.
#[derive(Clone, Copy, Debug, PartialEq, Eq, Structural)]
pub enum HandshakeProgress {
    /// A handshake frame was appended to the outgoing bytes: write them out.
    Wrote,
    /// A handshake frame was taken from the incoming bytes and accepted.
    Received,
    /// The next handshake frame has not arrived in full: read more bytes.
    NeedInput,
    /// The session is in transport mode.
    Done,
}

/// The steps of one role, in order.
pub open spec fn role_steps(initiator: bool) -> Seq<Step> {
    if initiator {
        seq![Step::Send, Step::Receive, Step::Send]
    } else {
        seq![Step::Receive, Step::Send, Step::Receive]
    }
}

/// The step that is due once `done` messages were processed, if any is.
pub open spec fn planned_step(initiator: bool, done: nat) -> Option<Step> {
    if done < role_steps(initiator).len() {
        Some(role_steps(initiator)[done as int])
    } else {
        None
    }
}

/// The step that is due once `done` messages were processed.
pub fn step_at(initiator: bool, done: u8) -> (step: Option<Step>)
    ensures
        step == planned_step(initiator, done as nat),
{
    if done >= HANDSHAKE_MESSAGES {
        None
    } else if initiator == (done == 1) {
        Some(Step::Receive)
    } else {
        Some(Step::Send)
    }
}

/// Decides the next action of a handshake from the session's role, phase and
/// count of processed messages. A message that is sent carries
/// `last_received`: the payload of the message received before it, or for
/// the first message whatever the caller starts with.
pub fn next_action(initiator: bool, phase: Phase, done: u8, last_received: Vec<u8>) -> (action:
    HandshakeAction)
    ensures
        match action {
            HandshakeAction::Send(payload) => phase == Phase::Handshake && planned_step(
                initiator,
                done as nat,
            ) == Some(Step::Send) && payload@ == last_received@,
            HandshakeAction::Receive => phase == Phase::Handshake && planned_step(
                initiator,
                done as nat,
            ) == Some(Step::Receive),
            HandshakeAction::Complete => phase == Phase::Handshake && done == HANDSHAKE_MESSAGES,
            HandshakeAction::Refuse => phase != Phase::Handshake || done > HANDSHAKE_MESSAGES,
        },
{
    match phase {
        Phase::Handshake => match step_at(initiator, done) {
            Some(Step::Send) => HandshakeAction::Send(last_received),
            Some(Step::Receive) => HandshakeAction::Receive,
            None => if done == HANDSHAKE_MESSAGES {
                HandshakeAction::Complete
            } else {
                HandshakeAction::Refuse
            },
        },
        _ => HandshakeAction::Refuse,
    }
}

/// Each role has exactly three steps, at each of them one side sends while
/// the other receives, and after the third no step is left for either side:
/// both are ready to complete without a further message.
pub proof fn lemma_three_messages(initiator: bool)
    ensures
        role_steps(initiator).len() == HANDSHAKE_MESSAGES,
        forall|done: nat|
            done < HANDSHAKE_MESSAGES ==> (#[trigger] planned_step(initiator, done) == Some(
                Step::Send,
            ) <==> planned_step(!initiator, done) == Some(Step::Receive)),
        forall|done: nat|
            done < HANDSHAKE_MESSAGES ==> #[trigger] planned_step(initiator, done) is Some,
        forall|done: nat|
            done >= HANDSHAKE_MESSAGES ==> #[trigger] planned_step(initiator, done) is None,
{
    assert forall|done: nat| done < HANDSHAKE_MESSAGES implies (#[trigger] planned_step(
        initiator,
        done,
    ) == Some(Step::Send) <==> planned_step(!initiator, done) == Some(Step::Receive)) by {
        assert(done == 0 || done == 1 || done == 2);
    }
}

} // verus!
