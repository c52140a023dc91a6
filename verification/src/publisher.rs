//! The publisher side of the connection lifecycle, as a state machine.
//!
//! The caller owns the transport and the registry lock. It feeds the machine
//! one event at a time and carries out the action that comes back; each
//! action says which event answers it. The machine decides everything else:
//! what counts as a handshake, when a session is asked for, where each
//! inbound message goes, and that a session is given up exactly once.

use crate::rejection::Rejection;
use crate::session::StreamId;
use crate::transport::Inbound;
use crate::transport::Phase;
use crate::transport::RegisterMsg;
use vstd::prelude::*;

verus! {

/// Where a publisher connection stands.
#[derive(Debug, PartialEq, Eq)]
pub enum PublisherState {
    /// Waiting for a register message.
    AwaitingHandshake,
    /// A text message is being decoded.
    Decoding,
    /// The registry has been asked for a session.
    Registering,
    /// The session exists and its acknowledgment is being sent.
    Acknowledging { stream_id: StreamId },
    /// Frames are relayed to the stream.
    Active { stream_id: StreamId },
    /// The connection is over.
    Closed,
}

/// What the caller reports to the machine.
#[derive(Debug, PartialEq, Eq)]
pub enum PublisherEvent {
    /// The transport delivered a message. Answers `Receive`, `Relay`, `Pong`.
    Inbound(Inbound),
    /// A text message was decoded, or could not be. Answers `Decode`.
    Decoded(Option<RegisterMsg>),
    /// The registry admitted the stream under this id, or refused it. Answers
    /// `Register`.
    Registered(Result<StreamId, Rejection>),
    /// Whether the acknowledgment reached the transport. Answers
    /// `Acknowledge`.
    Sent(bool),
}

/// What the machine asks of the caller.
#[derive(Debug, PartialEq, Eq)]
pub enum PublisherAction {
    /// Wait for the next transport message.
    Receive,
    /// Decode this text as a register message.
    Decode(String),
    /// Ask the registry for a session, under this id if there is one and it
    /// is free.
    Register(Option<StreamId>),
    /// Tell the client that its stream is registered under this id.
    Acknowledge(StreamId),
    /// Hand this frame to the stream's channel, then wait for the next
    /// transport message.
    Relay(Vec<u8>),
    /// Answer a liveness probe with its payload, whether or not that
    /// succeeds, then wait for the next transport message.
    Pong(Vec<u8>),
    /// Tell the client why it was refused, whether or not that succeeds, and
    /// end the connection.
    Reject(Rejection),
    /// Remove this stream from the registry and end the connection.
    Unregister(StreamId),
    /// End the connection. Nothing is left to clean up.
    Finish,
}

impl PublisherState {
    /// The phase a client observes.
    pub open spec fn phase(self) -> Phase {
        match self {
            PublisherState::Active { .. } => Phase::Active,
            PublisherState::Closed => Phase::Closed,
            _ => Phase::AwaitingHandshake,
        }
    }

    /// Whether a session is registered for this connection.
    pub open spec fn holds_session(self) -> bool {
        self is Acknowledging || self is Active
    }
}

/// Ends a connection from any state, giving up the session if there is one.
/// This is also how the machine answers an event that does not answer the
/// action it asked for.
pub open spec fn close(state: PublisherState) -> (PublisherState, PublisherAction) {
    match state {
        PublisherState::Acknowledging { stream_id } => (
            PublisherState::Closed,
            PublisherAction::Unregister(stream_id),
        ),
        PublisherState::Active { stream_id } => (
            PublisherState::Closed,
            PublisherAction::Unregister(stream_id),
        ),
        _ => (PublisherState::Closed, PublisherAction::Finish),
    }
}

/// The transition function: the state after `event`, and the action to carry
/// out.
///
/// While the handshake is awaited only a text message is looked at, and only
/// a register message starts a registration; everything else is ignored, and
/// a close ends the connection with nothing to undo. A refused registration
/// ends the connection with an error reply. Once active, every binary
/// payload goes to the stream unread, a ping is answered, and other messages
/// are ignored. A close or a transport error, and an acknowledgment that
/// cannot be sent, end the connection and unregister the stream.
pub open spec fn next(state: PublisherState, event: PublisherEvent) -> (
    PublisherState,
    PublisherAction,
) {
    match state {
        PublisherState::AwaitingHandshake => match event {
            PublisherEvent::Inbound(Inbound::Text(text)) => (
                PublisherState::Decoding,
                PublisherAction::Decode(text),
            ),
            PublisherEvent::Inbound(Inbound::Close) => (
                PublisherState::Closed,
                PublisherAction::Finish,
            ),
            PublisherEvent::Inbound(_) => (
                PublisherState::AwaitingHandshake,
                PublisherAction::Receive,
            ),
            _ => close(state),
        },
        PublisherState::Decoding => match event {
            PublisherEvent::Decoded(Some(msg)) => if msg.asks_to_register() {
                (PublisherState::Registering, PublisherAction::Register(msg.stream_id))
            } else {
                (PublisherState::AwaitingHandshake, PublisherAction::Receive)
            },
            PublisherEvent::Decoded(None) => (
                PublisherState::AwaitingHandshake,
                PublisherAction::Receive,
            ),
            _ => close(state),
        },
        PublisherState::Registering => match event {
            PublisherEvent::Registered(Ok(stream_id)) => (
                PublisherState::Acknowledging { stream_id },
                PublisherAction::Acknowledge(stream_id),
            ),
            PublisherEvent::Registered(Err(rejection)) => (
                PublisherState::Closed,
                PublisherAction::Reject(rejection),
            ),
            _ => close(state),
        },
        PublisherState::Acknowledging { stream_id } => match event {
            PublisherEvent::Sent(true) => (
                PublisherState::Active { stream_id },
                PublisherAction::Receive,
            ),
            _ => close(state),
        },
        PublisherState::Active { stream_id } => match event {
            PublisherEvent::Inbound(Inbound::Binary(frame)) => (
                PublisherState::Active { stream_id },
                PublisherAction::Relay(frame),
            ),
            PublisherEvent::Inbound(Inbound::Ping(payload)) => (
                PublisherState::Active { stream_id },
                PublisherAction::Pong(payload),
            ),
            PublisherEvent::Inbound(Inbound::Text(_)) => (
                PublisherState::Active { stream_id },
                PublisherAction::Receive,
            ),
            PublisherEvent::Inbound(Inbound::Pong(_)) => (
                PublisherState::Active { stream_id },
                PublisherAction::Receive,
            ),
            _ => close(state),
        },
        PublisherState::Closed => (PublisherState::Closed, PublisherAction::Finish),
    }
}

impl PublisherState {
    /// The state of a connection that has just been accepted.
    pub fn new() -> (state: PublisherState)
        ensures
            state == PublisherState::AwaitingHandshake,
    {
        PublisherState::AwaitingHandshake
    }

    /// The phase a client observes.
    pub fn current_phase(&self) -> (phase: Phase)
        ensures
            phase == self.phase(),
    {
        match self {
            PublisherState::Active { .. } => Phase::Active,
            PublisherState::Closed => Phase::Closed,
            _ => Phase::AwaitingHandshake,
        }
    }

    /// Ends the connection, giving up the session if there is one.
    pub fn shut(self) -> (step: (PublisherState, PublisherAction))
        ensures
            step == close(self),
    {
        match self {
            PublisherState::Acknowledging { stream_id } => (
                PublisherState::Closed,
                PublisherAction::Unregister(stream_id),
            ),
            PublisherState::Active { stream_id } => (
                PublisherState::Closed,
                PublisherAction::Unregister(stream_id),
            ),
            _ => (PublisherState::Closed, PublisherAction::Finish),
        }
    }

    /// Takes one step: consumes the state and the event, and returns the next
    /// state with the action to carry out.
    pub fn step(self, event: PublisherEvent) -> (step: (PublisherState, PublisherAction))
        ensures
            step == next(self, event),
    {
        match self {
            PublisherState::AwaitingHandshake => match event {
                PublisherEvent::Inbound(Inbound::Text(text)) => (
                    PublisherState::Decoding,
                    PublisherAction::Decode(text),
                ),
                PublisherEvent::Inbound(Inbound::Close) => (
                    PublisherState::Closed,
                    PublisherAction::Finish,
                ),
                PublisherEvent::Inbound(_) => (
                    PublisherState::AwaitingHandshake,
                    PublisherAction::Receive,
                ),
                _ => self.shut(),
            },
            PublisherState::Decoding => match event {
                PublisherEvent::Decoded(Some(msg)) => if msg.is_register() {
                    (PublisherState::Registering, PublisherAction::Register(msg.stream_id))
                } else {
                    (PublisherState::AwaitingHandshake, PublisherAction::Receive)
                },
                PublisherEvent::Decoded(None) => (
                    PublisherState::AwaitingHandshake,
                    PublisherAction::Receive,
                ),
                _ => self.shut(),
            },
            PublisherState::Registering => match event {
                PublisherEvent::Registered(Ok(stream_id)) => {
                    let held = stream_id.clone();
                    (
                        PublisherState::Acknowledging { stream_id: held },
                        PublisherAction::Acknowledge(stream_id),
                    )
                },
                PublisherEvent::Registered(Err(rejection)) => (
                    PublisherState::Closed,
                    PublisherAction::Reject(rejection),
                ),
                _ => self.shut(),
            },
            PublisherState::Acknowledging { stream_id } => match event {
                PublisherEvent::Sent(true) => (
                    PublisherState::Active { stream_id },
                    PublisherAction::Receive,
                ),
                _ => (PublisherState::Closed, PublisherAction::Unregister(stream_id)),
            },
            PublisherState::Active { stream_id } => match event {
                PublisherEvent::Inbound(Inbound::Binary(frame)) => (
                    PublisherState::Active { stream_id },
                    PublisherAction::Relay(frame),
                ),
                PublisherEvent::Inbound(Inbound::Ping(payload)) => (
                    PublisherState::Active { stream_id },
                    PublisherAction::Pong(payload),
                ),
                PublisherEvent::Inbound(Inbound::Text(_)) => (
                    PublisherState::Active { stream_id },
                    PublisherAction::Receive,
                ),
                PublisherEvent::Inbound(Inbound::Pong(_)) => (
                    PublisherState::Active { stream_id },
                    PublisherAction::Receive,
                ),
                _ => (PublisherState::Closed, PublisherAction::Unregister(stream_id)),
            },
            PublisherState::Closed => (PublisherState::Closed, PublisherAction::Finish),
        }
    }
}

/// The state a fresh connection reaches through `events`, and the actions it
/// asked for on the way.
pub open spec fn run(events: Seq<PublisherEvent>) -> (PublisherState, Seq<PublisherAction>)
    decreases events.len(),
{
    if events.len() == 0 {
        (PublisherState::AwaitingHandshake, Seq::empty())
    } else {
        let (state, actions) = run(events.drop_last());
        let (state, action) = next(state, events.last());
        (state, actions.push(action))
    }
}

/// How many of `actions` acknowledge a registration, that is, how many
/// sessions the connection opened.
pub open spec fn sessions_opened(actions: Seq<PublisherAction>) -> nat
    decreases actions.len(),
{
    if actions.len() == 0 {
        0
    } else if actions.last() is Acknowledge {
        sessions_opened(actions.drop_last()) + 1
    } else {
        sessions_opened(actions.drop_last())
    }
}

/// How many of `actions` unregister a stream.
pub open spec fn sessions_removed(actions: Seq<PublisherAction>) -> nat
    decreases actions.len(),
{
    if actions.len() == 0 {
        0
    } else if actions.last() is Unregister {
        sessions_removed(actions.drop_last()) + 1
    } else {
        sessions_removed(actions.drop_last())
    }
}

/// Whether every stream that `actions` unregister is the one they
/// acknowledged before.
pub open spec fn removes_only_its_own(actions: Seq<PublisherAction>) -> bool {
    forall|j: int|
        0 <= j < actions.len() && (#[trigger] actions[j]) is Unregister ==> exists|i: int|
            0 <= i < j && #[trigger] actions[i] == PublisherAction::Acknowledge(
                actions[j]->Unregister_0,
            )
}

/// The id under which the connection's session is registered.
pub open spec fn session_id(state: PublisherState) -> StreamId {
    match state {
        PublisherState::Acknowledging { stream_id } => stream_id,
        PublisherState::Active { stream_id } => stream_id,
        _ => arbitrary(),
    }
}

/// Whatever events arrive and in whatever order: a connection opens at most
/// one session; while its stream is registered it has not removed it; once
/// the connection holds no session it has removed exactly the session it
/// opened, once, and none if it opened none; and the stream it removes is the
/// one it was acknowledged.
pub proof fn lemma_session_removed_exactly_once(events: Seq<PublisherEvent>)
    ensures
        sessions_opened(run(events).1) <= 1,
        run(events).0.holds_session() ==> sessions_opened(run(events).1) == 1
            && sessions_removed(run(events).1) == 0,
        !run(events).0.holds_session() ==> sessions_removed(run(events).1) == sessions_opened(
            run(events).1,
        ),
        sessions_opened(run(events).1) == 1 ==> run(events).0.holds_session() || run(
            events,
        ).0 is Closed,
        removes_only_its_own(run(events).1),
    decreases events.len(),
{
    lemma_session_is_acknowledged(events);
    if events.len() > 0 {
        lemma_session_removed_exactly_once(events.drop_last());
        lemma_session_is_acknowledged(events.drop_last());
        let (state, actions) = run(events.drop_last());
        let (after, action) = next(state, events.last());
        let grown = actions.push(action);
        assert(grown.drop_last() =~= actions);
        assert forall|j: int| 0 <= j < grown.len() && (#[trigger] grown[j]) is Unregister implies (
        exists|i: int|
            0 <= i < j && #[trigger] grown[i] == PublisherAction::Acknowledge(
                grown[j]->Unregister_0,
            )) by {
            if j < actions.len() {
                let i = choose|i: int|
                    0 <= i < j && #[trigger] actions[i] == PublisherAction::Acknowledge(
                        actions[j]->Unregister_0,
                    );
                assert(grown[i] == actions[i]);
            } else {
                let i = choose|i: int|
                    0 <= i < actions.len() && #[trigger] actions[i] == PublisherAction::Acknowledge(
                        session_id(state),
                    );
                assert(grown[i] == actions[i]);
            }
        }
    }
}

/// While a connection holds a session, the session's id is the one that was
/// acknowledged.
proof fn lemma_session_is_acknowledged(events: Seq<PublisherEvent>)
    ensures
        run(events).0.holds_session() ==> exists|i: int|
            0 <= i < run(events).1.len() && #[trigger] run(events).1[i]
                == PublisherAction::Acknowledge(session_id(run(events).0)),
    decreases events.len(),
{
    if events.len() > 0 {
        lemma_session_is_acknowledged(events.drop_last());
        let (state, actions) = run(events.drop_last());
        let (after, action) = next(state, events.last());
        let grown = actions.push(action);
        assert(run(events) == (after, grown));
        if after.holds_session() {
            if state.holds_session() {
                let i = choose|i: int|
                    0 <= i < actions.len() && #[trigger] actions[i] == PublisherAction::Acknowledge(
                        session_id(state),
                    );
                assert(session_id(after) == session_id(state));
                assert(run(events).1[i] == PublisherAction::Acknowledge(session_id(run(events).0)));
            } else {
                assert(state is Registering);
                assert(action == PublisherAction::Acknowledge(session_id(after)));
                assert(run(events).1[actions.len() as int] == PublisherAction::Acknowledge(
                    session_id(run(events).0),
                ));
            }
        }
    }
}

/// A closed connection stays closed and asks for nothing more.
pub proof fn lemma_closed_is_final(event: PublisherEvent)
    ensures
        next(PublisherState::Closed, event) == (PublisherState::Closed, PublisherAction::Finish),
{
}

} // verus!
