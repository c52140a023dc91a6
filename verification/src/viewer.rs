//! The viewer side of the connection lifecycle, as a state machine.
//!
//! The caller owns the transport, the registry lock and the subscription. It
//! feeds the machine one event at a time and carries out the action that
//! comes back; each action says which event answers it. The machine decides
//! what counts as a handshake, when a slot is asked for, what becomes of each
//! frame and each channel outcome, and that a slot is given back exactly once.

use crate::rejection::Rejection;
use crate::session::StreamId;
use crate::transport::Inbound;
use crate::transport::Phase;
use crate::transport::Received;
use crate::transport::SubscribeMsg;
use vstd::prelude::*;

verus! {

/// Where a viewer connection stands.
#[derive(Debug, PartialEq, Eq)]
pub enum ViewerState {
    /// Waiting for a subscribe message.
    AwaitingHandshake,
    /// A text message is being decoded.
    Decoding,
    /// A slot on this stream has been asked for.
    Attaching { stream_id: StreamId },
    /// The slot is held and its acknowledgment is being sent.
    Acknowledging,
    /// The slot is held and frames are awaited.
    Active,
    /// The slot is held and a frame is being sent to the client.
    Forwarding,
    /// The connection is over.
    Closed,
}

/// What the caller reports to the machine.
#[derive(Debug, PartialEq, Eq)]
pub enum ViewerEvent {
    /// The transport delivered a message. Answers `Receive`, `Watch` and
    /// `ReportLag`.
    Inbound(Inbound),
    /// A text message was decoded, or could not be. Answers `Decode`.
    Decoded(Option<SubscribeMsg>),
    /// The viewer was attached to the stream, or refused. Answers `Attach`.
    Attached(Result<(), Rejection>),
    /// Whether what was sent reached the transport. Answers `Acknowledge`
    /// and `Forward`.
    Sent(bool),
    /// The stream's channel yielded something. Answers `Watch` and
    /// `ReportLag`.
    Channel(Received),
}

/// What the machine asks of the caller.
#[derive(Debug, PartialEq, Eq)]
pub enum ViewerAction {
    /// Wait for the next transport message.
    Receive,
    /// Decode this text as a subscribe message.
    Decode(String),
    /// Look the stream up and ask for a viewer slot on it.
    Attach(StreamId),
    /// Tell the client that it is subscribed to this stream.
    Acknowledge(StreamId),
    /// Wait for whichever comes first: a frame from the stream's channel or a
    /// transport message.
    Watch,
    /// Send this frame to the client.
    Forward(Vec<u8>),
    /// Note that the viewer missed this many frames; the client is told
    /// nothing. Then wait as for `Watch`.
    ReportLag(u64),
    /// Tell the client why it was refused, whether or not that succeeds, and
    /// end the connection. No slot is held.
    Reject(Rejection),
    /// Tell the client that the stream has ended, whether or not that
    /// succeeds, give the slot back and end the connection.
    EndStream,
    /// Give the slot back and end the connection.
    Release,
    /// End the connection. No slot is held.
    Finish,
}

impl ViewerState {
    /// The phase a client observes.
    pub open spec fn phase(self) -> Phase {
        match self {
            ViewerState::Active => Phase::Active,
            ViewerState::Forwarding => Phase::Active,
            ViewerState::Closed => Phase::Closed,
            _ => Phase::AwaitingHandshake,
        }
    }

    /// Whether the connection occupies a viewer slot.
    pub open spec fn holds_slot(self) -> bool {
        self is Acknowledging || self is Active || self is Forwarding
    }
}

impl ViewerAction {
    /// Whether the action gives a viewer slot back.
    pub open spec fn gives_slot_back(self) -> bool {
        self is Release || self is EndStream
    }
}

/// Ends a connection from any state, giving the slot back if one is held.
/// This is also how the machine answers an event that does not answer the
/// action it asked for.
pub open spec fn close(state: ViewerState) -> (ViewerState, ViewerAction) {
    if state.holds_slot() {
        (ViewerState::Closed, ViewerAction::Release)
    } else {
        (ViewerState::Closed, ViewerAction::Finish)
    }
}

/// The transition function: the state after `event`, and the action to carry
/// out.
///
/// While the handshake is awaited only a text message is looked at, and only
/// a subscribe message asks for a slot; everything else is ignored, and a
/// close ends the connection with nothing to undo. A refusal, for an unknown
/// stream or a full one, ends the connection with an error reply and no slot
/// to give back. Once active, each frame from the channel goes to the
/// client; a lag is noted and the viewer stays; the end of the stream is
/// announced to the client. A close or a transport error, and anything that
/// cannot be sent, end the connection. However the connection ends after
/// admission, the slot is given back.
pub open spec fn next(state: ViewerState, event: ViewerEvent) -> (ViewerState, ViewerAction) {
    match state {
        ViewerState::AwaitingHandshake => match event {
            ViewerEvent::Inbound(Inbound::Text(text)) => (
                ViewerState::Decoding,
                ViewerAction::Decode(text),
            ),
            ViewerEvent::Inbound(Inbound::Close) => (ViewerState::Closed, ViewerAction::Finish),
            ViewerEvent::Inbound(_) => (ViewerState::AwaitingHandshake, ViewerAction::Receive),
            _ => close(state),
        },
        ViewerState::Decoding => match event {
            ViewerEvent::Decoded(Some(msg)) => if msg.asks_to_subscribe() {
                (
                    ViewerState::Attaching { stream_id: msg.stream_id },
                    ViewerAction::Attach(msg.stream_id),
                )
            } else {
                (ViewerState::AwaitingHandshake, ViewerAction::Receive)
            },
            ViewerEvent::Decoded(None) => (ViewerState::AwaitingHandshake, ViewerAction::Receive),
            _ => close(state),
        },
        ViewerState::Attaching { stream_id } => match event {
            ViewerEvent::Attached(Ok(_)) => (
                ViewerState::Acknowledging,
                ViewerAction::Acknowledge(stream_id),
            ),
            ViewerEvent::Attached(Err(rejection)) => (
                ViewerState::Closed,
                ViewerAction::Reject(rejection),
            ),
            _ => close(state),
        },
        ViewerState::Acknowledging => match event {
            ViewerEvent::Sent(true) => (ViewerState::Active, ViewerAction::Watch),
            _ => close(state),
        },
        ViewerState::Active => match event {
            ViewerEvent::Channel(Received::Frame(frame)) => (
                ViewerState::Forwarding,
                ViewerAction::Forward(frame),
            ),
            ViewerEvent::Channel(Received::Lagged(missed)) => (
                ViewerState::Active,
                ViewerAction::ReportLag(missed),
            ),
            ViewerEvent::Channel(Received::Closed) => (
                ViewerState::Closed,
                ViewerAction::EndStream,
            ),
            ViewerEvent::Inbound(Inbound::Close) => close(state),
            ViewerEvent::Inbound(Inbound::Error) => close(state),
            ViewerEvent::Inbound(_) => (ViewerState::Active, ViewerAction::Watch),
            _ => close(state),
        },
        ViewerState::Forwarding => match event {
            ViewerEvent::Sent(true) => (ViewerState::Active, ViewerAction::Watch),
            _ => close(state),
        },
        ViewerState::Closed => (ViewerState::Closed, ViewerAction::Finish),
    }
}

impl ViewerState {
    /// The state of a connection that has just been accepted.
    pub fn new() -> (state: ViewerState)
        ensures
            state == ViewerState::AwaitingHandshake,
    {
        ViewerState::AwaitingHandshake
    }

    /// The phase a client observes.
    pub fn current_phase(&self) -> (phase: Phase)
        ensures
            phase == self.phase(),
    {
        match self {
            ViewerState::Active => Phase::Active,
            ViewerState::Forwarding => Phase::Active,
            ViewerState::Closed => Phase::Closed,
            _ => Phase::AwaitingHandshake,
        }
    }

    /// Ends the connection, giving the slot back if one is held.
    pub fn shut(self) -> (step: (ViewerState, ViewerAction))
        ensures
            step == close(self),
    {
        match self {
            ViewerState::Acknowledging => (ViewerState::Closed, ViewerAction::Release),
            ViewerState::Active => (ViewerState::Closed, ViewerAction::Release),
            ViewerState::Forwarding => (ViewerState::Closed, ViewerAction::Release),
            _ => (ViewerState::Closed, ViewerAction::Finish),
        }
    }

    /// Takes one step: consumes the state and the event, and returns the next
    /// state with the action to carry out.
    pub fn step(self, event: ViewerEvent) -> (step: (ViewerState, ViewerAction))
        ensures
            step == next(self, event),
    {
        match self {
            ViewerState::AwaitingHandshake => match event {
                ViewerEvent::Inbound(Inbound::Text(text)) => (
                    ViewerState::Decoding,
                    ViewerAction::Decode(text),
                ),
                ViewerEvent::Inbound(Inbound::Close) => (
                    ViewerState::Closed,
                    ViewerAction::Finish,
                ),
                ViewerEvent::Inbound(_) => (
                    ViewerState::AwaitingHandshake,
                    ViewerAction::Receive,
                ),
                _ => self.shut(),
            },
            ViewerState::Decoding => match event {
                ViewerEvent::Decoded(Some(msg)) => if msg.is_subscribe() {
                    let wanted = msg.stream_id.clone();
                    (
                        ViewerState::Attaching { stream_id: wanted },
                        ViewerAction::Attach(msg.stream_id),
                    )
                } else {
                    (ViewerState::AwaitingHandshake, ViewerAction::Receive)
                },
                ViewerEvent::Decoded(None) => (
                    ViewerState::AwaitingHandshake,
                    ViewerAction::Receive,
                ),
                _ => self.shut(),
            },
            ViewerState::Attaching { stream_id } => match event {
                ViewerEvent::Attached(Ok(_)) => (
                    ViewerState::Acknowledging,
                    ViewerAction::Acknowledge(stream_id),
                ),
                ViewerEvent::Attached(Err(rejection)) => (
                    ViewerState::Closed,
                    ViewerAction::Reject(rejection),
                ),
                _ => (ViewerState::Closed, ViewerAction::Finish),
            },
            ViewerState::Acknowledging => match event {
                ViewerEvent::Sent(true) => (ViewerState::Active, ViewerAction::Watch),
                _ => self.shut(),
            },
            ViewerState::Active => match event {
                ViewerEvent::Channel(Received::Frame(frame)) => (
                    ViewerState::Forwarding,
                    ViewerAction::Forward(frame),
                ),
                ViewerEvent::Channel(Received::Lagged(missed)) => (
                    ViewerState::Active,
                    ViewerAction::ReportLag(missed),
                ),
                ViewerEvent::Channel(Received::Closed) => (
                    ViewerState::Closed,
                    ViewerAction::EndStream,
                ),
                ViewerEvent::Inbound(Inbound::Close) => self.shut(),
                ViewerEvent::Inbound(Inbound::Error) => self.shut(),
                ViewerEvent::Inbound(_) => (ViewerState::Active, ViewerAction::Watch),
                _ => self.shut(),
            },
            ViewerState::Forwarding => match event {
                ViewerEvent::Sent(true) => (ViewerState::Active, ViewerAction::Watch),
                _ => self.shut(),
            },
            ViewerState::Closed => (ViewerState::Closed, ViewerAction::Finish),
        }
    }
}

/// The state a fresh connection reaches through `events`, and the actions it
/// asked for on the way.
pub open spec fn run(events: Seq<ViewerEvent>) -> (ViewerState, Seq<ViewerAction>)
    decreases events.len(),
{
    if events.len() == 0 {
        (ViewerState::AwaitingHandshake, Seq::empty())
    } else {
        let (state, actions) = run(events.drop_last());
        let (state, action) = next(state, events.last());
        (state, actions.push(action))
    }
}

/// How many of `actions` acknowledge an admission, that is, how many slots
/// the connection took.
pub open spec fn slots_taken(actions: Seq<ViewerAction>) -> nat
    decreases actions.len(),
{
    if actions.len() == 0 {
        0
    } else if actions.last() is Acknowledge {
        slots_taken(actions.drop_last()) + 1
    } else {
        slots_taken(actions.drop_last())
    }
}

/// How many of `actions` give a slot back.
pub open spec fn slots_given_back(actions: Seq<ViewerAction>) -> nat
    decreases actions.len(),
{
    if actions.len() == 0 {
        0
    } else if actions.last().gives_slot_back() {
        slots_given_back(actions.drop_last()) + 1
    } else {
        slots_given_back(actions.drop_last())
    }
}

/// Whatever events arrive and in whatever order: a connection takes at most
/// one viewer slot; while it is admitted it holds that slot and has not given
/// it back; and once it is no longer admitted, for whatever reason, it has
/// given back exactly the slot it took, once, and none if it took none.
pub proof fn lemma_slot_given_back_exactly_once(events: Seq<ViewerEvent>)
    ensures
        slots_taken(run(events).1) <= 1,
        run(events).0.holds_slot() ==> slots_taken(run(events).1) == 1 && slots_given_back(
            run(events).1,
        ) == 0,
        !run(events).0.holds_slot() ==> slots_given_back(run(events).1) == slots_taken(
            run(events).1,
        ),
        slots_taken(run(events).1) == 1 ==> run(events).0.holds_slot() || run(events).0 is Closed,
    decreases events.len(),
{
    if events.len() > 0 {
        lemma_slot_given_back_exactly_once(events.drop_last());
        let (state, actions) = run(events.drop_last());
        let (after, action) = next(state, events.last());
        assert(actions.push(action).drop_last() =~= actions);
    }
}

/// A closed connection stays closed and asks for nothing more.
pub proof fn lemma_closed_is_final(event: ViewerEvent)
    ensures
        next(ViewerState::Closed, event) == (ViewerState::Closed, ViewerAction::Finish),
{
}

} // verus!
