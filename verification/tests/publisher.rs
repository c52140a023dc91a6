use stream_relay::publisher::PublisherAction;
use stream_relay::publisher::PublisherEvent;
use stream_relay::publisher::PublisherState;
use stream_relay::rejection::Rejection;
use stream_relay::transport::Inbound;
use stream_relay::transport::Phase;
use stream_relay::transport::RegisterMsg;

fn register(stream_id: Option<&str>) -> PublisherEvent {
    PublisherEvent::Decoded(Some(RegisterMsg {
        msg_type: "register".to_string(),
        stream_id: stream_id.map(|s| s.to_string()),
    }))
}

fn text(s: &str) -> PublisherEvent {
    PublisherEvent::Inbound(Inbound::Text(s.to_string()))
}

fn active(id: &str) -> PublisherState {
    PublisherState::Active { stream_id: id.to_string() }
}

fn acknowledging(id: &str) -> PublisherState {
    PublisherState::Acknowledging { stream_id: id.to_string() }
}

fn every_event() -> Vec<PublisherEvent> {
    vec![
        text("{}"),
        PublisherEvent::Inbound(Inbound::Binary(vec![1, 2])),
        PublisherEvent::Inbound(Inbound::Ping(vec![3])),
        PublisherEvent::Inbound(Inbound::Pong(vec![4])),
        PublisherEvent::Inbound(Inbound::Close),
        PublisherEvent::Inbound(Inbound::Error),
        PublisherEvent::Decoded(None),
        register(None),
        register(Some("x")),
        PublisherEvent::Registered(Ok("x".to_string())),
        PublisherEvent::Registered(Err(Rejection::MaxStreams)),
        PublisherEvent::Sent(true),
        PublisherEvent::Sent(false),
    ]
}

#[test]
fn publisher_starts_awaiting_the_handshake() {
    let state = PublisherState::new();
    assert_eq!(state, PublisherState::AwaitingHandshake);
    assert_eq!(state.current_phase(), Phase::AwaitingHandshake);
}

#[test]
fn publisher_phases() {
    assert_eq!(PublisherState::Decoding.current_phase(), Phase::AwaitingHandshake);
    assert_eq!(PublisherState::Registering.current_phase(), Phase::AwaitingHandshake);
    assert_eq!(acknowledging("a").current_phase(), Phase::AwaitingHandshake);
    assert_eq!(active("a").current_phase(), Phase::Active);
    assert_eq!(PublisherState::Closed.current_phase(), Phase::Closed);
}

#[test]
fn publisher_happy_path() {
    let state = PublisherState::new();
    let (state, action) = state.step(text("{\"type\":\"register\",\"stream_id\":\"cam\"}"));
    assert_eq!(state, PublisherState::Decoding);
    assert_eq!(
        action,
        PublisherAction::Decode("{\"type\":\"register\",\"stream_id\":\"cam\"}".to_string())
    );
    let (state, action) = state.step(register(Some("cam")));
    assert_eq!(state, PublisherState::Registering);
    assert_eq!(action, PublisherAction::Register(Some("cam".to_string())));
    let (state, action) = state.step(PublisherEvent::Registered(Ok("cam".to_string())));
    assert_eq!(state, acknowledging("cam"));
    assert_eq!(action, PublisherAction::Acknowledge("cam".to_string()));
    let (state, action) = state.step(PublisherEvent::Sent(true));
    assert_eq!(state, active("cam"));
    assert_eq!(action, PublisherAction::Receive);
    let (state, action) = state.step(PublisherEvent::Inbound(Inbound::Binary(vec![9, 8, 7])));
    assert_eq!(state, active("cam"));
    assert_eq!(action, PublisherAction::Relay(vec![9, 8, 7]));
    let (state, action) = state.step(PublisherEvent::Inbound(Inbound::Close));
    assert_eq!(state, PublisherState::Closed);
    assert_eq!(action, PublisherAction::Unregister("cam".to_string()));
    let (state, action) = state.step(PublisherEvent::Inbound(Inbound::Close));
    assert_eq!(state, PublisherState::Closed);
    assert_eq!(action, PublisherAction::Finish);
}

#[test]
fn register_without_an_id_asks_for_a_generated_one() {
    let (state, action) = PublisherState::Decoding.step(register(None));
    assert_eq!(state, PublisherState::Registering);
    assert_eq!(action, PublisherAction::Register(None));
    let (state, action) = state.step(PublisherEvent::Registered(Ok("Ab3dE6gH".to_string())));
    assert_eq!(state, acknowledging("Ab3dE6gH"));
    assert_eq!(action, PublisherAction::Acknowledge("Ab3dE6gH".to_string()));
}

#[test]
fn handshake_ignores_everything_but_text_and_close() {
    for payload in [
        Inbound::Binary(vec![1]),
        Inbound::Ping(vec![2]),
        Inbound::Pong(vec![3]),
        Inbound::Error,
    ] {
        let (state, action) = PublisherState::new().step(PublisherEvent::Inbound(payload));
        assert_eq!(state, PublisherState::AwaitingHandshake);
        assert_eq!(action, PublisherAction::Receive);
    }
}

#[test]
fn close_during_the_handshake_has_no_side_effect() {
    let (state, action) = PublisherState::new().step(PublisherEvent::Inbound(Inbound::Close));
    assert_eq!(state, PublisherState::Closed);
    assert_eq!(action, PublisherAction::Finish);
}

#[test]
fn text_that_is_no_register_message_is_ignored() {
    let (state, action) = PublisherState::Decoding.step(PublisherEvent::Decoded(None));
    assert_eq!(state, PublisherState::AwaitingHandshake);
    assert_eq!(action, PublisherAction::Receive);
    let other = PublisherEvent::Decoded(Some(RegisterMsg {
        msg_type: "subscribe".to_string(),
        stream_id: Some("cam".to_string()),
    }));
    let (state, action) = PublisherState::Decoding.step(other);
    assert_eq!(state, PublisherState::AwaitingHandshake);
    assert_eq!(action, PublisherAction::Receive);
    let (state, action) = state.step(text("again"));
    assert_eq!(state, PublisherState::Decoding);
    assert_eq!(action, PublisherAction::Decode("again".to_string()));
}

#[test]
fn refused_registration_closes_without_a_session() {
    let refused = PublisherEvent::Registered(Err(Rejection::MaxStreams));
    let (state, action) = PublisherState::Registering.step(refused);
    assert_eq!(state, PublisherState::Closed);
    assert_eq!(action, PublisherAction::Reject(Rejection::MaxStreams));
    let (state, action) = state.step(PublisherEvent::Sent(true));
    assert_eq!(state, PublisherState::Closed);
    assert_eq!(action, PublisherAction::Finish);
}

#[test]
fn acknowledgment_that_cannot_be_sent_unregisters() {
    let (state, action) = acknowledging("cam").step(PublisherEvent::Sent(false));
    assert_eq!(state, PublisherState::Closed);
    assert_eq!(action, PublisherAction::Unregister("cam".to_string()));
}

#[test]
fn binary_payloads_are_relayed_unread() {
    for payload in [vec![], vec![0u8], b"{\"type\":\"register\"}".to_vec(), vec![255u8; 70000]] {
        let event = PublisherEvent::Inbound(Inbound::Binary(payload.clone()));
        let (state, action) = active("cam").step(event);
        assert_eq!(state, active("cam"));
        assert_eq!(action, PublisherAction::Relay(payload));
    }
}

#[test]
fn ping_is_answered_in_kind() {
    let (state, action) = active("cam").step(PublisherEvent::Inbound(Inbound::Ping(vec![1, 2])));
    assert_eq!(state, active("cam"));
    assert_eq!(action, PublisherAction::Pong(vec![1, 2]));
}

#[test]
fn active_publisher_ignores_other_control_messages() {
    let (state, action) = active("cam").step(text("{\"type\":\"register\"}"));
    assert_eq!(state, active("cam"));
    assert_eq!(action, PublisherAction::Receive);
    let (state, action) = state.step(PublisherEvent::Inbound(Inbound::Pong(vec![1])));
    assert_eq!(state, active("cam"));
    assert_eq!(action, PublisherAction::Receive);
}

#[test]
fn close_or_error_while_active_unregisters() {
    for ending in [Inbound::Close, Inbound::Error] {
        let (state, action) = active("cam").step(PublisherEvent::Inbound(ending));
        assert_eq!(state, PublisherState::Closed);
        assert_eq!(action, PublisherAction::Unregister("cam".to_string()));
    }
}

#[test]
fn closed_publisher_stays_closed() {
    for event in every_event() {
        let (state, action) = PublisherState::Closed.step(event);
        assert_eq!(state, PublisherState::Closed);
        assert_eq!(action, PublisherAction::Finish);
    }
}

#[test]
fn event_out_of_turn_ends_the_connection() {
    let (state, action) = PublisherState::new().step(PublisherEvent::Sent(true));
    assert_eq!((state, action), (PublisherState::Closed, PublisherAction::Finish));
    let (state, action) = PublisherState::Decoding.step(text("x"));
    assert_eq!((state, action), (PublisherState::Closed, PublisherAction::Finish));
    let (state, action) = PublisherState::Registering.step(PublisherEvent::Decoded(None));
    assert_eq!((state, action), (PublisherState::Closed, PublisherAction::Finish));
    let (state, action) = acknowledging("cam").step(register(None));
    assert_eq!(
        (state, action),
        (PublisherState::Closed, PublisherAction::Unregister("cam".to_string()))
    );
    let (state, action) = active("cam").step(PublisherEvent::Registered(Ok("x".to_string())));
    assert_eq!(
        (state, action),
        (PublisherState::Closed, PublisherAction::Unregister("cam".to_string()))
    );
}

#[test]
fn shut_gives_up_the_session_if_there_is_one() {
    assert_eq!(
        PublisherState::new().shut(),
        (PublisherState::Closed, PublisherAction::Finish)
    );
    assert_eq!(
        PublisherState::Registering.shut(),
        (PublisherState::Closed, PublisherAction::Finish)
    );
    assert_eq!(
        acknowledging("a").shut(),
        (PublisherState::Closed, PublisherAction::Unregister("a".to_string()))
    );
    assert_eq!(
        active("a").shut(),
        (PublisherState::Closed, PublisherAction::Unregister("a".to_string()))
    );
    assert_eq!(
        PublisherState::Closed.shut(),
        (PublisherState::Closed, PublisherAction::Finish)
    );
}

fn walk(state: PublisherState, depth: u32, opened: u32, removed: u32) {
    assert!(opened <= 1);
    assert!(removed <= opened);
    let holds = matches!(
        state,
        PublisherState::Acknowledging { .. } | PublisherState::Active { .. }
    );
    if holds {
        assert_eq!((opened, removed), (1, 0));
    } else {
        assert_eq!(removed, opened);
    }
    if depth == 0 {
        return;
    }
    for event in every_event() {
        let from = match &state {
            PublisherState::AwaitingHandshake => PublisherState::AwaitingHandshake,
            PublisherState::Decoding => PublisherState::Decoding,
            PublisherState::Registering => PublisherState::Registering,
            PublisherState::Acknowledging { stream_id } => {
                PublisherState::Acknowledging { stream_id: stream_id.clone() }
            }
            PublisherState::Active { stream_id } => {
                PublisherState::Active { stream_id: stream_id.clone() }
            }
            PublisherState::Closed => PublisherState::Closed,
        };
        let (next, action) = from.step(event);
        let opened = opened + u32::from(matches!(action, PublisherAction::Acknowledge(_)));
        let removed = removed + u32::from(matches!(action, PublisherAction::Unregister(_)));
        walk(next, depth - 1, opened, removed);
    }
}

#[test]
fn session_is_removed_exactly_once_on_every_short_trace() {
    walk(PublisherState::new(), 5, 0, 0);
}

#[test]
fn acknowledgment_carries_the_id_the_registry_gave() {
    let (state, action) = PublisherState::Decoding.step(register(Some("cam")));
    assert_eq!(state, PublisherState::Registering);
    assert_eq!(action, PublisherAction::Register(Some("cam".to_string())));
    let (state, action) = state.step(PublisherEvent::Registered(Ok("q7Rk20bX".to_string())));
    assert_eq!(state, acknowledging("q7Rk20bX"));
    assert_eq!(action, PublisherAction::Acknowledge("q7Rk20bX".to_string()));
    let (state, _) = state.step(PublisherEvent::Sent(true));
    let (state, action) = state.step(PublisherEvent::Inbound(Inbound::Close));
    assert_eq!(state, PublisherState::Closed);
    assert_eq!(action, PublisherAction::Unregister("q7Rk20bX".to_string()));
}
