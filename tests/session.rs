use broadcast_relay::{
    BroadcastMessage, MessageType, MyWs, ResponseValue, SessionAction, SessionEvent, SessionState,
};

fn msg(body: &str) -> BroadcastMessage {
    BroadcastMessage::new(body.to_string(), MessageType::Text, 42)
}

fn sent_body(a: SessionAction) -> String {
    match a {
        SessionAction::Send(r) => {
            assert_eq!(r.status, "success");
            assert_eq!(r.message, "Message broadcasted");
            match r.value {
                Some(ResponseValue::Messages(v)) => {
                    assert_eq!(v.len(), 1);
                    v[0].message.clone()
                }
                _ => panic!("no message carried"),
            }
        }
        _ => panic!("expected a send"),
    }
}

#[test]
fn session_starts_by_registering() {
    let mut s = MyWs::new(3);
    assert_eq!(s.state, SessionState::Connecting);
    assert!(matches!(s.step(SessionEvent::Started), SessionAction::Register));
    assert_eq!(s.state, SessionState::Active);
    assert_eq!(s.id, 3);
    assert!(matches!(s.step(SessionEvent::Started), SessionAction::Ignore));
}

#[test]
fn active_session_writes_pushed_messages_in_order() {
    let mut s = MyWs::new(1);
    s.step(SessionEvent::Started);
    assert_eq!(sent_body(s.step(SessionEvent::Delivered(msg("greeting")))), "greeting");
    assert_eq!(sent_body(s.step(SessionEvent::Delivered(msg("a")))), "a");
    assert_eq!(sent_body(s.step(SessionEvent::Delivered(msg("b")))), "b");
}

#[test]
fn inbound_text_is_ignored() {
    let mut s = MyWs::new(1);
    s.step(SessionEvent::Started);
    assert!(matches!(s.step(SessionEvent::InboundText("hi".to_string())), SessionAction::Ignore));
    assert_eq!(s.state, SessionState::Active);
}

#[test]
fn close_unregisters_exactly_once() {
    let mut s = MyWs::new(1);
    s.step(SessionEvent::Started);
    assert!(matches!(s.step(SessionEvent::InboundClose), SessionAction::Unregister));
    assert_eq!(s.state, SessionState::Closed);
    assert!(matches!(s.step(SessionEvent::TransportFailed), SessionAction::Ignore));
    assert!(matches!(s.step(SessionEvent::Stopping), SessionAction::Ignore));
    assert!(matches!(s.step(SessionEvent::Delivered(msg("late"))), SessionAction::Ignore));
}

#[test]
fn transport_failure_closes_session() {
    let mut s = MyWs::new(1);
    s.step(SessionEvent::Started);
    assert!(matches!(s.step(SessionEvent::TransportFailed), SessionAction::Unregister));
    assert_eq!(s.state, SessionState::Closed);
}

#[test]
fn session_closed_before_start_never_unregisters() {
    let mut s = MyWs::new(1);
    assert!(matches!(s.step(SessionEvent::Stopping), SessionAction::Ignore));
    assert_eq!(s.state, SessionState::Closed);
    assert!(matches!(s.step(SessionEvent::Started), SessionAction::Ignore));
    assert!(matches!(s.step(SessionEvent::Delivered(msg("x"))), SessionAction::Ignore));
}
