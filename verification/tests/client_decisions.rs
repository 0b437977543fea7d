use chat_lobby::client::{
    Client, ConnectReply, Frame, FrameAction, HeartbeatAction, Joined,
    CLIENT_ALERT_TIMEOUT_NANOS, CLIENT_DISCONNECT_TIMEOUT_NANOS, HEARTBEAT_INTERVAL_SECS,
};
use chat_lobby::message::ClientMessage;

fn client() -> Client<&'static str, u32> {
    Client::new("fp1".to_string(), "lobby")
}

fn msg(fingerprint: &str, event: &str) -> ClientMessage {
    ClientMessage { fingerprint: fingerprint.to_string(), event: event.to_string(), data: "{}".to_string() }
}

#[test]
fn new_client_is_in_no_chat() {
    let c = client();
    assert_eq!(c.fingerprint(), "fp1");
    assert_eq!(*c.lobby_addr(), "lobby");
    assert!(c.chat_addr().is_none());
}

#[test]
fn error_message_text() {
    let c = client();
    assert_eq!(
        c.client_error_message(400, "Bad Request"),
        r#"{"data":{"code":400,"message":"Bad Request"},"event":"error","fingerprint":"fp1"}"#
    );
}

#[test]
fn event_message_text_with_and_without_data() {
    let c = client();
    assert_eq!(c.client_event_message("connected", None), r#"{"data":{},"event":"connected","fingerprint":"fp1"}"#);
    assert_eq!(
        c.client_event_message("joined", Some("[1,2]".to_string())),
        r#"{"data":[1,2],"event":"joined","fingerprint":"fp1"}"#
    );
}

#[test]
fn connect_accepted_says_connected() {
    let r = client().connect_reply(ConnectReply::Accepted);
    assert!(!r.stop);
    assert_eq!(r.text.unwrap(), r#"{"data":{},"event":"connected","fingerprint":"fp1"}"#);
}

#[test]
fn connect_refused_reports_and_stops() {
    let r = client().connect_reply(ConnectReply::Refused);
    assert!(r.stop);
    assert_eq!(
        r.text.unwrap(),
        r#"{"data":{"code":400,"message":"Client aready connected."},"event":"error","fingerprint":"fp1"}"#
    );
}

#[test]
fn connect_undelivered_stops_silently() {
    let r = client().connect_reply(ConnectReply::Undelivered);
    assert!(r.stop);
    assert!(r.text.is_none());
}

#[test]
fn heartbeat_thresholds() {
    assert_eq!(HEARTBEAT_INTERVAL_SECS, 2);
    assert_eq!(CLIENT_ALERT_TIMEOUT_NANOS, 3_000_000_000);
    assert_eq!(CLIENT_DISCONNECT_TIMEOUT_NANOS, 10_000_000_000);
    let mut c = client();
    assert!(matches!(c.heartbeat(0), HeartbeatAction::Ping(None)));
    // Outside a conversation, nobody is alerted.
    assert!(matches!(c.heartbeat(5_000_000_000), HeartbeatAction::Ping(None)));
    c.joined(Joined(7));
    assert!(matches!(c.heartbeat(3_000_000_000), HeartbeatAction::Ping(None)));
    match c.heartbeat(3_000_000_001) {
        HeartbeatAction::Ping(Some(t)) => assert_eq!(t.0, "fp1"),
        _ => panic!("expected an alert"),
    }
    match c.heartbeat(10_000_000_000) {
        HeartbeatAction::Ping(Some(t)) => assert_eq!(t.0, "fp1"),
        _ => panic!("expected an alert"),
    }
    match c.heartbeat(10_000_000_001) {
        HeartbeatAction::Disconnect(d) => assert_eq!(d.0, "fp1"),
        _ => panic!("expected a disconnect"),
    }
}

#[test]
fn control_frames() {
    let c = client();
    assert!(matches!(c.frame(Frame::Ping), FrameAction::Pong));
    assert!(matches!(c.frame(Frame::Pong), FrameAction::Alive));
    assert!(matches!(c.frame(Frame::Binary), FrameAction::Ignore));
    assert!(matches!(c.frame(Frame::Nop), FrameAction::Ignore));
    assert!(matches!(c.frame(Frame::Close), FrameAction::Close));
    assert!(matches!(c.frame(Frame::Continuation), FrameAction::Stop));
}

#[test]
fn unreadable_text_is_a_bad_request() {
    match client().frame(Frame::Text(None)) {
        FrameAction::Reply(t) => assert_eq!(
            t,
            r#"{"data":{"code":400,"message":"Bad Request"},"event":"error","fingerprint":"fp1"}"#
        ),
        _ => panic!("expected a reply"),
    }
}

#[test]
fn foreign_fingerprint_is_refused() {
    match client().frame(Frame::Text(Some(msg("intruder", "look")))) {
        FrameAction::Reply(t) => assert_eq!(
            t,
            r#"{"data":{"code":401,"message":"-12315"},"event":"error","fingerprint":"fp1"}"#
        ),
        _ => panic!("expected a reply"),
    }
}

#[test]
fn own_messages_go_to_lobby_then_chat() {
    let mut c = client();
    match c.frame(Frame::Text(Some(msg("fp1", "look")))) {
        FrameAction::ToLobby(m) => assert_eq!(m.event, "look"),
        _ => panic!("expected the lobby"),
    }
    let joined = c.joined(Joined(42));
    assert_eq!(joined, r#"{"data":{},"event":"joined","fingerprint":"fp1"}"#);
    assert_eq!(c.chat_addr(), Some(&42));
    match c.frame(Frame::Text(Some(msg("fp1", "message")))) {
        FrameAction::ToChat(m) => assert_eq!(m.event, "message"),
        _ => panic!("expected the chat"),
    }
}

#[test]
fn silent_client_dropped_at_fifth_tick() {
    let mut c = client();
    c.joined(Joined(1));
    // The first tick after the last sign of life saw 1.5 s of silence.
    let first: u128 = 1_500_000_000;
    let mut dropped_at = None;
    for k in 0..10u128 {
        let silence = first + k * 2_000_000_000;
        match c.heartbeat(silence) {
            HeartbeatAction::Disconnect(_) => {
                dropped_at = Some(k);
                break;
            }
            HeartbeatAction::Ping(alert) => assert_eq!(alert.is_some(), silence > 3_000_000_000),
        }
    }
    assert_eq!(dropped_at, Some(5));
}
