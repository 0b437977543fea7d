use chat_lobby::chat::Chat;
use chat_lobby::database::RegisterChat;
use chat_lobby::lobby::{ChatDisconnect, Connect, Disconnect, Lobby, LookOutcome, Session, SessionState};
use chat_lobby::message::ClientMessage;
use chat_lobby::models::{chats, lobby, Timestamp};

fn stamp() -> Timestamp {
    Timestamp { seconds: 1_600_000_000, nanoseconds: 5 }
}

fn lobby_record(id: u128) -> lobby::Lobby {
    lobby::Lobby {
        id,
        name: "main".to_string(),
        description: "the main room".to_string(),
        nsfw: false,
        enabled: true,
        created_at: stamp(),
        updated_at: stamp(),
    }
}

fn chat_record(id: u128) -> chats::Chat {
    chats::Chat { id, message_counter: 0, status: "open".to_string(), created_at: stamp(), updated_at: stamp() }
}

fn look(fingerprint: &str) -> ClientMessage {
    ClientMessage { fingerprint: fingerprint.to_string(), event: "look".to_string(), data: "{}".to_string() }
}

fn connect(l: &mut Lobby<&'static str>, fingerprint: &str, addr: u64) -> Result<(), ()> {
    l.connect(Connect { fingerprint: fingerprint.to_string(), conn_addr: addr })
}

fn state(l: &Lobby<&'static str>, fingerprint: &str) -> Option<SessionState> {
    l.session(&fingerprint.to_string()).map(|s| s.get_state())
}

#[test]
fn session_accessors() {
    let mut s = Session::new(4);
    assert_eq!(s.get_state(), SessionState::Waiting);
    assert_eq!(s.get_addr(), 4);
    s.set_state(SessionState::InChat(3));
    assert_eq!(s.get_state(), SessionState::InChat(3));
    assert_eq!(s.get_addr(), 4);
}

#[test]
fn connect_once_per_fingerprint() {
    let mut l: Lobby<&'static str> = Lobby::new(lobby_record(77));
    assert_eq!(l.id(), 77);
    assert_eq!(connect(&mut l, "ann", 1), Ok(()));
    assert_eq!(connect(&mut l, "bob", 2), Ok(()));
    assert_eq!(connect(&mut l, "ann", 3), Err(()));
    assert_eq!(l.session_count(), 2);
    // The second client under the same fingerprint takes the place of the first.
    assert_eq!(l.session(&"ann".to_string()), Some(Session { addr: 3, state: SessionState::Waiting }));
}

#[test]
fn disconnect_then_connect_again() {
    let mut l: Lobby<&'static str> = Lobby::new(lobby_record(1));
    connect(&mut l, "ann", 1).unwrap();
    assert!(l.disconnect(Disconnect("ann".to_string())).is_none());
    assert_eq!(l.session_count(), 0);
    assert_eq!(connect(&mut l, "ann", 5), Ok(()));
    assert!(l.disconnect(Disconnect("nobody".to_string())).is_none());
    assert_eq!(l.session_count(), 1);
}

#[test]
fn first_look_starts_looking_second_is_idle() {
    let mut l: Lobby<&'static str> = Lobby::new(lobby_record(1));
    connect(&mut l, "ann", 1).unwrap();
    match l.handle_client_message(&look("ann")) {
        LookOutcome::Looking(d) => {
            assert_eq!(d.to, 1);
            assert_eq!(d.message.fingerprint, "ann");
            assert_eq!(d.message.event, "looking");
            assert_eq!(d.message.to_json(), r#"{"data":null,"event":"looking","fingerprint":"ann"}"#);
        },
        other => panic!("unexpected {:?}", other),
    }
    assert_eq!(state(&l, "ann"), Some(SessionState::Looking));
    assert!(matches!(l.handle_client_message(&look("ann")), LookOutcome::Idle));
    assert_eq!(state(&l, "ann"), Some(SessionState::Looking));
}

#[test]
fn look_from_stranger_is_idle() {
    let mut l: Lobby<&'static str> = Lobby::new(lobby_record(1));
    assert!(matches!(l.handle_client_message(&look("ghost")), LookOutcome::Idle));
    assert_eq!(l.session_count(), 0);
}

#[test]
fn other_events_are_ignored() {
    let mut l: Lobby<&'static str> = Lobby::new(lobby_record(1));
    connect(&mut l, "ann", 1).unwrap();
    let m = ClientMessage { fingerprint: "ann".to_string(), event: "join".to_string(), data: "{}".to_string() };
    assert!(matches!(l.handle_client_message(&m), LookOutcome::Idle));
    assert_eq!(state(&l, "ann"), Some(SessionState::Waiting));
}

#[test]
fn second_looker_is_paired_with_the_first() {
    let mut l: Lobby<&'static str> = Lobby::new(lobby_record(31));
    connect(&mut l, "ann", 1).unwrap();
    connect(&mut l, "bob", 2).unwrap();
    connect(&mut l, "cid", 3).unwrap();
    l.handle_client_message(&look("ann"));
    let (partner, partner_addr) = match l.handle_client_message(&look("cid")) {
        LookOutcome::Pair { request: RegisterChat(lobby_id), partner, partner_addr } => {
            assert_eq!(lobby_id, 31);
            (partner, partner_addr)
        },
        other => panic!("unexpected {:?}", other),
    };
    assert_eq!(partner, "ann");
    assert_eq!(partner_addr, 1);
    // Nothing changes until the conversation is stored.
    assert_eq!(state(&l, "cid"), Some(SessionState::Waiting));
    assert_eq!(state(&l, "ann"), Some(SessionState::Looking));
    let chat: Chat = l.chat_registered(&"cid".to_string(), &partner, partner_addr, chat_record(500)).unwrap();
    assert_eq!(chat.id(), 500);
    assert_eq!(chat.message_counter(), 0);
    assert_eq!(chat.joined_targets(), vec![1, 3]);
    assert_eq!(state(&l, "ann"), Some(SessionState::InChat(500)));
    assert_eq!(state(&l, "cid"), Some(SessionState::InChat(500)));
    assert_eq!(state(&l, "bob"), Some(SessionState::Waiting));
    // bob now finds nobody looking.
    assert!(matches!(l.handle_client_message(&look("bob")), LookOutcome::Looking(_)));
}

#[test]
fn pairing_with_departed_partner_does_nothing() {
    let mut l: Lobby<&'static str> = Lobby::new(lobby_record(1));
    connect(&mut l, "ann", 1).unwrap();
    assert!(l.chat_registered(&"ann".to_string(), &"gone".to_string(), 9, chat_record(2)).is_none());
    assert_eq!(state(&l, "ann"), Some(SessionState::Waiting));
}

#[test]
fn disconnect_in_chat_notifies_known_chat() {
    let mut l: Lobby<&'static str> = Lobby::new(lobby_record(1));
    connect(&mut l, "ann", 1).unwrap();
    connect(&mut l, "bob", 2).unwrap();
    l.handle_client_message(&look("ann"));
    l.chat_registered(&"bob".to_string(), &"ann".to_string(), 1, chat_record(8)).unwrap();
    // The conversation is not registered yet: nobody to tell.
    assert!(l.disconnect(Disconnect("ann".to_string())).is_none());
    l.insert_chat(8, "chat-8");
    assert_eq!(l.chat_addr(8), Some(&"chat-8"));
    assert_eq!(l.chat_addr(9), None);
    let notice = l.disconnect(Disconnect("bob".to_string())).unwrap();
    assert_eq!(notice.chat_id, 8);
    assert_eq!(notice.message.0, "bob");
    assert_eq!(l.session_count(), 0);
}

#[test]
fn chat_disconnect_makes_visitor_wait() {
    let mut l: Lobby<&'static str> = Lobby::new(lobby_record(1));
    connect(&mut l, "ann", 1).unwrap();
    connect(&mut l, "bob", 2).unwrap();
    l.handle_client_message(&look("ann"));
    l.chat_registered(&"bob".to_string(), &"ann".to_string(), 1, chat_record(8)).unwrap();
    l.chat_disconnect(ChatDisconnect("ann".to_string()));
    assert_eq!(state(&l, "ann"), Some(SessionState::Waiting));
    assert_eq!(state(&l, "bob"), Some(SessionState::InChat(8)));
    l.chat_disconnect(ChatDisconnect("nobody".to_string()));
    assert_eq!(l.session_count(), 2);
}

#[test]
fn pairing_reaches_partner_where_it_was_found() {
    let mut l: Lobby<&'static str> = Lobby::new(lobby_record(1));
    connect(&mut l, "ann", 1).unwrap();
    connect(&mut l, "bob", 2).unwrap();
    l.handle_client_message(&look("ann"));
    let (partner, partner_addr) = match l.handle_client_message(&look("bob")) {
        LookOutcome::Pair { partner, partner_addr, .. } => (partner, partner_addr),
        other => panic!("unexpected {:?}", other),
    };
    // ann reconnects before the database answers: the session now waits
    // at a new client, but the conversation reaches the one found looking.
    assert_eq!(connect(&mut l, "ann", 7), Err(()));
    let chat = l.chat_registered(&"bob".to_string(), &partner, partner_addr, chat_record(3)).unwrap();
    assert_eq!(chat.joined_targets(), vec![1, 2]);
    assert_eq!(state(&l, "ann"), Some(SessionState::InChat(3)));
    assert_eq!(l.session(&"ann".to_string()).unwrap().get_addr(), 7);
}

#[test]
fn at_most_one_visitor_looks() {
    let mut l: Lobby<&'static str> = Lobby::new(lobby_record(1));
    for (i, f) in ["a", "b", "c", "d"].iter().enumerate() {
        connect(&mut l, f, i as u64).unwrap();
    }
    l.handle_client_message(&look("a"));
    l.handle_client_message(&look("b"));
    l.handle_client_message(&look("c"));
    l.handle_client_message(&look("d"));
    let looking = ["a", "b", "c", "d"]
        .iter()
        .filter(|f| state(&l, f) == Some(SessionState::Looking))
        .count();
    assert_eq!(looking, 1);
}
