use chat_lobby::database::{CloseChat, GetLobby, GetLobbyList, GetSession, RegisterChat, RegisterSession};
use chat_lobby::models::blocks::{Block, NewBlock};
use chat_lobby::models::chats::NewChat;
use chat_lobby::models::lobby::{NewLobby, UpdateLobby};
use chat_lobby::models::session::{NewSession, Session};
use chat_lobby::models::users::{NewUser, User};
use chat_lobby::models::{IpNetwork, Timestamp};

#[test]
fn rows_hold_their_fields() {
    let b = Block { id: 1, user_id: "u".to_string(), blocked_id: "v".to_string() };
    assert_eq!((b.id, b.user_id.as_str(), b.blocked_id.as_str()), (1, "u", "v"));
    let nb = NewBlock { user_id: "u".to_string(), blocked_id: "w".to_string() };
    assert_eq!(nb.blocked_id, "w");
    let u = NewUser { id: "fp".to_string() };
    assert_eq!(u.id, "fp");
    let t = Timestamp { seconds: 10, nanoseconds: 0 };
    let user = User { id: "fp".to_string(), created_at: t };
    assert_eq!(user.created_at, t);
    let nc = NewChat { id: 3, message_counter: 0, status: "open".to_string() };
    assert_eq!(nc.status, "open");
    let nl = NewLobby { id: 4, name: "n".to_string(), description: "d".to_string(), nsfw: true, enabled: false };
    assert!(nl.nsfw && !nl.enabled);
    let ul = UpdateLobby { name: None, description: Some("x".to_string()), nsfw: None, enabled: Some(true) };
    assert_eq!(ul.description.as_deref(), Some("x"));
    let s = Session { id: "fp".to_string(), address: IpNetwork::V4(1, 32), created_at: t };
    assert_eq!(s.address, IpNetwork::V4(1, 32));
    let ns = NewSession { id: "fp".to_string(), address: IpNetwork::V6(1, 128) };
    assert_eq!(ns.id, "fp");
}

#[test]
fn database_requests_hold_their_fields() {
    assert_eq!(RegisterChat(5).0, 5);
    let c = CloseChat { chat_id: 6, message_counter: 3 };
    assert_eq!((c.chat_id, c.message_counter), (6, 3));
    assert_eq!(GetLobby(7).0, 7);
    let _ = GetLobbyList;
    assert_eq!(GetSession("fp".to_string()).0, "fp");
    let r = RegisterSession { fingerprint: "fp".to_string(), ip_address: IpNetwork::V4(2, 32) };
    assert_eq!(r.ip_address, IpNetwork::V4(2, 32));
}
