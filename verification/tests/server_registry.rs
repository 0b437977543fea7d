use chat_lobby::models::{IpAddress, IpNetwork};
use chat_lobby::server::{join_lobby, parse_lobby_id, GetLobbyAddr, JoinError, Server};

#[test]
fn lobby_ids_parse_as_uuids() {
    assert_eq!(
        parse_lobby_id("936DA01F-9ABD-4D9D-80C7-02AF85C822A8"),
        Ok(0x936DA01F9ABD4D9D80C702AF85C822A8u128)
    );
    assert_eq!(parse_lobby_id("936da01f9abd4d9d80c702af85c822a8"), Ok(0x936DA01F9ABD4D9D80C702AF85C822A8u128));
    assert_eq!(parse_lobby_id("not-a-uuid"), Err(JoinError::InvalidLobbyId));
    assert_eq!(parse_lobby_id(""), Err(JoinError::InvalidLobbyId));
}

#[test]
fn uuid_forms_accepted() {
    let v = 0x67e5504410b1426f9247bb680e5fe0c8u128;
    assert_eq!(parse_lobby_id("67e55044-10b1-426f-9247-bb680e5fe0c8"), Ok(v));
    assert_eq!(parse_lobby_id("67E55044-10B1-426F-9247-BB680E5FE0C8"), Ok(v));
    assert_eq!(parse_lobby_id("67e5504410b1426f9247bb680e5fe0c8"), Ok(v));
    assert_eq!(parse_lobby_id("urn:uuid:67e55044-10b1-426f-9247-bb680e5fe0c8"), Ok(v));
    assert_eq!(parse_lobby_id("00000000-0000-0000-0000-000000000000"), Ok(0));
    assert_eq!(parse_lobby_id("ffffffffffffffffffffffffffffffff"), Ok(u128::MAX));
}

#[test]
fn uuid_forms_refused() {
    // hyphen one place off
    assert_eq!(parse_lobby_id("67e5504-410b1-426f-9247-bb680e5fe0c8"), Err(JoinError::InvalidLobbyId));
    // hyphens in a 32-byte text
    assert_eq!(parse_lobby_id("67e55044-10b1-426f-9247-bb680e5f"), Err(JoinError::InvalidLobbyId));
    // urn prefix on the simple form, and a wrong prefix
    assert_eq!(parse_lobby_id("urn:uuid:67e5504410b1426f9247bb680e5fe0c8"), Err(JoinError::InvalidLobbyId));
    assert_eq!(parse_lobby_id("URN:UUID:67e55044-10b1-426f-9247-bb680e5fe0c8"), Err(JoinError::InvalidLobbyId));
    // braces, a non-hex digit, a non-ASCII character
    assert_eq!(parse_lobby_id("{67e55044-10b1-426f-9247-bb680e5fe0c}"), Err(JoinError::InvalidLobbyId));
    assert_eq!(parse_lobby_id("67e55044-10b1-426f-9247-bb680e5fe0cg"), Err(JoinError::InvalidLobbyId));
    assert_eq!(parse_lobby_id("67e55044-10b1-426f-9247-bb680e5fe0\u{e9}"), Err(JoinError::InvalidLobbyId));
    // a 33rd digit in place of a hyphen
    assert_eq!(parse_lobby_id("67e55044010b1-426f-9247-bb680e5fe0c8"), Err(JoinError::InvalidLobbyId));
}

#[test]
fn join_needs_a_lobby() {
    assert_eq!(join_lobby(Some(5u8)), Ok(5));
    assert_eq!(join_lobby::<u8>(None), Err(JoinError::LobbyNotFound));
}

#[test]
fn join_errors_explain_themselves() {
    assert_eq!(JoinError::InvalidLobbyId.reason(), "invalid lobby id!");
    assert_eq!(JoinError::LobbyNotFound.reason(), "Lobby id not exists!");
}

#[test]
fn registry_finds_what_was_inserted() {
    let mut s: Server<String> = Server::new();
    assert_eq!(s.get_lobby_addr(GetLobbyAddr { id: 1 }), None);
    s.insert_lobby(1, "one".to_string());
    s.insert_lobby(2, "two".to_string());
    s.insert_lobby(1, "uno".to_string());
    assert_eq!(s.get_lobby_addr(GetLobbyAddr { id: 1 }), Some(&"uno".to_string()));
    assert_eq!(s.get_lobby_addr(GetLobbyAddr { id: 2 }), Some(&"two".to_string()));
    assert_eq!(s.get_lobby_addr(GetLobbyAddr { id: 3 }), None);
}

#[test]
fn host_networks() {
    assert_eq!(IpNetwork::host(IpAddress::V4(0x7f000001)), IpNetwork::V4(0x7f000001, 32));
    assert_eq!(IpNetwork::host(IpAddress::V6(1)), IpNetwork::V6(1, 128));
}
