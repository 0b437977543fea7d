//! The requests the server makes of its database.

use vstd::prelude::*;

use crate::models::IpNetwork;

verus! {

/// Store a new conversation in the lobby with this id.
#[derive(Clone, Copy, Debug)]
pub struct RegisterChat(pub u128);

/// Mark a conversation closed, with the number of messages it relayed.
#[derive(Clone, Copy, Debug)]
pub struct CloseChat {
    pub chat_id: u128,
    pub message_counter: i32,
}

/// Read every lobby.
#[derive(Clone, Copy, Debug)]
pub struct GetLobbyList;

/// Read the lobby with this id.
#[derive(Clone, Copy, Debug)]
pub struct GetLobby(pub u128);

/// Read the visit of the visitor with this fingerprint.
#[derive(Clone, Debug)]
pub struct GetSession(pub String);

/// Store a visit unless one with the same fingerprint is stored already.
#[derive(Clone, Debug)]
pub struct RegisterSession {
    pub fingerprint: String,
    pub ip_address: IpNetwork,
}

} // verus!
