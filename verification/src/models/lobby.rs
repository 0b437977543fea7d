use vstd::prelude::*;

use super::Timestamp;

verus! {

/// A stored lobby: a room in which visitors wait to be paired.
#[derive(Debug)]
pub struct Lobby {
    pub id: u128,
    pub name: String,
    pub description: String,
    pub nsfw: bool,
    pub enabled: bool,
    pub created_at: Timestamp,
    pub updated_at: Timestamp,
}

/// A lobby not stored yet.
#[derive(Debug)]
pub struct NewLobby {
    pub id: u128,
    pub name: String,
    pub description: String,
    pub nsfw: bool,
    pub enabled: bool,
}

/// The fields of a lobby to change; `None` leaves a field as it is.
#[derive(Debug)]
pub struct UpdateLobby {
    pub name: Option<String>,
    pub description: Option<String>,
    pub nsfw: Option<bool>,
    pub enabled: Option<bool>,
}

} // verus!
