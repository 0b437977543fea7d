use vstd::prelude::*;

use super::Timestamp;

verus! {

/// A stored conversation: how many messages it relayed and whether it is
/// still open.
#[derive(Debug)]
pub struct Chat {
    pub id: u128,
    pub message_counter: i32,
    pub status: String,
    pub created_at: Timestamp,
    pub updated_at: Timestamp,
}

/// A conversation not stored yet.
#[derive(Debug)]
pub struct NewChat {
    pub id: u128,
    pub message_counter: i32,
    pub status: String,
}

} // verus!
