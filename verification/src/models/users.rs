use vstd::prelude::*;

use super::Timestamp;

verus! {

/// A stored user.
#[derive(Debug)]
pub struct User {
    pub id: String,
    pub created_at: Timestamp,
}

/// A user not stored yet.
#[derive(Debug)]
pub struct NewUser {
    pub id: String,
}

} // verus!
