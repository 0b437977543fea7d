use vstd::prelude::*;

verus! {

/// One visitor's refusal to be paired with another.
#[derive(Debug)]
pub struct Block {
    pub id: i32,
    pub user_id: String,
    pub blocked_id: String,
}

/// A refusal not stored yet.
#[derive(Debug)]
pub struct NewBlock {
    pub user_id: String,
    pub blocked_id: String,
}

} // verus!
