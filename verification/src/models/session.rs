use vstd::prelude::*;

use super::{IpNetwork, Timestamp};

verus! {

/// A stored visit, keyed by the visitor's fingerprint.
#[derive(Debug)]
pub struct Session {
    pub id: String,
    pub address: IpNetwork,
    pub created_at: Timestamp,
}

/// A visit not stored yet.
#[derive(Debug)]
pub struct NewSession {
    pub id: String,
    pub address: IpNetwork,
}

} // verus!
