//! Rows of the server's database tables, as the server reads and writes
//! them.

pub mod blocks;
pub mod chats;
pub mod lobby;
pub mod session;
pub mod users;

use vstd::prelude::*;

verus! {

/// A moment without time zone: seconds since the epoch and the fraction
/// of the second in nanoseconds.
#[derive(Clone, Copy, Debug, PartialEq, Eq, Structural)]
pub struct Timestamp {
    pub seconds: i64,
    pub nanoseconds: u32,
}

/// An IP network: an address and how many of its leading bits name the
/// network (the prefix length).
#[derive(Clone, Copy, Debug, PartialEq, Eq, Structural)]
pub enum IpNetwork {
    V4(u32, u8),
    V6(u128, u8),
}

/// An IP address of a peer.
#[derive(Clone, Copy, Debug, PartialEq, Eq, Structural)]
pub enum IpAddress {
    V4(u32),
    V6(u128),
}

impl IpNetwork {
    /// The network that holds exactly one address.
    pub fn host(address: IpAddress) -> (n: IpNetwork)
        ensures
            match address {
                IpAddress::V4(a) => n == IpNetwork::V4(a, 32),
                IpAddress::V6(a) => n == IpNetwork::V6(a, 128),
            },
    {
        match address {
            IpAddress::V4(a) => IpNetwork::V4(a, 32),
            IpAddress::V6(a) => IpNetwork::V6(a, 128),
        }
    }
}

} // verus!
