//! The server's registry of lobbies, and how a request to join one names
//! it.

use std::collections::HashMap;

use vstd::prelude::*;

verus! {

broadcast use vstd::std_specs::hash::group_hash_axioms;

/// A hexadecimal digit, in either case.
pub open spec fn is_hex(c: char) -> bool {
    ('0' <= c && c <= '9') || ('a' <= c && c <= 'f') || ('A' <= c && c <= 'F')
}

/// The value of a hexadecimal digit.
pub open spec fn hex_value(c: char) -> nat {
    if '0' <= c && c <= '9' {
        (c as nat - '0' as nat) as nat
    } else if 'a' <= c && c <= 'f' {
        (c as nat - 'a' as nat + 10) as nat
    } else {
        (c as nat - 'A' as nat + 10) as nat
    }
}

/// The number that hexadecimal digits write, most significant first.
pub open spec fn hex_number(digits: Seq<char>) -> nat
    decreases digits.len(),
{
    if digits.len() == 0 {
        0
    } else {
        hex_number(digits.drop_last()) * 16 + hex_value(digits.last())
    }
}

/// Thirty-two hexadecimal digits and nothing else.
pub open spec fn is_simple_uuid(text: Seq<char>) -> bool {
    &&& text.len() == 32
    &&& forall|i: int| 0 <= i < 32 ==> is_hex(#[trigger] text[i])
}

/// Groups of 8, 4, 4, 4 and 12 hexadecimal digits joined by hyphens.
pub open spec fn is_hyphenated_uuid(text: Seq<char>) -> bool {
    &&& text.len() == 36
    &&& forall|i: int|
        0 <= i < 36 ==> if i == 8 || i == 13 || i == 18 || i == 23 {
            #[trigger] text[i] == '-'
        } else {
            is_hex(text[i])
        }
}

/// The digits of a hyphenated UUID, without its hyphens.
pub open spec fn hyphenated_digits(text: Seq<char>) -> Seq<char> {
    text.subrange(0, 8) + text.subrange(9, 13) + text.subrange(14, 18) + text.subrange(19, 23)
        + text.subrange(24, 36)
}

/// The prefix of a UUID written as a URN.
pub open spec fn urn_prefix() -> Seq<char> {
    seq!['u', 'r', 'n', ':', 'u', 'u', 'i', 'd', ':']
}

/// The UUID a text writes: 32 hexadecimal digits, or the hyphenated
/// groups, or `urn:uuid:` and the hyphenated groups; the digits, most
/// significant first, are its 128-bit value. Any other text writes none.
pub open spec fn uuid_text(text: Seq<char>) -> Option<u128> {
    if is_simple_uuid(text) {
        Some(hex_number(text) as u128)
    } else if is_hyphenated_uuid(text) {
        Some(hex_number(hyphenated_digits(text)) as u128)
    } else if text.len() == 45 && text.subrange(0, 9) == urn_prefix() && is_hyphenated_uuid(
        text.subrange(9, 45),
    ) {
        Some(hex_number(hyphenated_digits(text.subrange(9, 45))) as u128)
    } else {
        None
    }
}

/// `uuid::Uuid::parse_str` (what `str::parse::<Uuid>` calls), read as the
/// UUID's 128-bit value. Its parser (uuid 0.8.2, `parser/mod.rs`) takes a
/// text of 32 bytes, of 36, or of 45 that starts with `urn:uuid:`; every
/// byte must be a hexadecimal digit in either case or a hyphen, the
/// hyphens only after the 8th, 12th, 16th and 20th digit, and the text
/// must hold 32 digits: the 32-digit simple form, the hyphenated form, and
/// the hyphenated form behind `urn:uuid:`. The digits fill the 16 bytes in
/// order, and `as_u128` reads them big-endian.
#[verifier::external_body]
fn parse_uuid(text: &str) -> (r: Option<u128>)
    ensures
        r == uuid_text(text@),
{
    match uuid::Uuid::parse_str(text) {
        Ok(id) => Some(id.as_u128()),
        Err(_) => None,
    }
}

/// Why a client cannot join a lobby.
#[derive(Clone, Copy, Debug, PartialEq, Eq, Structural)]
pub enum JoinError {
    /// The lobby id in the request is not a UUID.
    InvalidLobbyId,
    /// No lobby has that id.
    LobbyNotFound,
}

impl JoinError {
    /// The explanation sent back with the refusal.
    pub fn reason(&self) -> (r: &'static str)
        ensures
            r@ == match self {
                JoinError::InvalidLobbyId => "invalid lobby id!"@,
                JoinError::LobbyNotFound => "Lobby id not exists!"@,
            },
    {
        match self {
            JoinError::InvalidLobbyId => "invalid lobby id!",
            JoinError::LobbyNotFound => "Lobby id not exists!",
        }
    }
}

/// The lobby id a request names in its path.
pub fn parse_lobby_id(text: &str) -> (r: Result<u128, JoinError>)
    ensures
        match uuid_text(text@) {
            Some(id) => r == Ok::<u128, JoinError>(id),
            None => r == Err::<u128, JoinError>(JoinError::InvalidLobbyId),
        },
{
    match parse_uuid(text) {
        Some(id) => Ok(id),
        None => Err(JoinError::InvalidLobbyId),
    }
}

/// The lobby a join request reaches, given what the server found under
/// its id: none found refuses the join.
pub fn join_lobby<A>(found: Option<A>) -> (r: Result<A, JoinError>)
    ensures
        match found {
            Some(a) => r matches Ok(x) && x == a,
            None => r matches Err(e) && e == JoinError::LobbyNotFound,
        },
{
    match found {
        Some(a) => Ok(a),
        None => Err(JoinError::LobbyNotFound),
    }
}

/// Asks the server for the lobby with this id.
#[derive(Clone, Copy, Debug)]
pub struct GetLobbyAddr {
    pub id: u128,
}

/// The lobbies the server runs, by id.
pub struct Server<A> {
    lobbies: HashMap<u128, A>,
}

impl<A> Server<A> {
    /// The lobbies by id.
    pub closed spec fn lobbies(&self) -> Map<u128, A> {
        self.lobbies@
    }

    /// A server that runs no lobby yet.
    pub fn new() -> (s: Server<A>)
        ensures
            s.lobbies() == Map::<u128, A>::empty(),
    {
        Server { lobbies: HashMap::new() }
    }

    /// Runs `addr` as the lobby with this id, in place of any other.
    pub fn insert_lobby(&mut self, id: u128, addr: A)
        ensures
            final(self).lobbies() == old(self).lobbies().insert(id, addr),
    {
        self.lobbies.insert(id, addr);
    }

    /// The lobby with the id asked for.
    pub fn get_lobby_addr(&self, msg: GetLobbyAddr) -> (r: Option<&A>)
        ensures
            match r {
                Some(a) => self.lobbies().contains_key(msg.id) && self.lobbies()[msg.id] == *a,
                None => !self.lobbies().contains_key(msg.id),
            },
    {
        self.lobbies.get(&msg.id)
    }
}

} // verus!
