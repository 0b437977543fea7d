//! A lobby: the visitors connected to it, what each of them is doing, and
//! the conversations it started. A visitor who asks to "look" is paired
//! with another visitor who is looking already, or starts looking.

use vstd::prelude::*;

use crate::chat::{self, Chat, Delivery};
use crate::database::RegisterChat;
use crate::message::{ClientId, ClientMessage};
use crate::models::{chats, lobby};
use crate::table::{
    has_key, inserted, key_index, keys_distinct, lemma_inserted, lemma_key_index, lemma_removed,
    removed, Table,
};
use std::collections::HashMap;

verus! {

broadcast use vstd::std_specs::hash::group_hash_axioms;

/// What a visitor of a lobby is doing.
#[derive(Clone, Copy, Debug, PartialEq, Eq, Structural)]
pub enum SessionState {
    /// Talking in the conversation with this id.
    InChat(u128),
    /// Waiting to be paired.
    Looking,
    /// Connected, not looking for anyone.
    Waiting,
}

/// A visitor connected to a lobby: the client that reaches it and what it
/// is doing.
#[derive(Clone, Copy, Debug, PartialEq, Eq, Structural)]
pub struct Session {
    pub addr: ClientId,
    pub state: SessionState,
}

impl Session {
    /// A visitor that just connected.
    pub fn new(client_addr: ClientId) -> (s: Session)
        ensures
            s == (Session { addr: client_addr, state: SessionState::Waiting }),
    {
        Session { addr: client_addr, state: SessionState::Waiting }
    }

    pub fn get_state(&self) -> (st: SessionState)
        ensures
            st == self.state,
    {
        self.state
    }

    pub fn set_state(&mut self, state: SessionState)
        ensures
            *final(self) == (Session { addr: old(self).addr, state }),
    {
        self.state = state;
    }

    pub fn get_addr(&self) -> (a: ClientId)
        ensures
            a == self.addr,
    {
        self.addr
    }
}

/// A client asks to join the lobby under a fingerprint.
#[derive(Clone, Debug)]
pub struct Connect {
    pub fingerprint: String,
    pub conn_addr: ClientId,
}

/// The client of this fingerprint is gone.
#[derive(Clone, Debug)]
pub struct Disconnect(pub String);

/// The visitor of this fingerprint left its conversation.
#[derive(Clone, Debug)]
pub struct ChatDisconnect(pub String);

/// A conversation to tell that one of its members is gone.
#[derive(Clone, Debug)]
pub struct ChatNotice {
    pub chat_id: u128,
    pub message: chat::Disconnect,
}

/// What a lobby does when a visitor asks to look for a partner.
#[derive(Clone, Debug)]
pub enum LookOutcome {
    /// Store a new conversation, then pair the visitor with `partner`,
    /// whose client, when it was found looking, was `partner_addr`.
    Pair { request: RegisterChat, partner: String, partner_addr: ClientId },
    /// The visitor now looks for a partner; tell it so.
    Looking(Delivery),
    /// Nothing happens.
    Idle,
}

/// The session at `i` belongs to someone other than `fingerprint` who is
/// looking for a partner.
pub open spec fn is_partner(sessions: Seq<(String, Session)>, fingerprint: Seq<char>, i: int) -> bool {
    &&& 0 <= i < sessions.len()
    &&& sessions[i].0@ != fingerprint
    &&& sessions[i].1.state == SessionState::Looking
}

/// Someone other than `fingerprint` is looking for a partner.
pub open spec fn partner_exists(sessions: Seq<(String, Session)>, fingerprint: Seq<char>) -> bool {
    exists|i: int| is_partner(sessions, fingerprint, i)
}

/// The first session, in order, of someone other than `fingerprint` who
/// is looking for a partner.
pub open spec fn is_first_partner(sessions: Seq<(String, Session)>, fingerprint: Seq<char>, i: int) -> bool {
    &&& is_partner(sessions, fingerprint, i)
    &&& forall|j: int| 0 <= j < i ==> !is_partner(sessions, fingerprint, j)
}

/// The state of the visitor `fingerprint`, if it is connected.
pub open spec fn state_of(sessions: Seq<(String, Session)>, fingerprint: Seq<char>) -> Option<SessionState> {
    if has_key(sessions, fingerprint) {
        Some(sessions[key_index(sessions, fingerprint)].1.state)
    } else {
        None
    }
}

/// The sessions after the visitor `fingerprint`, if connected, takes the
/// state `state`.
pub open spec fn with_state(
    sessions: Seq<(String, Session)>,
    fingerprint: Seq<char>,
    state: SessionState,
) -> Seq<(String, Session)> {
    if has_key(sessions, fingerprint) {
        let i = key_index(sessions, fingerprint);
        sessions.update(i, (sessions[i].0, Session { addr: sessions[i].1.addr, state }))
    } else {
        sessions
    }
}

/// What a "look" from the visitor `fingerprint` does to the sessions
/// `before` of lobby `lobby_id`, leaving `after` and answering `r`: it
/// pairs the visitor with the first other visitor who is looking, if any,
/// once the database stored a conversation (the sessions stay as they
/// are until then); otherwise a waiting visitor starts looking and is
/// told so, and anyone else stays as it is.
pub open spec fn look_step(
    lobby_id: u128,
    before: Seq<(String, Session)>,
    fingerprint: String,
    after: Seq<(String, Session)>,
    r: LookOutcome,
) -> bool {
    match r {
        LookOutcome::Pair { request, partner, partner_addr } => {
            &&& exists|i: int|
                is_first_partner(before, fingerprint@, i) && partner == before[i].0 && partner_addr
                    == before[i].1.addr
            &&& request.0 == lobby_id
            &&& after == before
        },
        LookOutcome::Looking(d) => {
            &&& !partner_exists(before, fingerprint@)
            &&& state_of(before, fingerprint@) == Some(SessionState::Waiting)
            &&& after == with_state(before, fingerprint@, SessionState::Looking)
            &&& d.to == before[key_index(before, fingerprint@)].1.addr
            &&& d.message.fingerprint == fingerprint
            &&& d.message.event@ == "looking"@
            &&& d.message.data@ == "null"@
        },
        LookOutcome::Idle => {
            &&& !partner_exists(before, fingerprint@)
            &&& state_of(before, fingerprint@) != Some(SessionState::Waiting)
            &&& after == before
        },
    }
}

/// At most one visitor is looking for a partner.
pub open spec fn at_most_one_looking(sessions: Seq<(String, Session)>) -> bool {
    forall|i: int, j: int|
        0 <= i < sessions.len() && 0 <= j < sessions.len() && (#[trigger] sessions[i]).1.state
            == SessionState::Looking && (#[trigger] sessions[j]).1.state == SessionState::Looking
            ==> i == j
}

/// A lobby: its id, its conversations by id, and its visitors by
/// fingerprint.
pub struct Lobby<H> {
    id: u128,
    chats: HashMap<u128, H>,
    sessions: Table<Session>,
}

impl<H> Lobby<H> {
    /// The id of the stored lobby.
    pub closed spec fn lobby_id(&self) -> u128 {
        self.id
    }

    /// The conversations the lobby started, by id.
    pub closed spec fn chats(&self) -> Map<u128, H> {
        self.chats@
    }

    /// The visitors by fingerprint, in the order they connected.
    pub closed spec fn session_entries(&self) -> Seq<(String, Session)> {
        self.sessions@
    }

    /// An empty lobby for a stored lobby.
    pub fn new(lobby_model: lobby::Lobby) -> (l: Lobby<H>)
        ensures
            l.lobby_id() == lobby_model.id,
            l.chats() == Map::<u128, H>::empty(),
            l.session_entries() == Seq::<(String, Session)>::empty(),
    {
        Lobby { id: lobby_model.id, chats: HashMap::new(), sessions: Table::new() }
    }

    /// The id of the stored lobby.
    pub fn id(&self) -> (id: u128)
        ensures
            id == self.lobby_id(),
    {
        self.id
    }

    /// The visitors never share a fingerprint.
    pub fn session_count(&self) -> (n: usize)
        ensures
            n == self.session_entries().len(),
            keys_distinct(self.session_entries()),
    {
        self.sessions.len()
    }

    /// The session of the visitor `fingerprint`, if connected.
    pub fn session(&self, fingerprint: &String) -> (r: Option<Session>)
        ensures
            match r {
                Some(s) => has_key(self.session_entries(), fingerprint@) && s == self.session_entries()[key_index(
                    self.session_entries(),
                    fingerprint@,
                )].1,
                None => !has_key(self.session_entries(), fingerprint@),
            },
    {
        match self.sessions.find(fingerprint) {
            Some(i) => {
                proof {
                    lemma_key_index(self.sessions@, i as int, fingerprint@);
                }
                Some(*self.sessions.value_at(i))
            },
            None => None,
        }
    }

    /// The conversation registered under `id`.
    pub fn chat_addr(&self, id: u128) -> (r: Option<&H>)
        ensures
            match r {
                Some(h) => self.chats().contains_key(id) && self.chats()[id] == *h,
                None => !self.chats().contains_key(id),
            },
    {
        self.chats.get(&id)
    }

    /// Registers the conversation started under `id`.
    pub fn insert_chat(&mut self, id: u128, addr: H)
        ensures
            final(self).lobby_id() == old(self).lobby_id(),
            final(self).session_entries() == old(self).session_entries(),
            final(self).chats() == old(self).chats().insert(id, addr),
    {
        self.chats.insert(id, addr);
    }

    /// Lets a client in under its fingerprint. A visitor already connected
    /// under that fingerprint is replaced by the new one, waiting, and the
    /// answer is an error.
    pub fn connect(&mut self, msg: Connect) -> (r: Result<(), ()>)
        ensures
            final(self).lobby_id() == old(self).lobby_id(),
            final(self).chats() == old(self).chats(),
            final(self).session_entries() == inserted(
                old(self).session_entries(),
                msg.fingerprint,
                Session { addr: msg.conn_addr, state: SessionState::Waiting },
            ),
            r is Ok <==> !has_key(old(self).session_entries(), msg.fingerprint@),
    {
        match self.sessions.insert(msg.fingerprint, Session::new(msg.conn_addr)) {
            Some(_) => Err(()),
            None => Ok(()),
        }
    }

    /// Lets the visitor of this fingerprint go. When it was talking in a
    /// conversation that the lobby knows, that conversation is to be told.
    pub fn disconnect(&mut self, msg: Disconnect) -> (r: Option<ChatNotice>)
        ensures
            final(self).lobby_id() == old(self).lobby_id(),
            final(self).chats() == old(self).chats(),
            final(self).session_entries() == removed(old(self).session_entries(), msg.0@),
            match r {
                Some(n) => {
                    &&& state_of(old(self).session_entries(), msg.0@) == Some(
                        SessionState::InChat(n.chat_id),
                    )
                    &&& old(self).chats().contains_key(n.chat_id)
                    &&& n.message.0@ == msg.0@
                },
                None => match state_of(old(self).session_entries(), msg.0@) {
                    Some(SessionState::InChat(c)) => !old(self).chats().contains_key(c),
                    _ => true,
                },
            },
    {
        match self.sessions.remove_entry(&msg.0) {
            Some((fingerprint, session)) => {
                match session.get_state() {
                    SessionState::InChat(chat_id) => {
                        if self.chats.contains_key(&chat_id) {
                            Some(ChatNotice { chat_id, message: chat::Disconnect(fingerprint) })
                        } else {
                            None
                        }
                    },
                    _ => None,
                }
            },
            None => None,
        }
    }

    /// The visitor `fingerprint` looks for a partner; see `look_step`.
    fn look(&mut self, fingerprint: &String) -> (r: LookOutcome)
        ensures
            final(self).lobby_id() == old(self).lobby_id(),
            final(self).chats() == old(self).chats(),
            look_step(
                old(self).lobby_id(),
                old(self).session_entries(),
                *fingerprint,
                final(self).session_entries(),
                r,
            ),
    {
        let n = self.sessions.len();
        let mut i: usize = 0;
        while i < n
            invariant
                n == self.sessions@.len(),
                i <= n,
                forall|j: int| 0 <= j < i ==> !is_partner(self.sessions@, fingerprint@, j),
            decreases n - i,
        {
            let key = self.sessions.key_at(i);
            if !(*key == *fingerprint) {
                match self.sessions.value_at(i).state {
                    SessionState::Looking => {
                        let partner = key.clone();
                        let partner_addr = self.sessions.value_at(i).addr;
                        proof {
                            assert(is_first_partner(self.sessions@, fingerprint@, i as int));
                        }
                        return LookOutcome::Pair {
                            request: RegisterChat(self.id),
                            partner,
                            partner_addr,
                        };
                    },
                    _ => {},
                }
            }
            i = i + 1;
        }
        match self.sessions.find(fingerprint) {
            Some(k) => {
                proof {
                    lemma_key_index(self.sessions@, k as int, fingerprint@);
                }
                let mut s = *self.sessions.value_at(k);
                match s.state {
                    SessionState::Waiting => {
                        s.set_state(SessionState::Looking);
                        self.sessions.set_value_at(k, s);
                        proof {
                            reveal_strlit("looking");
                            reveal_strlit("null");
                        }
                        let d = Delivery {
                            to: s.addr,
                            message: ClientMessage {
                                fingerprint: fingerprint.clone(),
                                event: String::from_str("looking"),
                                data: String::from_str("null"),
                            },
                        };
                        LookOutcome::Looking(d)
                    },
                    _ => LookOutcome::Idle,
                }
            },
            None => LookOutcome::Idle,
        }
    }

    /// Handles what a visitor sends to the lobby: "look" looks for a
    /// partner (see `look_step`); anything else is ignored.
    pub fn handle_client_message(&mut self, msg: &ClientMessage) -> (r: LookOutcome)
        ensures
            final(self).lobby_id() == old(self).lobby_id(),
            final(self).chats() == old(self).chats(),
            msg.event@ == "look"@ ==> look_step(
                old(self).lobby_id(),
                old(self).session_entries(),
                msg.fingerprint,
                final(self).session_entries(),
                r,
            ),
            msg.event@ != "look"@ ==> r is Idle && final(self).session_entries()
                == old(self).session_entries(),
    {
        if msg.event == String::from_str("look") {
            self.look(&msg.fingerprint)
        } else {
            LookOutcome::Idle
        }
    }

    /// Pairs the visitor `fingerprint` with `partner` in the conversation
    /// the database stored for them, once it did: both are talking in it
    /// from now on, and it has as members the partner, reached at the
    /// client `partner_addr` it had when it was found looking, and then the
    /// visitor, reached at its present client. When the partner left
    /// meanwhile, nothing happens.
    pub fn chat_registered(
        &mut self,
        fingerprint: &String,
        partner: &String,
        partner_addr: ClientId,
        chat_model: chats::Chat,
    ) -> (r: Option<Chat>)
        requires
            has_key(old(self).session_entries(), partner@) ==> has_key(
                old(self).session_entries(),
                fingerprint@,
            ),
        ensures
            final(self).lobby_id() == old(self).lobby_id(),
            final(self).chats() == old(self).chats(),
            if has_key(old(self).session_entries(), partner@) {
                let before = old(self).session_entries();
                let id = chat_model.id;
                let own_addr = before[key_index(before, fingerprint@)].1.addr;
                &&& final(self).session_entries() == with_state(
                    with_state(before, partner@, SessionState::InChat(id)),
                    fingerprint@,
                    SessionState::InChat(id),
                )
                &&& r matches Some(c) && {
                    &&& c.chat_id() == id
                    &&& c.counter() == 0
                    &&& c.member_entries() == inserted(
                        inserted(Seq::<(String, ClientId)>::empty(), *partner, partner_addr),
                        *fingerprint,
                        own_addr,
                    )
                }
            } else {
                &&& r is None
                &&& final(self).session_entries() == old(self).session_entries()
            },
    {
        match self.sessions.find(partner) {
            Some(p) => {
                let ghost before = self.sessions@;
                proof {
                    lemma_key_index(before, p as int, partner@);
                }
                let id = chat_model.id;
                let mut chat = Chat::new(chat_model);
                let mut partner_session = *self.sessions.value_at(p);
                partner_session.set_state(SessionState::InChat(id));
                self.sessions.set_value_at(p, partner_session);
                chat.add_member(partner.clone(), partner_addr);
                let ghost middle = self.sessions@;
                proof {
                    let k = key_index(before, fingerprint@);
                    assert(middle[k].0@ == fingerprint@);
                }
                let m = self.sessions.find(fingerprint).unwrap();
                proof {
                    lemma_key_index(middle, m as int, fingerprint@);
                    lemma_key_index(before, m as int, fingerprint@);
                }
                let mut own_session = *self.sessions.value_at(m);
                own_session.set_state(SessionState::InChat(id));
                self.sessions.set_value_at(m, own_session);
                chat.add_member(fingerprint.clone(), own_session.addr);
                Some(chat)
            },
            None => None,
        }
    }

    /// The visitor of this fingerprint, if connected, waits again.
    pub fn chat_disconnect(&mut self, msg: ChatDisconnect)
        ensures
            final(self).lobby_id() == old(self).lobby_id(),
            final(self).chats() == old(self).chats(),
            final(self).session_entries() == with_state(
                old(self).session_entries(),
                msg.0@,
                SessionState::Waiting,
            ),
    {
        match self.sessions.find(&msg.0) {
            Some(i) => {
                proof {
                    lemma_key_index(self.sessions@, i as int, msg.0@);
                }
                let mut s = *self.sessions.value_at(i);
                s.set_state(SessionState::Waiting);
                self.sessions.set_value_at(i, s);
            },
            None => {},
        }
    }
}

/// Changing a visitor's state keeps the keys and where they stand, and
/// gives that visitor, and no one else, the new state.
pub proof fn lemma_with_state(sessions: Seq<(String, Session)>, fingerprint: Seq<char>, state: SessionState)
    requires
        keys_distinct(sessions),
    ensures
        keys_distinct(with_state(sessions, fingerprint, state)),
        with_state(sessions, fingerprint, state).len() == sessions.len(),
        forall|j: int|
            0 <= j < sessions.len() ==> (#[trigger] with_state(sessions, fingerprint, state)[j]).0
                == sessions[j].0,
        forall|k: Seq<char>|
            #[trigger] has_key(with_state(sessions, fingerprint, state), k) == has_key(sessions, k),
        forall|k: Seq<char>|
            #[trigger] state_of(with_state(sessions, fingerprint, state), k) == if k == fingerprint
                && has_key(sessions, k) {
                Some(state)
            } else {
                state_of(sessions, k)
            },
{
    let after = with_state(sessions, fingerprint, state);
    assert forall|j: int| 0 <= j < sessions.len() implies (#[trigger] after[j]).0 == sessions[j].0
        && (after[j].0@ != fingerprint ==> after[j] == sessions[j]) by {}
    assert(keys_distinct(after)) by {
        assert forall|a: int, b: int|
            0 <= a < after.len() && 0 <= b < after.len() && a != b implies (#[trigger] after[a]).0@
                != (#[trigger] after[b]).0@ by {
            assert(after[a].0 == sessions[a].0);
            assert(after[b].0 == sessions[b].0);
        }
    }
    assert forall|k: Seq<char>| #[trigger] has_key(after, k) == has_key(sessions, k) by {
        if has_key(after, k) {
            let j = key_index(after, k);
            assert(sessions[j].0@ == k);
        }
        if has_key(sessions, k) {
            let j = key_index(sessions, k);
            assert(after[j].0@ == k);
        }
    }
    assert forall|k: Seq<char>| #[trigger] state_of(after, k) == if k == fingerprint && has_key(
        sessions,
        k,
    ) {
        Some(state)
    } else {
        state_of(sessions, k)
    } by {
        if has_key(sessions, k) {
            let j = key_index(sessions, k);
            assert(after[j].0@ == k);
            lemma_key_index(after, j, k);
        }
    }
}

/// Connecting under a new fingerprint and then disconnecting it leaves
/// the lobby's visitors as they were.
pub proof fn law_disconnect_undoes_connect(
    sessions: Seq<(String, Session)>,
    fingerprint: String,
    session: Session,
)
    requires
        keys_distinct(sessions),
        !has_key(sessions, fingerprint@),
    ensures
        removed(inserted(sessions, fingerprint, session), fingerprint@) == sessions,
{
    let after = inserted(sessions, fingerprint, session);
    lemma_inserted(sessions, fingerprint, session);
    lemma_key_index(after, sessions.len() as int, fingerprint@);
    assert(after.remove(sessions.len() as int) =~= sessions);
}

/// Once a client connected under a fingerprint, the fingerprint is taken:
/// a second request under it is refused, and the visitor waits; a
/// disconnect under it lets the visitor go, and only that visitor.
pub proof fn law_connect_takes_fingerprint(
    sessions: Seq<(String, Session)>,
    fingerprint: String,
    addr: ClientId,
)
    requires
        keys_distinct(sessions),
    ensures
        has_key(
            inserted(sessions, fingerprint, Session { addr, state: SessionState::Waiting }),
            fingerprint@,
        ),
        state_of(
            inserted(sessions, fingerprint, Session { addr, state: SessionState::Waiting }),
            fingerprint@,
        ) == Some(SessionState::Waiting),
        !has_key(
            removed(
                inserted(sessions, fingerprint, Session { addr, state: SessionState::Waiting }),
                fingerprint@,
            ),
            fingerprint@,
        ),
        forall|k: Seq<char>|
            k != fingerprint@ ==> #[trigger] has_key(
                removed(
                    inserted(sessions, fingerprint, Session { addr, state: SessionState::Waiting }),
                    fingerprint@,
                ),
                k,
            ) == has_key(sessions, k),
{
    let s = Session { addr, state: SessionState::Waiting };
    lemma_inserted(sessions, fingerprint, s);
    lemma_removed(inserted(sessions, fingerprint, s), fingerprint@);
}

/// A visitor is only ever paired with someone else, who was looking.
pub proof fn law_pairs_only_lookers(
    lobby_id: u128,
    before: Seq<(String, Session)>,
    fingerprint: String,
    after: Seq<(String, Session)>,
    request: RegisterChat,
    partner: String,
    partner_addr: ClientId,
)
    requires
        keys_distinct(before),
        look_step(
            lobby_id,
            before,
            fingerprint,
            after,
            LookOutcome::Pair { request, partner, partner_addr },
        ),
    ensures
        partner@ != fingerprint@,
        state_of(before, partner@) == Some(SessionState::Looking),
        before[key_index(before, partner@)].1.addr == partner_addr,
        request.0 == lobby_id,
        after == before,
{
    let i = choose|i: int|
        is_first_partner(before, fingerprint@, i) && partner == before[i].0 && partner_addr
            == before[i].1.addr;
    lemma_key_index(before, i, partner@);
}

/// A "look" pairs exactly when someone other than the visitor is looking,
/// and then with the first such visitor in connection order, at that
/// visitor's client, asking the database for a conversation in this lobby
/// and changing nobody's state yet; when nobody else is looking, a
/// connected visitor who waits starts looking and is told "looking" at
/// its own client, and otherwise nothing changes.
pub proof fn law_look_pairs_whenever_someone_looks(
    lobby_id: u128,
    before: Seq<(String, Session)>,
    fingerprint: String,
    after: Seq<(String, Session)>,
    r: LookOutcome,
)
    requires
        keys_distinct(before),
        look_step(lobby_id, before, fingerprint, after, r),
    ensures
        (exists|i: int|
            0 <= i < before.len() && (#[trigger] before[i]).0@ != fingerprint@ && before[i].1.state
                == SessionState::Looking) <==> r is Pair,
        r matches LookOutcome::Pair { request, partner, partner_addr } ==> {
            &&& request.0 == lobby_id
            &&& after == before
            &&& exists|i: int|
                0 <= i < before.len() && (#[trigger] before[i]).0 == partner && partner@
                    != fingerprint@ && before[i].1.state == SessionState::Looking && before[i].1.addr
                    == partner_addr && forall|j: int|
                    0 <= j < i ==> !((#[trigger] before[j]).0@ != fingerprint@ && before[j].1.state
                        == SessionState::Looking)
        },
        forall|k: int|
            0 <= k < before.len() && (#[trigger] before[k]).0@ == fingerprint@ && before[k].1.state
                == SessionState::Waiting && r !is Pair ==> {
                &&& r matches LookOutcome::Looking(d) && d.to == before[k].1.addr
                    && d.message.fingerprint == fingerprint && d.message.event@ == "looking"@
                &&& after == before.update(
                    k,
                    (before[k].0, Session { addr: before[k].1.addr, state: SessionState::Looking }),
                )
            },
        r is Idle ==> after == before,
{
    assert forall|k: int|
        0 <= k < before.len() && (#[trigger] before[k]).0@ == fingerprint@ && before[k].1.state
            == SessionState::Waiting && r !is Pair implies {
        &&& r matches LookOutcome::Looking(d) && d.to == before[k].1.addr
            && d.message.fingerprint == fingerprint && d.message.event@ == "looking"@
        &&& after == before.update(
            k,
            (before[k].0, Session { addr: before[k].1.addr, state: SessionState::Looking }),
        )
    } by {
        lemma_key_index(before, k, fingerprint@);
    }
    if r is Pair {
        let i = choose|i: int|
            is_first_partner(before, fingerprint@, i) && r->partner == before[i].0 && r->partner_addr
                == before[i].1.addr;
        assert(is_partner(before, fingerprint@, i));
        assert forall|j: int| 0 <= j < i implies !((#[trigger] before[j]).0@ != fingerprint@
            && before[j].1.state == SessionState::Looking) by {
            assert(!is_partner(before, fingerprint@, j));
        }
        assert(r->partner@ != fingerprint@);
    } else {
        assert forall|i: int|
            0 <= i < before.len() && (#[trigger] before[i]).0@ != fingerprint@ implies before[i].1.state
            != SessionState::Looking by {
            assert(!is_partner(before, fingerprint@, i));
        }
    }
}

/// Looking again while nobody else is looking changes nothing: the
/// visitor is looking already.
pub proof fn law_look_again_is_idle(
    lobby_id: u128,
    s0: Seq<(String, Session)>,
    fingerprint: String,
    s1: Seq<(String, Session)>,
    d: Delivery,
    s2: Seq<(String, Session)>,
    r: LookOutcome,
)
    requires
        keys_distinct(s0),
        look_step(lobby_id, s0, fingerprint, s1, LookOutcome::Looking(d)),
        look_step(lobby_id, s1, fingerprint, s2, r),
    ensures
        r is Idle,
        s2 == s1,
{
    lemma_with_state(s0, fingerprint@, SessionState::Looking);
    let k = key_index(s0, fingerprint@);
    assert(!partner_exists(s1, fingerprint@)) by {
        if partner_exists(s1, fingerprint@) {
            let i = choose|i: int| is_partner(s1, fingerprint@, i);
            assert(i != k);
            assert(s1[i] == s0[i]);
            assert(is_partner(s0, fingerprint@, i));
        }
    }
}

/// Once a pair is formed, both visitors talk in the new conversation, and
/// everyone stays connected.
pub proof fn law_pairing_puts_both_in_chat(
    before: Seq<(String, Session)>,
    fingerprint: Seq<char>,
    partner: Seq<char>,
    chat_id: u128,
)
    requires
        keys_distinct(before),
        has_key(before, fingerprint),
        has_key(before, partner),
    ensures
        state_of(
            with_state(
                with_state(before, partner, SessionState::InChat(chat_id)),
                fingerprint,
                SessionState::InChat(chat_id),
            ),
            fingerprint,
        ) == Some(SessionState::InChat(chat_id)),
        state_of(
            with_state(
                with_state(before, partner, SessionState::InChat(chat_id)),
                fingerprint,
                SessionState::InChat(chat_id),
            ),
            partner,
        ) == Some(SessionState::InChat(chat_id)),
        forall|k: Seq<char>|
            #[trigger] has_key(
                with_state(
                    with_state(before, partner, SessionState::InChat(chat_id)),
                    fingerprint,
                    SessionState::InChat(chat_id),
                ),
                k,
            ) == has_key(before, k),
{
    let middle = with_state(before, partner, SessionState::InChat(chat_id));
    lemma_with_state(before, partner, SessionState::InChat(chat_id));
    lemma_with_state(middle, fingerprint, SessionState::InChat(chat_id));
}

/// A "look" keeps at most one visitor looking: a visitor starts looking
/// only when nobody else is.
pub proof fn law_look_keeps_one_looking(
    lobby_id: u128,
    before: Seq<(String, Session)>,
    fingerprint: String,
    after: Seq<(String, Session)>,
    r: LookOutcome,
)
    requires
        keys_distinct(before),
        at_most_one_looking(before),
        look_step(lobby_id, before, fingerprint, after, r),
    ensures
        at_most_one_looking(after),
{
    if r is Looking {
        lemma_with_state(before, fingerprint@, SessionState::Looking);
        let k = key_index(before, fingerprint@);
        assert forall|i: int, j: int|
            0 <= i < after.len() && 0 <= j < after.len() && (#[trigger] after[i]).1.state
                == SessionState::Looking && (#[trigger] after[j]).1.state == SessionState::Looking implies i
            == j by {
            if i != k {
                assert(after[i] == before[i]);
                assert(before[i].0@ != before[k].0@);
                assert(is_partner(before, fingerprint@, i));
            }
            if j != k {
                assert(after[j] == before[j]);
                assert(before[j].0@ != before[k].0@);
                assert(is_partner(before, fingerprint@, j));
            }
        }
    }
}

/// Connecting a visitor keeps at most one visitor looking: the new
/// visitor waits.
pub proof fn law_connect_keeps_one_looking(
    before: Seq<(String, Session)>,
    fingerprint: String,
    addr: ClientId,
)
    requires
        at_most_one_looking(before),
    ensures
        at_most_one_looking(
            inserted(before, fingerprint, Session { addr, state: SessionState::Waiting }),
        ),
{
    let after = inserted(before, fingerprint, Session { addr, state: SessionState::Waiting });
    assert forall|i: int, j: int|
        0 <= i < after.len() && 0 <= j < after.len() && (#[trigger] after[i]).1.state
            == SessionState::Looking && (#[trigger] after[j]).1.state == SessionState::Looking implies i
        == j by {
        assert(after[i] == before[i]);
        assert(after[j] == before[j]);
    }
}

/// Letting a visitor go keeps at most one visitor looking.
pub proof fn law_disconnect_keeps_one_looking(before: Seq<(String, Session)>, fingerprint: Seq<char>)
    requires
        at_most_one_looking(before),
    ensures
        at_most_one_looking(removed(before, fingerprint)),
{
    if has_key(before, fingerprint) {
        let n = key_index(before, fingerprint);
        let after = removed(before, fingerprint);
        assert forall|i: int, j: int|
            0 <= i < after.len() && 0 <= j < after.len() && (#[trigger] after[i]).1.state
                == SessionState::Looking && (#[trigger] after[j]).1.state == SessionState::Looking implies i
            == j by {
            let i2 = if i < n { i } else { i + 1 };
            let j2 = if j < n { j } else { j + 1 };
            assert(after[i] == before[i2]);
            assert(after[j] == before[j2]);
        }
    }
}

/// Putting a visitor in a conversation, or making it wait, keeps at most
/// one visitor looking.
pub proof fn law_state_change_keeps_one_looking(
    before: Seq<(String, Session)>,
    fingerprint: Seq<char>,
    state: SessionState,
)
    requires
        at_most_one_looking(before),
        state != SessionState::Looking,
    ensures
        at_most_one_looking(with_state(before, fingerprint, state)),
{
    let after = with_state(before, fingerprint, state);
    if has_key(before, fingerprint) {
        let k = key_index(before, fingerprint);
        assert forall|i: int, j: int|
            0 <= i < after.len() && 0 <= j < after.len() && (#[trigger] after[i]).1.state
                == SessionState::Looking && (#[trigger] after[j]).1.state == SessionState::Looking implies i
            == j by {
            assert(i != k && j != k);
            assert(after[i] == before[i]);
            assert(after[j] == before[j]);
        }
    }
}

/// A visitor who leaves its conversation waits again.
pub proof fn law_chat_disconnect_waits(sessions: Seq<(String, Session)>, fingerprint: Seq<char>)
    requires
        keys_distinct(sessions),
        has_key(sessions, fingerprint),
    ensures
        state_of(with_state(sessions, fingerprint, SessionState::Waiting), fingerprint) == Some(
            SessionState::Waiting,
        ),
{
    lemma_with_state(sessions, fingerprint, SessionState::Waiting);
}

} // verus!
