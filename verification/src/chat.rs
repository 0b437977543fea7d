//! A two-person conversation: it relays what one member says to every
//! member, tells the others when someone leaves, times out or drops, and
//! ends when nobody is left.

use vstd::prelude::*;

use crate::database::CloseChat;
use crate::message::{ClientId, ClientMessage};
use crate::models::chats;
use crate::table::{has_key, inserted, key_index, keys_distinct, removed, Table};

verus! {

/// A message bound for one client.
#[derive(Clone, Debug)]
pub struct Delivery {
    pub to: ClientId,
    pub message: ClientMessage,
}

/// What a conversation does after an event: the messages it sends, in
/// order, and whether it ends.
#[derive(Clone, Debug)]
pub struct ChatOutcome {
    pub deliveries: Vec<Delivery>,
    pub stop: bool,
}

/// A member's client gave no sign of life for a while.
#[derive(Clone, Debug)]
pub struct Timeout(pub String);

/// A member's client is gone.
#[derive(Clone, Debug)]
pub struct Disconnect(pub String);

/// `d` tells `member` of `event`, with `data` as payload, addressed by the
/// member's own fingerprint.
pub open spec fn is_notice(
    d: Delivery,
    member: (String, ClientId),
    event: Seq<char>,
    data: Seq<char>,
) -> bool {
    &&& d.to == member.1
    &&& d.message.fingerprint == member.0
    &&& d.message.event@ == event
    &&& d.message.data@ == data
}

/// `ds` tells each of `members`, in their order, of `event`.
pub open spec fn notices(
    ds: Seq<Delivery>,
    members: Seq<(String, ClientId)>,
    event: Seq<char>,
    data: Seq<char>,
) -> bool {
    &&& ds.len() == members.len()
    &&& forall|i: int| 0 <= i < ds.len() ==> is_notice(#[trigger] ds[i], members[i], event, data)
}

/// A member other than the one with this fingerprint.
pub open spec fn someone_else(fingerprint: Seq<char>) -> spec_fn((String, ClientId)) -> bool {
    |m: (String, ClientId)| m.0@ != fingerprint
}

/// The members other than the one with this fingerprint, in order.
pub open spec fn other_members(members: Seq<(String, ClientId)>, fingerprint: Seq<char>) -> Seq<
    (String, ClientId),
> {
    members.filter(someone_else(fingerprint))
}

/// What is sent when the member `fingerprint` leaves `members` without a
/// word of its own (`farewell` false) or with "exit" (`farewell` true):
/// the leaver is told "exited" first when it said farewell; the rest are
/// told "disconnected", or, when nobody is left, the conversation ends.
pub open spec fn departure(
    members: Seq<(String, ClientId)>,
    fingerprint: Seq<char>,
    farewell: bool,
    after: Seq<(String, ClientId)>,
    out: ChatOutcome,
) -> bool {
    if has_key(members, fingerprint) {
        let gone = members[key_index(members, fingerprint)];
        let rest = members.remove(key_index(members, fingerprint));
        let first = if farewell { 1int } else { 0int };
        &&& after == rest
        &&& out.deliveries@.len() >= first
        &&& farewell ==> is_notice(out.deliveries@[0], gone, "exited"@, "{}"@)
        &&& out.stop == (rest.len() == 0)
        &&& if rest.len() == 0 {
            out.deliveries@.len() == first
        } else {
            notices(
                out.deliveries@.subrange(first, out.deliveries@.len() as int),
                rest,
                "disconnected"@,
                "{}"@,
            )
        }
    } else {
        &&& after == members
        &&& out.deliveries@.len() == 0
        &&& !out.stop
    }
}

proof fn lemma_filter_keeps_all(s: Seq<(String, ClientId)>, p: spec_fn((String, ClientId)) -> bool)
    requires
        forall|i: int| 0 <= i < s.len() ==> p(#[trigger] s[i]),
    ensures
        s.filter(p) == s,
    decreases s.len(),
{
    reveal(Seq::filter);
    if s.len() > 0 {
        lemma_filter_keeps_all(s.drop_last(), p);
        assert(s.drop_last().push(s.last()) =~= s);
    }
}

/// One notice of `event` to each member of `members`, in order, leaving out
/// the member whose fingerprint is `skip`.
fn notice_members(members: &Table<ClientId>, event: &str, data: &str, skip: Option<&String>) -> (r:
    Vec<Delivery>)
    ensures
        notices(
            r@,
            match skip {
                Some(f) => other_members(members@, f@),
                None => members@,
            },
            event@,
            data@,
        ),
{
    let ghost keep = |m: (String, ClientId)|
        match skip {
            Some(f) => m.0@ != f@,
            None => true,
        };
    let ghost all = members@;
    let mut out: Vec<Delivery> = Vec::new();
    let n = members.len();
    let mut i: usize = 0;
    while i < n
        invariant
            n == all.len(),
            all == members@,
            i <= n,
            notices(out@, all.take(i as int).filter(keep), event@, data@),
            forall|m: (String, ClientId)|
                #[trigger] keep(m) == match skip {
                    Some(f) => m.0@ != f@,
                    None => true,
                },
        decreases n - i,
    {
        let key = members.key_at(i);
        let skipped = match skip {
            Some(f) => *key == *f,
            None => false,
        };
        proof {
            all.take(i as int).lemma_filter_push(all[i as int], keep);
            assert(all.take(i as int).push(all[i as int]) =~= all.take(i + 1));
            assert(keep(all[i as int]) == !skipped);
        }
        let ghost before = out@;
        if !skipped {
            let d = Delivery {
                to: *members.value_at(i),
                message: ClientMessage {
                    fingerprint: key.clone(),
                    event: String::from_str(event),
                    data: String::from_str(data),
                },
            };
            out.push(d);
            assert(is_notice(out@[out@.len() - 1], all[i as int], event@, data@));
        }
        assert(forall|j: int| 0 <= j < before.len() ==> out@[j] == before[j]);
        i = i + 1;
    }
    proof {
        assert(all.take(n as int) =~= all);
        match skip {
            Some(f) => {
                assert(keep =~= someone_else(f@));
            },
            None => {
                lemma_filter_keeps_all(all, keep);
            },
        }
    }
    out
}

/// A conversation and who takes part in it.
pub struct Chat {
    id: u128,
    message_counter: i32,
    members: Table<ClientId>,
}

impl Chat {
    /// The id of the stored chat.
    pub closed spec fn chat_id(&self) -> u128 {
        self.id
    }

    /// The id of the stored chat.
    pub fn id(&self) -> (id: u128)
        ensures
            id == self.chat_id(),
    {
        self.id
    }

    /// How many messages the conversation relayed.
    pub closed spec fn counter(&self) -> i32 {
        self.message_counter
    }

    /// The members: fingerprint and client, in the order they joined.
    pub closed spec fn member_entries(&self) -> Seq<(String, ClientId)> {
        self.members@
    }

    /// A conversation for a stored chat, with no member and nothing relayed.
    pub fn new(chat_model: chats::Chat) -> (c: Chat)
        ensures
            c.chat_id() == chat_model.id,
            c.counter() == 0,
            c.member_entries() == Seq::<(String, ClientId)>::empty(),
    {
        Chat { id: chat_model.id, message_counter: 0, members: Table::new() }
    }

    /// Lets the client `addr` take part under `fingerprint`; a member with
    /// the same fingerprint is reached at `addr` from now on.
    pub fn add_member(&mut self, fingerprint: String, addr: ClientId)
        ensures
            final(self).chat_id() == old(self).chat_id(),
            final(self).counter() == old(self).counter(),
            final(self).member_entries() == inserted(old(self).member_entries(), fingerprint, addr),
    {
        let _ = self.members.insert(fingerprint, addr);
    }

    /// How many messages the conversation relayed.
    pub fn message_counter(&self) -> (n: i32)
        ensures
            n == self.counter(),
    {
        self.message_counter
    }

    /// How many members take part.
    pub fn member_count(&self) -> (n: usize)
        ensures
            n == self.member_entries().len(),
    {
        self.members.len()
    }

    /// The clients to tell that they joined this conversation, one per
    /// member, in order.
    pub fn joined_targets(&self) -> (r: Vec<ClientId>)
        ensures
            r@.len() == self.member_entries().len(),
            forall|i: int| 0 <= i < r@.len() ==> r@[i] == (#[trigger] self.member_entries()[i]).1,
    {
        let n = self.members.len();
        let mut out: Vec<ClientId> = Vec::new();
        let mut i: usize = 0;
        while i < n
            invariant
                n == self.members@.len(),
                i <= n,
                out@.len() == i,
                forall|j: int| 0 <= j < i ==> out@[j] == (#[trigger] self.members@[j]).1,
            decreases n - i,
        {
            out.push(*self.members.value_at(i));
            i = i + 1;
        }
        out
    }

    /// Takes the member `fingerprint` out; see `departure`.
    fn depart(&mut self, fingerprint: &String, farewell: bool) -> (r: ChatOutcome)
        ensures
            final(self).chat_id() == old(self).chat_id(),
            final(self).counter() == old(self).counter(),
            departure(
                old(self).member_entries(),
                fingerprint@,
                farewell,
                final(self).member_entries(),
                r,
            ),
    {
        proof {
            reveal_strlit("exited");
            reveal_strlit("{}");
        }
        match self.members.remove_entry(fingerprint) {
            Some((fg, addr)) => {
                let mut out: Vec<Delivery> = Vec::new();
                if farewell {
                    out.push(
                        Delivery {
                            to: addr,
                            message: ClientMessage {
                                fingerprint: fg,
                                event: String::from_str("exited"),
                                data: String::from_str("{}"),
                            },
                        },
                    );
                }
                if self.members.len() == 0 {
                    return ChatOutcome { deliveries: out, stop: true };
                }
                let mut rest = notice_members(&self.members, "disconnected", "{}", None);
                out.append(&mut rest);
                ChatOutcome { deliveries: out, stop: false }
            },
            None => ChatOutcome { deliveries: Vec::new(), stop: false },
        }
    }

    /// Handles what a member sends: "message" is relayed to every member,
    /// each copy addressed by the receiver's fingerprint, and counted, once
    /// the conversation has two members or more; "exit" takes the sender
    /// out (see `departure`); anything else is ignored.
    pub fn handle_client_message(&mut self, msg: ClientMessage) -> (r: ChatOutcome)
        requires
            msg.event@ == "message"@ && old(self).member_entries().len() >= 2 ==> old(
                self,
            ).counter() < i32::MAX,
        ensures
            final(self).chat_id() == old(self).chat_id(),
            msg.event@ == "message"@ ==> relay_step(*old(self), msg, *final(self), r),
            msg.event@ == "exit"@ ==> {
                &&& final(self).counter() == old(self).counter()
                &&& departure(
                    old(self).member_entries(),
                    msg.fingerprint@,
                    true,
                    final(self).member_entries(),
                    r,
                )
            },
            msg.event@ != "message"@ && msg.event@ != "exit"@ ==> {
                &&& final(self).counter() == old(self).counter()
                &&& final(self).member_entries() == old(self).member_entries()
                &&& r.deliveries@.len() == 0
                &&& !r.stop
            },
    {
        proof {
            reveal_strlit("message");
            reveal_strlit("exit");
            assert("message"@.len() != "exit"@.len());
        }
        if msg.event == String::from_str("message") {
            if self.members.len() >= 2 {
                self.message_counter = self.message_counter + 1;
                let deliveries = notice_members(
                    &self.members,
                    msg.event.as_str(),
                    msg.data.as_str(),
                    None,
                );
                ChatOutcome { deliveries, stop: false }
            } else {
                ChatOutcome { deliveries: Vec::new(), stop: false }
            }
        } else if msg.event == String::from_str("exit") {
            self.depart(&msg.fingerprint, true)
        } else {
            ChatOutcome { deliveries: Vec::new(), stop: false }
        }
    }

    /// Tells every other member that the member `msg.0` is not answering.
    pub fn timeout(&self, msg: Timeout) -> (r: ChatOutcome)
        ensures
            notices(r.deliveries@, other_members(self.member_entries(), msg.0@), "timeout"@, "{}"@),
            !r.stop,
    {
        let deliveries = notice_members(&self.members, "timeout", "{}", Some(&msg.0));
        ChatOutcome { deliveries, stop: false }
    }

    /// Takes out a member whose client is gone; see `departure`.
    pub fn disconnect(&mut self, msg: Disconnect) -> (r: ChatOutcome)
        ensures
            final(self).chat_id() == old(self).chat_id(),
            final(self).counter() == old(self).counter(),
            departure(
                old(self).member_entries(),
                msg.0@,
                false,
                final(self).member_entries(),
                r,
            ),
    {
        self.depart(&msg.0, false)
    }

    /// The record that closes this conversation in the database.
    pub fn close_record(&self) -> (r: CloseChat)
        ensures
            r == closing_record(*self),
    {
        CloseChat { chat_id: self.id, message_counter: self.message_counter }
    }
}

/// `after` is `before` once it relayed a message: the same conversation
/// and members, one more message counted.
pub open spec fn message_relayed(before: Chat, after: Chat) -> bool {
    &&& before.member_entries().len() >= 2
    &&& after.chat_id() == before.chat_id()
    &&& after.member_entries() == before.member_entries()
    &&& after.counter() == before.counter() + 1
}

/// What a "message" from a member does: with two members or more it is
/// relayed to every member, each copy addressed by the receiver's
/// fingerprint, and counted; otherwise nothing happens. The members stay.
pub open spec fn relay_step(before: Chat, msg: ClientMessage, after: Chat, out: ChatOutcome) -> bool {
    &&& after.chat_id() == before.chat_id()
    &&& after.member_entries() == before.member_entries()
    &&& !out.stop
    &&& if before.member_entries().len() >= 2 {
        &&& message_relayed(before, after)
        &&& notices(out.deliveries@, before.member_entries(), msg.event@, msg.data@)
    } else {
        &&& after.counter() == before.counter()
        &&& out.deliveries@.len() == 0
    }
}

/// A relayed message reaches every member once, in joining order, at the
/// member's own client and addressed by the member's own fingerprint,
/// with the sender's event and payload unchanged, and it is counted once;
/// in a conversation of fewer than two, nothing is sent or counted.
pub proof fn law_relay_keeps_payload(before: Chat, msg: ClientMessage, after: Chat, out: ChatOutcome)
    requires
        relay_step(before, msg, after, out),
    ensures
        after.member_entries() == before.member_entries(),
        !out.stop,
        before.member_entries().len() >= 2 ==> {
            &&& out.deliveries@.len() == before.member_entries().len()
            &&& after.counter() == before.counter() + 1
            &&& forall|i: int|
                0 <= i < out.deliveries@.len() ==> {
                    &&& (#[trigger] out.deliveries@[i]).to == before.member_entries()[i].1
                    &&& out.deliveries@[i].message.fingerprint == before.member_entries()[i].0
                    &&& out.deliveries@[i].message.event@ == msg.event@
                    &&& out.deliveries@[i].message.data@ == msg.data@
                }
        },
        before.member_entries().len() < 2 ==> out.deliveries@.len() == 0 && after.counter()
            == before.counter(),
{
    if before.member_entries().len() >= 2 {
        assert forall|i: int| 0 <= i < out.deliveries@.len() implies {
            &&& (#[trigger] out.deliveries@[i]).to == before.member_entries()[i].1
            &&& out.deliveries@[i].message.fingerprint == before.member_entries()[i].0
            &&& out.deliveries@[i].message.event@ == msg.event@
            &&& out.deliveries@[i].message.data@ == msg.data@
        } by {
            assert(is_notice(out.deliveries@[i], before.member_entries()[i], msg.event@, msg.data@));
        }
    }
}

/// The position, among the notices of a departure, of the notice to the
/// member at position `j` when the member at position `i` left: the
/// members after the leaver move up by one, behind the "exited" notice, if
/// any.
pub open spec fn notice_position(farewell: bool, i: int, j: int) -> int {
    (if farewell {
        1int
    } else {
        0int
    }) + (if j < i {
        j
    } else {
        j - 1
    })
}

/// When the member at position `i` leaves, with "exit" (`farewell`) or
/// because its client dropped, the others stay in joining order; after
/// "exit" the leaver itself, at its own client and by its own fingerprint,
/// is told "exited" first; then every other member, in joining order, is
/// told "disconnected" by its own fingerprint at its own client, and
/// nobody else is told anything; the conversation ends exactly when the
/// leaver was the last.
pub proof fn law_departure_tells_the_right_members(
    members: Seq<(String, ClientId)>,
    fingerprint: Seq<char>,
    farewell: bool,
    after: Seq<(String, ClientId)>,
    out: ChatOutcome,
    i: int,
)
    requires
        keys_distinct(members),
        0 <= i < members.len(),
        members[i].0@ == fingerprint,
        departure(members, fingerprint, farewell, after, out),
    ensures
        after == members.remove(i),
        out.stop <==> members.len() == 1,
        out.deliveries@.len() == (if farewell {
            1int
        } else {
            0int
        }) + members.len() - 1,
        farewell ==> {
            &&& out.deliveries@[0].to == members[i].1
            &&& out.deliveries@[0].message.fingerprint == members[i].0
            &&& out.deliveries@[0].message.event@ == "exited"@
            &&& out.deliveries@[0].message.data@ == "{}"@
        },
        forall|j: int|
            0 <= j < members.len() && j != i ==> {
                let d = out.deliveries@[notice_position(farewell, i, j)];
                &&& d.to == (#[trigger] members[j]).1
                &&& d.message.fingerprint == members[j].0
                &&& d.message.event@ == "disconnected"@
                &&& d.message.data@ == "{}"@
            },
{
    crate::table::lemma_key_index(members, i, fingerprint);
    let first = if farewell {
        1int
    } else {
        0int
    };
    let rest = members.remove(i);
    assert forall|j: int| 0 <= j < members.len() && j != i implies {
        let d = out.deliveries@[notice_position(farewell, i, j)];
        &&& d.to == (#[trigger] members[j]).1
        &&& d.message.fingerprint == members[j].0
        &&& d.message.event@ == "disconnected"@
        &&& d.message.data@ == "{}"@
    } by {
        let r = if j < i {
            j
        } else {
            j - 1
        };
        assert(rest[r] == members[j]);
        let tail = out.deliveries@.subrange(first, out.deliveries@.len() as int);
        assert(is_notice(tail[r], rest[r], "disconnected"@, "{}"@));
        assert(tail[r] == out.deliveries@[first + r]);
    }
}

/// A departure of someone who is not a member changes nothing and sends
/// nothing.
pub proof fn law_departure_of_stranger(
    members: Seq<(String, ClientId)>,
    fingerprint: Seq<char>,
    farewell: bool,
    after: Seq<(String, ClientId)>,
    out: ChatOutcome,
)
    requires
        forall|i: int| 0 <= i < members.len() ==> (#[trigger] members[i]).0@ != fingerprint,
        departure(members, fingerprint, farewell, after, out),
    ensures
        after == members,
        out.deliveries@.len() == 0,
        !out.stop,
{
}

/// The record that closes `c` in the database: its id and how many
/// messages it relayed.
pub open spec fn closing_record(c: Chat) -> CloseChat {
    CloseChat { chat_id: c.chat_id(), message_counter: c.counter() }
}

proof fn lemma_counts_relayed(chats: Seq<Chat>)
    requires
        chats.len() >= 1,
        forall|i: int| 0 <= i < chats.len() - 1 ==> message_relayed(#[trigger] chats[i], chats[i + 1]),
    ensures
        chats.last().counter() == chats[0].counter() + chats.len() - 1,
        chats.last().chat_id() == chats[0].chat_id(),
    decreases chats.len(),
{
    if chats.len() > 1 {
        let shorter = chats.drop_last();
        assert forall|i: int| 0 <= i < shorter.len() - 1 implies message_relayed(
            #[trigger] shorter[i],
            shorter[i + 1],
        ) by {
            assert(message_relayed(chats[i], chats[i + 1]));
        }
        lemma_counts_relayed(shorter);
        assert(message_relayed(chats[chats.len() - 2], chats[chats.len() - 1]));
    }
}

/// A conversation that relayed n messages since it started closes with a
/// count of n: `chats` are its states, from its start with nothing counted,
/// each one message later than the one before.
pub proof fn law_close_counts_relayed(chats: Seq<Chat>)
    requires
        chats.len() >= 1,
        chats[0].counter() == 0,
        forall|i: int| 0 <= i < chats.len() - 1 ==> message_relayed(#[trigger] chats[i], chats[i + 1]),
    ensures
        closing_record(chats.last()).chat_id == chats[0].chat_id(),
        closing_record(chats.last()).message_counter == chats.len() - 1,
{
    lemma_counts_relayed(chats);
}

/// A two-person conversation goes on when one member leaves and ends when
/// the other one does.
pub proof fn law_chat_ends_with_last_member(
    members: Seq<(String, ClientId)>,
    first: Seq<char>,
    first_farewell: bool,
    middle: Seq<(String, ClientId)>,
    first_out: ChatOutcome,
    second: Seq<char>,
    second_farewell: bool,
    after: Seq<(String, ClientId)>,
    second_out: ChatOutcome,
)
    requires
        keys_distinct(members),
        members.len() == 2,
        has_key(members, first),
        departure(members, first, first_farewell, middle, first_out),
        has_key(middle, second),
        departure(middle, second, second_farewell, after, second_out),
    ensures
        !first_out.stop,
        second_out.stop,
        after.len() == 0,
{
}

/// A member who went silent is not told about its own silence; every
/// other member is.
pub proof fn law_timeout_spares_the_silent(
    members: Seq<(String, ClientId)>,
    fingerprint: Seq<char>,
    deliveries: Seq<Delivery>,
)
    requires
        notices(deliveries, other_members(members, fingerprint), "timeout"@, "{}"@),
    ensures
        forall|i: int|
            0 <= i < deliveries.len() ==> (#[trigger] deliveries[i]).message.fingerprint@
                != fingerprint,
        forall|j: int|
            0 <= j < members.len() && (#[trigger] members[j]).0@ != fingerprint ==> exists|i: int|
                0 <= i < deliveries.len() && deliveries[i].to == members[j].1
                    && deliveries[i].message.fingerprint == members[j].0,
{
    let pred = someone_else(fingerprint);
    let kept = members.filter(pred);
    assert forall|i: int| 0 <= i < deliveries.len() implies (#[trigger] deliveries[i]).message.fingerprint@
        != fingerprint by {
        members.lemma_filter_pred(pred, i);
        assert(is_notice(deliveries[i], kept[i], "timeout"@, "{}"@));
    }
    assert forall|j: int|
        0 <= j < members.len() && (#[trigger] members[j]).0@ != fingerprint implies exists|i: int|
        0 <= i < deliveries.len() && deliveries[i].to == members[j].1
            && deliveries[i].message.fingerprint == members[j].0 by {
        members.lemma_filter_contains(pred, j);
        let i = choose|i: int| 0 <= i < kept.len() && kept[i] == members[j];
        assert(is_notice(deliveries[i], kept[i], "timeout"@, "{}"@));
    }
}

} // verus!
