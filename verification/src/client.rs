//! The decisions of the actor that serves one websocket client: what it
//! answers, where it forwards what the client says, and when it gives up
//! on a silent client.

use vstd::prelude::*;

use crate::chat;
use crate::lobby;
use crate::message::{error_data, message_json, render_error_data, render_message, ClientMessage};

verus! {

/// How often the server checks on a client, in seconds.
pub const HEARTBEAT_INTERVAL_SECS: u64 = 2;

/// Silence, in nanoseconds, after which the client's conversation is told
/// that the client is not answering.
pub const CLIENT_ALERT_TIMEOUT_NANOS: u128 = 3_000_000_000;

/// Silence, in nanoseconds, after which the client is dropped.
pub const CLIENT_DISCONNECT_TIMEOUT_NANOS: u128 = 10_000_000_000;

/// The answer of the lobby to the client's request to connect.
#[derive(Clone, Copy, Debug, PartialEq, Eq, Structural)]
pub enum ConnectReply {
    /// The lobby let the client in.
    Accepted,
    /// A client with the same fingerprint is connected already.
    Refused,
    /// The request never reached the lobby.
    Undelivered,
}

/// Text to send to the client, and whether to end the connection.
#[derive(Clone, Debug)]
pub struct Reaction {
    pub text: Option<String>,
    pub stop: bool,
}

/// What to do when the heartbeat timer fires.
#[derive(Clone, Debug)]
pub enum HeartbeatAction {
    /// Tell the lobby the client is gone, and end the connection.
    Disconnect(lobby::Disconnect),
    /// Ping the client, after telling its conversation, if any, that it
    /// is not answering.
    Ping(Option<chat::Timeout>),
}

/// A websocket frame from the client; a text frame carries the message it
/// holds, or nothing when it does not hold one.
#[derive(Clone, Debug)]
pub enum Frame {
    Ping,
    Pong,
    Binary,
    Close,
    Continuation,
    Nop,
    Text(Option<ClientMessage>),
}

/// What to do with a frame from the client.
#[derive(Clone, Debug)]
pub enum FrameAction {
    /// The client is alive; answer its ping.
    Pong,
    /// The client is alive.
    Alive,
    /// Nothing to do.
    Ignore,
    /// Close the connection as the client asked, and end it.
    Close,
    /// End the connection.
    Stop,
    /// Send this text back to the client.
    Reply(String),
    /// Forward the message to the client's conversation.
    ToChat(ClientMessage),
    /// Forward the message to the lobby.
    ToLobby(ClientMessage),
}

/// The heartbeat interval in nanoseconds.
pub open spec fn heartbeat_interval_nanos() -> int {
    HEARTBEAT_INTERVAL_SECS * 1_000_000_000
}

/// After this much silence the client is dropped.
pub open spec fn drops(silence_nanos: int) -> bool {
    silence_nanos > CLIENT_DISCONNECT_TIMEOUT_NANOS
}

/// After this much silence, not enough to drop it, the conversation of a
/// client that is in one is told the client is not answering.
pub open spec fn alerts(silence_nanos: int, in_chat: bool) -> bool {
    &&& !drops(silence_nanos)
    &&& silence_nanos > CLIENT_ALERT_TIMEOUT_NANOS
    &&& in_chat
}

/// The silence at the heartbeat tick number `k` after the last sign of
/// life, when the first such tick saw `first` nanoseconds of silence.
pub open spec fn tick_silence(first: int, k: int) -> int {
    first + k * heartbeat_interval_nanos()
}

/// A client that stays silent is dropped at the first tick more than 10 s
/// after its last sign of life, which comes no more than one interval
/// later, that is within 12 s; every tick before it pings the client, and
/// alerts the client's conversation, if any, once the silence passed 3 s.
/// The first tick after the last sign of life sees at most one interval
/// of silence, so the drop comes at the fifth tick (`k` counts from 0).
pub proof fn law_silent_client_dropped(first: int, in_chat: bool) -> (k: int)
    requires
        0 < first <= heartbeat_interval_nanos(),
    ensures
        k >= 0,
        drops(tick_silence(first, k)),
        tick_silence(first, k) <= CLIENT_DISCONNECT_TIMEOUT_NANOS + heartbeat_interval_nanos(),
        forall|j: int|
            0 <= j < k ==> !drops(#[trigger] tick_silence(first, j)) && (alerts(
                tick_silence(first, j),
                in_chat,
            ) <==> (in_chat && tick_silence(first, j) > CLIENT_ALERT_TIMEOUT_NANOS)),
{
    assert(heartbeat_interval_nanos() == 2_000_000_000);
    let k = 5int;
    assert forall|j: int| 0 <= j < k implies !drops(#[trigger] tick_silence(first, j)) by {
        assert(j * 2_000_000_000 <= 8_000_000_000);
    }
    k
}

/// The client's conversation tells it that it joined.
pub struct Joined<H>(pub H);

/// One connected client: its fingerprint, its lobby, and its conversation
/// once it joined one.
pub struct Client<L, H> {
    fingerprint: String,
    lobby_addr: L,
    chat_addr: Option<H>,
}

/// The text of an error report to the client `fingerprint`.
pub open spec fn error_text(fingerprint: Seq<char>, code: nat, message: Seq<char>) -> Seq<char> {
    message_json(fingerprint, "error"@, error_data(code, message))
}

/// The text of an event for the client `fingerprint`; without a payload
/// the event carries an empty object.
pub open spec fn event_text(fingerprint: Seq<char>, event: Seq<char>, data: Option<Seq<char>>) -> Seq<
    char,
> {
    message_json(
        fingerprint,
        event,
        match data {
            Some(d) => d,
            None => "{}"@,
        },
    )
}

impl<L, H> Client<L, H> {
    /// The client's fingerprint.
    pub closed spec fn fingerprint_view(&self) -> Seq<char> {
        self.fingerprint@
    }

    /// The client's lobby.
    pub closed spec fn lobby(&self) -> L {
        self.lobby_addr
    }

    /// The client's conversation, once it joined one.
    pub closed spec fn chat(&self) -> Option<H> {
        self.chat_addr
    }

    /// A client of lobby `lobby_addr`, in no conversation yet.
    pub fn new(fingerprint: String, lobby_addr: L) -> (c: Self)
        ensures
            c.fingerprint_view() == fingerprint@,
            c.lobby() == lobby_addr,
            c.chat() is None,
    {
        Client { fingerprint, lobby_addr, chat_addr: None }
    }

    pub fn fingerprint(&self) -> (f: &String)
        ensures
            f@ == self.fingerprint_view(),
    {
        &self.fingerprint
    }

    pub fn lobby_addr(&self) -> (l: &L)
        ensures
            *l == self.lobby(),
    {
        &self.lobby_addr
    }

    pub fn chat_addr(&self) -> (h: Option<&H>)
        ensures
            match h {
                Some(a) => self.chat() == Some(*a),
                None => self.chat() is None,
            },
    {
        match &self.chat_addr {
            Some(a) => Some(a),
            None => None,
        }
    }

    /// An error report for this client.
    pub fn client_error_message(&self, code: u64, message: &str) -> (r: String)
        ensures
            r@ == error_text(self.fingerprint_view(), code as nat, message@),
    {
        let data = render_error_data(code, message);
        render_message(self.fingerprint.as_str(), "error", data.as_str())
    }

    /// An event for this client, with `data` as JSON text.
    pub fn client_event_message(&self, event: &str, data: Option<String>) -> (r: String)
        ensures
            r@ == event_text(
                self.fingerprint_view(),
                event@,
                match data {
                    Some(d) => Some(d@),
                    None => None,
                },
            ),
    {
        let payload = match data {
            Some(value) => value,
            None => String::from_str("{}"),
        };
        render_message(self.fingerprint.as_str(), event, payload.as_str())
    }

    /// How the client reacts to the lobby's answer to its request to
    /// connect: told "connected" when let in; told that it is connected
    /// already, and dropped, when refused; dropped when the request was
    /// lost.
    pub fn connect_reply(&self, reply: ConnectReply) -> (r: Reaction)
        ensures
            match reply {
                ConnectReply::Accepted => !r.stop && (r.text matches Some(t) && t@ == event_text(
                    self.fingerprint_view(),
                    "connected"@,
                    None,
                )),
                ConnectReply::Refused => r.stop && (r.text matches Some(t) && t@ == error_text(
                    self.fingerprint_view(),
                    400,
                    "Client aready connected."@,
                )),
                ConnectReply::Undelivered => r.stop && r.text is None,
            },
    {
        match reply {
            ConnectReply::Accepted => Reaction {
                text: Some(self.client_event_message("connected", None)),
                stop: false,
            },
            ConnectReply::Refused => Reaction {
                text: Some(self.client_error_message(400, "Client aready connected.")),
                stop: true,
            },
            ConnectReply::Undelivered => Reaction { text: None, stop: true },
        }
    }

    /// What the heartbeat does after `silence_nanos` without a sign of life
    /// from the client: past the disconnect timeout the client is dropped;
    /// otherwise it is pinged, and past the alert timeout its conversation,
    /// if any, is told first.
    pub fn heartbeat(&self, silence_nanos: u128) -> (r: HeartbeatAction)
        ensures
            drops(silence_nanos as int) ==> (r matches HeartbeatAction::Disconnect(d) && d.0@
                == self.fingerprint_view()),
            !drops(silence_nanos as int) ==> (r matches HeartbeatAction::Ping(t) && if alerts(
                silence_nanos as int,
                self.chat() is Some,
            ) {
                t matches Some(m) && m.0@ == self.fingerprint_view()
            } else {
                t is None
            }),
    {
        if silence_nanos > CLIENT_DISCONNECT_TIMEOUT_NANOS {
            HeartbeatAction::Disconnect(lobby::Disconnect(self.fingerprint.clone()))
        } else if silence_nanos > CLIENT_ALERT_TIMEOUT_NANOS && self.chat_addr.is_some() {
            HeartbeatAction::Ping(Some(chat::Timeout(self.fingerprint.clone())))
        } else {
            HeartbeatAction::Ping(None)
        }
    }

    /// What the client's frame calls for. A text frame that holds no
    /// message is answered "Bad Request"; a message under another
    /// fingerprint is answered 401; any other message goes to the client's
    /// conversation, or to the lobby while it is in none.
    pub fn frame(&self, frame: Frame) -> (r: FrameAction)
        ensures
            match frame {
                Frame::Ping => r is Pong,
                Frame::Pong => r is Alive,
                Frame::Binary | Frame::Nop => r is Ignore,
                Frame::Close => r is Close,
                Frame::Continuation => r is Stop,
                Frame::Text(None) => r matches FrameAction::Reply(t) && t@ == error_text(
                    self.fingerprint_view(),
                    400,
                    "Bad Request"@,
                ),
                Frame::Text(Some(m)) => if m.fingerprint@ != self.fingerprint_view() {
                    r matches FrameAction::Reply(t) && t@ == error_text(
                        self.fingerprint_view(),
                        401,
                        "-12315"@,
                    )
                } else if self.chat() is Some {
                    r matches FrameAction::ToChat(f) && f == m
                } else {
                    r matches FrameAction::ToLobby(f) && f == m
                },
            },
    {
        match frame {
            Frame::Ping => FrameAction::Pong,
            Frame::Pong => FrameAction::Alive,
            Frame::Binary => FrameAction::Ignore,
            Frame::Nop => FrameAction::Ignore,
            Frame::Close => FrameAction::Close,
            Frame::Continuation => FrameAction::Stop,
            Frame::Text(None) => FrameAction::Reply(self.client_error_message(400, "Bad Request")),
            Frame::Text(Some(m)) => {
                if !(m.fingerprint == self.fingerprint) {
                    FrameAction::Reply(self.client_error_message(401, "-12315"))
                } else if self.chat_addr.is_some() {
                    FrameAction::ToChat(m)
                } else {
                    FrameAction::ToLobby(m)
                }
            },
        }
    }

    /// The client joined the conversation `msg.0`: what it says goes there
    /// from now on, and it is told "joined".
    pub fn joined(&mut self, msg: Joined<H>) -> (r: String)
        ensures
            final(self).fingerprint_view() == old(self).fingerprint_view(),
            final(self).lobby() == old(self).lobby(),
            final(self).chat() == Some(msg.0),
            r@ == event_text(old(self).fingerprint_view(), "joined"@, None),
    {
        self.chat_addr = Some(msg.0);
        self.client_event_message("joined", None)
    }
}

} // verus!
