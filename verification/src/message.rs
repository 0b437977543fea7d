//! The message every party of a conversation exchanges, and the JSON text
//! it travels as.

use vstd::prelude::*;

use crate::json::{decimal, json_string, json_string_literal, push_decimal};

verus! {

/// The handle under which the server reaches one connected client.
pub type ClientId = u64;

/// A message from or to a client: who it concerns, what happened, and the
/// event's payload as JSON text.
#[derive(Clone, Debug)]
pub struct ClientMessage {
    pub fingerprint: String,
    pub event: String,
    pub data: String,
}

/// The compact JSON object of a message. Its keys come in sorted order,
/// the order a JSON map keeps them in.
pub open spec fn message_json(fingerprint: Seq<char>, event: Seq<char>, data: Seq<char>) -> Seq<
    char,
> {
    "{\"data\":"@ + data + ",\"event\":"@ + json_string_literal(event) + ",\"fingerprint\":"@
        + json_string_literal(fingerprint) + "}"@
}

/// The JSON text of a message holds the message's payload whole, right
/// after the opening `{"data":`, and ends with the quoted fingerprint and
/// a closing brace; what follows the payload does not depend on it, so two
/// messages that differ only in their payload have different texts.
pub proof fn law_message_text_holds_data(
    fingerprint: Seq<char>,
    event: Seq<char>,
    data: Seq<char>,
    other: Seq<char>,
)
    ensures
        message_json(fingerprint, event, data).subrange(0, 8) == seq![
            '{',
            '"',
            'd',
            'a',
            't',
            'a',
            '"',
            ':',
        ],
        message_json(fingerprint, event, data).subrange(8, 8 + data.len() as int) == data,
        message_json(fingerprint, event, data).subrange(
            8 + data.len() as int,
            message_json(fingerprint, event, data).len() as int,
        ) == message_json(fingerprint, event, other).subrange(
            8 + other.len() as int,
            message_json(fingerprint, event, other).len() as int,
        ),
        message_json(fingerprint, event, data).subrange(
            message_json(fingerprint, event, data).len() - json_string_literal(fingerprint).len() - 1,
            message_json(fingerprint, event, data).len() as int,
        ) == json_string_literal(fingerprint) + seq!['}'],
        message_json(fingerprint, event, data) == message_json(fingerprint, event, other) ==> data
            == other,
{
    reveal_strlit("{\"data\":");
    reveal_strlit("}");
    let open = "{\"data\":"@;
    let rest = ",\"event\":"@ + json_string_literal(event) + ",\"fingerprint\":"@
        + json_string_literal(fingerprint) + "}"@;
    let t = message_json(fingerprint, event, data);
    let u = message_json(fingerprint, event, other);
    assert(t =~= open + data + rest);
    assert(u =~= open + other + rest);
    assert(open.len() == 8);
    assert(t.subrange(0, 8) =~= open);
    assert(t.subrange(8, 8 + data.len() as int) =~= data);
    assert(t.subrange(8 + data.len() as int, t.len() as int) =~= rest);
    assert(u.subrange(8 + other.len() as int, u.len() as int) =~= rest);
    let tail = json_string_literal(fingerprint) + seq!['}'];
    assert(t.subrange(t.len() - tail.len(), t.len() as int) =~= tail);
    if t == u {
        assert(data.len() == other.len());
        assert(data =~= t.subrange(8, 8 + data.len() as int));
    }
}

/// The payload of an error report: its code and its explanation.
pub open spec fn error_data(code: nat, message: Seq<char>) -> Seq<char> {
    "{\"code\":"@ + decimal(code) + ",\"message\":"@ + json_string_literal(message) + "}"@
}

/// Writes a message as the JSON text of its fields.
pub fn render_message(fingerprint: &str, event: &str, data: &str) -> (r: String)
    ensures
        r@ == message_json(fingerprint@, event@, data@),
{
    let mut out = String::from_str("{\"data\":");
    out.append(data);
    out.append(",\"event\":");
    let event_text = json_string(event);
    out.append(event_text.as_str());
    out.append(",\"fingerprint\":");
    let fingerprint_text = json_string(fingerprint);
    out.append(fingerprint_text.as_str());
    out.append("}");
    out
}

/// The payload of an error report.
pub fn render_error_data(code: u64, message: &str) -> (r: String)
    ensures
        r@ == error_data(code as nat, message@),
{
    let mut out = String::from_str("{\"code\":");
    push_decimal(code, &mut out);
    out.append(",\"message\":");
    let message_text = json_string(message);
    out.append(message_text.as_str());
    out.append("}");
    out
}

impl ClientMessage {
    /// The JSON text a client receives for this message.
    pub fn to_json(&self) -> (r: String)
        ensures
            r@ == message_json(self.fingerprint@, self.event@, self.data@),
    {
        render_message(self.fingerprint.as_str(), self.event.as_str(), self.data.as_str())
    }
}

} // verus!
