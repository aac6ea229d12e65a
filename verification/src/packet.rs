//! The packet exchanged between clients and the relay, and its text form.

use vstd::prelude::*;
use vstd::string::*;

verus! {

/// The hexadecimal digit of `n` (below 16), in lower case.
pub open spec fn hex_digit(n: u32) -> char {
    if n < 10 {
        (n + 48) as char
    } else {
        (n + 87) as char
    }
}

/// How `serde_json` writes one character inside a JSON string: `"` and `\`
/// behind a backslash; backspace, tab, line feed, form feed and carriage return
/// as `\b`, `\t`, `\n`, `\f`, `\r`; the other characters below U+0020 as
/// `\u00` and two lower-case hexadecimal digits; every other character as it is.
pub open spec fn escaped_char(c: char) -> Seq<char> {
    let n = c as u32;
    if c == '"' {
        seq!['\\', '"']
    } else if c == '\\' {
        seq!['\\', '\\']
    } else if n == 8 {
        seq!['\\', 'b']
    } else if n == 9 {
        seq!['\\', 't']
    } else if n == 10 {
        seq!['\\', 'n']
    } else if n == 12 {
        seq!['\\', 'f']
    } else if n == 13 {
        seq!['\\', 'r']
    } else if n < 32 {
        seq!['\\', 'u', '0', '0', hex_digit(n / 16), hex_digit(n % 16)]
    } else {
        seq![c]
    }
}

/// The characters of `s`, each written as [`escaped_char`] says.
pub open spec fn escaped_text(s: Seq<char>) -> Seq<char>
    decreases s.len(),
{
    if s.len() == 0 {
        Seq::empty()
    } else {
        escaped_text(s.drop_last()) + escaped_char(s.last())
    }
}

/// The JSON string literal of `s`, as `serde_json` writes it: the escaped
/// characters of `s` between double quotes.
pub open spec fn json_string_literal(s: Seq<char>) -> Seq<char> {
    seq!['"'] + escaped_text(s) + seq!['"']
}

/// Writes `s` as a JSON string literal, by `serde_json::Value::String`'s
/// `Display` (its compact formatter: `format_escaped_str` and the `ESCAPE`
/// table of serde_json's `ser.rs`), which escapes exactly as
/// [`json_string_literal`] states.
#[verifier::external_body]
fn quote_json(s: &str) -> (quoted: String)
    ensures
        quoted@ == json_string_literal(s@),
{
    serde_json::Value::from(s).to_string()
}

/// A packet of the signalling protocol. Every field may be absent.
pub struct Message {
    /// What the packet asks for: `register`, `hello`, `offer`, `ice_candidate`, ...
    pub msg_type: Option<String>,
    /// The identifier a client registers under, or its own identifier.
    pub id: Option<String>,
    /// The identifier of the client the packet is for.
    pub to: Option<String>,
    /// The identifier of the client the packet comes from.
    pub from: Option<String>,
    /// Free text carried to the recipient (a JSON document for offers and candidates).
    pub payload: Option<String>,
}

/// The mathematical content of a [`Message`].
pub struct MessageView {
    pub msg_type: Option<Seq<char>>,
    pub id: Option<Seq<char>>,
    pub to: Option<Seq<char>>,
    pub from: Option<Seq<char>>,
    pub payload: Option<Seq<char>>,
}

/// The characters of an optional string.
pub open spec fn opt_text(o: Option<String>) -> Option<Seq<char>> {
    match o {
        Some(s) => Some(s@),
        None => None,
    }
}

impl View for Message {
    type V = MessageView;

    open spec fn view(&self) -> MessageView {
        MessageView {
            msg_type: opt_text(self.msg_type),
            id: opt_text(self.id),
            to: opt_text(self.to),
            from: opt_text(self.from),
            payload: opt_text(self.payload),
        }
    }
}

/// The JSON text of an optional field: `null` when absent.
pub open spec fn json_field(f: Option<Seq<char>>) -> Seq<char> {
    match f {
        Some(s) => json_string_literal(s),
        None => "null"@,
    }
}

/// The wire form of a packet: a JSON object with the five keys in a fixed
/// order, `type` first, absent fields written as `null`.
pub open spec fn wire_text(m: MessageView) -> Seq<char> {
    "{\"type\":"@ + json_field(m.msg_type) + ",\"id\":"@ + json_field(m.id) + ",\"to\":"@
        + json_field(m.to) + ",\"from\":"@ + json_field(m.from) + ",\"payload\":"@
        + json_field(m.payload) + "}"@
}

/// The payload of an offer: a JSON object whose one key `offer` holds the session description.
pub open spec fn offer_payload_text(sdp: Seq<char>) -> Seq<char> {
    "{\"offer\":"@ + json_string_literal(sdp) + "}"@
}

/// The payload of an ICE candidate: a JSON object whose one key `candidate` holds the candidate.
pub open spec fn candidate_payload_text(candidate: Seq<char>) -> Seq<char> {
    "{\"candidate\":"@ + json_string_literal(candidate) + "}"@
}

fn push_field(out: &mut String, field: &Option<String>)
    ensures
        final(out)@ == old(out)@ + json_field(opt_text(*field)),
{
    match field {
        Some(s) => {
            let quoted = quote_json(s.as_str());
            out.append(quoted.as_str());
        },
        None => {
            out.append("null");
        },
    }
}

/// The payload of an offer carrying the session description `sdp`.
pub fn offer_payload(sdp: &str) -> (payload: String)
    ensures
        payload@ == offer_payload_text(sdp@),
{
    let mut payload = String::from_str("{\"offer\":");
    let quoted = quote_json(sdp);
    payload.append(quoted.as_str());
    payload.append("}");
    payload
}

/// The payload of an ICE candidate message carrying `candidate`.
pub fn candidate_payload(candidate: &str) -> (payload: String)
    ensures
        payload@ == candidate_payload_text(candidate@),
{
    let mut payload = String::from_str("{\"candidate\":");
    let quoted = quote_json(candidate);
    payload.append(quoted.as_str());
    payload.append("}");
    payload
}

impl Message {
    /// The packet a client sends to register under `id`.
    pub fn register(id: String) -> (m: Message)
        ensures
            m@ == (MessageView {
                msg_type: Some("register"@),
                id: Some(id@),
                to: None,
                from: None,
                payload: None,
            }),
    {
        Message {
            msg_type: Some(String::from_str("register")),
            id: Some(id),
            to: None,
            from: None,
            payload: None,
        }
    }

    /// The packet the relay answers a registration with, addressed to `to`.
    pub fn hello(to: String) -> (m: Message)
        ensures
            m@ == (MessageView {
                msg_type: Some("hello"@),
                id: None,
                to: Some(to@),
                from: None,
                payload: None,
            }),
    {
        Message {
            msg_type: Some(String::from_str("hello")),
            id: None,
            to: Some(to),
            from: None,
            payload: None,
        }
    }

    /// The offer that client `client_id` sends to `to`, carrying the session description `sdp`.
    pub fn offer(client_id: String, to: String, sdp: &str) -> (m: Message)
        ensures
            m@ == (MessageView {
                msg_type: Some("offer"@),
                id: Some(client_id@),
                to: Some(to@),
                from: Some(client_id@),
                payload: Some(offer_payload_text(sdp@)),
            }),
    {
        let from = client_id.clone();
        Message {
            msg_type: Some(String::from_str("offer")),
            id: Some(client_id),
            to: Some(to),
            from: Some(from),
            payload: Some(offer_payload(sdp)),
        }
    }

    /// The ICE candidate message that client `client_id` sends to `to`.
    pub fn ice_candidate(client_id: String, to: String, candidate: &str) -> (m: Message)
        ensures
            m@ == (MessageView {
                msg_type: Some("ice_candidate"@),
                id: Some(client_id@),
                to: Some(to@),
                from: None,
                payload: Some(candidate_payload_text(candidate@)),
            }),
    {
        Message {
            msg_type: Some(String::from_str("ice_candidate")),
            id: Some(client_id),
            to: Some(to),
            from: None,
            payload: Some(candidate_payload(candidate)),
        }
    }

    /// The wire form of the packet.
    pub fn encode(&self) -> (text: String)
        ensures
            text@ == wire_text(self@),
    {
        let mut out = String::from_str("{\"type\":");
        push_field(&mut out, &self.msg_type);
        out.append(",\"id\":");
        push_field(&mut out, &self.id);
        out.append(",\"to\":");
        push_field(&mut out, &self.to);
        out.append(",\"from\":");
        push_field(&mut out, &self.from);
        out.append(",\"payload\":");
        push_field(&mut out, &self.payload);
        out.append("}");
        out
    }
}

} // verus!
