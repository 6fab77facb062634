//! The call events this service announces on the message bus, and the
//! JSON payloads that travel in generic events.
use vstd::prelude::*;

verus! {

/// The lower-case hexadecimal digit of `n` (below 16).
pub open spec fn hex_digit(n: nat) -> char {
    if n < 10 {
        (('0' as u32) + n) as char
    } else {
        (('a' as u32) + n - 10) as char
    }
}

/// How one character stands inside a JSON string: `"` and `\` behind a
/// backslash, the control characters below U+0020 as `\b`, `\t`, `\n`, `\f`,
/// `\r` or `\u00XX`, every other character as itself.
pub open spec fn json_escaped_char(c: char) -> Seq<char> {
    if c == '"' {
        seq!['\\', '"']
    } else if c == '\\' {
        seq!['\\', '\\']
    } else if c == '\u{8}' {
        seq!['\\', 'b']
    } else if c == '\t' {
        seq!['\\', 't']
    } else if c == '\n' {
        seq!['\\', 'n']
    } else if c == '\u{c}' {
        seq!['\\', 'f']
    } else if c == '\r' {
        seq!['\\', 'r']
    } else if (c as nat) < 32 {
        seq!['\\', 'u', '0', '0', hex_digit(c as nat / 16), hex_digit(c as nat % 16)]
    } else {
        seq![c]
    }
}

/// The characters of `s` as they stand between the quotes of a JSON string.
pub open spec fn json_escaped(s: Seq<char>) -> Seq<char>
    decreases s.len(),
{
    if s.len() == 0 {
        Seq::empty()
    } else {
        json_escaped(s.drop_last()) + json_escaped_char(s.last())
    }
}

/// The compact JSON text of the object `{key: value}` with one string member.
pub open spec fn json_string_object(key: Seq<char>, value: Seq<char>) -> Seq<char> {
    seq!['{', '"'] + json_escaped(key) + seq!['"', ':', '"'] + json_escaped(value) + seq!['"', '}']
}

/// What `serde_json` reads as the string member `key` of the JSON text `json`:
/// `None` when the text is not JSON, is not an object, or has no such string member.
pub uninterp spec fn json_string_member(json: Seq<char>, key: Seq<char>) -> Option<Seq<char>>;

/// `serde_json::Value::Object` with the one member `key: value`, written by
/// `Value::to_string`: compact JSON, with key and value escaped as serde_json's
/// string writer escapes them. Reading the member `key` of that text gives
/// `value` back.
#[verifier::external_body]
fn write_json_string_object(key: &str, value: &str) -> (json: String)
    ensures
        json@ == json_string_object(key@, value@),
        json_string_member(json@, key@) == Some(value@),
{
    let mut members = serde_json::Map::new();
    members.insert(key.to_owned(), serde_json::Value::String(value.to_owned()));
    serde_json::Value::Object(members).to_string()
}

/// `serde_json::from_str::<Value>`, then `Value::get(key)` and `Value::as_str`.
#[verifier::external_body]
fn read_json_string_member(json: &str, key: &str) -> (member: Option<String>)
    ensures
        match json_string_member(json@, key@) {
            Some(v) => member matches Some(s) && s@ == v,
            None => member is None,
        },
{
    let value: serde_json::Value = match serde_json::from_str(json) {
        Ok(v) => v,
        Err(_) => return None,
    };
    match value.get(key).and_then(serde_json::Value::as_str) {
        Some(s) => Some(s.to_owned()),
        None => None,
    }
}

/// The name of the Call-ID member in JSON payloads.
pub open spec fn call_id_key() -> Seq<char> {
    "callId"@
}

/// The payload of a generic event about the call `call_id`: `{"callId": call_id}`.
pub fn call_payload(call_id: &str) -> (json: String)
    ensures
        json@ == json_string_object(call_id_key(), call_id@),
        json_string_member(json@, call_id_key()) == Some(call_id@),
{
    write_json_string_object("callId", call_id)
}

/// The call that a termination request names: its `callId` string member.
pub fn termination_target(payload_json: &str) -> (call_id: Option<String>)
    ensures
        match json_string_member(payload_json@, call_id_key()) {
            Some(v) => call_id matches Some(s) && s@ == v,
            None => call_id is None,
        },
{
    read_json_string_member(payload_json, "callId")
}

/// Announcement that a call was set up.
#[derive(Debug)]
pub struct CallStartedEvent {
    pub event_type: String,
    pub trace_id: String,
    pub call_id: String,
    pub from_uri: String,
    pub to_uri: String,
    pub caller_rtp_addr: String,
    pub server_rtp_port: u32,
}

/// Announcement that a call ended.
#[derive(Debug)]
pub struct CallEndedEvent {
    pub event_type: String,
    pub trace_id: String,
    pub call_id: String,
    pub reason: String,
}

/// A generic event with a JSON payload.
#[derive(Debug)]
pub struct GenericEvent {
    pub event_type: String,
    pub trace_id: String,
    pub tenant_id: String,
    pub payload_json: String,
}

/// Builds the events of the calls of one tenant; each event goes out under
/// its `event_type` as routing key.
#[derive(Debug)]
pub struct EventManager {
    pub tenant_id: String,
}

impl EventManager {
    pub fn new(tenant_id: String) -> (m: Self)
        ensures
            m.tenant_id == tenant_id,
    {
        EventManager { tenant_id }
    }

    /// `call.started`: the call `call_id` from `from` to `to` was set up, with its
    /// media on `server_port` here and `caller_rtp` at the caller.
    pub fn publish_call_started(
        &self,
        call_id: &str,
        server_port: u32,
        caller_rtp: &str,
        from: &str,
        to: &str,
    ) -> (e: CallStartedEvent)
        ensures
            e.event_type@ == "call.started"@,
            e.trace_id@ == call_id@,
            e.call_id@ == call_id@,
            e.from_uri@ == from@,
            e.to_uri@ == to@,
            e.caller_rtp_addr@ == caller_rtp@,
            e.server_rtp_port == server_port,
    {
        CallStartedEvent {
            event_type: "call.started".to_owned(),
            trace_id: call_id.to_owned(),
            call_id: call_id.to_owned(),
            from_uri: from.to_owned(),
            to_uri: to.to_owned(),
            caller_rtp_addr: caller_rtp.to_owned(),
            server_rtp_port: server_port,
        }
    }

    /// `call.answered`: the call `call_id` was answered; the payload names the call.
    pub fn publish_call_answered(&self, call_id: &str) -> (e: GenericEvent)
        ensures
            e.event_type@ == "call.answered"@,
            e.trace_id@ == call_id@,
            e.tenant_id == self.tenant_id,
            e.payload_json@ == json_string_object(call_id_key(), call_id@),
            json_string_member(e.payload_json@, call_id_key()) == Some(call_id@),
    {
        GenericEvent {
            event_type: "call.answered".to_owned(),
            trace_id: call_id.to_owned(),
            tenant_id: self.tenant_id.clone(),
            payload_json: call_payload(call_id),
        }
    }

    /// `call.ended`: the call `call_id` ended for `reason`.
    pub fn publish_call_ended(&self, call_id: &str, reason: &str) -> (e: CallEndedEvent)
        ensures
            e.event_type@ == "call.ended"@,
            e.trace_id@ == call_id@,
            e.call_id@ == call_id@,
            e.reason@ == reason@,
    {
        CallEndedEvent {
            event_type: "call.ended".to_owned(),
            trace_id: call_id.to_owned(),
            call_id: call_id.to_owned(),
            reason: reason.to_owned(),
        }
    }
}

} // verus!
