//! Envelopes: `{"v":1,"type":...,"payload":{...}}` JSON texts. The relay reads
//! three fields of them (`type`, `payload.connectionId`, `payload.browser`)
//! and builds the synthetic ones it emits itself.
use vstd::prelude::*;
use crate::focus::opt_string_view;
use crate::text::{digit_char, digits, push_digits};

verus! {

/// Whether a text parses as one JSON document.
pub uninterp spec fn is_json(s: Seq<char>) -> bool;

/// The top-level member `key` of a JSON text, when the text is an object
/// and that member is a string.
pub uninterp spec fn json_member_string(s: Seq<char>, key: Seq<char>) -> Option<Seq<char>>;

/// The member `key` of a JSON text's `payload` object, when it is a string.
pub uninterp spec fn json_payload_string(s: Seq<char>, key: Seq<char>) -> Option<Seq<char>>;

/// The member `key` of a JSON text's `payload` object, when it is an
/// integer that fits in an `i64`.
pub uninterp spec fn json_payload_int(s: Seq<char>, key: Seq<char>) -> Option<i64>;

/// The member `key` of a JSON text's `payload` is absent or `null`.
pub uninterp spec fn json_payload_blank(s: Seq<char>, key: Seq<char>) -> bool;

/// A JSON text has a `payload` member that is an object.
pub uninterp spec fn json_payload_is_object(s: Seq<char>) -> bool;

/// Relies on `serde_json::from_str` into a `Value`: whether a text parses
/// depends on the text alone.
#[verifier::external_body]
fn json_ok(text: &str) -> (r: bool)
    ensures
        r == is_json(text@),
{
    serde_json::from_str::<serde_json::Value>(text).is_ok()
}

/// Relies on `serde_json::from_str`, `Value::get` and `Value::as_str`: the
/// top-level string member `key`, which depends on the text alone.
#[verifier::external_body]
fn member_string(text: &str, key: &str) -> (r: Option<String>)
    ensures
        opt_string_view(r) == json_member_string(text@, key@),
{
    let v: serde_json::Value = serde_json::from_str(text).ok()?;
    v.get(key)?.as_str().map(|m| m.to_string())
}

/// Relies on `serde_json::from_str`, `Value::get` and `Value::as_str`: the
/// string member `key` of the `payload` object, which depends on the text
/// alone.
#[verifier::external_body]
fn payload_string(text: &str, key: &str) -> (r: Option<String>)
    ensures
        opt_string_view(r) == json_payload_string(text@, key@),
{
    let v: serde_json::Value = serde_json::from_str(text).ok()?;
    v.get("payload")?.get(key)?.as_str().map(|m| m.to_string())
}

/// Relies on `serde_json::from_str`, `Value::get` and `Value::as_i64`: the
/// integer member `key` of the `payload` object, which depends on the text
/// alone.
#[verifier::external_body]
fn payload_int(text: &str, key: &str) -> (r: Option<i64>)
    ensures
        r == json_payload_int(text@, key@),
{
    let v: serde_json::Value = serde_json::from_str(text).ok()?;
    v.get("payload")?.get(key)?.as_i64()
}

/// Relies on `serde_json::from_str`, `Value::get` and `Value::is_null`:
/// whether the member `key` of the `payload` is absent or `null`, which
/// depends on the text alone.
#[verifier::external_body]
fn payload_blank(text: &str, key: &str) -> (r: bool)
    ensures
        r == json_payload_blank(text@, key@),
{
    match serde_json::from_str::<serde_json::Value>(text) {
        Ok(v) => v.get("payload").and_then(|p| p.get(key)).map_or(true, |m| m.is_null()),
        Err(_) => true,
    }
}

/// Relies on `serde_json::from_str`, `Value::get` and `Value::is_object`:
/// whether the `payload` member is an object, which depends on the text
/// alone.
#[verifier::external_body]
fn payload_object(text: &str) -> (r: bool)
    ensures
        r == json_payload_is_object(text@),
{
    match serde_json::from_str::<serde_json::Value>(text) {
        Ok(v) => v.get("payload").map_or(false, |p| p.is_object()),
        Err(_) => false,
    }
}

/// How `serde_json` writes one character inside a string literal.
pub open spec fn json_escape(c: char) -> Seq<char> {
    if c == '"' {
        seq!['\\', '"']
    } else if c == '\\' {
        seq!['\\', '\\']
    } else if c == '\x08' {
        seq!['\\', 'b']
    } else if c == '\t' {
        seq!['\\', 't']
    } else if c == '\n' {
        seq!['\\', 'n']
    } else if c == '\x0c' {
        seq!['\\', 'f']
    } else if c == '\r' {
        seq!['\\', 'r']
    } else if (c as u32) < 0x20 {
        seq!['\\', 'u', '0', '0', digit_char((c as u32 / 16) as nat), digit_char((c as u32 % 16) as nat)]
    } else {
        seq![c]
    }
}

/// The characters of a text, each escaped as `serde_json` writes it.
pub open spec fn json_escaped(s: Seq<char>) -> Seq<char>
    decreases s.len(),
{
    if s.len() == 0 {
        Seq::empty()
    } else {
        json_escaped(s.drop_last()) + json_escape(s.last())
    }
}

/// The JSON string literal that stands for a text.
pub open spec fn json_quoted(s: Seq<char>) -> Seq<char> {
    seq!['"'] + json_escaped(s) + seq!['"']
}

/// Relies on `serde_json::to_string` on a `str`: the text in double quotes,
/// with `"` and `\` escaped, backspace, tab, line feed, form feed and
/// carriage return written as `\b \t \n \f \r`, other control characters
/// below U+0020 as `\u00xx` in lower-case hex, and every other character as
/// it is. Serialising a `str` does not fail.
#[verifier::external_body]
fn quote(s: &str) -> (r: String)
    ensures
        r@ == json_quoted(s@),
{
    serde_json::to_string(s).unwrap_or_default()
}

/// The three fields of an envelope that routing looks at.
#[derive(Debug, Clone)]
pub struct EnvelopeInfo {
    /// `type`, when it is a string.
    pub kind: Option<String>,
    /// `payload.connectionId`, when it is a string.
    pub connection_id: Option<String>,
    /// `payload.browser`, when it is a string.
    pub browser: Option<String>,
}

/// The spec-level value of the routing fields.
pub open spec fn info_view(i: EnvelopeInfo) -> (Option<Seq<char>>, Option<Seq<char>>, Option<Seq<char>>) {
    (opt_string_view(i.kind), opt_string_view(i.connection_id), opt_string_view(i.browser))
}

/// The routing fields of a text, when it is JSON.
pub open spec fn envelope_fields(s: Seq<char>) -> Option<(Option<Seq<char>>, Option<Seq<char>>, Option<Seq<char>>)> {
    if is_json(s) {
        Some(
            (
                json_member_string(s, "type"@),
                json_payload_string(s, "connectionId"@),
                json_payload_string(s, "browser"@),
            ),
        )
    } else {
        None
    }
}

/// Reads the routing fields of an envelope; `None` when the text is not JSON.
pub fn inspect(text: &str) -> (r: Option<EnvelopeInfo>)
    ensures
        match r {
            Some(i) => envelope_fields(text@) == Some(info_view(i)),
            None => envelope_fields(text@) is None,
        },
{
    if !json_ok(text) {
        return None;
    }
    Some(
        EnvelopeInfo {
            kind: member_string(text, "type"),
            connection_id: payload_string(text, "connectionId"),
            browser: payload_string(text, "browser"),
        },
    )
}

/// A payload field that must be a string: `Some(None)` when absent or
/// `null`, `Some(Some(v))` for a string, `None` (malformed) otherwise.
pub open spec fn string_field(s: Seq<char>, key: Seq<char>) -> Option<Option<Seq<char>>> {
    if json_payload_blank(s, key) {
        Some(None)
    } else {
        match json_payload_string(s, key) {
            Some(v) => Some(Some(v)),
            None => None,
        }
    }
}

/// The `windowId` field: absent or `null`, or an integer that fits in an
/// `i32`; anything else is malformed (`None`).
pub open spec fn window_id_field(s: Seq<char>) -> Option<Option<i32>> {
    if json_payload_blank(s, "windowId"@) {
        Some(None)
    } else {
        match json_payload_int(s, "windowId"@) {
            Some(n) => if i32::MIN <= n <= i32::MAX {
                Some(Some(n as i32))
            } else {
                None
            },
            None => None,
        }
    }
}

/// The spec-level value of a focus request.
pub open spec fn focus_view(p: crate::focus::FocusWindowPayload) -> (
    Option<i32>,
    Option<Seq<char>>,
    Option<Seq<char>>,
    Option<Seq<char>>,
    Option<Seq<char>>,
) {
    (
        p.window_id,
        opt_string_view(p.title),
        opt_string_view(p.url),
        opt_string_view(p.browser),
        opt_string_view(p.connection_id),
    )
}

/// The focus request a text's payload holds, or `None` when a field has
/// the wrong JSON type or `windowId` does not fit in an `i32`.
pub open spec fn focus_fields(s: Seq<char>) -> Option<
    (Option<i32>, Option<Seq<char>>, Option<Seq<char>>, Option<Seq<char>>, Option<Seq<char>>),
> {
    match (
        window_id_field(s),
        string_field(s, "title"@),
        string_field(s, "url"@),
        string_field(s, "browser"@),
        string_field(s, "connectionId"@),
    ) {
        (Some(w), Some(t), Some(u), Some(b), Some(c)) => Some((w, t, u, b, c)),
        _ => None,
    }
}

/// Reads one string field of the payload; `Err` when it is malformed.
fn read_string_field(text: &str, key: &str) -> (r: Result<Option<String>, ()>)
    ensures
        match r {
            Ok(v) => string_field(text@, key@) == Some(opt_string_view(v)),
            Err(_) => string_field(text@, key@) is None,
        },
{
    if payload_blank(text, key) {
        Ok(None)
    } else {
        match payload_string(text, key) {
            Some(v) => Ok(Some(v)),
            None => Err(()),
        }
    }
}

/// The payload of a `focus.window` control message, field by field; `None`
/// when a field has the wrong JSON type or `windowId` does not fit in an
/// `i32`. Members it does not know are ignored.
pub fn focus_payload(text: &str) -> (r: Option<crate::focus::FocusWindowPayload>)
    ensures
        match r {
            Some(p) => focus_fields(text@) == Some(focus_view(p)),
            None => focus_fields(text@) is None,
        },
{
    let window_id = if payload_blank(text, "windowId") {
        None
    } else {
        match payload_int(text, "windowId") {
            Some(n) => if i32::MIN as i64 <= n && n <= i32::MAX as i64 {
                Some(n as i32)
            } else {
                return None;
            },
            None => return None,
        }
    };
    let title = match read_string_field(text, "title") {
        Ok(v) => v,
        Err(_) => return None,
    };
    let url = match read_string_field(text, "url") {
        Ok(v) => v,
        Err(_) => return None,
    };
    let browser = match read_string_field(text, "browser") {
        Ok(v) => v,
        Err(_) => return None,
    };
    let connection_id = match read_string_field(text, "connectionId") {
        Ok(v) => v,
        Err(_) => return None,
    };
    Some(crate::focus::FocusWindowPayload { window_id, title, url, browser, connection_id })
}

/// What to do with a message read from the extension.
#[derive(Debug, Clone)]
pub enum Inbound {
    /// A `focus.window` control message: handled here, not relayed.
    Focus(crate::focus::FocusWindowPayload),
    /// Anything else: relayed to the desktop application.
    Relay,
}

/// The decision on an inbound message, from its `type` and its payload: a
/// `focus.window` message with a well-formed payload is handled, anything
/// else relayed.
pub fn control_decision(kind: Option<&str>, payload: Option<crate::focus::FocusWindowPayload>) -> (r: Inbound)
    ensures
        (kind matches Some(k) && k@ == "focus.window"@ && payload is Some) ==> (r matches Inbound::Focus(p)
            && payload == Some(p)),
        !(kind matches Some(k) && k@ == "focus.window"@ && payload is Some) ==> r is Relay,
{
    let is_focus = match kind {
        Some(k) => k.to_owned().eq(&String::from_str("focus.window")),
        None => false,
    };
    match payload {
        Some(p) => if is_focus {
            Inbound::Focus(p)
        } else {
            Inbound::Relay
        },
        None => Inbound::Relay,
    }
}

/// A text is a control message when it is JSON, its `type` is
/// `focus.window`, its `payload` is an object and every known field of the
/// payload has the right JSON type.
pub open spec fn is_control(s: Seq<char>) -> bool {
    is_json(s) && json_member_string(s, "type"@) == Some("focus.window"@) && json_payload_is_object(s)
        && focus_fields(s) is Some
}

/// Whether a text is a control message; anything else is relayed,
/// malformed control messages included.
pub fn classify_inbound(text: &str) -> (r: Inbound)
    ensures
        match r {
            Inbound::Focus(p) => is_control(text@) && focus_fields(text@) == Some(focus_view(p)),
            Inbound::Relay => !is_control(text@),
        },
{
    if !json_ok(text) {
        return Inbound::Relay;
    }
    let kind = member_string(text, "type");
    let payload = if payload_object(text) {
        focus_payload(text)
    } else {
        None
    };
    let kind_ref = match &kind {
        Some(k) => Some(k.as_str()),
        None => None,
    };
    control_decision(kind_ref, payload)
}

/// The kinds of synthetic envelopes that report a byte count.
#[derive(Debug, Clone, Copy, PartialEq, Eq, Structural)]
pub enum ByteEvent {
    /// A binary frame arrived and was discarded (`debug.binary`).
    Binary,
    /// A binary frame arrived where none is expected (`error.binary`).
    BinaryError,
    /// A ping arrived (`debug.ping`).
    Ping,
    /// A pong arrived (`debug.pong`).
    Pong,
}

/// The `type` of a byte-count envelope.
pub open spec fn byte_event_type(e: ByteEvent) -> Seq<char> {
    match e {
        ByteEvent::Binary => "debug.binary"@,
        ByteEvent::BinaryError => "error.binary"@,
        ByteEvent::Ping => "debug.ping"@,
        ByteEvent::Pong => "debug.pong"@,
    }
}

fn byte_event_type_text(e: ByteEvent) -> (r: &'static str)
    ensures
        r@ == byte_event_type(e),
{
    match e {
        ByteEvent::Binary => "debug.binary",
        ByteEvent::BinaryError => "error.binary",
        ByteEvent::Ping => "debug.ping",
        ByteEvent::Pong => "debug.pong",
    }
}

/// `{"payload":{"bytes":N},"type":T,"v":1}`.
pub open spec fn byte_event_text(e: ByteEvent, bytes: nat) -> Seq<char> {
    "{\"payload\":{\"bytes\":"@ + digits(bytes, 10) + "},\"type\":\""@ + byte_event_type(e)
        + "\",\"v\":1}"@
}

/// The envelope that reports `bytes` bytes of a binary frame, ping or pong.
pub fn byte_event(e: ByteEvent, bytes: usize) -> (r: String)
    ensures
        r@ == byte_event_text(e, bytes as nat),
{
    let mut out = String::from_str("{\"payload\":{\"bytes\":");
    push_digits(&mut out, bytes as u128, 10);
    out.append("},\"type\":\"");
    out.append(byte_event_type_text(e));
    out.append("\",\"v\":1}");
    out
}

/// A JSON value that may be `null`.
pub open spec fn or_null(v: Option<Seq<char>>) -> Seq<char> {
    match v {
        Some(t) => t,
        None => "null"@,
    }
}

/// `{"payload":{"code":C,"reason":R},"type":"debug.close","v":1}`, where an
/// empty reason counts as none.
pub open spec fn close_event_text(code: Option<u16>, reason: Option<Seq<char>>) -> Seq<char> {
    let c = match code {
        Some(n) => Some(digits(n as nat, 10)),
        None => None,
    };
    let r = match reason {
        Some(t) => if t.len() > 0 {
            Some(json_quoted(t))
        } else {
            None
        },
        None => None,
    };
    "{\"payload\":{\"code\":"@ + or_null(c) + ",\"reason\":"@ + or_null(r)
        + "},\"type\":\"debug.close\",\"v\":1}"@
}

/// The envelope that reports a close frame.
pub fn close_event(code: Option<u16>, reason: Option<&str>) -> (r: String)
    ensures
        r@ == close_event_text(code, crate::focus::opt_view(reason)),
{
    let mut out = String::from_str("{\"payload\":{\"code\":");
    match code {
        Some(n) => push_digits(&mut out, n as u128, 10),
        None => out.append("null"),
    }
    out.append(",\"reason\":");
    match reason {
        Some(t) => if t.unicode_len() > 0 {
            let q = quote(t);
            out.append(q.as_str());
        } else {
            out.append("null");
        },
        None => out.append("null"),
    }
    out.append("},\"type\":\"debug.close\",\"v\":1}");
    out
}

/// The presence envelope a relay client sends when it comes online.
pub open spec fn presence_online_text(connection_id: Seq<char>, browser: Seq<char>, timestamp: nat) -> Seq<char> {
    "{\"payload\":{\"browser\":"@ + json_quoted(browser) + ",\"connectionId\":"@ + json_quoted(
        connection_id,
    ) + ",\"sidecar\":\"online\",\"timestamp\":"@ + digits(timestamp, 10)
        + "},\"type\":\"presence.status\",\"v\":1}"@
}

/// Builds the presence envelope announcing that a connection is online.
pub fn presence_online(connection_id: &str, browser: &str, timestamp: u128) -> (r: String)
    ensures
        r@ == presence_online_text(connection_id@, browser@, timestamp as nat),
{
    let mut out = String::from_str("{\"payload\":{\"browser\":");
    let b = quote(browser);
    out.append(b.as_str());
    out.append(",\"connectionId\":");
    let c = quote(connection_id);
    out.append(c.as_str());
    out.append(",\"sidecar\":\"online\",\"timestamp\":");
    push_digits(&mut out, timestamp, 10);
    out.append("},\"type\":\"presence.status\",\"v\":1}");
    out
}

/// The presence envelope the desktop side emits when a connection goes away.
pub open spec fn presence_offline_text(connection_id: Seq<char>, browser: Option<Seq<char>>) -> Seq<char> {
    let b = match browser {
        Some(t) => Some(json_quoted(t)),
        None => None,
    };
    "{\"payload\":{\"browser\":"@ + or_null(b) + ",\"connectionId\":"@ + json_quoted(connection_id)
        + ",\"sidecar\":\"offline\"},\"type\":\"presence.status\",\"v\":1}"@
}

/// Builds the presence envelope announcing that a connection went offline.
pub fn presence_offline(connection_id: &str, browser: Option<&str>) -> (r: String)
    ensures
        r@ == presence_offline_text(connection_id@, crate::focus::opt_view(browser)),
{
    let mut out = String::from_str("{\"payload\":{\"browser\":");
    match browser {
        Some(t) => {
            let q = quote(t);
            out.append(q.as_str());
        },
        None => out.append("null"),
    }
    out.append(",\"connectionId\":");
    let c = quote(connection_id);
    out.append(c.as_str());
    out.append(",\"sidecar\":\"offline\"},\"type\":\"presence.status\",\"v\":1}");
    out
}

} // verus!
