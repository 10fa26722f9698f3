//! The opaque JSON boundary.
//!
//! JSON encoding and decoding is not this crate's logic: it is delegated to
//! `serde_json` behind the two trusted functions below.  What each returns is
//! a pure function of its argument, far too large to state, so it is given a
//! name; the router's contracts speak of the names, and the verified logic
//! takes the parsed parts as plain values.

use vstd::prelude::*;

verus! {

/// What `decode_envelope` splits an event envelope into: the wire action
/// name and the payload re-serialised on its own, or nothing when the text
/// is not an envelope.
pub uninterp spec fn envelope_of(s: Seq<char>) -> Option<(Seq<char>, Seq<char>)>;

/// What `parse_completion_payload` extracts from a completion payload: the
/// numeric request id under `"requestId"`, the result value under `"data"`
/// re-serialised on its own, and the error text under `"error"`.
pub uninterp spec fn completion_parts_of(s: Seq<char>) -> (
    Option<u64>,
    Option<Seq<char>>,
    Option<Seq<char>>,
);

/// The numeric request id carried by a completion payload, if any.
pub open spec fn completion_request_id(s: Seq<char>) -> Option<u64> {
    completion_parts_of(s).0
}

/// The result value carried by a completion payload, if any.
pub open spec fn completion_value_of(s: Seq<char>) -> Option<Seq<char>> {
    completion_parts_of(s).1
}

/// The error text carried by a completion payload, if any.
pub open spec fn completion_error_of(s: Seq<char>) -> Option<Seq<char>> {
    completion_parts_of(s).2
}

/// A decoded native event envelope: the wire action name and the payload as
/// JSON text.
pub struct Envelope {
    pub action: String,
    pub payload: String,
}

/// Relies on `serde_json::from_str`, `serde_json::Value::get`,
/// `serde_json::Value::as_str` and `serde_json::to_string`: splits an event
/// envelope `{"action": ..., "payload": ...}` into its action name and its
/// payload serialised on its own (`null` when the payload is absent), and
/// yields nothing for text that is not such an envelope.
#[verifier::external_body]
pub fn decode_envelope(event_json: &str) -> (r: Option<Envelope>)
    ensures
        match r {
            Some(e) => envelope_of(event_json@) == Some((e.action@, e.payload@)),
            None => envelope_of(event_json@) is None,
        },
{
    let v: serde_json::Value = serde_json::from_str(event_json).ok()?;
    let action = v.get("action")?.as_str()?.to_string();
    let payload = match v.get("payload") {
        Some(p) => serde_json::to_string(p).ok()?,
        None => "null".to_string(),
    };
    Some(Envelope { action, payload })
}

/// Relies on `serde_json::from_str`, `serde_json::Value::get`,
/// `serde_json::Value::as_u64`, `serde_json::Value::as_str` and
/// `serde_json::to_string`: reads the `"requestId"`, `"data"` and `"error"`
/// fields of a completion payload, each absent when missing or of the wrong
/// shape.
#[verifier::external_body]
pub fn parse_completion_payload(payload: &str) -> (r: (Option<u64>, Option<String>, Option<String>))
    ensures
        r.0 == completion_parts_of(payload@).0,
        match r.1 {
            Some(v) => completion_parts_of(payload@).1 == Some(v@),
            None => completion_parts_of(payload@).1 is None,
        },
        match r.2 {
            Some(e) => completion_parts_of(payload@).2 == Some(e@),
            None => completion_parts_of(payload@).2 is None,
        },
{
    let v: serde_json::Value = match serde_json::from_str(payload) {
        Ok(v) => v,
        Err(_) => return (None, None, None),
    };
    let id = v.get("requestId").and_then(|x| x.as_u64());
    let value = v.get("data").and_then(|d| serde_json::to_string(d).ok());
    let error = v.get("error").and_then(|e| e.as_str()).map(|s| s.to_string());
    (id, value, error)
}

} // verus!
