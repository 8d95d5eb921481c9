//! Trusted boundary to the JSON library.  A `serde_json::Value` is opaque
//! to the verifier: the relay carries payloads through without looking
//! inside.  What the protocol itself reads from an inbound frame — the
//! envelope's type string and the two payload parts it acts on — is
//! extracted here and named as a function of the frame text, so the
//! verified decoder can state exactly when decoding succeeds and what
//! the plain-valued parts of its result are.

use vstd::prelude::*;

verus! {

#[verifier::external_type_specification]
#[verifier::external_body]
pub struct ExValue(serde_json::Value);

/// Whether the text is an acceptable command envelope: it parses as a
/// JSON document with a string `type` field and a `payload` field, and
/// its `date` and `clientId` fields, where present, are strings.
pub uninterp spec fn envelope_ok(s: Seq<char>) -> bool;

/// The envelope's `type` string, on texts where `envelope_ok` holds.
pub uninterp spec fn envelope_type(s: Seq<char>) -> Seq<char>;

/// The client id offered in the payload's `clientId` field, when the
/// payload is an object with a string under that key.
pub uninterp spec fn envelope_intro_id(s: Seq<char>) -> Option<Seq<char>>;

/// The string elements of the payload's `paths` array, in order, when
/// the payload is an object with an array under that key; non-string
/// elements are skipped.
pub uninterp spec fn envelope_paths(s: Seq<char>) -> Seq<Seq<char>>;

/// The envelope of an inbound frame, with its plain-valued fields read
/// out and its payload kept opaque.
pub struct EnvelopeHead {
    pub kind: String,
    pub payload: serde_json::Value,
    pub important: Option<serde_json::Value>,
    pub date: Option<String>,
    pub delta_time: Option<serde_json::Value>,
    pub client_id: Option<String>,
}

/// Relies on serde_json::from_str::<Value>, Value::get and Value::as_str:
/// parses the frame text and reads the envelope fields.  Succeeds, as a
/// function of the text alone, exactly when `envelope_ok` describes:
/// `type` must be a string, `payload` must be present, and a present
/// `date` or `clientId` must be a string; `important` and `deltaTime`
/// are carried as opaque values.
#[verifier::external_body]
pub fn read_envelope(text: &str) -> (r: Option<EnvelopeHead>)
    ensures
        r is Some <==> envelope_ok(text@),
        r matches Some(h) ==> h.kind@ == envelope_type(text@),
{
    let v: serde_json::Value = serde_json::from_str(text).ok()?;
    let kind = v.get("type")?.as_str()?.to_owned();
    let payload = v.get("payload")?.clone();
    let date = match v.get("date") {
        Some(d) => Some(d.as_str()?.to_owned()),
        None => None,
    };
    let client_id = match v.get("clientId") {
        Some(c) => Some(c.as_str()?.to_owned()),
        None => None,
    };
    let important = v.get("important").cloned();
    let delta_time = v.get("deltaTime").cloned();
    Some(EnvelopeHead { kind, payload, important, date, delta_time, client_id })
}

/// Relies on serde_json::from_str::<Value>, Value::get, Value::as_str and
/// Value::as_array: reads the two payload parts the protocol acts on —
/// the offered client id and the subscription path list — as functions
/// of the frame text alone.  Absent, non-object or wrongly-typed parts
/// come back as None and the empty list.
#[verifier::external_body]
pub fn read_payload_parts(text: &str) -> (r: (Option<String>, Vec<String>))
    ensures
        r.0.deep_view() == envelope_intro_id(text@),
        r.1.deep_view() == envelope_paths(text@),
{
    let p = serde_json::from_str::<serde_json::Value>(text).ok().and_then(|v| v.get("payload").cloned());
    let intro = p.as_ref().and_then(|v| v.get("clientId")).and_then(|c| c.as_str()).map(str::to_owned);
    let paths = match p.as_ref().and_then(|v| v.get("paths")).and_then(|a| a.as_array()) {
        Some(a) => a.iter().filter_map(|e| e.as_str().map(str::to_owned)).collect(),
        None => Vec::new(),
    };
    (intro, paths)
}

/// Relies on serde_json::Value's Clone: the copy equals the original.
pub assume_specification[ <serde_json::Value as Clone>::clone ](v: &serde_json::Value) -> (r:
    serde_json::Value)
    ensures
        r == *v,
;

/// Relies on serde_json::Value's Display: renders the value as compact
/// JSON text.
#[verifier::external_body]
pub fn render_value(v: &serde_json::Value) -> (r: String) {
    v.to_string()
}

/// Relies on serde_json::Value::String: wraps a string as a JSON value.
#[verifier::external_body]
pub fn string_value(s: String) -> (r: serde_json::Value) {
    serde_json::Value::String(s)
}

} // verus!
