//! Trusted boundary to the outside crates the protocol layer leans on:
//! serde_json for JSON parsing, uuid for request ids, chrono for timestamps.
//!
//! Every item here is believed, not proved; each doc comment names the
//! outside function relied on.

use vstd::prelude::*;

verus! {

#[verifier::external_type_specification]
#[verifier::external_body]
pub struct ExValue(serde_json::Value);

/// Whether serde_json accepts this character run as one JSON document; the
/// verdict is a function of the text alone.
pub uninterp spec fn json_text_accepted(s: Seq<char>) -> bool;

/// Relies on serde_json::from_str: parsing succeeds exactly on the texts
/// that serde_json accepts as a JSON document, by the text alone.
#[verifier::external_body]
pub fn json_accepts(s: &str) -> (r: bool)
    ensures
        r == json_text_accepted(s@),
{
    serde_json::from_str::<serde_json::Value>(s).is_ok()
}

/// Relies on serde_json::Value::get: looks a key up in a JSON object.
#[verifier::external_body]
pub fn json_get<'a>(v: &'a serde_json::Value, key: &str) -> Option<&'a serde_json::Value> {
    v.get(key)
}

/// Relies on serde_json::Value::as_str: the payload of a JSON string value.
#[verifier::external_body]
pub fn json_as_string(v: &serde_json::Value) -> Option<String> {
    v.as_str().map(|s| s.to_string())
}

/// Relies on serde_json::Value::as_u64: a JSON number as an unsigned
/// integer, when it is one.
#[verifier::external_body]
pub fn json_as_u64(v: &serde_json::Value) -> Option<u64> {
    v.as_u64()
}

/// Relies on serde_json::Value::as_i64: a JSON number as a signed integer,
/// when it is one.
#[verifier::external_body]
pub fn json_as_i64(v: &serde_json::Value) -> Option<i64> {
    v.as_i64()
}

/// Relies on serde_json::Value::as_bool: the payload of a JSON boolean.
#[verifier::external_body]
pub fn json_as_bool(v: &serde_json::Value) -> Option<bool> {
    v.as_bool()
}


/// The `type` field of a frame payload, when the payload is a JSON object
/// with a string there; a function of the bytes alone.
pub uninterp spec fn frame_type_of(data: Seq<u8>) -> Option<Seq<char>>;

/// Relies on serde_json (from_slice, Value::get, Value::as_str): reads the
/// payload's `type` field.
#[verifier::external_body]
pub fn read_frame_type(data: &[u8]) -> (r: Option<String>)
    ensures
        match r {
            Some(s) => frame_type_of(data@) == Some(s@),
            None => frame_type_of(data@) is None,
        },
{
    serde_json::from_slice::<serde_json::Value>(data).ok().as_ref().and_then(|v| v.get("type")).and_then(|t| t.as_str()).map(|s| s.to_string())
}

/// The `index` field of a frame payload, as an unsigned integer.
pub uninterp spec fn frame_index_of(data: Seq<u8>) -> Option<u64>;

/// Relies on serde_json (from_slice, Value::get, Value::as_u64): reads the
/// payload's `index` field.
#[verifier::external_body]
pub fn read_frame_index(data: &[u8]) -> (r: Option<u64>)
    ensures
        r == frame_index_of(data@),
{
    serde_json::from_slice::<serde_json::Value>(data).ok().as_ref().and_then(|v| v.get("index")).and_then(|t| t.as_u64())
}

/// The `content_block.type` field of a frame payload.
pub uninterp spec fn block_kind_of(data: Seq<u8>) -> Option<Seq<char>>;

/// Relies on serde_json: reads the payload's `content_block.type` field.
#[verifier::external_body]
pub fn read_block_kind(data: &[u8]) -> (r: Option<String>)
    ensures
        match r {
            Some(s) => block_kind_of(data@) == Some(s@),
            None => block_kind_of(data@) is None,
        },
{
    serde_json::from_slice::<serde_json::Value>(data).ok().as_ref().and_then(|v| v.get("content_block")).and_then(|b| b.get("type")).and_then(|t| t.as_str()).map(|s| s.to_string())
}

/// The `content_block.id` field of a frame payload.
pub uninterp spec fn block_id_of(data: Seq<u8>) -> Option<Seq<char>>;

/// Relies on serde_json: reads the payload's `content_block.id` field.
#[verifier::external_body]
pub fn read_block_id(data: &[u8]) -> (r: Option<String>)
    ensures
        match r {
            Some(s) => block_id_of(data@) == Some(s@),
            None => block_id_of(data@) is None,
        },
{
    serde_json::from_slice::<serde_json::Value>(data).ok().as_ref().and_then(|v| v.get("content_block")).and_then(|b| b.get("id")).and_then(|t| t.as_str()).map(|s| s.to_string())
}

/// The `content_block.name` field of a frame payload.
pub uninterp spec fn block_name_of(data: Seq<u8>) -> Option<Seq<char>>;

/// Relies on serde_json: reads the payload's `content_block.name` field.
#[verifier::external_body]
pub fn read_block_name(data: &[u8]) -> (r: Option<String>)
    ensures
        match r {
            Some(s) => block_name_of(data@) == Some(s@),
            None => block_name_of(data@) is None,
        },
{
    serde_json::from_slice::<serde_json::Value>(data).ok().as_ref().and_then(|v| v.get("content_block")).and_then(|b| b.get("name")).and_then(|t| t.as_str()).map(|s| s.to_string())
}

/// The `delta.type` field of a frame payload.
pub uninterp spec fn delta_kind_of(data: Seq<u8>) -> Option<Seq<char>>;

/// Relies on serde_json: reads the payload's `delta.type` field.
#[verifier::external_body]
pub fn read_delta_kind(data: &[u8]) -> (r: Option<String>)
    ensures
        match r {
            Some(s) => delta_kind_of(data@) == Some(s@),
            None => delta_kind_of(data@) is None,
        },
{
    serde_json::from_slice::<serde_json::Value>(data).ok().as_ref().and_then(|v| v.get("delta")).and_then(|d| d.get("type")).and_then(|t| t.as_str()).map(|s| s.to_string())
}

/// The `delta.text` field of a frame payload.
pub uninterp spec fn delta_text_of(data: Seq<u8>) -> Option<Seq<char>>;

/// Relies on serde_json: reads the payload's `delta.text` field.
#[verifier::external_body]
pub fn read_delta_text(data: &[u8]) -> (r: Option<String>)
    ensures
        match r {
            Some(s) => delta_text_of(data@) == Some(s@),
            None => delta_text_of(data@) is None,
        },
{
    serde_json::from_slice::<serde_json::Value>(data).ok().as_ref().and_then(|v| v.get("delta")).and_then(|d| d.get("text")).and_then(|t| t.as_str()).map(|s| s.to_string())
}

/// The `delta.thinking` field of a frame payload.
pub uninterp spec fn delta_thinking_of(data: Seq<u8>) -> Option<Seq<char>>;

/// Relies on serde_json: reads the payload's `delta.thinking` field.
#[verifier::external_body]
pub fn read_delta_thinking(data: &[u8]) -> (r: Option<String>)
    ensures
        match r {
            Some(s) => delta_thinking_of(data@) == Some(s@),
            None => delta_thinking_of(data@) is None,
        },
{
    serde_json::from_slice::<serde_json::Value>(data).ok().as_ref().and_then(|v| v.get("delta")).and_then(|d| d.get("thinking")).and_then(|t| t.as_str()).map(|s| s.to_string())
}

/// The `delta.partial_json` field of a frame payload.
pub uninterp spec fn delta_partial_json_of(data: Seq<u8>) -> Option<Seq<char>>;

/// Relies on serde_json: reads the payload's `delta.partial_json` field.
#[verifier::external_body]
pub fn read_delta_partial_json(data: &[u8]) -> (r: Option<String>)
    ensures
        match r {
            Some(s) => delta_partial_json_of(data@) == Some(s@),
            None => delta_partial_json_of(data@) is None,
        },
{
    serde_json::from_slice::<serde_json::Value>(data).ok().as_ref().and_then(|v| v.get("delta")).and_then(|d| d.get("partial_json")).and_then(|t| t.as_str()).map(|s| s.to_string())
}

/// The `delta.stop_reason` field of a frame payload.
pub uninterp spec fn stop_reason_of(data: Seq<u8>) -> Option<Seq<char>>;

/// Relies on serde_json: reads the payload's `delta.stop_reason` field.
#[verifier::external_body]
pub fn read_stop_reason(data: &[u8]) -> (r: Option<String>)
    ensures
        match r {
            Some(s) => stop_reason_of(data@) == Some(s@),
            None => stop_reason_of(data@) is None,
        },
{
    serde_json::from_slice::<serde_json::Value>(data).ok().as_ref().and_then(|v| v.get("delta")).and_then(|d| d.get("stop_reason")).and_then(|t| t.as_str()).map(|s| s.to_string())
}

/// The `message.usage.input_tokens` counter of a frame payload.
pub uninterp spec fn input_tokens_of(data: Seq<u8>) -> Option<u64>;

/// Relies on serde_json: reads the payload's `message.usage.input_tokens`
/// counter.
#[verifier::external_body]
pub fn read_input_tokens(data: &[u8]) -> (r: Option<u64>)
    ensures
        r == input_tokens_of(data@),
{
    serde_json::from_slice::<serde_json::Value>(data).ok().as_ref().and_then(|v| v.get("message")).and_then(|m| m.get("usage")).and_then(|u| u.get("input_tokens")).and_then(|t| t.as_u64())
}

/// The `usage.output_tokens` counter of a frame payload.
pub uninterp spec fn output_tokens_of(data: Seq<u8>) -> Option<u64>;

/// Relies on serde_json: reads the payload's `usage.output_tokens` counter.
#[verifier::external_body]
pub fn read_output_tokens(data: &[u8]) -> (r: Option<u64>)
    ensures
        r == output_tokens_of(data@),
{
    serde_json::from_slice::<serde_json::Value>(data).ok().as_ref().and_then(|v| v.get("usage")).and_then(|u| u.get("output_tokens")).and_then(|t| t.as_u64())
}

/// The `error.message` field of a frame payload.
pub uninterp spec fn error_message_of(data: Seq<u8>) -> Option<Seq<char>>;

/// Relies on serde_json: reads the payload's `error.message` field.
#[verifier::external_body]
pub fn read_error_message(data: &[u8]) -> (r: Option<String>)
    ensures
        match r {
            Some(s) => error_message_of(data@) == Some(s@),
            None => error_message_of(data@) is None,
        },
{
    serde_json::from_slice::<serde_json::Value>(data).ok().as_ref().and_then(|v| v.get("error")).and_then(|e| e.get("message")).and_then(|t| t.as_str()).map(|s| s.to_string())
}

/// Relies on uuid::Uuid::new_v4 and its hyphenated rendering: a fresh,
/// effectively collision-free request id, 36 characters long.
#[verifier::external_body]
pub fn fresh_request_id() -> (r: String)
    ensures
        r@.len() == 36,
{
    uuid::Uuid::new_v4().to_string()
}

/// Relies on chrono::Utc::now: the current instant rendered RFC 3339.
/// Nothing is promised of the value; callers hold for every outcome.
#[verifier::external_body]
pub fn now_rfc3339() -> String {
    chrono::Utc::now().to_rfc3339()
}

/// Relies on chrono::Utc::now: the current instant in Unix milliseconds.
/// Nothing is promised of the value; callers hold for every outcome.
#[verifier::external_body]
pub fn now_millis() -> i64 {
    chrono::Utc::now().timestamp_millis()
}

} // verus!
