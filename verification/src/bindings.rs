//! Calls into std and outside crates whose behaviour Verus takes from these contracts.
use std::collections::hash_map::DefaultHasher;
use std::hash::Hash;
use std::time::{Duration, SystemTime, UNIX_EPOCH};
use vstd::prelude::*;

use crate::desktop::session_bundle::JsonShape;
use crate::text::opt_view;

verus! {

/// The write log of a `DefaultHasher` after `<str as Hash>::hash` fed it `s`.
pub uninterp spec fn hasher_after_str(writes: Seq<Seq<u8>>, s: Seq<char>) -> Seq<Seq<u8>>;

/// Feeds a string to the hasher with `<str as Hash>::hash`. The contract claims
/// only that the hasher's new write log is determined by its old log and by `s`;
/// which bytes std writes for a string is left unsaid.
#[verifier::external_body]
pub(crate) fn hash_str_into(hasher: &mut DefaultHasher, s: &str)
    ensures
        final(hasher)@ == hasher_after_str(old(hasher)@, s@),
{
    s.hash(hasher);
}

/// What `reqwest::Url::parse` yields for a text, taken apart into plain values:
/// `None` when parsing fails, else the URL's `host_str()` and `path()`.
pub uninterp spec fn url_parts(input: Seq<char>) -> Option<(Option<Seq<char>>, Seq<char>)>;

/// The view of the plain parts handed back by `parse_url_parts`.
pub open spec fn url_parts_view(parts: Option<(Option<String>, String)>) -> Option<(Option<Seq<char>>, Seq<char>)> {
    match parts {
        Some((host, path)) => Some((opt_view(host), path@)),
        None => None,
    }
}

/// Calls `reqwest::Url::parse` and hands back the host (`host_str`) and the path
/// (`path`) of the parsed URL. The contract claims that the result is a function
/// of the input text; the URL grammar itself is left to the outside crate.
#[verifier::external_body]
pub(crate) fn parse_url_parts(input: &str) -> (parts: Option<(Option<String>, String)>)
    ensures
        url_parts_view(parts) == url_parts(input@),
{
    match reqwest::Url::parse(input) {
        Ok(url) => Some((url.host_str().map(|host| host.to_string()), url.path().to_string())),
        Err(_) => None,
    }
}

/// What `str::to_lowercase` yields: the Unicode lowercase mapping of the text.
pub uninterp spec fn unicode_lowercase(s: Seq<char>) -> Seq<char>;

/// `str::to_lowercase`. The contract claims that the result is determined by the
/// text; the Unicode case tables themselves are left to std.
#[verifier::external_body]
pub(crate) fn to_lowercase(s: &str) -> (lower: String)
    ensures
        lower@ == unicode_lowercase(s@),
{
    s.to_lowercase()
}

/// The system clock's reading, `std::time::SystemTime`, carried through as an
/// opaque value.
#[verifier::external_type_specification]
#[verifier::external_body]
pub struct ExSystemTime(std::time::SystemTime);

/// `SystemTime::now`. Nothing is claimed of the reading: it depends on the
/// time of the call.
#[verifier::external_body]
pub(crate) fn system_time_now() -> SystemTime {
    SystemTime::now()
}

/// `SystemTime::duration_since(UNIX_EPOCH)`, with `None` for the
/// `SystemTimeError` of a reading before the epoch. Nothing is claimed of
/// which of the two a reading gives.
#[verifier::external_body]
pub(crate) fn since_unix_epoch(reading: &SystemTime) -> Option<Duration> {
    match reading.duration_since(UNIX_EPOCH) {
        Ok(elapsed) => Some(elapsed),
        Err(_) => None,
    }
}

/// `Duration::as_secs`: the whole seconds of a span. Nothing is claimed of
/// the number, as the span itself is opaque here.
#[verifier::external_body]
pub(crate) fn whole_seconds(span: &Duration) -> u64 {
    span.as_secs()
}


/// The canonical reason phrase `http::StatusCode::canonical_reason` gives a
/// status code, `None` for codes it has no phrase for.
pub uninterp spec fn canonical_reason_of(code: u16) -> Option<Seq<char>>;

/// The canonical reason phrase of an HTTP status code, through
/// `reqwest::StatusCode::from_u16` and `canonical_reason`. `from_u16` accepts
/// exactly the codes 100 to 999, which `requires` asks for; the contract claims
/// that the phrase is a function of the code, the IANA table itself is left to
/// the outside crate.
#[verifier::external_body]
pub(crate) fn status_canonical_reason(code: u16) -> (reason: Option<String>)
    requires
        100 <= code <= 999,
    ensures
        opt_view(reason) == canonical_reason_of(code),
{
    match reqwest::StatusCode::from_u16(code) {
        Ok(status) => status.canonical_reason().map(|phrase| phrase.to_string()),
        Err(_) => None,
    }
}

/// What `serde_json::from_str::<serde_json::Value>` makes of a text, reduced
/// to its shape: `None` where the text is not JSON.
pub uninterp spec fn json_text_shape(text: Seq<char>) -> Option<JsonShape>;

/// Parses a text with `serde_json::from_str` into a `serde_json::Value` and
/// hands back its shape: the number of entries of an array or an object, null,
/// or another value. The contract claims that the shape is a function of the
/// text; the JSON grammar itself is left to the outside crate.
#[verifier::external_body]
pub(crate) fn parse_json_shape(text: &str) -> (shape: Option<JsonShape>)
    ensures
        shape == json_text_shape(text@),
{
    match serde_json::from_str::<serde_json::Value>(text) {
        Ok(serde_json::Value::Array(items)) => Some(JsonShape::Array { len: items.len() }),
        Ok(serde_json::Value::Object(entries)) => Some(JsonShape::Object { len: entries.len() }),
        Ok(serde_json::Value::Null) => Some(JsonShape::Null),
        Ok(_) => Some(JsonShape::Scalar),
        Err(_) => None,
    }
}

/// The text at a JSON pointer of a JSON text: `serde_json::from_str` into a
/// `serde_json::Value`, then `Value::pointer` and `Value::as_str`; `None`
/// where the text is not JSON, the pointer reaches nothing or no string.
pub uninterp spec fn json_text_str_at(text: Seq<char>, pointer: Seq<char>) -> Option<Seq<char>>;

/// Reads the string at `pointer` of the JSON text `text`. The contract claims
/// that the result is a function of the text and the pointer; the JSON
/// grammar and pointer syntax are left to `serde_json`.
#[verifier::external_body]
pub(crate) fn json_str_at(text: &str, pointer: &str) -> (r: Option<String>)
    ensures
        opt_view(r) == json_text_str_at(text@, pointer@),
{
    let value = serde_json::from_str::<serde_json::Value>(text).ok()?;
    value.pointer(pointer)?.as_str().map(|found| found.to_string())
}

/// The integer at a JSON pointer of a JSON text (`Value::as_i64`).
pub uninterp spec fn json_text_i64_at(text: Seq<char>, pointer: Seq<char>) -> Option<i64>;

/// Reads the `i64` at `pointer` of the JSON text `text`; the contract claims
/// only that it is a function of the text and the pointer.
#[verifier::external_body]
pub(crate) fn json_i64_at(text: &str, pointer: &str) -> (r: Option<i64>)
    ensures
        r == json_text_i64_at(text@, pointer@),
{
    let value = serde_json::from_str::<serde_json::Value>(text).ok()?;
    value.pointer(pointer)?.as_i64()
}

/// The flag at a JSON pointer of a JSON text (`Value::as_bool`).
pub uninterp spec fn json_text_bool_at(text: Seq<char>, pointer: Seq<char>) -> Option<bool>;

/// Reads the flag at `pointer` of the JSON text `text`; the contract claims
/// only that it is a function of the text and the pointer.
#[verifier::external_body]
pub(crate) fn json_bool_at(text: &str, pointer: &str) -> (r: Option<bool>)
    ensures
        r == json_text_bool_at(text@, pointer@),
{
    let value = serde_json::from_str::<serde_json::Value>(text).ok()?;
    value.pointer(pointer)?.as_bool()
}

/// Whether a JSON pointer reaches a value of a JSON text (`Value::pointer`).
pub uninterp spec fn json_text_has(text: Seq<char>, pointer: Seq<char>) -> bool;

/// Whether `pointer` reaches a value, of any kind, in the JSON text `text`
/// (never where the text is not JSON); a function of the text and pointer.
#[verifier::external_body]
pub(crate) fn json_has_at(text: &str, pointer: &str) -> (r: bool)
    ensures
        r == json_text_has(text@, pointer@),
{
    match serde_json::from_str::<serde_json::Value>(text) {
        Ok(value) => value.pointer(pointer).is_some(),
        Err(_) => false,
    }
}

/// The length of the list at a JSON pointer of a JSON text
/// (`Value::as_array`).
pub uninterp spec fn json_text_list_len_at(text: Seq<char>, pointer: Seq<char>) -> Option<usize>;

/// Reads the number of entries of the list at `pointer` of the JSON text
/// `text`, `None` where it holds no list; a function of the text and pointer.
#[verifier::external_body]
pub(crate) fn json_list_len_at(text: &str, pointer: &str) -> (r: Option<usize>)
    ensures
        r == json_text_list_len_at(text@, pointer@),
{
    let value = serde_json::from_str::<serde_json::Value>(text).ok()?;
    value.pointer(pointer)?.as_array().map(|items| items.len())
}

/// The number at a JSON pointer of a JSON text (`Value::as_f64`), written
/// with two decimals.
pub uninterp spec fn json_text_number_2dp_at(text: Seq<char>, pointer: Seq<char>) -> Option<Seq<char>>;

/// Reads the number at `pointer` of the JSON text `text` as `f64` and writes
/// it with two decimals (`format!("{:.2}")`); a function of the text and
/// pointer. The float stays inside this call.
#[verifier::external_body]
pub(crate) fn json_number_2dp_at(text: &str, pointer: &str) -> (r: Option<String>)
    ensures
        opt_view(r) == json_text_number_2dp_at(text@, pointer@),
{
    let value = serde_json::from_str::<serde_json::Value>(text).ok()?;
    value.pointer(pointer)?.as_f64().map(|number| format!("{number:.2}"))
}

/// What `Value::pointer` reaches in a JSON text, reduced to its shape; `None`
/// where the text is not JSON or the pointer reaches nothing.
pub uninterp spec fn json_text_shape_at(text: Seq<char>, pointer: Seq<char>) -> Option<JsonShape>;

/// Parses a text with `serde_json::from_str`, follows `pointer` with
/// `Value::pointer` and hands back the shape of what it reaches, as
/// `parse_json_shape` does for the whole text. The contract claims that the
/// shape is a function of the text and the pointer.
#[verifier::external_body]
pub(crate) fn json_shape_at(text: &str, pointer: &str) -> (shape: Option<JsonShape>)
    ensures
        shape == json_text_shape_at(text@, pointer@),
{
    let value = serde_json::from_str::<serde_json::Value>(text).ok()?;
    match value.pointer(pointer)? {
        serde_json::Value::Array(items) => Some(JsonShape::Array { len: items.len() }),
        serde_json::Value::Object(entries) => Some(JsonShape::Object { len: entries.len() }),
        serde_json::Value::Null => Some(JsonShape::Null),
        _ => Some(JsonShape::Scalar),
    }
}

/// The JSON text of the value at a JSON pointer of a JSON text, as
/// `Value`'s `Display` writes it.
pub uninterp spec fn json_text_value_text_at(text: Seq<char>, pointer: Seq<char>) -> Option<Seq<char>>;

/// Reads the value at `pointer` of the JSON text `text` and writes it back as
/// compact JSON text (`Value::to_string`); `None` where the text is not JSON
/// or the pointer reaches nothing. The contract claims only that the result
/// is a function of the text and the pointer.
#[verifier::external_body]
pub(crate) fn json_value_text_at(text: &str, pointer: &str) -> (r: Option<String>)
    ensures
        opt_view(r) == json_text_value_text_at(text@, pointer@),
{
    let value = serde_json::from_str::<serde_json::Value>(text).ok()?;
    value.pointer(pointer).map(|found| found.to_string())
}

/// What `serde_json::from_str::<serde_json::Value>` makes of a text, written
/// back as compact JSON text, or the parse error's message.
pub uninterp spec fn json_text_canonical(text: Seq<char>) -> Result<Seq<char>, Seq<char>>;

/// Parses a text with `serde_json::from_str` into a `serde_json::Value` and
/// writes it back with `Value`'s `Display`; where the text is not JSON, the
/// message of the `serde_json::Error` (its `Display`). The contract claims
/// only that the result is a function of the text.
#[verifier::external_body]
pub(crate) fn json_canonical_text(text: &str) -> (r: Result<String, String>)
    ensures
        match r {
            Ok(v) => json_text_canonical(text@) == Ok::<Seq<char>, Seq<char>>(v@),
            Err(e) => json_text_canonical(text@) == Err::<Seq<char>, Seq<char>>(e@),
        },
{
    match serde_json::from_str::<serde_json::Value>(text) {
        Ok(value) => Ok(value.to_string()),
        Err(error) => Err(error.to_string()),
    }
}

/// The JSON text of a JSON string holding `s`, as `Value`'s `Display` writes it.
pub uninterp spec fn json_text_of_string(s: Seq<char>) -> Seq<char>;

/// Writes `s` as a JSON string (`serde_json::Value::String` and its
/// `Display`, which quotes and escapes); a function of `s` alone.
#[verifier::external_body]
pub(crate) fn json_string_literal(s: &str) -> (r: String)
    ensures
        r@ == json_text_of_string(s@),
{
    serde_json::Value::String(s.to_string()).to_string()
}

} // verus!
