//! The calls into outside crates and into the parts of std that carry no
//! specification of their own, each with the contract the library relies on.

use vstd::prelude::*;
#[allow(unused_imports)]
use vstd::utf8::*;

#[allow(unused_imports)]
use crate::text;

verus! {

// ---------------------------------------------------------------- std

/// `String::push` appends the character.
pub assume_specification[ std::string::String::push ](string: &mut std::string::String, c: char)
    ensures
        final(string)@ == old(string)@.push(c),
;

/// Calls `std::str::from_utf8` and copies the text out: a text comes back exactly when the bytes
/// are valid UTF-8, and it is the text that those bytes encode.
#[verifier::external_body]
pub(crate) fn utf8_text(bytes: &[u8]) -> (text: Option<String>)
    ensures
        text is Some == valid_utf8(bytes@),
        text matches Some(t) ==> encode_utf8(t@) == bytes@,
{
    std::str::from_utf8(bytes).ok().map(|text| text.to_string())
}

/// What `str::to_lowercase` makes of a text.
pub uninterp spec fn lowercase(text: Seq<char>) -> Seq<char>;

/// Calls `str::to_lowercase`.
#[verifier::external_body]
pub(crate) fn lowercase_text(text: &str) -> (lower: String)
    ensures
        lower@ == lowercase(text@),
{
    text.to_lowercase()
}

/// What the `Debug` form of a `str` is: the text in double quotes, with escapes.
pub uninterp spec fn quoted(text: Seq<char>) -> Seq<char>;

/// Calls the `Debug` form of `str`.
#[verifier::external_body]
pub(crate) fn quoted_text(text: &str) -> (shown: String)
    ensures
        shown@ == quoted(text@),
{
    format!("{:?}", text)
}

// ---------------------------------------------------------------- serde_json

/// A JSON document as a value: what a `serde_json::Value` holds.
pub enum Json {
    /// `null`.
    Null,
    /// `true` or `false`.
    Bool(bool),
    /// A number, of which the library reads nothing.
    Number,
    /// A string.
    Text(Seq<char>),
    /// An array, in order.
    Array(Seq<Json>),
    /// An object, by key.
    Object(Map<Seq<char>, Json>),
}

/// `serde_json::Value`: a parsed JSON document.
#[verifier::external_type_specification]
#[verifier::external_body]
pub struct ExJsonValue(serde_json::Value);

/// What a `serde_json::Value` holds.
pub uninterp spec fn json_contents(value: serde_json::Value) -> Json;

/// What `serde_json::from_str` reads from a text: nothing where the text is no JSON document.
pub uninterp spec fn json_document(text: Seq<char>) -> Option<Json>;

/// The member of a JSON object under a key; nothing under an absent key or of another value.
pub open spec fn json_member(json: Json, key: Seq<char>) -> Option<Json> {
    match json {
        Json::Object(members) => if members.contains_key(key) {
            Some(members[key])
        } else {
            None
        },
        _ => None,
    }
}

/// The text of a JSON string; nothing of another value.
pub open spec fn json_text(json: Json) -> Option<Seq<char>> {
    match json {
        Json::Text(text) => Some(text),
        _ => None,
    }
}

/// Calls `serde_json::from_str` for a `serde_json::Value`. What a text is read as has a name;
/// which texts are JSON documents is left to the crate.
#[verifier::external_body]
pub(crate) fn json_parse(text: &str) -> (value: Option<serde_json::Value>)
    ensures
        value is Some == json_document(text@) is Some,
        value matches Some(v) ==> json_contents(v) == json_document(text@)->0,
{
    serde_json::from_str::<serde_json::Value>(text).ok()
}

/// Calls `serde_json::Value::get` with a string key: the member of an object, if there is one.
#[verifier::external_body]
pub(crate) fn json_get<'a>(value: &'a serde_json::Value, key: &str) -> (member: Option<
    &'a serde_json::Value,
>)
    ensures
        member is Some == json_member(json_contents(*value), key@) is Some,
        member matches Some(m) ==> json_contents(*m) == json_member(
            json_contents(*value),
            key@,
        )->0,
{
    value.get(key)
}

/// Calls `serde_json::Value::as_str`: the text of a JSON string.
#[verifier::external_body]
pub(crate) fn json_as_str<'a>(value: &'a serde_json::Value) -> (text: Option<&'a str>)
    ensures
        text is Some == json_text(json_contents(*value)) is Some,
        text matches Some(t) ==> t@ == json_text(json_contents(*value))->0,
{
    value.as_str()
}

/// Calls `serde_json::Value::as_array`: the elements of a JSON array, in order.
#[verifier::external_body]
pub(crate) fn json_as_array<'a>(value: &'a serde_json::Value) -> (items: Option<
    &'a Vec<serde_json::Value>,
>)
    ensures
        items is Some == json_contents(*value) is Array,
        items matches Some(list) ==> json_contents(*value) == Json::Array(
            Seq::new(list@.len(), |i: int| json_contents(list@[i])),
        ),
{
    value.as_array()
}

/// Calls `serde_json::Value::is_null`.
#[verifier::external_body]
pub(crate) fn json_is_null(value: &serde_json::Value) -> (null: bool)
    ensures
        null == (json_contents(*value) is Null),
{
    value.is_null()
}

/// Calls `serde_json::Value::is_object`.
#[verifier::external_body]
pub(crate) fn json_is_object(value: &serde_json::Value) -> (object: bool)
    ensures
        object == (json_contents(*value) is Object),
{
    value.is_object()
}

/// A character inside a JSON string: the quote, the backslash and the control characters are
/// escaped, by a letter of their own where they have one, else by their number.
pub open spec fn json_char(c: char) -> Seq<char> {
    if c == '"' {
        "\\\""@
    } else if c == '\\' {
        "\\\\"@
    } else if c == '\u{8}' {
        "\\b"@
    } else if c == '\t' {
        "\\t"@
    } else if c == '\n' {
        "\\n"@
    } else if c == '\u{c}' {
        "\\f"@
    } else if c == '\r' {
        "\\r"@
    } else if (c as u32) < 0x20 {
        "\\u00"@.push("0123456789abcdef"@[c as int / 16]).push("0123456789abcdef"@[c as int % 16])
    } else {
        seq![c]
    }
}

/// The characters of a text inside a JSON string.
pub open spec fn json_chars(text: Seq<char>) -> Seq<char>
    decreases text.len(),
{
    if text.len() == 0 {
        Seq::empty()
    } else {
        json_chars(text.drop_last()) + json_char(text.last())
    }
}

/// A text as a JSON string.
pub open spec fn json_string(text: Seq<char>) -> Seq<char> {
    "\""@ + json_chars(text) + "\""@
}

/// Calls `serde_json::to_string` for a `str`, which cannot fail. It writes the text between quotes,
/// each character as it stands or escaped.
#[verifier::external_body]
pub(crate) fn json_quote(text: &str) -> (json: String)
    ensures
        json@ == json_string(text@),
{
    serde_json::to_string(text).unwrap_or_default()
}

// ---------------------------------------------------------------- uuid

/// What `uuid::Uuid::parse_str` reads from a text: the identifier in its hyphenated form, or the
/// text of the error.
pub uninterp spec fn uuid_reading(text: Seq<char>) -> Result<Seq<char>, Seq<char>>;

/// What a reading says, as texts.
pub open spec fn reading_view(reading: Result<String, String>) -> Result<Seq<char>, Seq<char>> {
    match reading {
        Ok(id) => Ok(id@),
        Err(e) => Err(e@),
    }
}

/// Calls `uuid::Uuid::parse_str` and prints the identifier, or the error. What a text is read as
/// has a name; which texts are accepted is left to the crate.
#[verifier::external_body]
pub(crate) fn uuid_parse(text: &str) -> (reading: Result<String, String>)
    ensures
        reading_view(reading) == uuid_reading(text@),
{
    uuid::Uuid::parse_str(text).map(|id| id.to_string()).map_err(|e| e.to_string())
}

/// Calls `uuid::Uuid::new_v4` and prints the identifier in its hyphenated form: thirty-six ASCII
/// characters. Which identifier it is rests on chance.
#[verifier::external_body]
pub(crate) fn uuid_fresh() -> (id: String)
    ensures
        id@.len() == 36,
        is_ascii_chars(id@),
{
    uuid::Uuid::new_v4().to_string()
}

// ---------------------------------------------------------------- chrono, rand

/// Calls `chrono::Utc::now` and prints the moment in the RFC 3339 form. Nothing is promised of
/// the text: it rests on the clock.
#[verifier::external_body]
pub(crate) fn now_text() -> (moment: String) {
    chrono::Utc::now().to_rfc3339()
}

/// Calls `rand::random` for a `u64`. Nothing is promised of the number: it rests on chance.
#[verifier::external_body]
pub(crate) fn random_u64() -> (number: u64) {
    rand::random::<u64>()
}

// ---------------------------------------------------------------- reqwest

/// The words that `reqwest::StatusCode` prints behind the number of a status.
pub uninterp spec fn status_reason(code: u16) -> Seq<char>;

/// The text of an HTTP status: its number, a space and its words.
pub open spec fn status_text(code: u16) -> Seq<char> {
    text::decimal(code as nat) + " "@ + status_reason(code)
}

/// Makes a `reqwest::StatusCode` with `from_u16` and prints it. The type takes the numbers from
/// 100 to 999; it prints the number, a space and the words it keeps for that number.
#[verifier::external_body]
pub(crate) fn status_display(code: u16) -> (text: String)
    requires
        100 <= code <= 999,
    ensures
        text@ == text::decimal(code as nat) + " "@ + status_reason(code),
{
    reqwest::StatusCode::from_u16(code).map(|status| status.to_string()).unwrap_or_default()
}

} // verus!
