//! The calls into the JSON reader and writer of the `serde_json` crate.
//!
//! What the writer prints for a list of pairs, and what the reader finds in a
//! text, are not stated here: each has a name, and the contracts speak of
//! those names.

use vstd::prelude::*;
use crate::codec::{JsonValue, JsonValueView};

verus! {

/// An error of the JSON reader or writer, `serde_json::Error`. Nothing is
/// known of its inside.
#[verifier::external_type_specification]
#[verifier::external_body]
pub struct ExJsonError(serde_json::Error);

/// What the pretty printer of `serde_json` writes for a JSON object with the
/// given keys and string values, in the given order.
pub uninterp spec fn json_object_text(pairs: Seq<(Seq<char>, Seq<char>)>) -> Seq<char>;

/// The keys and values that `serde_json::from_str` finds in a text that holds
/// one JSON object, as an insertion-ordered `serde_json::Map` hands them out;
/// `None` where the text is no JSON object.
pub uninterp spec fn json_object_pairs(text: Seq<char>) -> Option<Seq<(Seq<char>, JsonValueView)>>;

/// Writes the pairs as one JSON object, with `serde_json::Serializer::pretty`
/// and the `collect_map` of `serde::Serializer`, which writes each key and
/// value of the iterator in turn.
///
/// The contract claims that the writer succeeds, and that the text written
/// is [`json_object_text`] of the pairs, that is, that it depends on the
/// pairs alone. The writer fails only where a key is no string, where a
/// value refuses to be written, or where its sink fails; here keys and
/// values are strings and the sink is a vector of bytes, and what it feeds
/// to the sink is valid UTF-8.
#[verifier::external_body]
pub(crate) fn write_object(pairs: &Vec<(String, String)>) -> (out: Result<
    String,
    serde_json::Error,
>)
    ensures
        out is Ok,
        out->Ok_0@ == json_object_text(pairs.deep_view()),
{
    let mut buffer: Vec<u8> = Vec::new();
    let mut writer = serde_json::Serializer::pretty(&mut buffer);
    serde::Serializer::collect_map(&mut writer, pairs.iter().map(|pair| (&pair.0, &pair.1)))?;
    String::from_utf8(buffer).map_err(serde::ser::Error::custom)
}

/// Reads a text as one JSON object, with `serde_json::from_str` into a
/// `serde_json::Map`, and hands out its keys and values in the order of the
/// map. A string value keeps its text and a boolean its value; of the other
/// variants of `serde_json::Value` only the kind is kept.
///
/// The contract claims that the pairs read are [`json_object_pairs`] of the
/// text, that is, that they depend on the text alone.
#[verifier::external_body]
pub(crate) fn read_object(text: &str) -> (out: Result<Vec<(String, JsonValue)>, serde_json::Error>)
    ensures
        match out {
            Ok(pairs) => json_object_pairs(text@) == Some(pairs.deep_view()),
            Err(_) => json_object_pairs(text@) is None,
        },
{
    let object = serde_json::from_str::<serde_json::Map<String, serde_json::Value>>(text)?;
    Ok(object.into_iter().map(|(key, value)| (key, match value {
        serde_json::Value::Null => JsonValue::Null,
        serde_json::Value::Bool(flag) => JsonValue::Bool(flag),
        serde_json::Value::Number(_) => JsonValue::Number,
        serde_json::Value::String(text) => JsonValue::String(text),
        serde_json::Value::Array(_) => JsonValue::Array,
        serde_json::Value::Object(_) => JsonValue::Object,
    })).collect())
}

/// The message of a `serde_json::Error`, as its `Display` writes it.
#[verifier::external_body]
pub(crate) fn error_message(error: &serde_json::Error) -> String {
    error.to_string()
}

} // verus!
