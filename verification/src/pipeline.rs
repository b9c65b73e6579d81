//! The entry points: from source text to a resource, and between a resource
//! and the text of its entries object.

use vstd::prelude::*;
use crate::adapter::{convert, convert_spec, AdapterError, AdapterErrorView};
use crate::codec::{
    decode, decode_spec, encode, encode_spec, CodecError, CodecErrorView,
};
use crate::json::{error_message, json_object_pairs, json_object_text, read_object, write_object};
use crate::model::{EntryView, Resource};
use crate::parser::{parse_syntax, syntax_spec};
use crate::syntax::{ParseError, ParseErrorView};

verus! {

/// Why a source text gave no resource.
#[derive(Debug, PartialEq, Eq, Clone)]
pub enum ParseFailure {
    /// The errors of the parser, as it reported them, in its order.
    Syntax(Vec<ParseError>),
    /// The error of the adapter.
    Adapter(AdapterError),
}

/// What a [`ParseFailure`] stands for.
#[verifier::ext_equal]
pub enum ParseFailureView {
    Syntax(Seq<ParseErrorView>),
    Adapter(AdapterErrorView),
}

impl DeepView for ParseFailure {
    type V = ParseFailureView;

    open spec fn deep_view(&self) -> ParseFailureView {
        match *self {
            ParseFailure::Syntax(errors) => ParseFailureView::Syntax(errors.deep_view()),
            ParseFailure::Adapter(error) => ParseFailureView::Adapter(error@),
        }
    }
}

impl View for ParseFailure {
    type V = ParseFailureView;

    open spec fn view(&self) -> ParseFailureView {
        self.deep_view()
    }
}

/// An error of the JSON reader, with its message.
#[derive(Debug, PartialEq, Eq, Clone)]
pub struct JsonError {
    pub message: String,
}

/// Why JSON text was not read as a resource.
#[derive(Debug, PartialEq, Eq, Clone)]
pub enum JsonFailure {
    /// The error of the codec.
    Codec(CodecError),
    /// The error of the JSON reader.
    Json(JsonError),
}

/// What a [`JsonFailure`] stands for: the error of the codec, or the fact
/// that the JSON reader failed.
#[verifier::ext_equal]
pub enum JsonFailureView {
    Codec(CodecErrorView),
    Json,
}

impl DeepView for JsonFailure {
    type V = JsonFailureView;

    open spec fn deep_view(&self) -> JsonFailureView {
        match *self {
            JsonFailure::Codec(error) => JsonFailureView::Codec(error@),
            JsonFailure::Json(_) => JsonFailureView::Json,
        }
    }
}

impl View for JsonFailure {
    type V = JsonFailureView;

    open spec fn view(&self) -> JsonFailureView {
        self.deep_view()
    }
}

/// What [`parse`] returns: the conversion of the syntax tree of the source,
/// or the errors of the parser, or the error of the conversion.
pub open spec fn parse_spec(source: Seq<char>) -> Result<Seq<EntryView>, ParseFailureView> {
    match syntax_spec(source) {
        Err(errors) => Err(ParseFailureView::Syntax(errors)),
        Ok(tree) => match convert_spec(tree) {
            Ok(resource) => Ok(resource),
            Err(error) => Err(ParseFailureView::Adapter(error)),
        },
    }
}

/// What [`serialize_json`] returns: the text that the JSON writer prints for
/// the pairs of the resource, or the error of the encoder.
pub open spec fn serialize_spec(resource: Seq<EntryView>) -> Result<Seq<char>, CodecErrorView> {
    match encode_spec(resource) {
        Err(error) => Err(error),
        Ok(pairs) => Ok(json_object_text(pairs)),
    }
}

/// What [`deserialize_json`] returns: the resource decoded from the pairs
/// that the JSON reader finds in the text, or the error of the decoder.
pub open spec fn deserialize_spec(text: Seq<char>) -> Result<Seq<EntryView>, JsonFailureView> {
    match json_object_pairs(text) {
        None => Err(JsonFailureView::Json),
        Some(pairs) => match decode_spec(pairs) {
            Ok(resource) => Ok(resource),
            Err(error) => Err(JsonFailureView::Codec(error)),
        },
    }
}

/// Parses a source text and takes its syntax tree into the canonical model.
///
/// A failure of the parser comes back with the parser's errors as it
/// reported them, a failure of the conversion with the adapter's error. No
/// partial resource is returned.
pub fn parse(s: &str) -> (out: Result<Resource, ParseFailure>)
    ensures
        match out {
            Ok(resource) => parse_spec(s@) == Ok::<Seq<EntryView>, ParseFailureView>(resource@),
            Err(failure) => parse_spec(s@) == Err::<Seq<EntryView>, ParseFailureView>(failure@),
        },
{
    match parse_syntax(s) {
        Err(errors) => Err(ParseFailure::Syntax(errors)),
        Ok(tree) => match convert(&tree) {
            Ok(resource) => Ok(resource),
            Err(error) => Err(ParseFailure::Adapter(error)),
        },
    }
}

/// Writes a resource as the pretty-printed JSON text of its entries object,
/// whose keys are the message identifiers in declaration order.
///
/// Succeeds on every resource that can be encoded, and fails with the
/// encoder's error where a message has a pattern that is not exactly one run
/// of text.
pub fn serialize_json(res: &Resource) -> (out: Result<String, CodecError>)
    ensures
        match out {
            Ok(text) => serialize_spec(res@) == Ok::<Seq<char>, CodecErrorView>(text@),
            Err(error) => serialize_spec(res@) == Err::<Seq<char>, CodecErrorView>(error@),
        },
{
    match encode(res) {
        Err(error) => Err(error),
        Ok(pairs) => match write_object(&pairs) {
            Ok(text) => Ok(text),
            Err(_) => unreached(),
        },
    }
}

/// Reads the JSON text of an entries object as a resource.
///
/// Fails with the reader's error where the text is no JSON object, and with
/// the decoder's error where a value is not a string.
pub fn deserialize_json(text: &str) -> (out: Result<Resource, JsonFailure>)
    ensures
        match out {
            Ok(resource) => deserialize_spec(text@) == Ok::<Seq<EntryView>, JsonFailureView>(
                resource@,
            ),
            Err(failure) => deserialize_spec(text@) == Err::<Seq<EntryView>, JsonFailureView>(
                failure@,
            ),
        },
{
    match read_object(text) {
        Err(error) => Err(JsonFailure::Json(JsonError { message: error_message(&error) })),
        Ok(pairs) => match decode(&pairs) {
            Ok(resource) => Ok(resource),
            Err(error) => Err(JsonFailure::Codec(error)),
        },
    }
}

} // verus!
