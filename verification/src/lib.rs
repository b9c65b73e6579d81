//! A bridge between localization resources and the flat "entries" JSON object
//! that lists each message's text under its identifier, in declaration order.

pub mod adapter;
pub mod codec;
pub mod json;
pub mod model;
pub mod parser;
pub mod pipeline;
pub mod syntax;

pub use adapter::{convert, AdapterError};
pub use codec::{decode, encode, CodecError, JsonValue};
pub use model::{Entry, Expression, Identifier, Member, Message, Pattern, PatternElement, Resource};
pub use parser::parse_syntax;
pub use pipeline::{
    deserialize_json, parse, serialize_json, JsonError, JsonFailure, ParseFailure,
};
pub use syntax::{
    ParseError, ParseErrorInfo, ParseErrorKind, SyntaxElement, SyntaxEntry, SyntaxExpression,
    SyntaxMessage,
};
