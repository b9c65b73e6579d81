//! The ordered codec between a [`Resource`] and the entries object.
//!
//! The entries object is kept as a list of key/value pairs, so that the order
//! of its keys is the order of the list. [`encode`] writes one pair per entry
//! and refuses a pattern that is not one run of text; [`decode`] reads one
//! message per pair and refuses a value that is not a string.

use vstd::prelude::*;
use crate::model::{
    Entry, EntryView, Message, MessageView, Pattern, PatternElement, PatternElementView, Resource,
};

verus! {

/// A JSON value as the codec reads it: a string with its text, or the kind of
/// any other value.
#[derive(Debug, PartialEq, Eq, Clone)]
pub enum JsonValue {
    Null,
    Bool(bool),
    Number,
    String(String),
    Array,
    Object,
}

/// What a [`JsonValue`] stands for.
#[verifier::ext_equal]
pub enum JsonValueView {
    Null,
    Bool(bool),
    Number,
    String(Seq<char>),
    Array,
    Object,
}

impl DeepView for JsonValue {
    type V = JsonValueView;

    open spec fn deep_view(&self) -> JsonValueView {
        match *self {
            JsonValue::Null => JsonValueView::Null,
            JsonValue::Bool(b) => JsonValueView::Bool(b),
            JsonValue::Number => JsonValueView::Number,
            JsonValue::String(text) => JsonValueView::String(text@),
            JsonValue::Array => JsonValueView::Array,
            JsonValue::Object => JsonValueView::Object,
        }
    }
}

impl View for JsonValue {
    type V = JsonValueView;

    open spec fn view(&self) -> JsonValueView {
        self.deep_view()
    }
}

/// Why a resource or an entries object could not be taken across.
#[derive(Debug, PartialEq, Eq, Clone)]
pub enum CodecError {
    /// The pattern of the message `id` is not exactly one run of text.
    UnsupportedPatternShape { id: String },
    /// The value under the key `id` is not a JSON string.
    UnexpectedValueType { id: String },
}

/// What a [`CodecError`] stands for.
#[verifier::ext_equal]
pub enum CodecErrorView {
    UnsupportedPatternShape { id: Seq<char> },
    UnexpectedValueType { id: Seq<char> },
}

impl DeepView for CodecError {
    type V = CodecErrorView;

    open spec fn deep_view(&self) -> CodecErrorView {
        match *self {
            CodecError::UnsupportedPatternShape { id } => CodecErrorView::UnsupportedPatternShape {
                id: id@,
            },
            CodecError::UnexpectedValueType { id } => CodecErrorView::UnexpectedValueType {
                id: id@,
            },
        }
    }
}

impl View for CodecError {
    type V = CodecErrorView;

    open spec fn view(&self) -> CodecErrorView {
        self.deep_view()
    }
}

impl CodecError {
    /// The identifier of the message at fault.
    pub fn message_id(&self) -> (id: &String)
        ensures
            id@ == error_id(self@),
    {
        match self {
            CodecError::UnsupportedPatternShape { id } => id,
            CodecError::UnexpectedValueType { id } => id,
        }
    }
}

/// The identifier that an error names.
pub open spec fn error_id(error: CodecErrorView) -> Seq<char> {
    match error {
        CodecErrorView::UnsupportedPatternShape { id } => id,
        CodecErrorView::UnexpectedValueType { id } => id,
    }
}

/// An entries object with string values only: each key with its text.
pub type TextPairs = Seq<(Seq<char>, Seq<char>)>;

/// An entries object: each key with its value.
pub type ValuePairs = Seq<(Seq<char>, JsonValueView)>;

/// The text of a pattern that is exactly one run of text; `None` for an
/// absent pattern and for every other shape.
pub open spec fn pattern_text(value: Option<Seq<PatternElementView>>) -> Option<Seq<char>> {
    match value {
        Some(elements) => if elements.len() == 1 {
            match elements[0] {
                PatternElementView::Text(text) => Some(text),
                PatternElementView::Placeable(_) => None,
            }
        } else {
            None
        },
        None => None,
    }
}

/// The key under which an entry is written.
pub open spec fn entry_id(entry: EntryView) -> Seq<char> {
    match entry {
        EntryView::Message(message) => message.id,
    }
}

/// The text that is written for an entry, where its pattern has one.
pub open spec fn entry_text(entry: EntryView) -> Option<Seq<char>> {
    match entry {
        EntryView::Message(message) => pattern_text(message.value),
    }
}

/// Every entry has a pattern that the entries object can hold.
pub open spec fn encodable(resource: Seq<EntryView>) -> bool {
    forall|i: int| 0 <= i < resource.len() ==> (#[trigger] entry_text(resource[i])) is Some
}

/// The entry at `i` is the first whose pattern the entries object cannot hold.
pub open spec fn first_unsupported(resource: Seq<EntryView>, i: int) -> bool {
    &&& 0 <= i < resource.len()
    &&& entry_text(resource[i]) is None
    &&& forall|j: int| 0 <= j < i ==> (#[trigger] entry_text(resource[j])) is Some
}

/// The pairs of an encodable resource: one per entry, in the same order.
pub open spec fn encoded_pairs(resource: Seq<EntryView>) -> TextPairs {
    Seq::new(resource.len(), |i: int| (entry_id(resource[i]), entry_text(resource[i]).unwrap()))
}

/// What [`encode`] returns: the pairs of the resource, or the error that names
/// the first message whose pattern is not exactly one run of text.
pub open spec fn encode_spec(resource: Seq<EntryView>) -> Result<TextPairs, CodecErrorView> {
    if encodable(resource) {
        Ok(encoded_pairs(resource))
    } else {
        let at = choose|i: int| first_unsupported(resource, i);
        Err(CodecErrorView::UnsupportedPatternShape { id: entry_id(resource[at]) })
    }
}

/// The message that is read from one pair with a string value.
pub open spec fn decoded_entry(key: Seq<char>, text: Seq<char>) -> EntryView {
    EntryView::Message(
        MessageView { id: key, value: Some(seq![PatternElementView::Text(text)]), traits: None },
    )
}

/// The text of a value that is a JSON string.
pub open spec fn value_text(value: JsonValueView) -> Option<Seq<char>> {
    match value {
        JsonValueView::String(text) => Some(text),
        _ => None,
    }
}

/// Every value of the object is a JSON string.
pub open spec fn decodable(object: ValuePairs) -> bool {
    forall|i: int| 0 <= i < object.len() ==> (#[trigger] value_text(object[i].1)) is Some
}

/// The pair at `i` is the first whose value is not a JSON string.
pub open spec fn first_unexpected(object: ValuePairs, i: int) -> bool {
    &&& 0 <= i < object.len()
    &&& value_text(object[i].1) is None
    &&& forall|j: int| 0 <= j < i ==> (#[trigger] value_text(object[j].1)) is Some
}

/// The entries of a decodable object: one message per pair, in the same order.
pub open spec fn decoded_entries(object: ValuePairs) -> Seq<EntryView> {
    Seq::new(
        object.len(),
        |i: int| decoded_entry(object[i].0, value_text(object[i].1).unwrap()),
    )
}

/// What [`decode`] returns: the messages of the object, or the error that
/// names the first key whose value is not a JSON string.
pub open spec fn decode_spec(object: ValuePairs) -> Result<Seq<EntryView>, CodecErrorView> {
    if decodable(object) {
        Ok(decoded_entries(object))
    } else {
        let at = choose|i: int| first_unexpected(object, i);
        Err(CodecErrorView::UnexpectedValueType { id: object[at].0 })
    }
}

/// The same object with each text as a JSON string value.
pub open spec fn as_values(pairs: TextPairs) -> ValuePairs {
    Seq::new(pairs.len(), |i: int| (pairs[i].0, JsonValueView::String(pairs[i].1)))
}

/// Only one index can be the first unsupported one.
proof fn lemma_first_unsupported_unique(resource: Seq<EntryView>, i: int, j: int)
    requires
        first_unsupported(resource, i),
        first_unsupported(resource, j),
    ensures
        i == j,
{
}

/// Only one index can be the first unexpected one.
proof fn lemma_first_unexpected_unique(object: ValuePairs, i: int, j: int)
    requires
        first_unexpected(object, i),
        first_unexpected(object, j),
    ensures
        i == j,
{
}

impl Pattern {
    /// The text of the pattern where it is exactly one run of text.
    pub fn single_text(&self) -> (out: Option<&String>)
        ensures
            match out {
                Some(text) => pattern_text(Some(self@)) == Some(text@),
                None => pattern_text(Some(self@)) is None,
            },
    {
        if self.elements.len() == 1 {
            match &self.elements[0] {
                PatternElement::Text(text) => Some(text),
                PatternElement::Placeable(_) => None,
            }
        } else {
            None
        }
    }
}

impl Message {
    /// The pair that stands for this message in the entries object: its
    /// identifier and the text of its pattern. Fails, naming the message,
    /// unless the pattern is exactly one run of text.
    pub fn encode(&self) -> (out: Result<(String, String), CodecError>)
        ensures
            match out {
                Ok(pair) => pair.0@ == self@.id && pattern_text(self@.value) == Some(pair.1@),
                Err(error) => pattern_text(self@.value) is None
                    && error@ == (CodecErrorView::UnsupportedPatternShape { id: self@.id }),
            },
    {
        let text = match &self.value {
            Some(pattern) => pattern.single_text(),
            None => None,
        };
        match text {
            Some(text) => Ok((self.id.clone(), text.clone())),
            None => Err(CodecError::UnsupportedPatternShape { id: self.id.clone() }),
        }
    }
}

/// Writes a resource as an entries object: one pair per entry, in declaration
/// order, the message identifier with the text of its pattern.
///
/// Fails on the first message whose pattern is absent or is not exactly one
/// run of text, and names it; nothing is dropped or cut short.
pub fn encode(resource: &Resource) -> (out: Result<Vec<(String, String)>, CodecError>)
    ensures
        match out {
            Ok(pairs) => encode_spec(resource@) == Ok::<TextPairs, CodecErrorView>(
                pairs.deep_view(),
            ),
            Err(error) => encode_spec(resource@) == Err::<TextPairs, CodecErrorView>(error@),
        },
{
    let mut pairs: Vec<(String, String)> = Vec::new();
    let mut i: usize = 0;
    while i < resource.0.len()
        invariant
            0 <= i <= resource.0.len(),
            pairs.len() == i,
            forall|j: int| 0 <= j < i ==> (#[trigger] entry_text(resource@[j])) is Some,
            forall|j: int|
                0 <= j < i ==> (#[trigger] pairs@[j]).0@ == entry_id(resource@[j]) && Some(
                    pairs@[j].1@,
                ) == entry_text(resource@[j]),
        decreases resource.0.len() - i,
    {
        match &resource.0[i] {
            Entry::Message(message) => {
                match message.encode() {
                    Ok(pair) => {
                        pairs.push(pair);
                    },
                    Err(error) => {
                        proof {
                            assert(first_unsupported(resource@, i as int));
                            let at = choose|k: int| first_unsupported(resource@, k);
                            lemma_first_unsupported_unique(resource@, at, i as int);
                        }
                        return Err(error);
                    },
                }
            },
        }
        i += 1;
    }
    proof {
        assert(pairs.deep_view() =~= encoded_pairs(resource@));
    }
    Ok(pairs)
}

/// Reads an entries object as a resource: one message per pair, in the order
/// of the pairs, with the key as identifier, the string value as the single
/// run of text of its pattern, and no variants.
///
/// Fails on the first pair whose value is not a JSON string, and names its key.
pub fn decode(object: &Vec<(String, JsonValue)>) -> (out: Result<Resource, CodecError>)
    ensures
        match out {
            Ok(resource) => decode_spec(object.deep_view()) == Ok::<
                Seq<EntryView>,
                CodecErrorView,
            >(resource@),
            Err(error) => decode_spec(object.deep_view()) == Err::<
                Seq<EntryView>,
                CodecErrorView,
            >(error@),
        },
{
    let ghost pairs = object.deep_view();
    let mut entries: Vec<Entry> = Vec::new();
    let mut i: usize = 0;
    while i < object.len()
        invariant
            0 <= i <= object.len(),
            pairs == object.deep_view(),
            entries.len() == i,
            forall|j: int| 0 <= j < i ==> (#[trigger] value_text(pairs[j].1)) is Some,
            forall|j: int|
                0 <= j < i ==> (#[trigger] entries@[j])@ == decoded_entry(
                    pairs[j].0,
                    value_text(pairs[j].1).unwrap(),
                ),
        decreases object.len() - i,
    {
        let pair = &object[i];
        match &pair.1 {
            JsonValue::String(text) => {
                let mut elements: Vec<PatternElement> = Vec::new();
                elements.push(PatternElement::Text(text.clone()));
                let pattern = Pattern { elements };
                entries.push(
                    Entry::Message(
                        Message { id: pair.0.clone(), value: Some(pattern), traits: None },
                    ),
                );
            },
            _ => {
                proof {
                    assert(first_unexpected(pairs, i as int));
                    let at = choose|k: int| first_unexpected(pairs, k);
                    lemma_first_unexpected_unique(pairs, at, i as int);
                }
                return Err(CodecError::UnexpectedValueType { id: pair.0.clone() });
            },
        }
        i += 1;
    }
    let resource = Resource(entries);
    proof {
        assert(resource@ =~= decoded_entries(pairs));
    }
    Ok(resource)
}

/// The pattern of an entry.
pub open spec fn entry_value(entry: EntryView) -> Option<Seq<PatternElementView>> {
    match entry {
        EntryView::Message(message) => message.value,
    }
}

/// The entry has no variants.
pub open spec fn without_traits(entry: EntryView) -> bool {
    match entry {
        EntryView::Message(message) => message.traits is None,
    }
}

/// A pattern that the entries object cannot hold: it is absent, has no
/// element, has more than one, or has a placeable among its elements.
pub open spec fn unrepresentable(value: Option<Seq<PatternElementView>>) -> bool {
    match value {
        Some(elements) => {
            ||| elements.len() == 0
            ||| elements.len() > 1
            ||| exists|k: int| 0 <= k < elements.len() && (#[trigger] elements[k]) is Placeable
        },
        None => true,
    }
}

/// Every message has a pattern of exactly one run of text, and no variants.
pub open spec fn plain(resource: Seq<EntryView>) -> bool {
    forall|i: int|
        0 <= i < resource.len() ==> (#[trigger] entry_text(resource[i])) is Some && without_traits(
            resource[i],
        )
}

/// The keys of an entries object, in its order.
pub open spec fn keys(pairs: TextPairs) -> Seq<Seq<char>> {
    Seq::new(pairs.len(), |i: int| pairs[i].0)
}

/// The identifiers of the entries of a resource, in declaration order.
pub open spec fn identifiers(resource: Seq<EntryView>) -> Seq<Seq<char>> {
    Seq::new(resource.len(), |i: int| entry_id(resource[i]))
}

/// A pattern has a text to write exactly when it is representable.
proof fn lemma_pattern_text_none(value: Option<Seq<PatternElementView>>)
    ensures
        pattern_text(value) is None <==> unrepresentable(value),
{
    if let Some(elements) = value {
        if elements.len() == 1 && !(elements[0] is Placeable) {
            assert forall|k: int| 0 <= k < elements.len() implies !((
            #[trigger] elements[k]) is Placeable) by {}
        }
    }
}

/// Round trip: where every message of a resource has a pattern of exactly one
/// run of text and no variants, the resource can be encoded, and decoding the
/// pairs gives the same resource back.
pub proof fn lemma_decode_encode_round_trip(resource: Seq<EntryView>)
    requires
        plain(resource),
    ensures
        encode_spec(resource) is Ok,
        decode_spec(as_values(encode_spec(resource)->Ok_0)) == Ok::<
            Seq<EntryView>,
            CodecErrorView,
        >(resource),
{
    let pairs = encoded_pairs(resource);
    let object = as_values(pairs);
    assert forall|i: int| 0 <= i < object.len() implies (#[trigger] value_text(
        object[i].1,
    )) is Some by {}
    assert forall|i: int| 0 <= i < resource.len() implies decoded_entries(object)[i]
        == resource[i] by {}
    assert(decoded_entries(object) =~= resource);
}

/// Order preservation: the keys of an encoded resource are the identifiers of
/// its entries, in declaration order.
pub proof fn lemma_encode_preserves_order(resource: Seq<EntryView>)
    requires
        encode_spec(resource) is Ok,
    ensures
        keys(encode_spec(resource)->Ok_0) == identifiers(resource),
{
}

/// Rejection: a resource is refused exactly when one of its messages has an
/// unrepresentable pattern, and the error names the first such message.
pub proof fn lemma_encode_rejects(resource: Seq<EntryView>)
    ensures
        encode_spec(resource) is Err <==> exists|i: int|
            0 <= i < resource.len() && unrepresentable(#[trigger] entry_value(resource[i])),
        encode_spec(resource) is Err ==> exists|i: int|
            first_unsupported(resource, i) && encode_spec(resource) == Err::<
                TextPairs,
                CodecErrorView,
            >(CodecErrorView::UnsupportedPatternShape { id: entry_id(resource[i]) }),
{
    assert forall|i: int| 0 <= i < resource.len() implies (entry_text(resource[i]) is None
        <==> unrepresentable(#[trigger] entry_value(resource[i]))) by {
        lemma_pattern_text_none(entry_value(resource[i]));
    }
    if encodable(resource) {
        assert forall|i: int| 0 <= i < resource.len() implies !unrepresentable(
            #[trigger] entry_value(resource[i]),
        ) by {}
    } else {
        let at = lemma_first_unsupported_exists(resource, resource.len() as int);
        assert(unrepresentable(entry_value(resource[at])));
    }
}

/// Where some entry before `bound` has no text to write, one of them is the
/// first.
proof fn lemma_first_unsupported_exists(resource: Seq<EntryView>, bound: int) -> (at: int)
    requires
        0 <= bound <= resource.len(),
        exists|i: int| 0 <= i < bound && (#[trigger] entry_text(resource[i])) is None,
    ensures
        first_unsupported(resource, at),
        at < bound,
    decreases bound,
{
    if exists|i: int| 0 <= i < bound - 1 && (#[trigger] entry_text(resource[i])) is None {
        lemma_first_unsupported_exists(resource, bound - 1)
    } else {
        bound - 1
    }
}

} // verus!
