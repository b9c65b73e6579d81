//! The adapter from a parsed syntax tree to the canonical model.
//!
//! Messages are taken across in declaration order; comments and section
//! headings have no place in the model and are passed over. A message must
//! carry a pattern, and the expressions of its placeables must be references
//! to messages: the model holds no other kind. Text that the parser could
//! not read is refused.

use vstd::prelude::*;
use crate::model::{
    Entry, EntryView, Expression, ExpressionView, Identifier, Message, MessageView, Pattern,
    PatternElement, PatternElementView, Resource,
};
use crate::syntax::{
    SyntaxElement, SyntaxElementView, SyntaxEntry, SyntaxEntryView, SyntaxExpression,
    SyntaxExpressionView, SyntaxMessage, SyntaxMessageView,
};

verus! {

/// Why a syntax tree could not be taken into the model.
#[derive(Debug, PartialEq, Eq, Clone)]
pub enum AdapterError {
    /// The message `id` carries no pattern.
    MissingValue { id: String },
    /// A placeable of the message `id` holds an expression that is not a
    /// reference to a message.
    UnsupportedExpression { id: String },
    /// The tree holds `text` that the parser could not read as an entry.
    UnreadEntry { text: String },
}

/// What an [`AdapterError`] stands for.
#[verifier::ext_equal]
pub enum AdapterErrorView {
    MissingValue { id: Seq<char> },
    UnsupportedExpression { id: Seq<char> },
    UnreadEntry { text: Seq<char> },
}

impl DeepView for AdapterError {
    type V = AdapterErrorView;

    open spec fn deep_view(&self) -> AdapterErrorView {
        match *self {
            AdapterError::MissingValue { id } => AdapterErrorView::MissingValue { id: id@ },
            AdapterError::UnsupportedExpression { id } => AdapterErrorView::UnsupportedExpression {
                id: id@,
            },
            AdapterError::UnreadEntry { text } => AdapterErrorView::UnreadEntry { text: text@ },
        }
    }
}

impl View for AdapterError {
    type V = AdapterErrorView;

    open spec fn view(&self) -> AdapterErrorView {
        self.deep_view()
    }
}

impl AdapterError {
    /// The identifier of the message at fault, where a message is at fault.
    pub fn message_id(&self) -> (id: Option<&String>)
        ensures
            id.deep_view() == match self@ {
                AdapterErrorView::MissingValue { id } => Some(id),
                AdapterErrorView::UnsupportedExpression { id } => Some(id),
                AdapterErrorView::UnreadEntry { .. } => None,
            },
    {
        match self {
            AdapterError::MissingValue { id } => Some(id),
            AdapterError::UnsupportedExpression { id } => Some(id),
            AdapterError::UnreadEntry { .. } => None,
        }
    }
}

/// The expression of the model for a parsed one: a reference to a message
/// keeps the identifier that was written; no other kind has one.
pub open spec fn converted_expression(expression: SyntaxExpressionView) -> Option<ExpressionView> {
    match expression {
        SyntaxExpressionView::MessageReference(id) => Some(ExpressionView::EntityReference(id)),
        _ => None,
    }
}

/// Every expression of the placeable is a reference to a message.
pub open spec fn supported_expressions(expressions: Seq<SyntaxExpressionView>) -> bool {
    forall|k: int|
        0 <= k < expressions.len() ==> (#[trigger] converted_expression(expressions[k])) is Some
}

/// The expressions of the model for those of a supported placeable.
pub open spec fn converted_expressions(expressions: Seq<SyntaxExpressionView>) -> Seq<
    ExpressionView,
> {
    Seq::new(expressions.len(), |k: int| converted_expression(expressions[k]).unwrap())
}

/// The element of the model for a parsed one: text is kept as it is, a
/// placeable is taken expression by expression.
pub open spec fn converted_element(element: SyntaxElementView) -> Option<PatternElementView> {
    match element {
        SyntaxElementView::Text(text) => Some(PatternElementView::Text(text)),
        SyntaxElementView::Placeable(expressions) => if supported_expressions(expressions) {
            Some(PatternElementView::Placeable(converted_expressions(expressions)))
        } else {
            None
        },
    }
}

/// Every element of the pattern can be taken into the model.
pub open spec fn supported_pattern(elements: Seq<SyntaxElementView>) -> bool {
    forall|j: int| 0 <= j < elements.len() ==> (#[trigger] converted_element(elements[j])) is Some
}

/// The pattern of the model for a supported parsed one, element by element.
pub open spec fn converted_pattern(elements: Seq<SyntaxElementView>) -> Seq<PatternElementView> {
    Seq::new(elements.len(), |j: int| converted_element(elements[j]).unwrap())
}

/// The message of the model for a parsed one: the same identifier, the
/// pattern taken across, and no variants. A message without a pattern is
/// refused, and so is one with an unsupported expression.
pub open spec fn converted_message(message: SyntaxMessageView) -> Result<
    MessageView,
    AdapterErrorView,
> {
    match message.value {
        None => Err(AdapterErrorView::MissingValue { id: message.id }),
        Some(elements) => if supported_pattern(elements) {
            Ok(
                MessageView {
                    id: message.id,
                    value: Some(converted_pattern(elements)),
                    traits: None,
                },
            )
        } else {
            Err(AdapterErrorView::UnsupportedExpression { id: message.id })
        },
    }
}

/// What [`convert`] returns: the messages of the tree, in its order, with
/// comments and section headings passed over; or the error of the first entry
/// that is refused, be it a message or unread text.
pub open spec fn convert_spec(tree: Seq<SyntaxEntryView>) -> Result<
    Seq<EntryView>,
    AdapterErrorView,
>
    decreases tree.len(),
{
    if tree.len() == 0 {
        Ok(Seq::empty())
    } else {
        match convert_spec(tree.drop_last()) {
            Err(error) => Err(error),
            Ok(entries) => match tree.last() {
                SyntaxEntryView::Message(message) => match converted_message(message) {
                    Ok(converted) => Ok(entries.push(EntryView::Message(converted))),
                    Err(error) => Err(error),
                },
                SyntaxEntryView::Junk(text) => Err(AdapterErrorView::UnreadEntry { text }),
                SyntaxEntryView::Comment => Ok(entries),
                SyntaxEntryView::Section => Ok(entries),
            },
        }
    }
}

impl Identifier {
    /// The identifier with the name that the parser read.
    pub fn from_name(name: &String) -> (out: Identifier)
        ensures
            out@ == name@,
    {
        Identifier(name.clone())
    }
}

impl Expression {
    /// Takes a parsed expression into the model: a reference to a message
    /// becomes an entity reference with the same identifier; every other kind
    /// gives `None`.
    pub fn from_syntax(expression: &SyntaxExpression) -> (out: Option<Expression>)
        ensures
            out.deep_view() == converted_expression(expression@),
    {
        match expression {
            SyntaxExpression::MessageReference(id) => Some(
                Expression::EntityReference(Identifier::from_name(id)),
            ),
            _ => None,
        }
    }
}

impl PatternElement {
    /// Takes a parsed element into the model: text unchanged, a placeable
    /// expression by expression. Gives `None` where a placeable holds an
    /// expression that is not a reference to a message.
    pub fn from_syntax(element: &SyntaxElement) -> (out: Option<PatternElement>)
        ensures
            out.deep_view() == converted_element(element@),
    {
        match element {
            SyntaxElement::Text(text) => Some(PatternElement::Text(text.clone())),
            SyntaxElement::Placeable(expressions) => {
                let ghost parsed = expressions.deep_view();
                let mut converted: Vec<Expression> = Vec::new();
                let mut k: usize = 0;
                while k < expressions.len()
                    invariant
                        0 <= k <= expressions.len(),
                        parsed == expressions.deep_view(),
                        element@ == SyntaxElementView::Placeable(parsed),
                        converted.len() == k,
                        forall|n: int|
                            0 <= n < k ==> (#[trigger] converted_expression(parsed[n])) == Some(
                                converted@[n]@,
                            ),
                    decreases expressions.len() - k,
                {
                    assert(parsed[k as int] == expressions@[k as int]@);
                    match Expression::from_syntax(&expressions[k]) {
                        Some(expression) => {
                            converted.push(expression);
                        },
                        None => {
                            return None;
                        },
                    }
                    k += 1;
                }
                Some(PatternElement::Placeable(converted))
            },
        }
    }
}

impl Pattern {
    /// Takes a parsed pattern into the model, element by element. Gives
    /// `None` where an element cannot be taken.
    pub fn from_syntax(elements: &Vec<SyntaxElement>) -> (out: Option<Pattern>)
        ensures
            match out {
                Some(pattern) => supported_pattern(elements.deep_view()) && pattern@
                    == converted_pattern(elements.deep_view()),
                None => !supported_pattern(elements.deep_view()),
            },
    {
        let ghost parsed = elements.deep_view();
        let mut converted: Vec<PatternElement> = Vec::new();
        let mut j: usize = 0;
        while j < elements.len()
            invariant
                0 <= j <= elements.len(),
                parsed == elements.deep_view(),
                converted.len() == j,
                forall|n: int|
                    0 <= n < j ==> (#[trigger] converted_element(parsed[n])) == Some(
                        converted@[n]@,
                    ),
            decreases elements.len() - j,
        {
            assert(parsed[j as int] == elements@[j as int]@);
            match PatternElement::from_syntax(&elements[j]) {
                Some(element) => {
                    converted.push(element);
                },
                None => {
                    return None;
                },
            }
            j += 1;
        }
        let pattern = Pattern { elements: converted };
        Some(pattern)
    }
}

impl Message {
    /// Takes a parsed message into the model: the identifier as it was
    /// written, the pattern taken across, and no variants.
    ///
    /// Fails with `MissingValue` where the message carries no pattern, and
    /// with `UnsupportedExpression` where a placeable holds an expression
    /// that is not a reference to a message; both name the message.
    pub fn from_syntax(message: &SyntaxMessage) -> (out: Result<Message, AdapterError>)
        ensures
            match out {
                Ok(converted) => converted_message(message@) == Ok::<
                    MessageView,
                    AdapterErrorView,
                >(converted@),
                Err(error) => converted_message(message@) == Err::<
                    MessageView,
                    AdapterErrorView,
                >(error@),
            },
    {
        match &message.value {
            None => Err(AdapterError::MissingValue { id: message.id.clone() }),
            Some(elements) => match Pattern::from_syntax(elements) {
                Some(pattern) => Ok(
                    Message { id: message.id.clone(), value: Some(pattern), traits: None },
                ),
                None => Err(AdapterError::UnsupportedExpression { id: message.id.clone() }),
            },
        }
    }
}

/// Takes a parsed resource into the canonical model.
///
/// The result holds one entry per message of the tree, in the order of the
/// tree; comments and section headings are passed over. The first message
/// that cannot be taken, or the first text that the parser could not read,
/// ends the conversion with its error.
pub fn convert(tree: &Vec<SyntaxEntry>) -> (out: Result<Resource, AdapterError>)
    ensures
        match out {
            Ok(resource) => convert_spec(tree.deep_view()) == Ok::<
                Seq<EntryView>,
                AdapterErrorView,
            >(resource@),
            Err(error) => convert_spec(tree.deep_view()) == Err::<
                Seq<EntryView>,
                AdapterErrorView,
            >(error@),
        },
{
    let ghost parsed = tree.deep_view();
    let mut entries: Vec<Entry> = Vec::new();
    let mut i: usize = 0;
    assert(entries.deep_view() =~= Seq::<EntryView>::empty());
    while i < tree.len()
        invariant
            0 <= i <= tree.len(),
            parsed == tree.deep_view(),
            convert_spec(parsed.take(i as int)) == Ok::<Seq<EntryView>, AdapterErrorView>(
                entries.deep_view(),
            ),
        decreases tree.len() - i,
    {
        proof {
            assert(parsed.take(i + 1).drop_last() =~= parsed.take(i as int));
        }
        let ghost before = entries.deep_view();
        match &tree[i] {
            SyntaxEntry::Message(message) => {
                match Message::from_syntax(message) {
                    Ok(converted) => {
                        entries.push(Entry::Message(converted));
                        assert(entries.deep_view() =~= before.push(
                            EntryView::Message(converted@),
                        ));
                    },
                    Err(error) => {
                        proof {
                            lemma_convert_error_stays(parsed, i + 1);
                        }
                        return Err(error);
                    },
                }
            },
            SyntaxEntry::Junk(text) => {
                proof {
                    lemma_convert_error_stays(parsed, i + 1);
                }
                return Err(AdapterError::UnreadEntry { text: text.clone() });
            },
            SyntaxEntry::Comment => {},
            SyntaxEntry::Section => {},
        }
        i += 1;
    }
    assert(parsed.take(i as int) =~= parsed);
    Ok(Resource(entries))
}

/// An error of a prefix of the tree is the error of the whole tree.
proof fn lemma_convert_error_stays(tree: Seq<SyntaxEntryView>, upto: int)
    requires
        0 <= upto <= tree.len(),
        convert_spec(tree.take(upto)) is Err,
    ensures
        convert_spec(tree) == convert_spec(tree.take(upto)),
    decreases tree.len() - upto,
{
    if upto == tree.len() {
        assert(tree.take(upto) =~= tree);
    } else {
        assert(tree.take(upto + 1).drop_last() =~= tree.take(upto));
        lemma_convert_error_stays(tree, upto + 1);
    }
}

} // verus!
