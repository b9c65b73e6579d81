//! The canonical model of a localization resource.
//!
//! A [`Resource`] is the list of its entries in declaration order. Every type
//! here has a mathematical view over `Seq`, and every contract of the crate is
//! stated over those views.

use vstd::prelude::*;

verus! {

/// The name of a message that an expression refers to.
#[derive(Debug, PartialEq, Eq, Clone)]
pub struct Identifier(pub String);

/// An expression inside a placeable.
#[derive(Debug, PartialEq, Eq, Clone)]
pub enum Expression {
    /// A reference to another message, by its identifier.
    EntityReference(Identifier),
}

/// One piece of a pattern: a run of text or a placeable.
#[derive(Debug, PartialEq, Eq, Clone)]
pub enum PatternElement {
    /// Literal text.
    Text(String),
    /// Expressions whose value is put in place when the message is shown.
    Placeable(Vec<Expression>),
}

/// The value template of a message.
#[derive(Debug, PartialEq, Eq, Clone)]
pub struct Pattern {
    pub elements: Vec<PatternElement>,
}

/// A labelled alternative pattern of a message, such as a grammatical variant.
#[derive(Debug, PartialEq, Eq, Clone)]
pub struct Member {
    pub key: String,
    pub value: Pattern,
    /// Marks the variant that is used when no other one applies.
    pub default: bool,
}

/// A message: an identifier, its pattern and its variants.
///
/// Identifiers are meant to be unique within a resource; nothing here checks
/// that they are.
#[derive(Debug, PartialEq, Eq, Clone)]
pub struct Message {
    pub id: String,
    pub value: Option<Pattern>,
    pub traits: Option<Vec<Member>>,
}

/// One entry of a resource.
#[derive(Debug, PartialEq, Eq, Clone)]
pub enum Entry {
    Message(Message),
}

/// A localization resource: its entries in declaration order.
#[derive(Debug, PartialEq, Eq, Clone)]
pub struct Resource(pub Vec<Entry>);

/// What an [`Expression`] stands for.
#[verifier::ext_equal]
pub enum ExpressionView {
    EntityReference(Seq<char>),
}

/// What a [`PatternElement`] stands for.
#[verifier::ext_equal]
pub enum PatternElementView {
    Text(Seq<char>),
    Placeable(Seq<ExpressionView>),
}

/// What a [`Member`] stands for.
#[verifier::ext_equal]
pub struct MemberView {
    pub key: Seq<char>,
    pub value: Seq<PatternElementView>,
    pub default: bool,
}

/// What a [`Message`] stands for.
#[verifier::ext_equal]
pub struct MessageView {
    pub id: Seq<char>,
    pub value: Option<Seq<PatternElementView>>,
    pub traits: Option<Seq<MemberView>>,
}

/// What an [`Entry`] stands for.
#[verifier::ext_equal]
pub enum EntryView {
    Message(MessageView),
}

impl DeepView for Identifier {
    type V = Seq<char>;

    open spec fn deep_view(&self) -> Seq<char> {
        self.0@
    }
}

impl View for Identifier {
    type V = Seq<char>;

    open spec fn view(&self) -> Seq<char> {
        self.deep_view()
    }
}

impl DeepView for Expression {
    type V = ExpressionView;

    open spec fn deep_view(&self) -> ExpressionView {
        match *self {
            Expression::EntityReference(id) => ExpressionView::EntityReference(id@),
        }
    }
}

impl View for Expression {
    type V = ExpressionView;

    open spec fn view(&self) -> ExpressionView {
        self.deep_view()
    }
}

impl DeepView for PatternElement {
    type V = PatternElementView;

    open spec fn deep_view(&self) -> PatternElementView {
        match *self {
            PatternElement::Text(text) => PatternElementView::Text(text@),
            PatternElement::Placeable(expressions) => PatternElementView::Placeable(
                expressions.deep_view(),
            ),
        }
    }
}

impl View for PatternElement {
    type V = PatternElementView;

    open spec fn view(&self) -> PatternElementView {
        self.deep_view()
    }
}

impl DeepView for Pattern {
    type V = Seq<PatternElementView>;

    open spec fn deep_view(&self) -> Seq<PatternElementView> {
        self.elements.deep_view()
    }
}

impl View for Pattern {
    type V = Seq<PatternElementView>;

    open spec fn view(&self) -> Seq<PatternElementView> {
        self.deep_view()
    }
}

impl DeepView for Member {
    type V = MemberView;

    open spec fn deep_view(&self) -> MemberView {
        MemberView { key: self.key@, value: self.value@, default: self.default }
    }
}

impl View for Member {
    type V = MemberView;

    open spec fn view(&self) -> MemberView {
        self.deep_view()
    }
}

impl DeepView for Message {
    type V = MessageView;

    open spec fn deep_view(&self) -> MessageView {
        MessageView {
            id: self.id@,
            value: self.value.deep_view(),
            traits: self.traits.deep_view(),
        }
    }
}

impl View for Message {
    type V = MessageView;

    open spec fn view(&self) -> MessageView {
        self.deep_view()
    }
}

impl DeepView for Entry {
    type V = EntryView;

    open spec fn deep_view(&self) -> EntryView {
        match *self {
            Entry::Message(message) => EntryView::Message(message@),
        }
    }
}

impl View for Entry {
    type V = EntryView;

    open spec fn view(&self) -> EntryView {
        self.deep_view()
    }
}

impl DeepView for Resource {
    type V = Seq<EntryView>;

    open spec fn deep_view(&self) -> Seq<EntryView> {
        self.0.deep_view()
    }
}

impl View for Resource {
    type V = Seq<EntryView>;

    open spec fn view(&self) -> Seq<EntryView> {
        self.deep_view()
    }
}

} // verus!
