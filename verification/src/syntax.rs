//! The syntax tree that the adapter reads, and the errors of the parser.
//!
//! The tree holds, as plain values, what the adapter needs of a parsed
//! resource: the entries in declaration order, each message with its
//! identifier and its pattern, each placeable with the kinds of its
//! expressions.

use vstd::prelude::*;

verus! {

/// An expression of a placeable, by its kind.
#[derive(Debug, PartialEq, Eq, Clone)]
pub enum SyntaxExpression {
    /// A reference to another message, with its identifier.
    MessageReference(String),
    /// An argument that the caller supplies, with its name.
    ExternalArgument(String),
    /// A number literal, as written.
    Number(String),
    /// A string literal.
    Text(String),
    /// A call of a function.
    Call,
    /// A selection among variants.
    Select,
    /// A named argument of a call.
    KeyValueArgument,
    /// An access to a member of another expression.
    Member,
}

/// One piece of a parsed pattern.
#[derive(Debug, PartialEq, Eq, Clone)]
pub enum SyntaxElement {
    Text(String),
    Placeable(Vec<SyntaxExpression>),
}

/// A parsed message: its identifier, and its pattern where it has one.
#[derive(Debug, PartialEq, Eq, Clone)]
pub struct SyntaxMessage {
    pub id: String,
    pub value: Option<Vec<SyntaxElement>>,
}

/// One entry of a parsed resource.
#[derive(Debug, PartialEq, Eq, Clone)]
pub enum SyntaxEntry {
    Message(SyntaxMessage),
    /// A comment that stands alone.
    Comment,
    /// The heading of a section.
    Section,
    /// Text that the parser could not read as an entry.
    Junk(String),
}

/// What the parser found wrong.
#[derive(Debug, PartialEq, Eq, Clone)]
pub enum ParseErrorKind {
    Generic,
    ExpectedEntry,
    ExpectedToken { token: char },
    ExpectedCharRange { range: String },
    ExpectedField { field: String },
    MissingField { fields: Vec<String> },
    ForbiddenWhitespace,
    ForbiddenCallee,
    ForbiddenKey,
}

/// Where the parser found an error.
#[derive(Debug, PartialEq, Eq, Clone)]
pub struct ParseErrorInfo {
    /// The lines of the entry that was rejected.
    pub slice: String,
    /// The line of the source on which that entry starts, counted from zero.
    pub line: usize,
    /// The offset of the error from the start of that entry, in characters.
    pub pos: usize,
}

/// One error of the parser: its cause and its position.
#[derive(Debug, PartialEq, Eq, Clone)]
pub struct ParseError {
    pub kind: ParseErrorKind,
    pub info: Option<ParseErrorInfo>,
}

/// What a [`SyntaxExpression`] stands for.
#[verifier::ext_equal]
pub enum SyntaxExpressionView {
    MessageReference(Seq<char>),
    ExternalArgument(Seq<char>),
    Number(Seq<char>),
    Text(Seq<char>),
    Call,
    Select,
    KeyValueArgument,
    Member,
}

/// What a [`SyntaxElement`] stands for.
#[verifier::ext_equal]
pub enum SyntaxElementView {
    Text(Seq<char>),
    Placeable(Seq<SyntaxExpressionView>),
}

/// What a [`SyntaxMessage`] stands for.
#[verifier::ext_equal]
pub struct SyntaxMessageView {
    pub id: Seq<char>,
    pub value: Option<Seq<SyntaxElementView>>,
}

/// What a [`SyntaxEntry`] stands for.
#[verifier::ext_equal]
pub enum SyntaxEntryView {
    Message(SyntaxMessageView),
    Comment,
    Section,
    Junk(Seq<char>),
}

/// What a [`ParseErrorKind`] stands for.
#[verifier::ext_equal]
pub enum ParseErrorKindView {
    Generic,
    ExpectedEntry,
    ExpectedToken { token: char },
    ExpectedCharRange { range: Seq<char> },
    ExpectedField { field: Seq<char> },
    MissingField { fields: Seq<Seq<char>> },
    ForbiddenWhitespace,
    ForbiddenCallee,
    ForbiddenKey,
}

/// What a [`ParseErrorInfo`] stands for.
#[verifier::ext_equal]
pub struct ParseErrorInfoView {
    pub slice: Seq<char>,
    pub line: nat,
    pub pos: nat,
}

/// What a [`ParseError`] stands for.
#[verifier::ext_equal]
pub struct ParseErrorView {
    pub kind: ParseErrorKindView,
    pub info: Option<ParseErrorInfoView>,
}

impl DeepView for SyntaxExpression {
    type V = SyntaxExpressionView;

    open spec fn deep_view(&self) -> SyntaxExpressionView {
        match *self {
            SyntaxExpression::MessageReference(id) => SyntaxExpressionView::MessageReference(id@),
            SyntaxExpression::ExternalArgument(id) => SyntaxExpressionView::ExternalArgument(id@),
            SyntaxExpression::Number(value) => SyntaxExpressionView::Number(value@),
            SyntaxExpression::Text(value) => SyntaxExpressionView::Text(value@),
            SyntaxExpression::Call => SyntaxExpressionView::Call,
            SyntaxExpression::Select => SyntaxExpressionView::Select,
            SyntaxExpression::KeyValueArgument => SyntaxExpressionView::KeyValueArgument,
            SyntaxExpression::Member => SyntaxExpressionView::Member,
        }
    }
}

impl View for SyntaxExpression {
    type V = SyntaxExpressionView;

    open spec fn view(&self) -> SyntaxExpressionView {
        self.deep_view()
    }
}

impl DeepView for SyntaxElement {
    type V = SyntaxElementView;

    open spec fn deep_view(&self) -> SyntaxElementView {
        match *self {
            SyntaxElement::Text(text) => SyntaxElementView::Text(text@),
            SyntaxElement::Placeable(expressions) => SyntaxElementView::Placeable(
                expressions.deep_view(),
            ),
        }
    }
}

impl View for SyntaxElement {
    type V = SyntaxElementView;

    open spec fn view(&self) -> SyntaxElementView {
        self.deep_view()
    }
}

impl DeepView for SyntaxMessage {
    type V = SyntaxMessageView;

    open spec fn deep_view(&self) -> SyntaxMessageView {
        SyntaxMessageView { id: self.id@, value: self.value.deep_view() }
    }
}

impl View for SyntaxMessage {
    type V = SyntaxMessageView;

    open spec fn view(&self) -> SyntaxMessageView {
        self.deep_view()
    }
}

impl DeepView for SyntaxEntry {
    type V = SyntaxEntryView;

    open spec fn deep_view(&self) -> SyntaxEntryView {
        match *self {
            SyntaxEntry::Message(message) => SyntaxEntryView::Message(message@),
            SyntaxEntry::Comment => SyntaxEntryView::Comment,
            SyntaxEntry::Section => SyntaxEntryView::Section,
            SyntaxEntry::Junk(body) => SyntaxEntryView::Junk(body@),
        }
    }
}

impl View for SyntaxEntry {
    type V = SyntaxEntryView;

    open spec fn view(&self) -> SyntaxEntryView {
        self.deep_view()
    }
}

impl DeepView for ParseErrorKind {
    type V = ParseErrorKindView;

    open spec fn deep_view(&self) -> ParseErrorKindView {
        match *self {
            ParseErrorKind::Generic => ParseErrorKindView::Generic,
            ParseErrorKind::ExpectedEntry => ParseErrorKindView::ExpectedEntry,
            ParseErrorKind::ExpectedToken { token } => ParseErrorKindView::ExpectedToken { token },
            ParseErrorKind::ExpectedCharRange { range } => ParseErrorKindView::ExpectedCharRange {
                range: range@,
            },
            ParseErrorKind::ExpectedField { field } => ParseErrorKindView::ExpectedField {
                field: field@,
            },
            ParseErrorKind::MissingField { fields } => ParseErrorKindView::MissingField {
                fields: fields.deep_view(),
            },
            ParseErrorKind::ForbiddenWhitespace => ParseErrorKindView::ForbiddenWhitespace,
            ParseErrorKind::ForbiddenCallee => ParseErrorKindView::ForbiddenCallee,
            ParseErrorKind::ForbiddenKey => ParseErrorKindView::ForbiddenKey,
        }
    }
}

impl View for ParseErrorKind {
    type V = ParseErrorKindView;

    open spec fn view(&self) -> ParseErrorKindView {
        self.deep_view()
    }
}

impl DeepView for ParseErrorInfo {
    type V = ParseErrorInfoView;

    open spec fn deep_view(&self) -> ParseErrorInfoView {
        ParseErrorInfoView { slice: self.slice@, line: self.line as nat, pos: self.pos as nat }
    }
}

impl View for ParseErrorInfo {
    type V = ParseErrorInfoView;

    open spec fn view(&self) -> ParseErrorInfoView {
        self.deep_view()
    }
}

impl DeepView for ParseError {
    type V = ParseErrorView;

    open spec fn deep_view(&self) -> ParseErrorView {
        ParseErrorView { kind: self.kind@, info: self.info.deep_view() }
    }
}

impl View for ParseError {
    type V = ParseErrorView;

    open spec fn view(&self) -> ParseErrorView {
        self.deep_view()
    }
}

} // verus!
