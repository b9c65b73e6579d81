//! The call into the resource parser of the `fluent` crate.
//!
//! The parser's tree is lifted, entry by entry, into the plain syntax tree of
//! this crate. What the parser makes of a source text is not stated here: it
//! has a name, [`parsed_source`], and the contracts speak of that name. What
//! a value of the parser holds has a name too, and the lifting is proved to
//! return just that.

use vstd::prelude::*;
use vstd::string::*;
use vstd::utf8::{encode_utf8, is_char_boundary};
use fluent::syntax::ast;
use fluent::syntax::parser::ErrorKind;
use crate::syntax::{
    ParseError, ParseErrorInfo, ParseErrorInfoView, ParseErrorKind, ParseErrorView, SyntaxElement,
    SyntaxElementView, SyntaxEntry, SyntaxEntryView, SyntaxExpression, SyntaxExpressionView,
    SyntaxMessage, SyntaxMessageView,
};

verus! {

/// An entry of the parser's tree, a `fluent::syntax::ast::Entry`, held as it
/// came. Nothing is known of its inside.
#[verifier::external_body]
pub struct ParsedEntry {
    inner: ast::Entry,
}

/// An element of a pattern of the parser's tree, a
/// `fluent::syntax::ast::PatternElement`, held as it came. Nothing is known
/// of its inside.
#[verifier::external_body]
pub struct ParsedElement<'a> {
    inner: &'a ast::PatternElement,
}

/// An expression of the parser's tree, a `fluent::syntax::ast::Expression`,
/// held as it came. Nothing is known of its inside.
#[verifier::external_body]
pub struct ParsedExpression<'a> {
    inner: &'a ast::Expression,
}

/// An error of the parser, `fluent::syntax::parser::ParserError`. Nothing is
/// known of its inside.
#[verifier::external_type_specification]
#[verifier::external_body]
pub struct ExParserError(fluent::syntax::parser::ParserError);

/// What `fluent::syntax::parse` makes of a source text: the entries of the
/// resource in declaration order, or the errors that it found, in the order
/// in which it found them.
pub uninterp spec fn parsed_source(source: Seq<char>) -> Result<
    Seq<SyntaxEntryView>,
    Seq<ParseErrorView>,
>;

/// What an entry of the parser's tree holds, read as a plain entry: for a
/// message the name of its identifier and, where it has a pattern, what each
/// element of the pattern holds; for junk its text; for any other entry its
/// kind.
pub uninterp spec fn held_entry(entry: ParsedEntry) -> SyntaxEntryView;

/// What an element of a pattern of the parser's tree holds, read as a plain
/// element: its text, or what each expression of the placeable holds.
pub uninterp spec fn held_element(element: ParsedElement) -> SyntaxElementView;

/// What an expression of the parser's tree holds, read as a plain
/// expression: its kind, with the name or the text that stands directly in
/// it.
pub uninterp spec fn held_expression(expression: ParsedExpression) -> SyntaxExpressionView;

/// What an error of the parser holds, read as a plain error: its kind with
/// the fields of the kind, and its position where it has one.
pub uninterp spec fn held_error(error: fluent::syntax::parser::ParserError) -> ParseErrorView;

/// What the entries hold, one by one.
pub open spec fn held_entries(entries: Seq<ParsedEntry>) -> Seq<SyntaxEntryView> {
    Seq::new(entries.len(), |i: int| held_entry(entries[i]))
}

/// What the errors hold, one by one.
pub open spec fn held_errors(errors: Seq<fluent::syntax::parser::ParserError>) -> Seq<
    ParseErrorView,
> {
    Seq::new(errors.len(), |i: int| held_error(errors[i]))
}

/// What the elements hold, one by one.
pub open spec fn held_elements(elements: Seq<ParsedElement>) -> Seq<SyntaxElementView> {
    Seq::new(elements.len(), |j: int| held_element(elements[j]))
}

/// What the expressions hold, one by one.
pub open spec fn held_expressions(expressions: Seq<ParsedExpression>) -> Seq<
    SyntaxExpressionView,
> {
    Seq::new(expressions.len(), |k: int| held_expression(expressions[k]))
}

/// The parts of an entry of the parser's tree that the lifting reads.
enum EntryParts<'a> {
    Message(&'a String, Option<Vec<ParsedElement<'a>>>),
    Comment,
    Section,
    Junk(&'a String),
}

/// The parts of a pattern element of the parser's tree.
enum ElementParts<'a> {
    Text(&'a String),
    Placeable(Vec<ParsedExpression<'a>>),
}

/// The plain entry that the parts make up.
spec fn entry_of(parts: EntryParts) -> SyntaxEntryView {
    match parts {
        EntryParts::Message(id, value) => SyntaxEntryView::Message(
            SyntaxMessageView {
                id: id@,
                value: match value {
                    Some(elements) => Some(held_elements(elements@)),
                    None => None,
                },
            },
        ),
        EntryParts::Comment => SyntaxEntryView::Comment,
        EntryParts::Section => SyntaxEntryView::Section,
        EntryParts::Junk(body) => SyntaxEntryView::Junk(body@),
    }
}

/// The plain element that the parts make up.
spec fn element_of(parts: ElementParts) -> SyntaxElementView {
    match parts {
        ElementParts::Text(text) => SyntaxElementView::Text(text@),
        ElementParts::Placeable(expressions) => SyntaxElementView::Placeable(
            held_expressions(expressions@),
        ),
    }
}

/// The sources that can be handed to the parser as they are.
///
/// When the parser rejects an entry, it cuts the text of that entry out of
/// the source. Where the entry starts at offset zero and runs to the end of
/// the source, it cuts at the byte offset that equals the number of
/// characters of the source, and fails if that offset lies inside a
/// character. No entry starts at offset zero where the source starts with a
/// line feed.
pub open spec fn parser_takes(source: Seq<char>) -> bool {
    ||| counts_to_boundary(source)
    ||| source.len() > 0 && source[0] == '\n'
}

/// The byte offset that equals the number of characters of the source is a
/// character boundary of its UTF-8 form. Every source of one-byte characters
/// is of this kind.
pub open spec fn counts_to_boundary(source: Seq<char>) -> bool {
    is_char_boundary(encode_utf8(source), source.len() as int)
}

/// Calls `fluent::syntax::parse` on the source and hands out what it
/// returns, held as it came: the entries of the body of the tree, or the
/// list of errors (the partial tree that comes with the errors is dropped).
///
/// The contract claims that what these entries or errors hold is
/// [`parsed_source`] of the source, that is, that the parser's result depends
/// on the text alone. It claims nothing of what that result is. The parser
/// is recursive: it goes one level down for each placeable and each list of
/// arguments that lies inside another, as far as the stack lets it.
#[verifier::external_body]
fn syntax_parse(source: &str) -> (out: Result<
    Vec<ParsedEntry>,
    Vec<fluent::syntax::parser::ParserError>,
>)
    requires
        parser_takes(source@),
    ensures
        match out {
            Ok(entries) => parsed_source(source@) == Ok::<
                Seq<SyntaxEntryView>,
                Seq<ParseErrorView>,
            >(held_entries(entries@)),
            Err(errors) => parsed_source(source@) == Err::<
                Seq<SyntaxEntryView>,
                Seq<ParseErrorView>,
            >(held_errors(errors@)),
        },
{
    match fluent::syntax::parse(source) {
        Ok(tree) => Ok(tree.body.into_iter().map(|inner| ParsedEntry { inner }).collect()),
        Err(failed) => Err(failed.1),
    }
}

/// Tells the variants of `fluent::syntax::ast::Entry` apart. For a message it
/// hands out the name of its identifier and, where it has a pattern, the
/// elements of that pattern, each held as it came; for junk it hands out the
/// text.
///
/// The contract claims that these parts are what the entry holds: the same
/// variant, the same name or text, and element for element the same pattern.
#[verifier::external_body]
fn entry_parts<'a>(entry: &'a ParsedEntry) -> (parts: EntryParts<'a>)
    ensures
        entry_of(parts) == held_entry(*entry),
{
    match &entry.inner {
        ast::Entry::Message(message) => EntryParts::Message(
            &message.id.name,
            message.value.as_ref().map(
                |pattern| pattern.elements.iter().map(|inner| ParsedElement { inner }).collect(),
            ),
        ),
        ast::Entry::Comment(_) => EntryParts::Comment,
        ast::Entry::Section(_) => EntryParts::Section,
        ast::Entry::Junk(junk) => EntryParts::Junk(&junk.body),
    }
}

/// Tells the variants of `fluent::syntax::ast::PatternElement` apart and
/// hands out the text, or the expressions of the placeable, each held as it
/// came.
///
/// The contract claims that these parts are what the element holds: the
/// same variant, the same text, and expression for expression the same
/// placeable.
#[verifier::external_body]
fn element_parts<'a>(element: &ParsedElement<'a>) -> (parts: ElementParts<'a>)
    ensures
        element_of(parts) == held_element(*element),
{
    match element.inner {
        ast::PatternElement::Text(text) => ElementParts::Text(text),
        ast::PatternElement::Placeable { expressions } => ElementParts::Placeable(
            expressions.iter().map(|inner| ParsedExpression { inner }).collect(),
        ),
    }
}

/// Tells the variants of `fluent::syntax::ast::Expression` apart. The name of
/// a referenced message or of an argument, and the text of a literal, are
/// copied; of the other kinds only the kind is kept.
///
/// The contract claims that the copy is what the expression holds.
#[verifier::external_body]
fn expression_parts(expression: &ParsedExpression) -> (out: SyntaxExpression)
    ensures
        out@ == held_expression(*expression),
{
    match expression.inner {
        ast::Expression::MessageReference { id } => SyntaxExpression::MessageReference(id.name.clone()),
        ast::Expression::ExternalArgument { id } => SyntaxExpression::ExternalArgument(id.name.clone()),
        ast::Expression::Number(number) => SyntaxExpression::Number(number.value.clone()),
        ast::Expression::String(text) => SyntaxExpression::Text(text.clone()),
        ast::Expression::CallExpression { .. } => SyntaxExpression::Call,
        ast::Expression::SelectExpression { .. } => SyntaxExpression::Select,
        ast::Expression::KeyValueArgument { .. } => SyntaxExpression::KeyValueArgument,
        ast::Expression::Member { .. } => SyntaxExpression::Member,
    }
}

/// Copies the kind of a `fluent::syntax::parser::ParserError`, variant by
/// variant of `fluent::syntax::parser::ErrorKind`, with its fields.
///
/// The contract claims that the copy is the kind that the error holds.
#[verifier::external_body]
fn error_kind(error: &fluent::syntax::parser::ParserError) -> (out: ParseErrorKind)
    ensures
        out@ == held_error(*error).kind,
{
    match &error.kind {
        ErrorKind::Generic => ParseErrorKind::Generic,
        ErrorKind::ExpectedEntry => ParseErrorKind::ExpectedEntry,
        ErrorKind::ExpectedToken { token } => ParseErrorKind::ExpectedToken { token: *token },
        ErrorKind::ExpectedCharRange { range } => ParseErrorKind::ExpectedCharRange { range: range.clone() },
        ErrorKind::ExpectedField { field } => ParseErrorKind::ExpectedField { field: field.clone() },
        ErrorKind::MissingField { fields } => ParseErrorKind::MissingField { fields: fields.clone() },
        ErrorKind::ForbiddenWhitespace => ParseErrorKind::ForbiddenWhitespace,
        ErrorKind::ForbiddenCallee => ParseErrorKind::ForbiddenCallee,
        ErrorKind::ForbiddenKey => ParseErrorKind::ForbiddenKey,
    }
}

/// Copies the position of a `fluent::syntax::parser::ParserError`, where it
/// has one: the three fields of its `ErrorInfo`.
///
/// The contract claims that the copy is the position that the error holds.
#[verifier::external_body]
fn error_info(error: &fluent::syntax::parser::ParserError) -> (out: Option<ParseErrorInfo>)
    ensures
        out.deep_view() == held_error(*error).info,
{
    error.info.as_ref().map(
        |info| ParseErrorInfo { slice: info.slice.clone(), line: info.line, pos: info.pos },
    )
}

/// Lifts the expressions of a placeable, in their order.
fn lift_expressions(expressions: &Vec<ParsedExpression>) -> (out: Vec<SyntaxExpression>)
    ensures
        out.deep_view() == held_expressions(expressions@),
{
    let mut out: Vec<SyntaxExpression> = Vec::new();
    let mut k: usize = 0;
    while k < expressions.len()
        invariant
            0 <= k <= expressions.len(),
            out.len() == k,
            forall|n: int| 0 <= n < k ==> (#[trigger] out@[n])@ == held_expression(expressions@[n]),
        decreases expressions.len() - k,
    {
        out.push(expression_parts(&expressions[k]));
        k += 1;
    }
    assert(out.deep_view() =~= held_expressions(expressions@));
    out
}

/// Lifts the elements of a pattern, in their order.
fn lift_elements(elements: &Vec<ParsedElement>) -> (out: Vec<SyntaxElement>)
    ensures
        out.deep_view() == held_elements(elements@),
{
    let mut out: Vec<SyntaxElement> = Vec::new();
    let mut j: usize = 0;
    while j < elements.len()
        invariant
            0 <= j <= elements.len(),
            out.len() == j,
            forall|n: int| 0 <= n < j ==> (#[trigger] out@[n])@ == held_element(elements@[n]),
        decreases elements.len() - j,
    {
        let element = match element_parts(&elements[j]) {
            ElementParts::Text(text) => SyntaxElement::Text(text.clone()),
            ElementParts::Placeable(expressions) => SyntaxElement::Placeable(
                lift_expressions(&expressions),
            ),
        };
        out.push(element);
        j += 1;
    }
    assert(out.deep_view() =~= held_elements(elements@));
    out
}

/// Lifts one entry of the parser's tree: the plain entry that is returned
/// holds what the parser's entry holds.
fn lift_entry(entry: &ParsedEntry) -> (out: SyntaxEntry)
    ensures
        out@ == held_entry(*entry),
{
    match entry_parts(entry) {
        EntryParts::Message(id, value) => {
            let value = match value {
                Some(elements) => Some(lift_elements(&elements)),
                None => None,
            };
            SyntaxEntry::Message(SyntaxMessage { id: id.clone(), value })
        },
        EntryParts::Comment => SyntaxEntry::Comment,
        EntryParts::Section => SyntaxEntry::Section,
        EntryParts::Junk(body) => SyntaxEntry::Junk(body.clone()),
    }
}

/// Lifts one error of the parser: the plain error that is returned holds
/// the kind and the position that the parser's error holds.
fn lift_error(error: &fluent::syntax::parser::ParserError) -> (out: ParseError)
    ensures
        out@ == held_error(*error),
{
    ParseError { kind: error_kind(error), info: error_info(error) }
}

/// Lifts the entries of the parser's tree, in their order.
fn lift_entries(entries: &Vec<ParsedEntry>) -> (out: Vec<SyntaxEntry>)
    ensures
        out.deep_view() == held_entries(entries@),
{
    let mut out: Vec<SyntaxEntry> = Vec::new();
    let mut i: usize = 0;
    while i < entries.len()
        invariant
            0 <= i <= entries.len(),
            out.len() == i,
            forall|n: int| 0 <= n < i ==> (#[trigger] out@[n])@ == held_entry(entries@[n]),
        decreases entries.len() - i,
    {
        out.push(lift_entry(&entries[i]));
        i += 1;
    }
    assert(out.deep_view() =~= held_entries(entries@));
    out
}

/// Lifts the errors of the parser, in their order.
fn lift_errors(errors: &Vec<fluent::syntax::parser::ParserError>) -> (out: Vec<ParseError>)
    ensures
        out.deep_view() == held_errors(errors@),
{
    let mut out: Vec<ParseError> = Vec::new();
    let mut i: usize = 0;
    while i < errors.len()
        invariant
            0 <= i <= errors.len(),
            out.len() == i,
            forall|n: int| 0 <= n < i ==> (#[trigger] out@[n])@ == held_error(errors@[n]),
        decreases errors.len() - i,
    {
        out.push(lift_error(&errors[i]));
        i += 1;
    }
    assert(out.deep_view() =~= held_errors(errors@));
    out
}

/// The position of an error in a source that was parsed behind one more
/// line: the line is counted one less, the rest is the same.
pub open spec fn one_line_up(info: ParseErrorInfoView) -> ParseErrorInfoView {
    ParseErrorInfoView {
        slice: info.slice,
        line: if info.line > 0 {
            (info.line - 1) as nat
        } else {
            0
        },
        pos: info.pos,
    }
}

/// The errors of a source that was parsed behind one more line, with their
/// lines counted in the source itself.
pub open spec fn lines_up(errors: Seq<ParseErrorView>) -> Seq<ParseErrorView> {
    Seq::new(
        errors.len(),
        |i: int|
            ParseErrorView {
                kind: errors[i].kind,
                info: match errors[i].info {
                    Some(info) => Some(one_line_up(info)),
                    None => None,
                },
            },
    )
}

/// The text that is handed to the parser for a source: the source itself
/// where the parser takes it as it is, else the source behind a line feed,
/// which the parser skips.
pub open spec fn parser_input(source: Seq<char>) -> Seq<char> {
    if counts_to_boundary(source) {
        source
    } else {
        seq!['\n'] + source
    }
}

/// What [`parse_syntax`] returns: what the parser makes of the text that it
/// is handed. Where that text is the source behind a line feed, the lines of
/// the errors are counted one less.
pub open spec fn syntax_spec(source: Seq<char>) -> Result<
    Seq<SyntaxEntryView>,
    Seq<ParseErrorView>,
> {
    match parsed_source(parser_input(source)) {
        Ok(tree) => Ok(tree),
        Err(errors) => Err(
            if counts_to_boundary(source) {
                errors
            } else {
                lines_up(errors)
            },
        ),
    }
}

/// Counts the lines of the errors one less.
fn move_lines_up(errors: Vec<ParseError>) -> (out: Vec<ParseError>)
    ensures
        out.deep_view() == lines_up(errors.deep_view()),
{
    let ghost given = errors.deep_view();
    let mut rest = errors;
    let mut turned: Vec<ParseError> = Vec::new();
    while rest.len() > 0
        invariant
            turned.len() + rest.len() == given.len(),
            forall|k: int| 0 <= k < rest.len() ==> (#[trigger] rest@[k])@ == given[k],
            forall|k: int|
                0 <= k < turned.len() ==> (#[trigger] turned@[k])@ == lines_up(given)[given.len()
                    - 1 - k],
        decreases rest.len(),
    {
        match rest.pop() {
            Some(error) => {
                let ParseError { kind, info } = error;
                let info = match info {
                    Some(info) => {
                        let ParseErrorInfo { slice, line, pos } = info;
                        Some(
                            ParseErrorInfo {
                                slice,
                                line: if line > 0 {
                                    line - 1
                                } else {
                                    0
                                },
                                pos,
                            },
                        )
                    },
                    None => None,
                };
                turned.push(ParseError { kind, info });
            },
            None => {},
        }
    }
    let mut out: Vec<ParseError> = Vec::new();
    while turned.len() > 0
        invariant
            out.len() + turned.len() == given.len(),
            forall|k: int|
                0 <= k < turned.len() ==> (#[trigger] turned@[k])@ == lines_up(given)[given.len()
                    - 1 - k],
            forall|n: int| 0 <= n < out.len() ==> (#[trigger] out@[n])@ == lines_up(given)[n],
        decreases turned.len(),
    {
        match turned.pop() {
            Some(error) => {
                out.push(error);
            },
            None => {},
        }
    }
    out
}

/// Parses a source text into its syntax tree.
///
/// Returns the entries of the resource in declaration order, or the errors
/// of the parser in the order in which it found them. A source that the
/// parser cannot take as it is (see [`parser_takes`]) is parsed behind a
/// leading line feed, which the parser skips.
pub fn parse_syntax(source: &str) -> (out: Result<Vec<SyntaxEntry>, Vec<ParseError>>)
    ensures
        match out {
            Ok(tree) => syntax_spec(source@) == Ok::<Seq<SyntaxEntryView>, Seq<ParseErrorView>>(
                tree.deep_view(),
            ),
            Err(errors) => syntax_spec(source@) == Err::<
                Seq<SyntaxEntryView>,
                Seq<ParseErrorView>,
            >(errors.deep_view()),
        },
{
    if source.is_char_boundary(source.unicode_len()) {
        match syntax_parse(source) {
            Ok(entries) => Ok(lift_entries(&entries)),
            Err(errors) => Err(lift_errors(&errors)),
        }
    } else {
        proof {
            reveal_strlit("\n");
        }
        let padded = String::from_str("\n").concat(source);
        assert(padded@ =~= seq!['\n'] + source@);
        match syntax_parse(padded.as_str()) {
            Ok(entries) => Ok(lift_entries(&entries)),
            Err(errors) => Err(move_lines_up(lift_errors(&errors))),
        }
    }
}

} // verus!
