//! Diagnostics for the driver: parse failures in the shape of binding
//! diagnostics, and the place of a diagnostic among the lines of the source.

use vstd::prelude::*;
use vstd::string::*;

use crate::ast::SourcePos;
use crate::bind::bound_ast::{TypeError, TypeErrorView};

verus! {

/// Why the parser gave up, with the byte offsets it reported.
#[derive(Clone, Copy, Debug, PartialEq, Eq, Structural)]
pub enum ParseFailure {
    /// The input ended where more was expected, at `location`.
    UnrecognizedEof { location: usize },
    /// The token from `start` to `end` cannot stand where it does.
    UnrecognizedToken { start: usize, end: usize },
    /// No token ends at `location`.
    InvalidToken { location: usize },
}

/// Whether a parse failure has a diagnostic: the span of the diagnostic
/// must exist, so an end of input is not at the last offset there is, and
/// an invalid token is not at offset zero.
pub open spec fn has_diagnostic(failure: ParseFailure) -> bool {
    match failure {
        ParseFailure::UnrecognizedEof { location } => location < usize::MAX,
        ParseFailure::UnrecognizedToken { .. } => true,
        ParseFailure::InvalidToken { location } => location > 0,
    }
}

/// The diagnostic of a parse failure.
///
/// An unexpected end of input covers the one byte at its location, an
/// unrecognised token covers the token, and an invalid token covers the one
/// byte before its location.
pub open spec fn parse_failure_diagnostic(failure: ParseFailure) -> TypeErrorView
    recommends
        has_diagnostic(failure),
{
    match failure {
        ParseFailure::UnrecognizedEof { location } => TypeErrorView {
            msg: "Bad End Of File."@,
            source_pos: SourcePos { start: location, end: (location + 1) as usize },
        },
        ParseFailure::UnrecognizedToken { start, end } => TypeErrorView {
            msg: "Unrecognized Token."@,
            source_pos: SourcePos { start, end },
        },
        ParseFailure::InvalidToken { location } => TypeErrorView {
            msg: "Invalid Token."@,
            source_pos: SourcePos { start: (location - 1) as usize, end: location },
        },
    }
}

/// Tells whether a parse failure has a diagnostic.
pub fn can_report(failure: &ParseFailure) -> (ok: bool)
    ensures
        ok == has_diagnostic(*failure),
{
    match failure {
        ParseFailure::UnrecognizedEof { location } => *location < usize::MAX,
        ParseFailure::UnrecognizedToken { .. } => true,
        ParseFailure::InvalidToken { location } => *location > 0,
    }
}

/// Turns a parse failure into a diagnostic of the shape that binding
/// reports.
pub fn handle_parse_error(failure: &ParseFailure) -> (err: TypeError)
    requires
        has_diagnostic(*failure),
    ensures
        err@ == parse_failure_diagnostic(*failure),
{
    match failure {
        ParseFailure::UnrecognizedEof { location } => TypeError {
            msg: String::from_str("Bad End Of File."),
            source_pos: SourcePos { start: *location, end: *location + 1 },
        },
        ParseFailure::UnrecognizedToken { start, end } => TypeError {
            msg: String::from_str("Unrecognized Token."),
            source_pos: SourcePos { start: *start, end: *end },
        },
        ParseFailure::InvalidToken { location } => TypeError {
            msg: String::from_str("Invalid Token."),
            source_pos: SourcePos { start: *location - 1, end: *location },
        },
    }
}

/// Where a diagnostic lies in the source text, in bytes.
#[derive(Clone, Copy, Debug, PartialEq, Eq, Structural)]
pub struct ErrorLocation {
    /// The number of the line, counted from one.
    pub line: usize,
    /// The offset at which the line starts.
    pub line_start: usize,
    /// The offset at which the line ends: that of its line break, or the
    /// length of the text for the last line.
    pub line_end: usize,
    /// How far into the line the span starts.
    pub column: usize,
    /// How many bytes the span covers.
    pub width: usize,
}

/// The byte of a line break.
pub open spec fn line_break() -> u8 {
    10
}

/// How many line breaks lie before offset `at`.
pub open spec fn breaks_before(source: Seq<u8>, at: int) -> int
    decreases at,
{
    if at <= 0 {
        0
    } else {
        breaks_before(source, at - 1) + if source[at - 1] == line_break() {
            1int
        } else {
            0int
        }
    }
}

/// The offset just after the last line break before `at`, or zero if
/// there is none.
pub open spec fn line_start_of(source: Seq<u8>, at: int) -> int
    decreases at,
{
    if at <= 0 {
        0
    } else if source[at - 1] == line_break() {
        at
    } else {
        line_start_of(source, at - 1)
    }
}

/// The offset of the first line break at or after `at`, or the length of
/// the text if there is none.
pub open spec fn line_end_of(source: Seq<u8>, at: int) -> int
    decreases source.len() - at,
{
    if at >= source.len() {
        source.len() as int
    } else if source[at] == line_break() {
        at
    } else {
        line_end_of(source, at + 1)
    }
}

/// Where the span `pos` lies in `source`: the line that holds the start of
/// the span, a line break counting as the end of the line that it closes.
/// A span that starts beyond the end of the text lies nowhere.
pub open spec fn locate_spec(source: Seq<u8>, pos: SourcePos) -> Option<ErrorLocation>
    recommends
        pos.start <= source.len() ==> pos.wf(),
        source.len() < usize::MAX,
{
    if pos.start <= source.len() {
        Some(
            ErrorLocation {
                line: (breaks_before(source, pos.start as int) + 1) as usize,
                line_start: line_start_of(source, pos.start as int) as usize,
                line_end: line_end_of(source, pos.start as int) as usize,
                column: (pos.start - line_start_of(source, pos.start as int)) as usize,
                width: (pos.end - pos.start) as usize,
            },
        )
    } else {
        None
    }
}

/// Finds the line of the source text in which a diagnostic's span starts.
pub fn locate_error(source: &str, pos: &SourcePos) -> (found: Option<ErrorLocation>)
    requires
        pos.start <= source.spec_bytes().len() ==> pos.wf(),
        source.spec_bytes().len() < usize::MAX,
    ensures
        found == locate_spec(source.spec_bytes(), *pos),
{
    let bytes = source.as_bytes();
    if pos.start > bytes.len() {
        return None;
    }
    let mut line: usize = 1;
    let mut line_start: usize = 0;
    let mut i: usize = 0;
    while i < pos.start
        invariant
            i <= pos.start <= bytes@.len() < usize::MAX,
            line == breaks_before(bytes@, i as int) + 1,
            line <= i + 1,
            line_start == line_start_of(bytes@, i as int),
            line_start <= i,
        decreases pos.start - i,
    {
        if bytes[i] == 10 {
            line = line + 1;
            line_start = i + 1;
        }
        i += 1;
    }
    let mut line_end: usize = pos.start;
    while line_end < bytes.len() && bytes[line_end] != 10
        invariant
            pos.start <= line_end <= bytes@.len(),
            line_end_of(bytes@, pos.start as int) == line_end_of(bytes@, line_end as int),
        decreases bytes@.len() - line_end,
    {
        line_end += 1;
    }
    Some(
        ErrorLocation {
            line,
            line_start,
            line_end,
            column: pos.start - line_start,
            width: pos.end - pos.start,
        },
    )
}

} // verus!
