//! The two-tier error model: a contentless, recoverable `Backtrace` that
//! drives alternation, and a fatal `Failure` carrying a position in the
//! original input together with a message. A `Failure` can be formatted
//! into an owned, user-facing message holding the message text, a
//! truncated snippet of the input at the failure position, and a caret
//! marker line.

use vstd::prelude::*;
use crate::text::{chars_of, concat_chars, copy_range};

verus! {

/// The number of input characters echoed in a formatted error message.
pub const SNIPPET_CHARS: usize = 60;

/// The fixed message reported when unexplained input remains after an
/// otherwise successful parse.
pub open spec fn trailing_message() -> Seq<char> {
    "Unexpected character."@
}

/// An error that occurred while parsing.
#[derive(Debug, PartialEq, Eq)]
pub enum ParseError {
    /// A recoverable signal meaning "this alternative did not match; try
    /// another." Carries no location or message.
    Backtrace,
    /// Parsing should completely fail.
    Failure(ParseErrorFailure),
}

/// A complete parsing failure along with the position in the original
/// input where the error occurred and the error message.
#[derive(Debug, PartialEq, Eq)]
pub struct ParseErrorFailure {
    /// Position into the original input at which the failure is reported.
    pub pos: usize,
    /// The failure message.
    pub message: Vec<char>,
}

/// The uniform result of running a combinator: either the position of the
/// remaining input paired with the parsed value, or an error.
pub type ParseResult<O> = Result<(usize, O), ParseError>;

/// The layout of a formatted failure: the message, a newline, a two-space
/// indented snippet of at most `SNIPPET_CHARS` characters of input
/// starting at the failure position, a newline, and an indented caret
/// marker. Positions outside the input are clamped to its end.
pub open spec fn format_spec(text: Seq<char>, pos: int, message: Seq<char>) -> Seq<char> {
    let start = if pos < 0 {
        0
    } else if pos > text.len() {
        text.len() as int
    } else {
        pos
    };
    let end = if start + SNIPPET_CHARS <= text.len() {
        start + SNIPPET_CHARS
    } else {
        text.len() as int
    };
    message + seq!['\n', ' ', ' '] + text.subrange(start, end) + seq!['\n', ' ', ' ', '~']
}

/// An owned, formatted parse failure, decoupled from the input it was
/// produced from.
#[derive(Debug, Clone, PartialEq, Eq, Hash)]
pub struct ParseErrorFailureError {
    /// The complete formatted message.
    pub message: Vec<char>,
}

impl ParseErrorFailureError {
    pub fn new(message: Vec<char>) -> (r: Self)
        ensures
            r.message == message,
    {
        ParseErrorFailureError { message }
    }
}

impl ParseErrorFailure {
    pub fn new(pos: usize, message: &str) -> (r: Self)
        ensures
            r.pos == pos,
            r.message@ == message@,
    {
        ParseErrorFailure { pos, message: chars_of(message) }
    }

    /// Opinionated helper used to fail for trailing input.
    pub fn new_for_trailing_input(pos: usize) -> (r: Self)
        ensures
            r.pos == pos,
            r.message@ == trailing_message(),
    {
        ParseErrorFailure::new(pos, "Unexpected character.")
    }

    /// Opinionated helper to turn this failure into a result.
    pub fn into_result<T>(&self, text: &Vec<char>) -> (r: Result<T, ParseErrorFailureError>)
        ensures
            r matches Err(e) && e.message@ == format_spec(text@, self.pos as int, self.message@),
    {
        Err(self.into_error(text))
    }

    /// Opinionated helper to turn this failure into a `ParseErrorFailureError`
    /// holding the formatted message.
    pub fn into_error(&self, text: &Vec<char>) -> (e: ParseErrorFailureError)
        ensures
            e.message@ == format_spec(text@, self.pos as int, self.message@),
    {
        let start = if self.pos > text.len() {
            text.len()
        } else {
            self.pos
        };
        // truncate the snippet to prevent wrapping in the console
        let end = if text.len() - start >= SNIPPET_CHARS {
            start + SNIPPET_CHARS
        } else {
            text.len()
        };
        let snippet = copy_range(text, start, end);
        let mut out = self.message.clone();
        proof {
            assert(out@ == self.message@);
        }
        out.push('\n');
        out.push(' ');
        out.push(' ');
        let mut out = concat_chars(&out, &snippet);
        out.push('\n');
        out.push(' ');
        out.push(' ');
        out.push('~');
        proof {
            assert(out@ =~= format_spec(text@, self.pos as int, self.message@));
        }
        ParseErrorFailureError { message: out }
    }
}

impl ParseError {
    /// Builds a failing parse result carrying a `Failure` at `pos` with the
    /// given message.
    pub fn fail<O>(pos: usize, message: &str) -> (r: ParseResult<O>)
        ensures
            r matches Err(ParseError::Failure(f)) && f.pos == pos && f.message@ == message@,
    {
        Err(ParseError::Failure(ParseErrorFailure::new(pos, message)))
    }

    /// Builds a backtracking parse result.
    pub fn backtrace<O>() -> (r: ParseResult<O>)
        ensures
            r matches Err(ParseError::Backtrace),
    {
        Err(ParseError::Backtrace)
    }
}

} // verus!
