//! The top-level driver: turns an in-progress combinator into a finished,
//! caller-facing result over a whole input, enforcing that all input was
//! consumed.

use vstd::prelude::*;
use crate::combinator::{Combinator, SpecOutcome};
use crate::errors::{format_spec, trailing_message, ParseError, ParseErrorFailure,
    ParseErrorFailureError};

verus! {

/// The terminal outcome of driving a combinator over a whole input: the
/// parsed value when the combinator succeeds consuming everything; a
/// trailing-input failure located at the remainder when input is left
/// over; a trailing-input failure located at the start when the
/// combinator backtracks at top level; and the formatted failure itself
/// when it fails hard.
pub open spec fn spec_drive<C: Combinator>(combinator: C, text: Seq<char>) -> Result<
    <C::Output as DeepView>::V,
    Seq<char>,
> {
    match combinator.spec_parse(text, 0) {
        SpecOutcome::Success { pos, value } => if pos == text.len() {
            Ok(value)
        } else {
            Err(format_spec(text, pos, trailing_message()))
        },
        SpecOutcome::Backtrace => Err(format_spec(text, 0, trailing_message())),
        SpecOutcome::Failure { pos, message } => Err(format_spec(text, pos, message)),
    }
}

/// Opinionated helper that runs a combinator over a whole input and
/// converts its outcome into a terminal result: the parse succeeds with
/// the combinator's value iff the combinator succeeds with an empty
/// remaining input; leftover input or a top-level backtrack yield a
/// trailing-input failure, and a hard failure is formatted and returned.
pub fn with_failure_handling<C: Combinator>(combinator: C, text: &Vec<char>) -> (r: Result<
    C::Output,
    ParseErrorFailureError,
>)
    ensures
        (match spec_drive(combinator, text@) {
            Ok(v) => r matches Ok(out) && out.deep_view() == v,
            Err(m) => r matches Err(e) && e.message@ == m,
        }),
{
    match combinator.parse(text, 0) {
        Ok((pos, value)) => {
            proof {
                combinator.lemma_progress(text@, 0);
            }
            if pos < text.len() {
                ParseErrorFailure::new_for_trailing_input(pos).into_result(text)
            } else {
                Ok(value)
            }
        }
        Err(ParseError::Backtrace) => ParseErrorFailure::new_for_trailing_input(0).into_result(
            text,
        ),
        Err(ParseError::Failure(f)) => f.into_result(text),
    }
}

} // verus!
