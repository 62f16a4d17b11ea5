//! Assertion and context combinators: the only places where a soft
//! backtrack is upgraded into a hard failure, where a failure's reported
//! position is rewritten, and where explanatory context is prepended to a
//! failure's message.

use vstd::prelude::*;
use crate::combinator::{Combinator, OutcomeCondition, SpecOutcome};
use crate::errors::{ParseError, ParseErrorFailure, ParseResult};
use crate::text::{chars_of, clone_chars, concat_chars};

verus! {

/// The separator placed between a context message and the underlying
/// failure's message: a blank line.
pub open spec fn context_separator() -> Seq<char> {
    seq!['\n', '\n']
}

/// Asserts that a given condition is true about the combinator's outcome.
/// Otherwise returns a failure with the message: where the outcome was
/// itself a failure, the message is prepended to it at the failure's
/// position; everywhere else the failure is raised bare, at the current
/// position.
pub struct AssertCond<C, P> {
    pub combinator: C,
    pub condition: P,
    pub message: Vec<char>,
}

impl<C: Combinator, P: OutcomeCondition<C::Output>> Combinator for AssertCond<C, P> {
    type Output = C::Output;

    open spec fn spec_parse(&self, text: Seq<char>, pos: int) -> SpecOutcome<
        <C::Output as DeepView>::V,
    > {
        let s = self.combinator.spec_parse(text, pos);
        if self.condition.spec_test(s) {
            s
        } else {
            match s {
                SpecOutcome::Failure { pos: p, message } => SpecOutcome::Failure {
                    pos: p,
                    message: self.message@ + context_separator() + message,
                },
                _ => SpecOutcome::Failure { pos, message: self.message@ },
            }
        }
    }

    proof fn lemma_progress(&self, text: Seq<char>, pos: int) {
        self.combinator.lemma_progress(text, pos);
    }

    fn parse(&self, text: &Vec<char>, pos: usize) -> (r: ParseResult<C::Output>) {
        let result = self.combinator.parse(text, pos);
        if self.condition.test(&result) {
            result
        } else {
            match result {
                Err(ParseError::Failure(f)) => {
                    let mut prefix = clone_chars(&self.message);
                    prefix.push('\n');
                    prefix.push('\n');
                    let combined = concat_chars(&prefix, &f.message);
                    proof {
                        assert(combined@ =~= self.message@ + context_separator() + f.message@);
                    }
                    Err(ParseError::Failure(ParseErrorFailure {
                        pos: f.pos,
                        message: combined,
                    }))
                }
                _ => Err(ParseError::Failure(ParseErrorFailure {
                    pos,
                    message: clone_chars(&self.message),
                })),
            }
        }
    }
}

/// Asserts that a given condition is true about the combinator.
/// Otherwise returns an error with the message.
pub fn assert_cond<C: Combinator, P: OutcomeCondition<C::Output>>(
    combinator: C,
    condition: P,
    message: &str,
) -> (r: AssertCond<C, P>)
    ensures
        r.combinator == combinator,
        r.condition == condition,
        r.message@ == message@,
{
    AssertCond { combinator, condition, message: chars_of(message) }
}

/// The condition that an outcome is a success.
pub struct IsSuccess;

impl<I: DeepView> OutcomeCondition<I> for IsSuccess {
    open spec fn spec_test(&self, s: SpecOutcome<I::V>) -> bool {
        s matches SpecOutcome::Success { .. }
    }

    fn test(&self, r: &ParseResult<I>) -> (b: bool) {
        r.is_ok()
    }
}

/// Asserts that a combinator resolves. If backtracing occurs, returns a
/// failure.
pub fn assert_exists<C: Combinator>(combinator: C, message: &str) -> (r: AssertCond<C, IsSuccess>)
    ensures
        r.combinator == combinator,
        r.condition == IsSuccess,
        r.message@ == message@,
{
    assert_cond(combinator, IsSuccess, message)
}

/// Changes the position a failure is reported at, in order to provide a
/// better error message; backtrack and success pass through untouched.
pub struct WithFailureInput<C> {
    pub new_pos: usize,
    pub combinator: C,
}

impl<C: Combinator> Combinator for WithFailureInput<C> {
    type Output = C::Output;

    open spec fn spec_parse(&self, text: Seq<char>, pos: int) -> SpecOutcome<
        <C::Output as DeepView>::V,
    > {
        match self.combinator.spec_parse(text, pos) {
            SpecOutcome::Failure { message, .. } => SpecOutcome::Failure {
                pos: self.new_pos as int,
                message,
            },
            outcome => outcome,
        }
    }

    proof fn lemma_progress(&self, text: Seq<char>, pos: int) {
        self.combinator.lemma_progress(text, pos);
    }

    fn parse(&self, text: &Vec<char>, pos: usize) -> (r: ParseResult<C::Output>) {
        match self.combinator.parse(text, pos) {
            Err(ParseError::Failure(f)) => Err(ParseError::Failure(ParseErrorFailure {
                pos: self.new_pos,
                message: f.message,
            })),
            other => other,
        }
    }
}

/// Changes the input position on a failure in order to provide a better
/// error message.
pub fn with_failure_input<C: Combinator>(new_input: usize, combinator: C) -> (r: WithFailureInput<
    C,
>)
    ensures
        r == (WithFailureInput { new_pos: new_input, combinator }),
{
    WithFailureInput { new_pos: new_input, combinator }
}

/// Prepends some context to a failure's message, preserving its position;
/// backtrack and success pass through untouched.
pub struct WithErrorContext<C> {
    pub combinator: C,
    pub message: Vec<char>,
}

impl<C: Combinator> Combinator for WithErrorContext<C> {
    type Output = C::Output;

    open spec fn spec_parse(&self, text: Seq<char>, pos: int) -> SpecOutcome<
        <C::Output as DeepView>::V,
    > {
        match self.combinator.spec_parse(text, pos) {
            SpecOutcome::Failure { pos: p, message } => SpecOutcome::Failure {
                pos: p,
                message: self.message@ + context_separator() + message,
            },
            outcome => outcome,
        }
    }

    proof fn lemma_progress(&self, text: Seq<char>, pos: int) {
        self.combinator.lemma_progress(text, pos);
    }

    fn parse(&self, text: &Vec<char>, pos: usize) -> (r: ParseResult<C::Output>) {
        match self.combinator.parse(text, pos) {
            Err(ParseError::Failure(f)) => {
                let mut prefix = clone_chars(&self.message);
                prefix.push('\n');
                prefix.push('\n');
                let combined = concat_chars(&prefix, &f.message);
                proof {
                    assert(combined@ =~= self.message@ + context_separator() + f.message@);
                }
                Err(ParseError::Failure(ParseErrorFailure { pos: f.pos, message: combined }))
            }
            other => other,
        }
    }
}

/// Provides some context to a failure.
pub fn with_error_context<C: Combinator>(combinator: C, message: &str) -> (r: WithErrorContext<C>)
    ensures
        r.combinator == combinator,
        r.message@ == message@,
{
    WithErrorContext { combinator, message: chars_of(message) }
}

/// Zero-width negative lookahead: succeeds with no consumption iff the
/// combinator would fail, of either kind, on the current input; backtracks
/// iff it would succeed.
pub struct CheckNot<C> {
    pub combinator: C,
}

impl<C: Combinator> Combinator for CheckNot<C> {
    type Output = ();

    open spec fn spec_parse(&self, text: Seq<char>, pos: int) -> SpecOutcome<()> {
        match self.combinator.spec_parse(text, pos) {
            SpecOutcome::Success { .. } => SpecOutcome::Backtrace,
            _ => SpecOutcome::Success { pos, value: () },
        }
    }

    proof fn lemma_progress(&self, text: Seq<char>, pos: int) {
    }

    fn parse(&self, text: &Vec<char>, pos: usize) -> (r: ParseResult<()>) {
        match self.combinator.parse(text, pos) {
            Ok(_) => Err(ParseError::Backtrace),
            Err(_) => Ok((pos, ())),
        }
    }
}

/// Checks if a combinator is false without consuming the input.
pub fn check_not<C: Combinator>(combinator: C) -> (r: CheckNot<C>)
    ensures
        r == (CheckNot { combinator }),
{
    CheckNot { combinator }
}

} // verus!
