//! Repetition combinators: zero-or-more, one-or-more, until-condition and
//! separator-delimited looping. A repetition stops on a backtrack of its
//! inner combinator and propagates a `Failure` of either the inner
//! combinator or the stop condition untouched. An inner combinator that
//! succeeds without consuming input would loop forever; the loop treats
//! that as a fatal internal-contract violation and raises a `Failure`
//! instead.

use vstd::prelude::*;
use crate::algebra::{if_not_empty, IfTrue, NotEmpty};
use crate::combinator::{
    lemma_deep_view_empty, lemma_deep_view_push, Combinator, SpecOutcome,
};
use crate::errors::{ParseError, ParseResult};

verus! {

/// The message of the failure raised when an iteration of a repetition
/// consumes no input.
pub open spec fn no_progress_message() -> Seq<char> {
    "Combinator consumed no input; aborting repetition."@
}

/// A combinator that backtracks on every input; as the stop condition of
/// `many_till` it never stops the loop.
pub struct AlwaysBacktrack;

impl Combinator for AlwaysBacktrack {
    type Output = ();

    open spec fn spec_parse(&self, text: Seq<char>, pos: int) -> SpecOutcome<()> {
        SpecOutcome::Backtrace
    }

    proof fn lemma_progress(&self, text: Seq<char>, pos: int) {
    }

    fn parse(&self, text: &Vec<char>, pos: usize) -> (r: ParseResult<()>) {
        Err(ParseError::Backtrace)
    }
}

/// The outcome of looping `c` from `pos` with the values collected so far
/// in `acc`: while input remains and `stop` backtracks, run `c`; a success
/// of `c` is accumulated, a backtrack of `c` or a success of `stop` ends
/// the loop with what was collected, and a failure of either propagates.
/// A success of `c` that consumes nothing is a fatal contract violation.
pub open spec fn spec_repeat<C: Combinator, S: Combinator>(
    c: C,
    stop: S,
    text: Seq<char>,
    pos: int,
    acc: Seq<<C::Output as DeepView>::V>,
) -> SpecOutcome<Seq<<C::Output as DeepView>::V>>
    decreases text.len() - pos,
{
    if pos < 0 || pos >= text.len() {
        SpecOutcome::Success { pos, value: acc }
    } else {
        match stop.spec_parse(text, pos) {
            SpecOutcome::Success { .. } => SpecOutcome::Success { pos, value: acc },
            SpecOutcome::Failure { pos: p, message } => SpecOutcome::Failure {
                pos: p,
                message,
            },
            SpecOutcome::Backtrace => match c.spec_parse(text, pos) {
                SpecOutcome::Backtrace => SpecOutcome::Success { pos, value: acc },
                SpecOutcome::Failure { pos: p, message } => SpecOutcome::Failure {
                    pos: p,
                    message,
                },
                SpecOutcome::Success { pos: p2, value } => if p2 <= pos || p2 > text.len() {
                    SpecOutcome::Failure { pos, message: no_progress_message() }
                } else {
                    spec_repeat(c, stop, text, p2, acc.push(value))
                },
            },
        }
    }
}

/// A repetition loop stays within the input and never backtracks: it ends
/// in a success or in a propagated failure.
pub proof fn lemma_repeat_progress<C: Combinator, S: Combinator>(
    c: C,
    stop: S,
    text: Seq<char>,
    pos: int,
    acc: Seq<<C::Output as DeepView>::V>,
)
    requires
        0 <= pos <= text.len(),
    ensures
        (match spec_repeat(c, stop, text, pos, acc) {
            SpecOutcome::Success { pos: p, .. } => pos <= p <= text.len(),
            _ => true,
        }),
        !(spec_repeat(c, stop, text, pos, acc) matches SpecOutcome::Backtrace),
    decreases text.len() - pos,
{
    if 0 <= pos < text.len() {
        if (stop.spec_parse(text, pos) matches SpecOutcome::Backtrace) {
            if let SpecOutcome::Success { pos: p2, value } = c.spec_parse(text, pos) {
                if pos < p2 <= text.len() {
                    lemma_repeat_progress(c, stop, text, p2, acc.push(value));
                }
            }
        }
    }
}

/// Keeps consuming a combinator into an array until a condition is met or
/// backtracing occurs.
pub struct ManyTill<C, S> {
    pub combinator: C,
    pub condition: S,
}

impl<C: Combinator, S: Combinator> Combinator for ManyTill<C, S> {
    type Output = Vec<C::Output>;

    open spec fn spec_parse(&self, text: Seq<char>, pos: int) -> SpecOutcome<
        Seq<<C::Output as DeepView>::V>,
    > {
        spec_repeat(self.combinator, self.condition, text, pos, Seq::empty())
    }

    proof fn lemma_progress(&self, text: Seq<char>, pos: int) {
        lemma_repeat_progress(self.combinator, self.condition, text, pos, Seq::empty());
    }

    fn parse(&self, text: &Vec<char>, pos: usize) -> (r: ParseResult<Vec<C::Output>>) {
        let mut results: Vec<C::Output> = Vec::new();
        let mut cur = pos;
        proof {
            lemma_deep_view_empty(results);
        }
        loop
            invariant
                pos <= cur <= text@.len(),
                spec_repeat(self.combinator, self.condition, text@, pos as int, Seq::empty())
                    == spec_repeat(
                    self.combinator,
                    self.condition,
                    text@,
                    cur as int,
                    results.deep_view(),
                ),
            decreases text@.len() - cur,
        {
            if cur >= text.len() {
                return Ok((cur, results));
            }
            match self.condition.parse(text, cur) {
                Ok(_) => {
                    return Ok((cur, results));
                }
                Err(ParseError::Failure(f)) => {
                    return Err(ParseError::Failure(f));
                }
                Err(ParseError::Backtrace) => {}
            }
            match self.combinator.parse(text, cur) {
                Err(ParseError::Backtrace) => {
                    return Ok((cur, results));
                }
                Err(e) => {
                    return Err(e);
                }
                Ok((next, value)) => {
                    proof {
                        self.combinator.lemma_progress(text@, cur as int);
                    }
                    if next <= cur {
                        return ParseError::fail(
                            cur,
                            "Combinator consumed no input; aborting repetition.",
                        );
                    }
                    let ghost pre = results;
                    results.push(value);
                    proof {
                        lemma_deep_view_push(pre, results, value);
                    }
                    cur = next;
                }
            }
        }
    }
}

/// Keeps consuming a combinator into an array until a condition is met or
/// backtracing occurs.
pub fn many_till<C: Combinator, S: Combinator>(combinator: C, condition: S) -> (r: ManyTill<C, S>)
    ensures
        r == (ManyTill { combinator, condition }),
{
    ManyTill { combinator, condition }
}

/// Applies the combinator 0 or more times and returns a vector of all the
/// parsed results.
pub fn many0<C: Combinator>(combinator: C) -> (r: ManyTill<C, AlwaysBacktrack>)
    ensures
        r == (ManyTill { combinator, condition: AlwaysBacktrack }),
{
    many_till(combinator, AlwaysBacktrack)
}

/// Applies the combinator at least 1 time, but maybe more, and returns a
/// vector of all the parsed results.
pub fn many1<C: Combinator>(combinator: C) -> (r: IfTrue<ManyTill<C, AlwaysBacktrack>, NotEmpty>)
    ensures
        r == (IfTrue {
            combinator: ManyTill { combinator, condition: AlwaysBacktrack },
            condition: NotEmpty,
        }),
{
    if_not_empty(many0(combinator))
}

/// The outcome of looping `c`, then a separator, from `cur`: a backtrack
/// of `c` ends the loop, a backtrack of the separator ends it after
/// accumulating the last value, and a failure of either propagates. A
/// separator is committed only together with the next successful element:
/// when no element follows a matched separator — `c` backtracks after it,
/// or the input ends — the loop ends at `fallback`, the position from
/// before that separator, leaving the separator unconsumed. At the start
/// of the list `fallback` is the starting position itself. An iteration
/// that consumes nothing overall is a fatal contract violation.
pub open spec fn spec_separated<C: Combinator, S: Combinator>(
    c: C,
    sep: S,
    text: Seq<char>,
    cur: int,
    fallback: int,
    acc: Seq<<C::Output as DeepView>::V>,
) -> SpecOutcome<Seq<<C::Output as DeepView>::V>>
    decreases text.len() - cur,
{
    if cur < 0 || cur >= text.len() {
        SpecOutcome::Success { pos: cur, value: acc }
    } else {
        match c.spec_parse(text, cur) {
            SpecOutcome::Backtrace => SpecOutcome::Success { pos: fallback, value: acc },
            SpecOutcome::Failure { pos: p, message } => SpecOutcome::Failure {
                pos: p,
                message,
            },
            SpecOutcome::Success { pos: p2, value } => if p2 < cur || p2 > text.len() {
                SpecOutcome::Failure { pos: cur, message: no_progress_message() }
            } else {
                match sep.spec_parse(text, p2) {
                    SpecOutcome::Backtrace => SpecOutcome::Success {
                        pos: p2,
                        value: acc.push(value),
                    },
                    SpecOutcome::Failure { pos: p, message } => SpecOutcome::Failure {
                        pos: p,
                        message,
                    },
                    SpecOutcome::Success { pos: p3, .. } => if p3 <= cur || p3 < p2 || p3
                        > text.len() {
                        SpecOutcome::Failure { pos: cur, message: no_progress_message() }
                    } else if p3 >= text.len() {
                        SpecOutcome::Success { pos: p2, value: acc.push(value) }
                    } else {
                        spec_separated(c, sep, text, p3, p2, acc.push(value))
                    },
                }
            },
        }
    }
}

/// A separated list stays within the input, never moves back past the
/// position its last element ended at, and never backtracks.
pub proof fn lemma_separated_progress<C: Combinator, S: Combinator>(
    c: C,
    sep: S,
    text: Seq<char>,
    cur: int,
    fallback: int,
    acc: Seq<<C::Output as DeepView>::V>,
)
    requires
        0 <= fallback <= cur <= text.len(),
    ensures
        (match spec_separated(c, sep, text, cur, fallback, acc) {
            SpecOutcome::Success { pos: p, .. } => fallback <= p <= text.len(),
            _ => true,
        }),
        !(spec_separated(c, sep, text, cur, fallback, acc) matches SpecOutcome::Backtrace),
    decreases text.len() - cur,
{
    if 0 <= cur < text.len() {
        if let SpecOutcome::Success { pos: p2, value } = c.spec_parse(text, cur) {
            if cur <= p2 <= text.len() {
                if let SpecOutcome::Success { pos: p3, .. } = sep.spec_parse(text, p2) {
                    if cur < p3 && p2 <= p3 && p3 < text.len() {
                        lemma_separated_progress(c, sep, text, p3, p2, acc.push(value));
                    }
                }
            }
        }
    }
}

/// Keeps consuming a combinator into an array, each value separated by a
/// separator match; a trailing separator is not consumed unless followed
/// by another successful match.
pub struct SeparatedList<C, S> {
    pub combinator: C,
    pub separator: S,
}

impl<C: Combinator, S: Combinator> Combinator for SeparatedList<C, S> {
    type Output = Vec<C::Output>;

    open spec fn spec_parse(&self, text: Seq<char>, pos: int) -> SpecOutcome<
        Seq<<C::Output as DeepView>::V>,
    > {
        spec_separated(self.combinator, self.separator, text, pos, pos, Seq::empty())
    }

    proof fn lemma_progress(&self, text: Seq<char>, pos: int) {
        lemma_separated_progress(self.combinator, self.separator, text, pos, pos, Seq::empty());
    }

    fn parse(&self, text: &Vec<char>, pos: usize) -> (r: ParseResult<Vec<C::Output>>) {
        let mut results: Vec<C::Output> = Vec::new();
        let mut cur = pos;
        // the position to resume at when no element follows: before the
        // last matched separator, if one was consumed tentatively
        let mut fallback = pos;
        proof {
            lemma_deep_view_empty(results);
        }
        loop
            invariant
                pos <= fallback <= cur <= text@.len(),
                spec_separated(
                    self.combinator,
                    self.separator,
                    text@,
                    pos as int,
                    pos as int,
                    Seq::empty(),
                ) == spec_separated(
                    self.combinator,
                    self.separator,
                    text@,
                    cur as int,
                    fallback as int,
                    results.deep_view(),
                ),
            decreases text@.len() - cur,
        {
            if cur >= text.len() {
                return Ok((cur, results));
            }
            match self.combinator.parse(text, cur) {
                Err(ParseError::Backtrace) => {
                    return Ok((fallback, results));
                }
                Err(e) => {
                    return Err(e);
                }
                Ok((mid, value)) => {
                    proof {
                        self.combinator.lemma_progress(text@, cur as int);
                    }
                    let ghost pre = results;
                    match self.separator.parse(text, mid) {
                        Err(ParseError::Backtrace) => {
                            results.push(value);
                            proof {
                                lemma_deep_view_push(pre, results, value);
                            }
                            return Ok((mid, results));
                        }
                        Err(e) => {
                            return Err(e);
                        }
                        Ok((next, _)) => {
                            proof {
                                self.separator.lemma_progress(text@, mid as int);
                            }
                            if next <= cur {
                                return ParseError::fail(
                                    cur,
                                    "Combinator consumed no input; aborting repetition.",
                                );
                            }
                            results.push(value);
                            proof {
                                lemma_deep_view_push(pre, results, value);
                            }
                            if next >= text.len() {
                                return Ok((mid, results));
                            }
                            fallback = mid;
                            cur = next;
                        }
                    }
                }
            }
        }
    }
}

/// Keeps consuming a combinator into an array, separated by a separator
/// combinator.
pub fn separated_list<C: Combinator, S: Combinator>(combinator: C, separator: S) -> (r:
    SeparatedList<C, S>)
    ensures
        r == (SeparatedList { combinator, separator }),
{
    SeparatedList { combinator, separator }
}

} // verus!
