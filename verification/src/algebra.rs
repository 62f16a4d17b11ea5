//! Value-transformation and sequencing operators: combinators built from
//! smaller combinators without touching the input directly. Errors are
//! threaded through unchanged: the first error encountered left-to-right
//! aborts a sequence, and alternation moves on only after a `Backtrace`,
//! never after a `Failure`.

use vstd::prelude::*;
use crate::combinator::{
    outcome_of, Combinator, IsEmptyable, MapFn, OutcomeMapper, SpecOutcome, ValueCondition,
};
use crate::errors::{ParseError, ParseResult};

verus! {

/// Checks if a condition is true of the value a combinator parsed;
/// backtracks when it is not.
pub struct IfTrue<C, P> {
    pub combinator: C,
    pub condition: P,
}

impl<C: Combinator, P: ValueCondition<C::Output>> Combinator for IfTrue<C, P> {
    type Output = C::Output;

    open spec fn spec_parse(&self, text: Seq<char>, pos: int) -> SpecOutcome<
        <C::Output as DeepView>::V,
    > {
        match self.combinator.spec_parse(text, pos) {
            SpecOutcome::Success { pos: p, value } => if self.condition.spec_test(value) {
                SpecOutcome::Success { pos: p, value }
            } else {
                SpecOutcome::Backtrace
            },
            SpecOutcome::Backtrace => SpecOutcome::Backtrace,
            SpecOutcome::Failure { pos: p, message } => SpecOutcome::Failure {
                pos: p,
                message,
            },
        }
    }

    proof fn lemma_progress(&self, text: Seq<char>, pos: int) {
        self.combinator.lemma_progress(text, pos);
    }

    fn parse(&self, text: &Vec<char>, pos: usize) -> (r: ParseResult<C::Output>) {
        match self.combinator.parse(text, pos) {
            Ok((next, value)) => {
                if self.condition.test(&value) {
                    Ok((next, value))
                } else {
                    Err(ParseError::Backtrace)
                }
            }
            Err(e) => Err(e),
        }
    }
}

/// Checks if a condition is true for a combinator.
pub fn if_true<C: Combinator, P: ValueCondition<C::Output>>(combinator: C, condition: P) -> (r:
    IfTrue<C, P>)
    ensures
        r == (IfTrue { combinator, condition }),
{
    IfTrue { combinator, condition }
}

/// The condition that a value is not empty.
pub struct NotEmpty;

impl<I: IsEmptyable> ValueCondition<I> for NotEmpty {
    open spec fn spec_test(&self, v: I::V) -> bool {
        !I::view_is_empty(v)
    }

    fn test(&self, v: &I) -> (b: bool) {
        !v.is_empty()
    }
}

/// Checks if the combinator result is not empty.
pub fn if_not_empty<C: Combinator>(combinator: C) -> (r: IfTrue<C, NotEmpty>) where
    C::Output: IsEmptyable,

    ensures
        r == (IfTrue { combinator, condition: NotEmpty }),
{
    if_true(combinator, NotEmpty)
}

/// Maps the success of a combinator by a function; errors pass through
/// unchanged.
pub struct Mapped<C, F> {
    pub combinator: C,
    pub func: F,
}

impl<C: Combinator, F: MapFn<C::Output>> Combinator for Mapped<C, F> {
    type Output = F::Output;

    open spec fn spec_parse(&self, text: Seq<char>, pos: int) -> SpecOutcome<
        <F::Output as DeepView>::V,
    > {
        match self.combinator.spec_parse(text, pos) {
            SpecOutcome::Success { pos: p, value } => SpecOutcome::Success {
                pos: p,
                value: self.func.spec_call(value),
            },
            SpecOutcome::Backtrace => SpecOutcome::Backtrace,
            SpecOutcome::Failure { pos: p, message } => SpecOutcome::Failure {
                pos: p,
                message,
            },
        }
    }

    proof fn lemma_progress(&self, text: Seq<char>, pos: int) {
        self.combinator.lemma_progress(text, pos);
    }

    fn parse(&self, text: &Vec<char>, pos: usize) -> (r: ParseResult<F::Output>) {
        match self.combinator.parse(text, pos) {
            Ok((next, value)) => Ok((next, self.func.call(value))),
            Err(e) => Err(e),
        }
    }
}

/// Maps the success of a combinator by a function.
pub fn map<C: Combinator, F: MapFn<C::Output>>(combinator: C, func: F) -> (r: Mapped<C, F>)
    ensures
        r == (Mapped { combinator, func }),
{
    Mapped { combinator, func }
}

/// Hands the entire outcome of a combinator, success or error, to a
/// function and returns whatever it produces.
pub fn map_res<C: Combinator, F: OutcomeMapper<C::Output>>(
    combinator: C,
    func: F,
    text: &Vec<char>,
    pos: usize,
) -> (r: F::Output)
    requires
        pos <= text@.len(),
    ensures
        r.deep_view() == func.spec_call(combinator.spec_parse(text@, pos as int)),
{
    func.call(combinator.parse(text, pos))
}

/// Maps a whole outcome to whether it was a success.
pub struct SuccessFlag;

impl<I: DeepView> OutcomeMapper<I> for SuccessFlag {
    type Output = bool;

    open spec fn spec_call(&self, s: SpecOutcome<I::V>) -> bool {
        s matches SpecOutcome::Success { .. }
    }

    fn call(&self, r: ParseResult<I>) -> (out: bool) {
        r.is_ok()
    }
}

/// Maps a success to `Some(value)` and a backtrace to a success with
/// `None` and no consumption; a `Failure` still propagates.
pub struct Maybe<C> {
    pub combinator: C,
}

impl<C: Combinator> Combinator for Maybe<C> {
    type Output = Option<C::Output>;

    open spec fn spec_parse(&self, text: Seq<char>, pos: int) -> SpecOutcome<
        Option<<C::Output as DeepView>::V>,
    > {
        match self.combinator.spec_parse(text, pos) {
            SpecOutcome::Success { pos: p, value } => SpecOutcome::Success {
                pos: p,
                value: Some(value),
            },
            SpecOutcome::Backtrace => SpecOutcome::Success { pos, value: None },
            SpecOutcome::Failure { pos: p, message } => SpecOutcome::Failure {
                pos: p,
                message,
            },
        }
    }

    proof fn lemma_progress(&self, text: Seq<char>, pos: int) {
        self.combinator.lemma_progress(text, pos);
    }

    fn parse(&self, text: &Vec<char>, pos: usize) -> (r: ParseResult<Option<C::Output>>) {
        match self.combinator.parse(text, pos) {
            Ok((next, value)) => Ok((next, Some(value))),
            Err(ParseError::Backtrace) => Ok((pos, None)),
            Err(e) => Err(e),
        }
    }
}

/// Maps a success to `Some(T)` and a backtrace to `None`.
pub fn maybe<C: Combinator>(combinator: C) -> (r: Maybe<C>)
    ensures
        r == (Maybe { combinator }),
{
    Maybe { combinator }
}

/// Tries the first combinator; on its backtrack, tries the second on the
/// original input. A success or a `Failure` from the first is final.
pub struct OrElse<A, B> {
    pub a: A,
    pub b: B,
}

impl<A: Combinator, B: Combinator<Output = A::Output>> Combinator for OrElse<A, B> {
    type Output = A::Output;

    open spec fn spec_parse(&self, text: Seq<char>, pos: int) -> SpecOutcome<
        <A::Output as DeepView>::V,
    > {
        match self.a.spec_parse(text, pos) {
            SpecOutcome::Backtrace => self.b.spec_parse(text, pos),
            outcome => outcome,
        }
    }

    proof fn lemma_progress(&self, text: Seq<char>, pos: int) {
        self.a.lemma_progress(text, pos);
        self.b.lemma_progress(text, pos);
    }

    fn parse(&self, text: &Vec<char>, pos: usize) -> (r: ParseResult<A::Output>) {
        match self.a.parse(text, pos) {
            Ok(result) => Ok(result),
            Err(ParseError::Backtrace) => self.b.parse(text, pos),
            Err(e) => Err(e),
        }
    }
}

/// Checks for either to match.
pub fn or<A: Combinator, B: Combinator<Output = A::Output>>(a: A, b: B) -> (r: OrElse<A, B>)
    ensures
        r == (OrElse { a, b }),
{
    OrElse { a, b }
}

/// Checks for any to match.
pub fn or3<A: Combinator, B: Combinator<Output = A::Output>, C: Combinator<Output = A::Output>>(
    a: A,
    b: B,
    c: C,
) -> (r: OrElse<A, OrElse<B, C>>)
    ensures
        r == (OrElse { a, b: OrElse { a: b, b: c } }),
{
    or(a, or(b, c))
}

/// Checks for any to match.
pub fn or4<
    A: Combinator,
    B: Combinator<Output = A::Output>,
    C: Combinator<Output = A::Output>,
    D: Combinator<Output = A::Output>,
>(a: A, b: B, c: C, d: D) -> (r: OrElse<A, OrElse<B, OrElse<C, D>>>)
    ensures
        r == (OrElse { a, b: OrElse { a: b, b: OrElse { a: c, b: d } } }),
{
    or3(a, b, or(c, d))
}

/// Checks for any to match.
pub fn or5<
    A: Combinator,
    B: Combinator<Output = A::Output>,
    C: Combinator<Output = A::Output>,
    D: Combinator<Output = A::Output>,
    E: Combinator<Output = A::Output>,
>(a: A, b: B, c: C, d: D, e: E) -> (r: OrElse<A, OrElse<B, OrElse<C, OrElse<D, E>>>>)
    ensures
        r == (OrElse {
            a,
            b: OrElse { a: b, b: OrElse { a: c, b: OrElse { a: d, b: e } } },
        }),
{
    or4(a, b, c, or(d, e))
}

/// Checks for any to match.
pub fn or6<
    A: Combinator,
    B: Combinator<Output = A::Output>,
    C: Combinator<Output = A::Output>,
    D: Combinator<Output = A::Output>,
    E: Combinator<Output = A::Output>,
    F: Combinator<Output = A::Output>,
>(a: A, b: B, c: C, d: D, e: E, f: F) -> (r: OrElse<
    A,
    OrElse<B, OrElse<C, OrElse<D, OrElse<E, F>>>>,
>)
    ensures
        r == (OrElse {
            a,
            b: OrElse {
                a: b,
                b: OrElse { a: c, b: OrElse { a: d, b: OrElse { a: e, b: f } } },
            },
        }),
{
    or5(a, b, c, d, or(e, f))
}

/// Checks for any to match.
pub fn or7<
    A: Combinator,
    B: Combinator<Output = A::Output>,
    C: Combinator<Output = A::Output>,
    D: Combinator<Output = A::Output>,
    E: Combinator<Output = A::Output>,
    F: Combinator<Output = A::Output>,
    G: Combinator<Output = A::Output>,
>(a: A, b: B, c: C, d: D, e: E, f: F, g: G) -> (r: OrElse<
    A,
    OrElse<B, OrElse<C, OrElse<D, OrElse<E, OrElse<F, G>>>>>,
>)
    ensures
        r == (OrElse {
            a,
            b: OrElse {
                a: b,
                b: OrElse {
                    a: c,
                    b: OrElse { a: d, b: OrElse { a: e, b: OrElse { a: f, b: g } } },
                },
            },
        }),
{
    or6(a, b, c, d, e, or(f, g))
}

/// Runs two combinators in sequence on the progressively advanced input
/// and returns both values; any error from either aborts the pair.
pub struct Pair<A, B> {
    pub first: A,
    pub second: B,
}

impl<A: Combinator, B: Combinator> Combinator for Pair<A, B> {
    type Output = (A::Output, B::Output);

    open spec fn spec_parse(&self, text: Seq<char>, pos: int) -> SpecOutcome<
        (<A::Output as DeepView>::V, <B::Output as DeepView>::V),
    > {
        match self.first.spec_parse(text, pos) {
            SpecOutcome::Success { pos: p1, value: v1 } => match self.second.spec_parse(
                text,
                p1,
            ) {
                SpecOutcome::Success { pos: p2, value: v2 } => SpecOutcome::Success {
                    pos: p2,
                    value: (v1, v2),
                },
                SpecOutcome::Backtrace => SpecOutcome::Backtrace,
                SpecOutcome::Failure { pos: p, message } => SpecOutcome::Failure {
                    pos: p,
                    message,
                },
            },
            SpecOutcome::Backtrace => SpecOutcome::Backtrace,
            SpecOutcome::Failure { pos: p, message } => SpecOutcome::Failure {
                pos: p,
                message,
            },
        }
    }

    proof fn lemma_progress(&self, text: Seq<char>, pos: int) {
        self.first.lemma_progress(text, pos);
        if let SpecOutcome::Success { pos: p1, .. } = self.first.spec_parse(text, pos) {
            self.second.lemma_progress(text, p1);
        }
    }

    fn parse(&self, text: &Vec<char>, pos: usize) -> (r: ParseResult<(A::Output, B::Output)>) {
        match self.first.parse(text, pos) {
            Ok((mid, v1)) => {
                proof {
                    self.first.lemma_progress(text@, pos as int);
                }
                match self.second.parse(text, mid) {
                    Ok((next, v2)) => Ok((next, (v1, v2))),
                    Err(e) => Err(e),
                }
            }
            Err(e) => Err(e),
        }
    }
}

/// Returns both results of the two combinators.
pub fn pair<A: Combinator, B: Combinator>(first: A, second: B) -> (r: Pair<A, B>)
    ensures
        r == (Pair { first, second }),
{
    Pair { first, second }
}

/// Keeps the second component of a parsed pair.
pub struct TakeSecond;

impl<A: DeepView, B: DeepView> MapFn<(A, B)> for TakeSecond {
    type Output = B;

    open spec fn spec_call(&self, v: (A::V, B::V)) -> B::V {
        v.1
    }

    fn call(&self, v: (A, B)) -> (r: B) {
        v.1
    }
}

/// Keeps the first component of a parsed pair.
pub struct TakeFirst;

impl<A: DeepView, B: DeepView> MapFn<(A, B)> for TakeFirst {
    type Output = A;

    open spec fn spec_call(&self, v: (A::V, B::V)) -> A::V {
        v.0
    }

    fn call(&self, v: (A, B)) -> (r: A) {
        v.0
    }
}

/// Returns the second value and discards the first.
pub fn preceded<A: Combinator, B: Combinator>(first: A, second: B) -> (r: Mapped<
    Pair<A, B>,
    TakeSecond,
>)
    ensures
        r == (Mapped { combinator: Pair { first, second }, func: TakeSecond }),
{
    map(pair(first, second), TakeSecond)
}

/// Returns the first value and discards the second.
pub fn terminated<A: Combinator, B: Combinator>(first: A, second: B) -> (r: Mapped<
    Pair<A, B>,
    TakeFirst,
>)
    ensures
        r == (Mapped { combinator: Pair { first, second }, func: TakeFirst }),
{
    map(pair(first, second), TakeFirst)
}

/// Gets a second value that is delimited by a first and third.
pub struct Delimited<A, B, C> {
    pub first: A,
    pub second: B,
    pub third: C,
}

impl<A: Combinator, B: Combinator, C: Combinator> Combinator for Delimited<A, B, C> {
    type Output = B::Output;

    open spec fn spec_parse(&self, text: Seq<char>, pos: int) -> SpecOutcome<
        <B::Output as DeepView>::V,
    > {
        match self.first.spec_parse(text, pos) {
            SpecOutcome::Success { pos: p1, .. } => match self.second.spec_parse(text, p1) {
                SpecOutcome::Success { pos: p2, value } => match self.third.spec_parse(
                    text,
                    p2,
                ) {
                    SpecOutcome::Success { pos: p3, .. } => SpecOutcome::Success {
                        pos: p3,
                        value,
                    },
                    SpecOutcome::Backtrace => SpecOutcome::Backtrace,
                    SpecOutcome::Failure { pos: p, message } => SpecOutcome::Failure {
                        pos: p,
                        message,
                    },
                },
                SpecOutcome::Backtrace => SpecOutcome::Backtrace,
                SpecOutcome::Failure { pos: p, message } => SpecOutcome::Failure {
                    pos: p,
                    message,
                },
            },
            SpecOutcome::Backtrace => SpecOutcome::Backtrace,
            SpecOutcome::Failure { pos: p, message } => SpecOutcome::Failure {
                pos: p,
                message,
            },
        }
    }

    proof fn lemma_progress(&self, text: Seq<char>, pos: int) {
        self.first.lemma_progress(text, pos);
        if let SpecOutcome::Success { pos: p1, .. } = self.first.spec_parse(text, pos) {
            self.second.lemma_progress(text, p1);
            if let SpecOutcome::Success { pos: p2, .. } = self.second.spec_parse(text, p1) {
                self.third.lemma_progress(text, p2);
            }
        }
    }

    fn parse(&self, text: &Vec<char>, pos: usize) -> (r: ParseResult<B::Output>) {
        match self.first.parse(text, pos) {
            Ok((p1, _)) => {
                proof {
                    self.first.lemma_progress(text@, pos as int);
                }
                match self.second.parse(text, p1) {
                    Ok((p2, value)) => {
                        proof {
                            self.second.lemma_progress(text@, p1 as int);
                        }
                        match self.third.parse(text, p2) {
                            Ok((p3, _)) => Ok((p3, value)),
                            Err(e) => Err(e),
                        }
                    }
                    Err(e) => Err(e),
                }
            }
            Err(e) => Err(e),
        }
    }
}

/// Gets a second value that is delimited by a first and third.
pub fn delimited<A: Combinator, B: Combinator, C: Combinator>(first: A, second: B, third: C) -> (r:
    Delimited<A, B, C>)
    ensures
        r == (Delimited { first, second, third }),
{
    Delimited { first, second, third }
}

} // verus!
