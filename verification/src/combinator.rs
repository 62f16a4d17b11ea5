//! The combinator contract. A combinator is a small strategy value with a
//! `parse` method from an input position to either an advanced position
//! paired with a parsed value, or one of the two error kinds. Each
//! combinator also carries a mathematical description of itself: a spec
//! function from the input to the abstract outcome, which `parse` is
//! proved to implement exactly, and a proof obligation that a success
//! never moves backwards nor past the end of the input.

use vstd::prelude::*;
use crate::errors::{ParseError, ParseResult};

verus! {

/// The abstract outcome of running a combinator on `text` at a position:
/// the success value is described by the deep view of the executable
/// value, and a failure message by its character sequence.
pub enum SpecOutcome<V> {
    /// The parse succeeded: the remaining input starts at `pos` and the
    /// parsed value's view is `value`.
    Success { pos: int, value: V },
    /// The alternative did not match; recoverable.
    Backtrace,
    /// Definitely wrong input: fatal, located at `pos`.
    Failure { pos: int, message: Seq<char> },
}

/// Maps an executable parse result to the abstract outcome it denotes.
pub open spec fn outcome_of<O: DeepView>(r: ParseResult<O>) -> SpecOutcome<O::V> {
    match r {
        Ok((pos, value)) => SpecOutcome::Success { pos: pos as int, value: value.deep_view() },
        Err(ParseError::Backtrace) => SpecOutcome::Backtrace,
        Err(ParseError::Failure(f)) => SpecOutcome::Failure {
            pos: f.pos as int,
            message: f.message@,
        },
    }
}

/// A parser combinator: a pure recognizer over an input of characters.
///
/// `spec_parse` is the combinator's own mathematical description;
/// `parse` is proved to return exactly the outcome `spec_parse` describes,
/// and `lemma_progress` obliges every combinator to prove that a success
/// only ever consumes forward from its input: the resulting position lies
/// between the given one and the end of the text.
pub trait Combinator: Sized {
    /// The type of the value a success carries.
    type Output: DeepView;

    /// The abstract outcome of this combinator on `text` at `pos`.
    spec fn spec_parse(&self, text: Seq<char>, pos: int) -> SpecOutcome<
        <Self::Output as DeepView>::V,
    >;

    /// A success consumes forward only: its resulting position is between
    /// the starting position and the end of the input.
    proof fn lemma_progress(&self, text: Seq<char>, pos: int)
        requires
            0 <= pos <= text.len(),
        ensures
            (match self.spec_parse(text, pos) {
                SpecOutcome::Success { pos: p, .. } => pos <= p <= text.len(),
                _ => true,
            }),
    ;

    /// Runs the combinator on `text` at `pos`.
    fn parse(&self, text: &Vec<char>, pos: usize) -> (r: ParseResult<Self::Output>)
        requires
            pos <= text@.len(),
        ensures
            outcome_of(r) == self.spec_parse(text@, pos as int),
    ;
}

/// A predicate over a parsed value, given with both its mathematical
/// meaning (over the value's view) and an executable test proved to agree
/// with it.
pub trait ValueCondition<I: DeepView> {
    /// What the predicate holds of, stated over the value's view.
    spec fn spec_test(&self, v: I::V) -> bool;

    /// Executable form of the predicate.
    fn test(&self, v: &I) -> (b: bool)
        ensures
            b == self.spec_test(v.deep_view()),
    ;
}

/// A value transformation, given with both its mathematical meaning (over
/// views) and an executable form proved to agree with it.
pub trait MapFn<I: DeepView> {
    /// The type of the transformed value.
    type Output: DeepView;

    /// The transformation, stated over views.
    spec fn spec_call(&self, v: I::V) -> <Self::Output as DeepView>::V;

    /// Executable form of the transformation.
    fn call(&self, v: I) -> (r: Self::Output)
        ensures
            r.deep_view() == self.spec_call(v.deep_view()),
    ;
}

/// A transformation of a whole parse outcome, success or error, into an
/// arbitrary caller-chosen value.
pub trait OutcomeMapper<I: DeepView> {
    /// The type of the produced value.
    type Output: DeepView;

    /// The transformation, stated over the abstract outcome.
    spec fn spec_call(&self, s: SpecOutcome<I::V>) -> <Self::Output as DeepView>::V;

    /// Executable form of the transformation.
    fn call(&self, r: ParseResult<I>) -> (out: Self::Output)
        ensures
            out.deep_view() == self.spec_call(outcome_of(r)),
    ;
}

/// A predicate over a whole parse outcome, success or error.
pub trait OutcomeCondition<I: DeepView> {
    /// What the predicate holds of, stated over the abstract outcome.
    spec fn spec_test(&self, s: SpecOutcome<I::V>) -> bool;

    /// Executable form of the predicate.
    fn test(&self, r: &ParseResult<I>) -> (b: bool)
        ensures
            b == self.spec_test(outcome_of(*r)),
    ;
}

/// A value that can be asked whether it is empty; used by `if_not_empty`
/// and `many1` to reject empty results.
pub trait IsEmptyable: DeepView {
    /// Emptiness, stated over the value's view.
    spec fn view_is_empty(v: Self::V) -> bool;

    /// Executable emptiness test.
    fn is_empty(&self) -> (b: bool)
        ensures
            b == Self::view_is_empty(self.deep_view()),
    ;
}

impl<T: DeepView> IsEmptyable for Vec<T> {
    open spec fn view_is_empty(v: Seq<T::V>) -> bool {
        v.len() == 0
    }

    fn is_empty(&self) -> (b: bool) {
        self.len() == 0
    }
}

impl IsEmptyable for String {
    open spec fn view_is_empty(v: Seq<char>) -> bool {
        v.len() == 0
    }

    fn is_empty(&self) -> (b: bool) {
        self.as_str().is_empty()
    }
}

/// Pushing onto a vector pushes the element's view onto the vector's deep
/// view.
pub proof fn lemma_deep_view_push<T: DeepView>(pre: Vec<T>, post: Vec<T>, x: T)
    requires
        post@ == pre@.push(x),
    ensures
        post.deep_view() == pre.deep_view().push(x.deep_view()),
{
    assert(post.deep_view() =~= pre.deep_view().push(x.deep_view()));
}

/// An empty vector's deep view is the empty sequence.
pub proof fn lemma_deep_view_empty<T: DeepView>(v: Vec<T>)
    requires
        v@.len() == 0,
    ensures
        v.deep_view() == Seq::<T::V>::empty(),
{
    assert(v.deep_view() =~= Seq::<T::V>::empty());
}

} // verus!
