//! The algebraic laws of the toolkit, stated as public proof functions
//! over the combinators' own specifications.

use vstd::prelude::*;
use crate::algebra::{IfTrue, NotEmpty, OrElse};
use crate::combinator::{Combinator, SpecOutcome};
use crate::driver::spec_drive;
use crate::primitives::{Substring, Tag};
use crate::repetition::{spec_repeat, AlwaysBacktrack, ManyTill};

verus! {

/// Progress invariant: whatever combinator `c` is, if it succeeds on
/// `text` at `pos`, the resulting position lies between `pos` and the end
/// of the text — the remaining input is a suffix of the given one.
pub proof fn lemma_progress_invariant<C: Combinator>(c: C, text: Seq<char>, pos: int)
    requires
        0 <= pos <= text.len(),
    ensures
        (match c.spec_parse(text, pos) {
            SpecOutcome::Success { pos: p, .. } => pos <= p <= text.len(),
            _ => true,
        }),
{
    c.lemma_progress(text, pos);
}

/// Alternation law: `or(a, b)` equals `a` whenever `a` succeeds or fails
/// hard, and equals `b` on the original input exactly when `a`
/// backtracks.
pub proof fn lemma_alternation<A: Combinator, B: Combinator<Output = A::Output>>(
    a: A,
    b: B,
    text: Seq<char>,
    pos: int,
)
    ensures
        !(a.spec_parse(text, pos) matches SpecOutcome::Backtrace) ==> (OrElse {
            a,
            b,
        }).spec_parse(text, pos) == a.spec_parse(text, pos),
        (a.spec_parse(text, pos) matches SpecOutcome::Backtrace) ==> (OrElse {
            a,
            b,
        }).spec_parse(text, pos) == b.spec_parse(text, pos),
{
}

/// Repetition never backtracks: `many0(c)` ends in a success or in a
/// propagated failure, whatever `c` is.
pub proof fn lemma_many0_no_backtrace<C: Combinator>(c: C, text: Seq<char>, pos: int)
    requires
        0 <= pos <= text.len(),
    ensures
        !((ManyTill { combinator: c, condition: AlwaysBacktrack }).spec_parse(text, pos)
            matches SpecOutcome::Backtrace),
{
    crate::repetition::lemma_repeat_progress(c, AlwaysBacktrack, text, pos, Seq::empty());
}

/// A combinator neither fails hard nor stands still at `p`: it either
/// backtracks or consumes at least one character.
pub open spec fn progressive_at<C: Combinator>(c: C, text: Seq<char>, p: int) -> bool {
    match c.spec_parse(text, p) {
        SpecOutcome::Success { pos: p2, .. } => p < p2 <= text.len(),
        SpecOutcome::Backtrace => true,
        SpecOutcome::Failure { .. } => false,
    }
}

proof fn lemma_repeat_success<C: Combinator>(
    c: C,
    text: Seq<char>,
    pos: int,
    acc: Seq<<C::Output as DeepView>::V>,
)
    requires
        0 <= pos <= text.len(),
        forall|p: int| pos <= p < text.len() ==> #[trigger] progressive_at(c, text, p),
    ensures
        (match spec_repeat(c, AlwaysBacktrack, text, pos, acc) {
            SpecOutcome::Success { value: v, .. } => v.len() >= acc.len() && ((v.len()
                == acc.len()) <==> (pos == text.len() || c.spec_parse(text, pos)
                matches SpecOutcome::Backtrace)),
            _ => false,
        }),
    decreases text.len() - pos,
{
    if pos < text.len() {
        assert(progressive_at(c, text, pos));
        if let SpecOutcome::Success { pos: p2, value } = c.spec_parse(text, pos) {
            lemma_repeat_success(c, text, p2, acc.push(value));
        }
    }
}

/// Repetition totality: when `c` neither fails hard nor succeeds without
/// consuming anywhere in the input, `many0(c)` succeeds, and its collected
/// sequence is empty exactly when `c` backtracks immediately or the input
/// is already exhausted.
pub proof fn lemma_many0_totality<C: Combinator>(c: C, text: Seq<char>, pos: int)
    requires
        0 <= pos <= text.len(),
        forall|p: int| pos <= p < text.len() ==> #[trigger] progressive_at(c, text, p),
    ensures
        (match (ManyTill { combinator: c, condition: AlwaysBacktrack }).spec_parse(text, pos) {
            SpecOutcome::Success { value: v, .. } => (v.len() == 0) <==> (pos == text.len()
                || c.spec_parse(text, pos) matches SpecOutcome::Backtrace),
            _ => false,
        }),
{
    lemma_repeat_success(c, text, pos, Seq::empty());
}

/// `many1(c)` backtracks exactly when `many0(c)` would have succeeded
/// with an empty collected sequence, and otherwise equals `many0(c)`.
pub proof fn lemma_many1_of_many0<C: Combinator>(c: C, text: Seq<char>, pos: int)
    ensures
        (IfTrue {
            combinator: ManyTill { combinator: c, condition: AlwaysBacktrack },
            condition: NotEmpty,
        }).spec_parse(text, pos) == (match (ManyTill {
            combinator: c,
            condition: AlwaysBacktrack,
        }).spec_parse(text, pos) {
            SpecOutcome::Success { pos: p, value: v } => if v.len() == 0 {
                SpecOutcome::<Seq<<C::Output as DeepView>::V>>::Backtrace
            } else {
                SpecOutcome::Success { pos: p, value: v }
            },
            outcome => outcome,
        }),
{
}

/// Tag exactness: `tag(s)` succeeds iff the input at `pos` starts with
/// `s` literally, consuming exactly `s`'s length and returning `s`;
/// otherwise it backtracks, never failing hard.
pub proof fn lemma_tag_exact(t: Tag, text: Seq<char>, pos: int)
    requires
        0 <= pos <= text.len(),
    ensures
        (pos + t.value@.len() <= text.len() && text.subrange(pos, pos + t.value@.len())
            == t.value@) ==> t.spec_parse(text, pos) == (SpecOutcome::Success {
            pos: pos + t.value@.len(),
            value: t.value@,
        }),
        !(pos + t.value@.len() <= text.len() && text.subrange(pos, pos + t.value@.len())
            == t.value@) ==> t.spec_parse(text, pos) == SpecOutcome::<Seq<char>>::Backtrace,
{
}

/// Substring fidelity: when `substring(c)` succeeds, its value is the
/// exact slice of the input that `c` consumed — the prefix of the input
/// at `pos` whose length is the number of characters consumed.
pub proof fn lemma_substring_fidelity<C: Combinator>(c: C, text: Seq<char>, pos: int)
    requires
        0 <= pos <= text.len(),
    ensures
        (match (Substring { combinator: c }).spec_parse(text, pos) {
            SpecOutcome::Success { pos: p, value: v } => v == text.subrange(pos, p) && v.len()
                == p - pos,
            _ => true,
        }),
{
    c.lemma_progress(text, pos);
}

/// Driver completeness: driving a combinator over a whole input yields
/// its value iff the combinator succeeds consuming the entire input;
/// leftover input or a top-level backtrack yield a trailing-input
/// failure, and a hard failure is formatted as it stands.
pub proof fn lemma_driver_completeness<C: Combinator>(c: C, text: Seq<char>)
    ensures
        (spec_drive(c, text) matches Ok(v)) <==> (c.spec_parse(text, 0)
            matches SpecOutcome::Success { pos, value } && pos == text.len()),
        (spec_drive(c, text) matches Ok(v) ==> c.spec_parse(text, 0)
            matches SpecOutcome::Success { pos, value } && value == v),
{
}

} // verus!
