//! Atomic recognizers operating directly on the input: single character,
//! character set, literal tag, predicate-driven span, substring capture,
//! and whitespace.

use vstd::prelude::*;
use crate::algebra::{if_not_empty, if_true, IfTrue, NotEmpty};
use crate::combinator::{Combinator, SpecOutcome, ValueCondition};
use crate::errors::{ParseError, ParseResult};
use crate::text::{chars_of, copy_range};

verus! {

/// Gets the next character; backtracks on empty input.
pub struct NextChar;

impl Combinator for NextChar {
    type Output = char;

    open spec fn spec_parse(&self, text: Seq<char>, pos: int) -> SpecOutcome<char> {
        if 0 <= pos < text.len() {
            SpecOutcome::Success { pos: pos + 1, value: text[pos] }
        } else {
            SpecOutcome::Backtrace
        }
    }

    proof fn lemma_progress(&self, text: Seq<char>, pos: int) {
    }

    fn parse(&self, text: &Vec<char>, pos: usize) -> (r: ParseResult<char>) {
        if pos < text.len() {
            Ok((pos + 1, text[pos]))
        } else {
            Err(ParseError::Backtrace)
        }
    }
}

/// Gets the next character.
pub fn next_char() -> (r: NextChar)
    ensures
        r == NextChar,
{
    NextChar
}

/// The condition that a character equals a given one.
pub struct CharEquals {
    pub c: char,
}

impl ValueCondition<char> for CharEquals {
    open spec fn spec_test(&self, v: char) -> bool {
        v == self.c
    }

    fn test(&self, v: &char) -> (b: bool) {
        *v == self.c
    }
}

/// Recognizes a character.
pub fn ch(c: char) -> (r: IfTrue<NextChar, CharEquals>)
    ensures
        r == (IfTrue { combinator: NextChar, condition: CharEquals { c } }),
{
    if_true(NextChar, CharEquals { c })
}

/// Recognizes any character in the provided set.
pub struct OneOf {
    pub set: Vec<char>,
}

impl Combinator for OneOf {
    type Output = char;

    open spec fn spec_parse(&self, text: Seq<char>, pos: int) -> SpecOutcome<char> {
        if 0 <= pos < text.len() && self.set@.contains(text[pos]) {
            SpecOutcome::Success { pos: pos + 1, value: text[pos] }
        } else {
            SpecOutcome::Backtrace
        }
    }

    proof fn lemma_progress(&self, text: Seq<char>, pos: int) {
    }

    fn parse(&self, text: &Vec<char>, pos: usize) -> (r: ParseResult<char>) {
        if pos < text.len() {
            let c = text[pos];
            let next = pos + 1;
            let mut i: usize = 0;
            while i < self.set.len()
                invariant
                    i <= self.set@.len(),
                    pos < text@.len(),
                    next == pos + 1,
                    c == text@[pos as int],
                    forall|j: int| 0 <= j < i ==> self.set@[j] != c,
                decreases self.set@.len() - i,
            {
                if self.set[i] == c {
                    proof {
                        assert(self.set@.contains(c));
                    }
                    return Ok((next, c));
                }
                i = i + 1;
            }
            proof {
                assert(!self.set@.contains(c));
            }
            Err(ParseError::Backtrace)
        } else {
            Err(ParseError::Backtrace)
        }
    }
}

/// Recognizes any character in the provided string.
pub fn one_of(value: &str) -> (r: OneOf)
    ensures
        r.set@ == value@,
{
    OneOf { set: chars_of(value) }
}

/// Recognizes a literal string, consuming exactly its length; otherwise
/// backtracks, never failing hard.
pub struct Tag {
    pub value: Vec<char>,
}

impl Combinator for Tag {
    type Output = Vec<char>;

    open spec fn spec_parse(&self, text: Seq<char>, pos: int) -> SpecOutcome<Seq<char>> {
        if 0 <= pos && pos + self.value@.len() <= text.len() && text.subrange(
            pos,
            pos + self.value@.len(),
        ) == self.value@ {
            SpecOutcome::Success { pos: pos + self.value@.len(), value: self.value@ }
        } else {
            SpecOutcome::Backtrace
        }
    }

    proof fn lemma_progress(&self, text: Seq<char>, pos: int) {
    }

    fn parse(&self, text: &Vec<char>, pos: usize) -> (r: ParseResult<Vec<char>>) {
        if text.len() - pos < self.value.len() {
            return Err(ParseError::Backtrace);
        }
        let end = pos + self.value.len();
        let mut i: usize = 0;
        while i < self.value.len()
            invariant
                pos + self.value@.len() <= text@.len(),
                end == pos + self.value@.len(),
                i <= self.value@.len(),
                forall|j: int| 0 <= j < i ==> text@[pos + j] == self.value@[j],
            decreases self.value@.len() - i,
        {
            if text[pos + i] != self.value[i] {
                proof {
                    assert(text@.subrange(pos as int, pos + self.value@.len())[i as int]
                        != self.value@[i as int]);
                }
                return Err(ParseError::Backtrace);
            }
            i = i + 1;
        }
        let matched = copy_range(text, pos, end);
        proof {
            assert(text@.subrange(pos as int, pos + self.value@.len()) =~= self.value@);
            assert(matched.deep_view() =~= self.value@);
        }
        Ok((end, matched))
    }
}

/// Recognizes a string.
pub fn tag(value: &str) -> (r: Tag)
    ensures
        r.value@ == value@,
{
    Tag { value: chars_of(value) }
}

/// The position at which the maximal run of characters satisfying `cond`,
/// starting at `pos`, ends.
pub open spec fn span_end<P: ValueCondition<char>>(cond: P, text: Seq<char>, pos: int) -> int
    decreases text.len() - pos,
{
    if 0 <= pos < text.len() && cond.spec_test(text[pos]) {
        span_end(cond, text, pos + 1)
    } else {
        pos
    }
}

/// The span of a predicate run stays within the input, every character in
/// it satisfies the predicate, and it is maximal: the run ends only at the
/// end of the input or at a character that fails the predicate.
pub proof fn lemma_span_end<P: ValueCondition<char>>(cond: P, text: Seq<char>, pos: int)
    requires
        0 <= pos <= text.len(),
    ensures
        pos <= span_end(cond, text, pos) <= text.len(),
        forall|j: int|
            pos <= j < span_end(cond, text, pos) ==> cond.spec_test(#[trigger] text[j]),
        span_end(cond, text, pos) < text.len() ==> !cond.spec_test(
            text[span_end(cond, text, pos)],
        ),
    decreases text.len() - pos,
{
    if 0 <= pos < text.len() && cond.spec_test(text[pos]) {
        lemma_span_end(cond, text, pos + 1);
    }
}

/// Skips the input while the condition is true; always succeeds, possibly
/// consuming nothing.
pub struct SkipWhile<P> {
    pub condition: P,
}

impl<P: ValueCondition<char>> Combinator for SkipWhile<P> {
    type Output = ();

    open spec fn spec_parse(&self, text: Seq<char>, pos: int) -> SpecOutcome<()> {
        SpecOutcome::Success { pos: span_end(self.condition, text, pos), value: () }
    }

    proof fn lemma_progress(&self, text: Seq<char>, pos: int) {
        lemma_span_end(self.condition, text, pos);
    }

    fn parse(&self, text: &Vec<char>, pos: usize) -> (r: ParseResult<()>) {
        let mut cur = pos;
        while cur < text.len() && self.condition.test(&text[cur])
            invariant
                pos <= cur <= text@.len(),
                span_end(self.condition, text@, pos as int) == span_end(
                    self.condition,
                    text@,
                    cur as int,
                ),
            decreases text@.len() - cur,
        {
            cur = cur + 1;
        }
        Ok((cur, ()))
    }
}

/// Skip the input while the condition is true.
pub fn skip_while<P: ValueCondition<char>>(cond: P) -> (r: SkipWhile<P>)
    ensures
        r == (SkipWhile { condition: cond }),
{
    SkipWhile { condition: cond }
}

/// Runs a combinator for its consumption only and returns the exact slice
/// of the original input that it consumed, discarding its value.
pub struct Substring<C> {
    pub combinator: C,
}

impl<C: Combinator> Combinator for Substring<C> {
    type Output = Vec<char>;

    open spec fn spec_parse(&self, text: Seq<char>, pos: int) -> SpecOutcome<Seq<char>> {
        match self.combinator.spec_parse(text, pos) {
            SpecOutcome::Success { pos: p, .. } => SpecOutcome::Success {
                pos: p,
                value: text.subrange(pos, p),
            },
            SpecOutcome::Backtrace => SpecOutcome::Backtrace,
            SpecOutcome::Failure { pos: p, message } => SpecOutcome::Failure {
                pos: p,
                message,
            },
        }
    }

    proof fn lemma_progress(&self, text: Seq<char>, pos: int) {
        self.combinator.lemma_progress(text, pos);
    }

    fn parse(&self, text: &Vec<char>, pos: usize) -> (r: ParseResult<Vec<char>>) {
        match self.combinator.parse(text, pos) {
            Ok((next, _)) => {
                proof {
                    self.combinator.lemma_progress(text@, pos as int);
                }
                let piece = copy_range(text, pos, next);
                proof {
                    assert(piece.deep_view() =~= text@.subrange(pos as int, next as int));
                }
                Ok((next, piece))
            }
            Err(e) => Err(e),
        }
    }
}

/// Gets the substring found for the duration of the combinator.
pub fn substring<C: Combinator>(combinator: C) -> (r: Substring<C>)
    ensures
        r == (Substring { combinator }),
{
    Substring { combinator }
}

/// Takes a substring while the condition is true.
pub fn take_while<P: ValueCondition<char>>(cond: P) -> (r: Substring<SkipWhile<P>>)
    ensures
        r == (Substring { combinator: SkipWhile { condition: cond } }),
{
    substring(skip_while(cond))
}

/// Whether a character counts as whitespace; the meaning of
/// `char::is_whitespace`, a function of the character alone.
pub uninterp spec fn is_space_char(c: char) -> bool;

/// Relies on char::is_whitespace: whether the character has the Unicode
/// whitespace property, determined by the character alone.
#[verifier::external_body]
fn char_is_whitespace(c: char) -> (b: bool)
    ensures
        b == is_space_char(c),
{
    c.is_whitespace()
}

/// The condition that a character is whitespace.
pub struct IsWhitespace;

impl ValueCondition<char> for IsWhitespace {
    open spec fn spec_test(&self, v: char) -> bool {
        is_space_char(v)
    }

    fn test(&self, v: &char) -> (b: bool) {
        char_is_whitespace(*v)
    }
}

/// The condition that a character is an ASCII digit.
pub struct IsAsciiDigit;

impl ValueCondition<char> for IsAsciiDigit {
    open spec fn spec_test(&self, v: char) -> bool {
        '0' <= v <= '9'
    }

    fn test(&self, v: &char) -> (b: bool) {
        '0' <= *v && *v <= '9'
    }
}

/// Parses and expects whitespace: consumes one or more whitespace
/// characters and returns them; backtracks if the input is empty or does
/// not start with whitespace.
pub fn whitespace() -> (r: IfTrue<Substring<SkipWhile<IsWhitespace>>, NotEmpty>)
    ensures
        r == (IfTrue {
            combinator: Substring { combinator: SkipWhile { condition: IsWhitespace } },
            condition: NotEmpty,
        }),
{
    if_not_empty(take_while(IsWhitespace))
}

/// Skips the whitespace: same consumption as `whitespace`, but zero
/// matched characters are a success too.
pub fn skip_whitespace() -> (r: SkipWhile<IsWhitespace>)
    ensures
        r == (SkipWhile { condition: IsWhitespace }),
{
    skip_while(IsWhitespace)
}

} // verus!
