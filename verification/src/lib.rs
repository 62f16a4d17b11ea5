pub mod algebra;
pub mod assertion;
pub mod combinator;
pub mod driver;
pub mod errors;
pub mod laws;
pub mod primitives;
pub mod repetition;
pub mod text;

pub use algebra::{
    delimited, if_not_empty, if_true, map_res, maybe, or, or3, or4, or5, or6, or7, pair,
    preceded, terminated, Delimited, IfTrue, Mapped, Maybe, NotEmpty, OrElse, Pair, SuccessFlag,
    TakeFirst, TakeSecond,
};
pub use assertion::{
    assert_cond, assert_exists, check_not, with_error_context, with_failure_input, AssertCond,
    CheckNot, IsSuccess, WithErrorContext, WithFailureInput,
};
pub use combinator::{
    outcome_of, Combinator, IsEmptyable, MapFn, OutcomeCondition, OutcomeMapper, SpecOutcome,
    ValueCondition,
};
pub use driver::with_failure_handling;
pub use errors::{ParseError, ParseErrorFailure, ParseErrorFailureError, ParseResult};
pub use primitives::{
    ch, next_char, one_of, skip_while, skip_whitespace, substring, tag, take_while, whitespace,
    CharEquals, IsAsciiDigit, IsWhitespace, NextChar, OneOf, SkipWhile, Substring, Tag,
};
pub use repetition::{
    many0, many1, many_till, separated_list, AlwaysBacktrack, ManyTill, SeparatedList,
};
pub use text::chars_of;
