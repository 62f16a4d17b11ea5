use monch::{
    assert_exists, chars_of, ch, delimited, map_res, maybe, or, or3, or4, or5, or6, or7, pair,
    preceded, tag, terminated, Combinator, ParseError, SuccessFlag,
};

#[test]
fn or_takes_first_on_success() {
    let text = chars_of("abc");
    let r = or(ch('a'), ch('b')).parse(&text, 0);
    assert_eq!(r, Ok((1, 'a')));
}

#[test]
fn or_tries_second_on_backtrack() {
    let text = chars_of("bcd");
    let r = or(ch('a'), ch('b')).parse(&text, 0);
    assert_eq!(r, Ok((1, 'b')));
}

#[test]
fn or_stops_on_hard_failure() {
    let text = chars_of("bcd");
    let r = or(assert_exists(ch('a'), "expected a"), ch('b')).parse(&text, 0);
    match r {
        Err(ParseError::Failure(f)) => {
            assert_eq!(f.pos, 0);
            assert_eq!(f.message, chars_of("expected a"));
        }
        _ => panic!("expected the failure of the first alternative"),
    }
}

#[test]
fn or_chains_pick_the_matching_alternative() {
    let text = chars_of("e");
    assert_eq!(or3(ch('a'), ch('b'), ch('c')).parse(&chars_of("c"), 0), Ok((1, 'c')));
    assert_eq!(or4(ch('a'), ch('b'), ch('c'), ch('d')).parse(&chars_of("d"), 0), Ok((1, 'd')));
    assert_eq!(or5(ch('a'), ch('b'), ch('c'), ch('d'), ch('e')).parse(&text, 0), Ok((1, 'e')));
    assert_eq!(
        or6(ch('a'), ch('b'), ch('c'), ch('d'), ch('e'), ch('f')).parse(&chars_of("f"), 0),
        Ok((1, 'f'))
    );
    assert_eq!(
        or7(ch('a'), ch('b'), ch('c'), ch('d'), ch('e'), ch('f'), ch('g'))
            .parse(&chars_of("g"), 0),
        Ok((1, 'g'))
    );
}

#[test]
fn pair_runs_both_in_sequence() {
    let text = chars_of("abc");
    let r = pair(ch('a'), ch('b')).parse(&text, 0);
    assert_eq!(r, Ok((2, ('a', 'b'))));
}

#[test]
fn pair_propagates_first_error() {
    let text = chars_of("xbc");
    let r = pair(ch('a'), ch('b')).parse(&text, 0);
    assert!(matches!(r, Err(ParseError::Backtrace)));
}

#[test]
fn preceded_keeps_second_value() {
    let text = chars_of("abc");
    let r = preceded(tag("a"), tag("b")).parse(&text, 0);
    assert_eq!(r, Ok((2, chars_of("b"))));
}

#[test]
fn terminated_keeps_first_value() {
    let text = chars_of("abc");
    let r = terminated(tag("a"), tag("b")).parse(&text, 0);
    assert_eq!(r, Ok((2, chars_of("a"))));
}

#[test]
fn delimited_keeps_middle_value() {
    let text = chars_of("(x)");
    let r = delimited(ch('('), ch('x'), ch(')')).parse(&text, 0);
    assert_eq!(r, Ok((3, 'x')));
}

#[test]
fn delimited_propagates_missing_closer() {
    let text = chars_of("(x]");
    let r = delimited(ch('('), ch('x'), ch(')')).parse(&text, 0);
    assert!(matches!(r, Err(ParseError::Backtrace)));
}

#[test]
fn maybe_wraps_success() {
    let text = chars_of("abc");
    let r = maybe(ch('a')).parse(&text, 0);
    assert_eq!(r, Ok((1, Some('a'))));
}

#[test]
fn maybe_absorbs_backtrack_without_consuming() {
    let text = chars_of("bcd");
    let r = maybe(ch('a')).parse(&text, 0);
    assert_eq!(r, Ok((0, None)));
}

#[test]
fn maybe_propagates_hard_failure() {
    let text = chars_of("bcd");
    let r = maybe(assert_exists(ch('a'), "expected a")).parse(&text, 0);
    assert!(matches!(r, Err(ParseError::Failure(_))));
}

#[test]
fn if_true_filters_by_the_condition() {
    let digits = monch::if_true(monch::next_char(), monch::IsAsciiDigit);
    assert_eq!(digits.parse(&chars_of("5a"), 0), Ok((1, '5')));
    assert!(matches!(digits.parse(&chars_of("a5"), 0), Err(ParseError::Backtrace)));
}

#[test]
fn if_not_empty_rejects_an_empty_result() {
    let digits = monch::if_not_empty(monch::take_while(monch::IsAsciiDigit));
    assert_eq!(digits.parse(&chars_of("42x"), 0), Ok((2, chars_of("42"))));
    assert!(matches!(digits.parse(&chars_of("x42"), 0), Err(ParseError::Backtrace)));
}

#[test]
fn map_transforms_the_parsed_value() {
    let second = monch::algebra::map(pair(ch('a'), ch('b')), monch::TakeSecond);
    assert_eq!(second.parse(&chars_of("abc"), 0), Ok((2, 'b')));
}

#[test]
fn map_res_hands_the_whole_outcome_over() {
    let text = chars_of("ab");
    assert_eq!(map_res(tag("a"), SuccessFlag, &text, 0), true);
    assert_eq!(map_res(tag("b"), SuccessFlag, &text, 0), false);
}
