use monch::{
    assert_exists, chars_of, ch, many0, many1, many_till, next_char, separated_list, tag,
    Combinator, ParseError,
};

#[test]
fn many0_collects_until_backtrack() {
    let text = chars_of("aaab");
    let r = many0(ch('a')).parse(&text, 0);
    assert_eq!(r, Ok((3, vec!['a', 'a', 'a'])));
}

#[test]
fn many0_succeeds_with_nothing() {
    let text = chars_of("bbb");
    let r = many0(ch('a')).parse(&text, 0);
    assert_eq!(r, Ok((0, Vec::new())));
    let empty = chars_of("");
    assert_eq!(many0(ch('a')).parse(&empty, 0), Ok((0, Vec::new())));
}

#[test]
fn many0_propagates_hard_failure() {
    let text = chars_of("b");
    let r = many0(assert_exists(ch('a'), "expected a")).parse(&text, 0);
    match r {
        Err(ParseError::Failure(f)) => {
            assert_eq!(f.message, chars_of("expected a"));
        }
        _ => panic!("expected the inner failure to propagate"),
    }
}

#[test]
fn many0_rejects_zero_width_success() {
    let text = chars_of("ab");
    let r = many0(tag("")).parse(&text, 0);
    match r {
        Err(ParseError::Failure(f)) => {
            assert_eq!(f.pos, 0);
            assert_eq!(
                f.message,
                chars_of("Combinator consumed no input; aborting repetition.")
            );
        }
        _ => panic!("expected a failure on a combinator that consumes nothing"),
    }
}

#[test]
fn many1_requires_one_match() {
    let text = chars_of("aab");
    assert_eq!(many1(ch('a')).parse(&text, 0), Ok((2, vec!['a', 'a'])));
    let none = chars_of("b");
    assert!(matches!(many1(ch('a')).parse(&none, 0), Err(ParseError::Backtrace)));
}

#[test]
fn many_till_stops_before_the_condition() {
    let text = chars_of("ab;c");
    let r = many_till(next_char(), ch(';')).parse(&text, 0);
    assert_eq!(r, Ok((2, vec!['a', 'b'])));
}

#[test]
fn many_till_stops_at_end_of_input() {
    let text = chars_of("ab");
    let r = many_till(next_char(), ch(';')).parse(&text, 0);
    assert_eq!(r, Ok((2, vec!['a', 'b'])));
}

#[test]
fn many_till_propagates_condition_failure() {
    let text = chars_of("ab");
    let r = many_till(next_char(), assert_exists(ch(';'), "expected semicolon")).parse(&text, 0);
    match r {
        Err(ParseError::Failure(f)) => {
            assert_eq!(f.message, chars_of("expected semicolon"));
        }
        _ => panic!("expected the condition's failure to propagate"),
    }
}

#[test]
fn separated_list_collects_values() {
    let text = chars_of("x,x,x");
    let r = separated_list(tag("x"), tag(",")).parse(&text, 0);
    assert_eq!(r, Ok((5, vec![chars_of("x"), chars_of("x"), chars_of("x")])));
}

#[test]
fn separated_list_accepts_a_single_value() {
    let text = chars_of("x");
    let r = separated_list(tag("x"), tag(",")).parse(&text, 0);
    assert_eq!(r, Ok((1, vec![chars_of("x")])));
}

#[test]
fn separated_list_succeeds_with_nothing() {
    let text = chars_of("y");
    let r = separated_list(tag("x"), tag(",")).parse(&text, 0);
    assert_eq!(r, Ok((0, Vec::new())));
}

#[test]
fn separated_list_leaves_a_separator_no_element_follows() {
    let text = chars_of("x,y");
    let r = separated_list(tag("x"), tag(",")).parse(&text, 0);
    // the separator matched but no element follows it: the list ends
    // before the separator, leaving ",y" unconsumed
    assert_eq!(r, Ok((1, vec![chars_of("x")])));
}

#[test]
fn separated_list_leaves_a_separator_at_the_end_of_input() {
    let text = chars_of("x,");
    let r = separated_list(tag("x"), tag(",")).parse(&text, 0);
    assert_eq!(r, Ok((1, vec![chars_of("x")])));
}

#[test]
fn separated_list_propagates_hard_failure() {
    let text = chars_of("x,y");
    let r = separated_list(
        monch::or(tag("x"), assert_exists(tag("x"), "expected x")),
        tag(","),
    )
    .parse(&text, 0);
    assert!(matches!(r, Err(ParseError::Failure(_))));
}
