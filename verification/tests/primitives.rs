use monch::{
    chars_of, ch, next_char, one_of, skip_while, skip_whitespace, substring, tag, take_while,
    whitespace, Combinator, IsAsciiDigit, ParseError,
};

#[test]
fn ch_matches_first_character() {
    let text = chars_of("abc");
    let r = ch('a').parse(&text, 0);
    match r {
        Ok((pos, value)) => {
            assert_eq!(pos, 1);
            assert_eq!(value, 'a');
        }
        _ => panic!("expected success"),
    }
}

#[test]
fn ch_backtracks_on_other_character() {
    let text = chars_of("bcd");
    let r = ch('a').parse(&text, 0);
    assert!(matches!(r, Err(ParseError::Backtrace)));
}

#[test]
fn next_char_takes_one() {
    let text = chars_of("xy");
    let r = next_char().parse(&text, 0);
    match r {
        Ok((pos, value)) => {
            assert_eq!(pos, 1);
            assert_eq!(value, 'x');
        }
        _ => panic!("expected success"),
    }
}

#[test]
fn next_char_backtracks_on_empty() {
    let text = chars_of("");
    let r = next_char().parse(&text, 0);
    assert!(matches!(r, Err(ParseError::Backtrace)));
}

#[test]
fn one_of_accepts_member() {
    let text = chars_of("b7");
    let r = one_of("ab").parse(&text, 0);
    match r {
        Ok((pos, value)) => {
            assert_eq!(pos, 1);
            assert_eq!(value, 'b');
        }
        _ => panic!("expected success"),
    }
}

#[test]
fn one_of_rejects_non_member() {
    let text = chars_of("c");
    let r = one_of("ab").parse(&text, 0);
    assert!(matches!(r, Err(ParseError::Backtrace)));
}

#[test]
fn tag_matches_prefix() {
    let text = chars_of("abcdef");
    let r = tag("ab").parse(&text, 0);
    match r {
        Ok((pos, value)) => {
            assert_eq!(pos, 2);
            assert_eq!(value, chars_of("ab"));
        }
        _ => panic!("expected success"),
    }
}

#[test]
fn tag_backtracks_on_mismatch() {
    let text = chars_of("axcdef");
    let r = tag("ab").parse(&text, 0);
    assert!(matches!(r, Err(ParseError::Backtrace)));
}

#[test]
fn tag_backtracks_on_short_input() {
    let text = chars_of("a");
    let r = tag("ab").parse(&text, 0);
    assert!(matches!(r, Err(ParseError::Backtrace)));
}

#[test]
fn take_while_takes_digits() {
    let text = chars_of("123abc");
    let r = take_while(IsAsciiDigit).parse(&text, 0);
    match r {
        Ok((pos, value)) => {
            assert_eq!(pos, 3);
            assert_eq!(value, chars_of("123"));
        }
        _ => panic!("expected success"),
    }
}

#[test]
fn take_while_can_take_nothing() {
    let text = chars_of("abc");
    let r = take_while(IsAsciiDigit).parse(&text, 0);
    match r {
        Ok((pos, value)) => {
            assert_eq!(pos, 0);
            assert_eq!(value, chars_of(""));
        }
        _ => panic!("expected success"),
    }
}

#[test]
fn skip_while_discards_the_span() {
    let text = chars_of("123abc");
    let r = skip_while(IsAsciiDigit).parse(&text, 0);
    assert_eq!(r, Ok((3, ())));
}

#[test]
fn substring_returns_consumed_slice() {
    let text = chars_of("abc");
    let inner = monch::pair(ch('a'), ch('b'));
    let r = substring(inner).parse(&text, 0);
    match r {
        Ok((pos, value)) => {
            assert_eq!(pos, 2);
            assert_eq!(value, chars_of("ab"));
        }
        _ => panic!("expected success"),
    }
}

#[test]
fn whitespace_requires_one_character() {
    let text = chars_of("  a");
    let r = whitespace().parse(&text, 0);
    match r {
        Ok((pos, value)) => {
            assert_eq!(pos, 2);
            assert_eq!(value, chars_of("  "));
        }
        _ => panic!("expected success"),
    }
    let none = chars_of("a");
    assert!(matches!(whitespace().parse(&none, 0), Err(ParseError::Backtrace)));
    let empty = chars_of("");
    assert!(matches!(whitespace().parse(&empty, 0), Err(ParseError::Backtrace)));
}

#[test]
fn skip_whitespace_accepts_zero_characters() {
    let text = chars_of("  a");
    assert_eq!(skip_whitespace().parse(&text, 0), Ok((2, ())));
    let none = chars_of("a");
    assert_eq!(skip_whitespace().parse(&none, 0), Ok((0, ())));
}

#[test]
fn chars_of_empty_is_empty() {
    assert_eq!(chars_of(""), Vec::<char>::new());
    assert_eq!(chars_of("hi"), vec!['h', 'i']);
}
