use monch::{
    assert_exists, chars_of, ch, tag, with_failure_handling, Combinator, ParseError,
    ParseErrorFailure, ParseErrorFailureError,
};

#[test]
fn driver_returns_the_value_on_full_consumption() {
    let text = chars_of("hello");
    let r = with_failure_handling(tag("hello"), &text);
    assert_eq!(r, Ok(chars_of("hello")));
}

#[test]
fn driver_fails_on_trailing_input() {
    let text = chars_of("hello world");
    let r = with_failure_handling(tag("hello"), &text);
    match r {
        Err(e) => assert_eq!(e.message, chars_of("Unexpected character.\n   world\n  ~")),
        _ => panic!("expected a trailing-input failure"),
    }
}

#[test]
fn driver_treats_top_level_backtrack_as_trailing_input() {
    let text = chars_of("bbb");
    let r = with_failure_handling(ch('a'), &text);
    match r {
        Err(e) => assert_eq!(e.message, chars_of("Unexpected character.\n  bbb\n  ~")),
        _ => panic!("expected a failure"),
    }
}

#[test]
fn driver_formats_a_hard_failure() {
    let text = chars_of("bcd");
    let r = with_failure_handling(assert_exists(ch('a'), "expected a"), &text);
    match r {
        Err(e) => assert_eq!(e.message, chars_of("expected a\n  bcd\n  ~")),
        _ => panic!("expected a failure"),
    }
}

#[test]
fn formatted_snippet_is_truncated_to_sixty_characters() {
    let mut long = String::new();
    for _ in 0..70 {
        long.push('x');
    }
    let text = chars_of(&long);
    let failure = ParseErrorFailure::new(0, "message");
    let e = failure.into_error(&text);
    let mut expected = String::from("message\n  ");
    for _ in 0..60 {
        expected.push('x');
    }
    expected.push_str("\n  ~");
    assert_eq!(e.message, chars_of(&expected));
}

#[test]
fn formatted_snippet_starts_at_the_failure_position() {
    let text = chars_of("abcdef");
    let failure = ParseErrorFailure::new(3, "bad suffix");
    let e = failure.into_error(&text);
    assert_eq!(e.message, chars_of("bad suffix\n  def\n  ~"));
}

#[test]
fn trailing_input_failure_has_the_fixed_message() {
    let f = ParseErrorFailure::new_for_trailing_input(2);
    assert_eq!(f.pos, 2);
    assert_eq!(f.message, chars_of("Unexpected character."));
}

#[test]
fn failure_constructors_build_the_error_variants() {
    let fail: monch::ParseResult<char> = ParseError::fail(1, "broken");
    match fail {
        Err(ParseError::Failure(f)) => {
            assert_eq!(f.pos, 1);
            assert_eq!(f.message, chars_of("broken"));
        }
        _ => panic!("expected a failure"),
    }
    let back: monch::ParseResult<char> = ParseError::backtrace();
    assert!(matches!(back, Err(ParseError::Backtrace)));
}

#[test]
fn into_result_carries_the_formatted_error() {
    let text = chars_of("abc");
    let failure = ParseErrorFailure::new(0, "oops");
    let r: Result<char, ParseErrorFailureError> = failure.into_result(&text);
    match r {
        Err(e) => assert_eq!(e.message, chars_of("oops\n  abc\n  ~")),
        _ => panic!("expected an error"),
    }
}

#[test]
fn error_new_keeps_the_message() {
    let e = ParseErrorFailureError::new(chars_of("already formatted"));
    assert_eq!(e.message, chars_of("already formatted"));
}
