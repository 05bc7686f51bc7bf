use kaze_backend::server::parse_duration;
use kaze_backend::text::{parse_u64, push_i64, push_u64, u64_text, ParseIntError};
use std::time::Duration;

#[test]
fn decimal_text_of_numbers() {
    assert_eq!(u64_text(0), "0");
    assert_eq!(u64_text(7), "7");
    assert_eq!(u64_text(10), "10");
    assert_eq!(u64_text(1234567890), "1234567890");
    assert_eq!(u64_text(u64::MAX), "18446744073709551615");
}

#[test]
fn signed_decimal_text() {
    let mut s = String::from("x=");
    push_i64(&mut s, -42);
    assert_eq!(s, "x=-42");
    let mut t = String::new();
    push_i64(&mut t, i64::MIN);
    assert_eq!(t, "-9223372036854775808");
    let mut u = String::new();
    push_u64(&mut u, 5);
    push_i64(&mut u, 0);
    assert_eq!(u, "50");
}

#[test]
fn parse_like_std() {
    for s in ["", "+", "-", "+5", "-5", "5", "007", "12a", "a12", "18446744073709551615",
              "18446744073709551616", "99999999999999999999x", "1 ", "١٢"] {
        let std_result = s.parse::<u64>();
        let ours = parse_u64(s);
        match (std_result, ours) {
            (Ok(a), Ok(b)) => assert_eq!(a, b, "value of {s:?}"),
            (Err(e), Err(k)) => {
                let expected = match e.kind() {
                    std::num::IntErrorKind::Empty => ParseIntError::Empty,
                    std::num::IntErrorKind::InvalidDigit => ParseIntError::InvalidDigit,
                    std::num::IntErrorKind::PosOverflow => ParseIntError::PosOverflow,
                    other => panic!("unexpected kind {other:?}"),
                };
                assert_eq!(expected, k, "error of {s:?}");
            }
            (a, b) => panic!("disagree on {s:?}: {a:?} vs {b:?}"),
        }
    }
}

#[test]
fn parse_exact_values() {
    assert_eq!(parse_u64("+5"), Ok(5));
    assert_eq!(parse_u64(""), Err(ParseIntError::Empty));
    assert_eq!(parse_u64("+"), Err(ParseIntError::InvalidDigit));
    assert_eq!(parse_u64("-5"), Err(ParseIntError::InvalidDigit));
    assert_eq!(parse_u64("18446744073709551616"), Err(ParseIntError::PosOverflow));
}

#[test]
fn decimal_text_parses_back() {
    for n in [0u64, 1, 9, 10, 99, 100, 65535, 1 << 40, u64::MAX - 1, u64::MAX] {
        assert_eq!(parse_u64(&u64_text(n)), Ok(n));
    }
}

#[test]
fn duration_in_milliseconds() {
    assert_eq!(parse_duration("1000"), Ok(Duration::from_millis(1000)));
    assert_eq!(parse_duration("0"), Ok(Duration::from_millis(0)));
    assert_eq!(parse_duration("1s"), Err(ParseIntError::InvalidDigit));
    assert_eq!(parse_duration(""), Err(ParseIntError::Empty));
}
