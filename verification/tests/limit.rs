use visit_echo::limit::{limit_from_query, parse_limit, LimitError};

#[test]
fn parse_limit_reads_decimal_digits() {
    assert_eq!(parse_limit(b"0"), Ok(0));
    assert_eq!(parse_limit(b"5"), Ok(5));
    assert_eq!(parse_limit(b"10"), Ok(10));
    assert_eq!(parse_limit(b"1234567"), Ok(1234567));
}

#[test]
fn parse_limit_accepts_leading_zeros_and_one_plus() {
    assert_eq!(parse_limit(b"007"), Ok(7));
    assert_eq!(parse_limit(b"+5"), Ok(5));
    assert_eq!(parse_limit(b"+0"), Ok(0));
    assert_eq!(parse_limit(b"0000000000000000000000000000012"), Ok(12));
}

#[test]
fn parse_limit_agrees_with_the_standard_parser() {
    let samples: [&str; 14] = [
        "0", "1", "+1", "-1", "abc", "", "+", "++1", "1+", " 1", "1 ", "12x", "99999999999999999999999",
        "18446744073709551615",
    ];
    for text in samples {
        assert_eq!(parse_limit(text.as_bytes()).ok(), text.parse::<usize>().ok());
    }
}

#[test]
fn parse_limit_reads_the_largest_limit() {
    let text = format!("{}", usize::MAX);
    assert_eq!(parse_limit(text.as_bytes()), Ok(usize::MAX));
}

#[test]
fn parse_limit_rejects_a_negative_number() {
    assert_eq!(parse_limit(b"-1"), Err(LimitError::Malformed));
    assert_eq!(parse_limit(b"-0"), Err(LimitError::Malformed));
}

#[test]
fn parse_limit_rejects_what_is_not_a_number() {
    assert_eq!(parse_limit(b"abc"), Err(LimitError::Malformed));
    assert_eq!(parse_limit(b""), Err(LimitError::Malformed));
    assert_eq!(parse_limit(b"+"), Err(LimitError::Malformed));
    assert_eq!(parse_limit(b"++1"), Err(LimitError::Malformed));
    assert_eq!(parse_limit(b"1.5"), Err(LimitError::Malformed));
    assert_eq!(parse_limit(b" 1"), Err(LimitError::Malformed));
    assert_eq!(parse_limit(b"1 "), Err(LimitError::Malformed));
    assert_eq!(parse_limit(b"12x"), Err(LimitError::Malformed));
    assert_eq!(parse_limit(b"0x10"), Err(LimitError::Malformed));
    assert_eq!(parse_limit(&[0x31, 0xff]), Err(LimitError::Malformed));
}

#[test]
fn parse_limit_rejects_digits_before_it_weighs_them() {
    assert_eq!(
        parse_limit(b"99999999999999999999999999999999x"),
        Err(LimitError::Malformed)
    );
}

#[test]
fn parse_limit_rejects_a_number_that_does_not_fit() {
    let mut text = format!("{}", usize::MAX);
    text.push('0');
    assert_eq!(parse_limit(text.as_bytes()), Err(LimitError::TooLarge));
    assert_eq!(
        parse_limit(b"340282366920938463463374607431768211456"),
        Err(LimitError::TooLarge)
    );
}

#[test]
fn parse_limit_rejects_the_number_after_the_largest() {
    let digits = format!("{}", usize::MAX);
    let mut bytes = digits.into_bytes();
    let mut at = bytes.len();
    loop {
        assert!(at > 0);
        at -= 1;
        if bytes[at] == b'9' {
            bytes[at] = b'0';
        } else {
            bytes[at] += 1;
            break;
        }
    }
    assert_eq!(parse_limit(&bytes), Err(LimitError::TooLarge));
}

#[test]
fn limit_from_query_wants_the_parameter() {
    assert_eq!(limit_from_query(None), Err(LimitError::Missing));
}

#[test]
fn limit_from_query_reads_the_parameter() {
    assert_eq!(limit_from_query(Some(b"3")), Ok(3));
    assert_eq!(limit_from_query(Some(b"")), Err(LimitError::Malformed));
    assert_eq!(limit_from_query(Some(b"-1")), Err(LimitError::Malformed));
    assert_eq!(limit_from_query(Some(b"abc")), Err(LimitError::Malformed));
}

#[test]
fn limit_errors_have_their_own_messages() {
    assert_eq!(LimitError::Missing.message(), "missing query parameter `limit`");
    assert_eq!(
        LimitError::Malformed.message(),
        "query parameter `limit` is not a non-negative integer"
    );
    assert_eq!(LimitError::TooLarge.message(), "query parameter `limit` is too large");
}
