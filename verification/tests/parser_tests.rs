use contrasity::parser::{parse, ParseError};

#[test]
fn test_parse_hex_black() {
    assert_eq!(parse(b"#000000"), Ok((0, 0, 0)));
}

#[test]
fn test_parse_triple_black() {
    assert_eq!(parse(b"0 0 0"), Ok((0, 0, 0)));
}

#[test]
fn test_parse_triple_values() {
    assert_eq!(parse(b"12 34 56"), Ok((12, 34, 56)));
    assert_eq!(parse(b"255 0 255"), Ok((255, 0, 255)));
    assert_eq!(parse(b"+12 0 0"), Ok((12, 0, 0)));
}

#[test]
fn test_parse_wrong_arity() {
    assert_eq!(parse(b"1 2"), Err(ParseError::WrongArity));
    assert_eq!(parse(b"1 2 3 4"), Err(ParseError::WrongArity));
    assert_eq!(parse(b""), Err(ParseError::WrongArity));
    assert_eq!(parse(b"1"), Err(ParseError::WrongArity));
    // a double space yields an extra empty token
    assert_eq!(parse(b"0  0 0"), Err(ParseError::WrongArity));
}

#[test]
fn test_parse_invalid_number() {
    assert_eq!(parse(b"a b c"), Err(ParseError::InvalidNumber));
    assert_eq!(parse(b"1 2 x"), Err(ParseError::InvalidNumber));
    assert_eq!(parse(b"- 0 0"), Err(ParseError::InvalidNumber));
    assert_eq!(parse(b"1.5 0 0"), Err(ParseError::InvalidNumber));
}

#[test]
fn test_parse_clamps_out_of_range() {
    assert_eq!(parse(b"999 999 999"), Ok((255, 255, 255)));
    assert_eq!(parse(b"-5 0 300"), Ok((0, 0, 255)));
    assert_eq!(parse(b"99999999999999999999999 256 255"), Ok((255, 255, 255)));
}

#[test]
fn test_parse_hex_variants() {
    assert_eq!(parse(b"#abc"), Ok((0xaa, 0xbb, 0xcc)));
    assert_eq!(parse(b"#AbC"), Ok((0xaa, 0xbb, 0xcc)));
    assert_eq!(parse(b"#abcd"), Ok((0xaa, 0xbb, 0xcc)));
    assert_eq!(parse(b"#1e90ff"), Ok((30, 144, 255)));
    assert_eq!(parse(b"#1E90FF"), Ok((30, 144, 255)));
    assert_eq!(parse(b"#1e90ff80"), Ok((30, 144, 255)));
}

#[test]
fn test_parse_invalid_hex() {
    assert_eq!(parse(b"#"), Err(ParseError::InvalidHex));
    assert_eq!(parse(b"#12345"), Err(ParseError::InvalidHex));
    assert_eq!(parse(b"#zzzzzz"), Err(ParseError::InvalidHex));
    assert_eq!(parse(b"#00000g"), Err(ParseError::InvalidHex));
    assert_eq!(parse(b"#0000000"), Err(ParseError::InvalidHex));
}
