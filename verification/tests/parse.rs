use nmea0183_parser::parse::{char, preceded, COMMA};
use nmea0183_parser::{Error, ErrorKind, NmeaParse, ParseError};

fn failure(input: &str, code: ErrorKind) -> Error<&[u8], ParseError<&[u8]>> {
    Error::ParsingError(ParseError { input: input.as_bytes(), code })
}

#[test]
fn test_parse_vec() {
    let input = "1,2,,4";
    let expected: Vec<Option<u8>> = vec![Some(1), Some(2), None, Some(4)];
    let result = Vec::<Option<u8>>::parse(input.as_bytes());
    assert_eq!(result, Ok(("".as_bytes(), expected)));

    let input = ",1,2,,4";
    let expected: Vec<Option<u8>> = vec![Some(1), Some(2), None, Some(4)];
    let result = Vec::<Option<u8>>::parse_preceded(b',', input.as_bytes());
    assert_eq!(result, Ok(("".as_bytes(), expected)));
}

#[test]
fn unsigned_reads_all_leading_digits() {
    assert_eq!(u8::parse(b"42"), Ok((&b""[..], 42)));
    assert_eq!(u8::parse(b"42,7"), Ok((&b",7"[..], 42)));
    assert_eq!(u8::parse(b"007x"), Ok((&b"x"[..], 7)));
    assert_eq!(u8::parse(b"255"), Ok((&b""[..], 255)));
    assert_eq!(u16::parse(b"65535,"), Ok((&b","[..], 65535)));
    assert_eq!(u32::parse(b"4294967295"), Ok((&b""[..], u32::MAX)));
    assert_eq!(u64::parse(b"18446744073709551615"), Ok((&b""[..], u64::MAX)));
    assert_eq!(
        u128::parse(b"340282366920938463463374607431768211455"),
        Ok((&b""[..], u128::MAX))
    );
    assert_eq!(usize::parse(b"12ab"), Ok((&b"ab"[..], 12)));
}

#[test]
fn unsigned_rejects_missing_and_oversized_numbers() {
    assert_eq!(u8::parse(b""), Err(failure("", ErrorKind::Digit)));
    assert_eq!(u8::parse(b"x1"), Err(failure("x1", ErrorKind::Digit)));
    assert_eq!(u8::parse(b"256"), Err(failure("256", ErrorKind::Digit)));
    assert_eq!(u8::parse(b"+1"), Err(failure("+1", ErrorKind::Digit)));
    assert_eq!(u16::parse(b"65536"), Err(failure("65536", ErrorKind::Digit)));
    assert_eq!(u32::parse(b"4294967296"), Err(failure("4294967296", ErrorKind::Digit)));
    assert_eq!(
        u64::parse(b"18446744073709551616"),
        Err(failure("18446744073709551616", ErrorKind::Digit))
    );
}

#[test]
fn signed_reads_sign_and_digits() {
    assert_eq!(i8::parse(b"-128"), Ok((&b""[..], -128)));
    assert_eq!(i8::parse(b"127,"), Ok((&b","[..], 127)));
    assert_eq!(i8::parse(b"+03,"), Ok((&b","[..], 3)));
    assert_eq!(i8::parse(b"-0"), Ok((&b""[..], 0)));
    assert_eq!(i16::parse(b"-32768x"), Ok((&b"x"[..], i16::MIN)));
    assert_eq!(i32::parse(b"2147483647"), Ok((&b""[..], i32::MAX)));
    assert_eq!(i64::parse(b"-9223372036854775808"), Ok((&b""[..], i64::MIN)));
    assert_eq!(
        i128::parse(b"170141183460469231731687303715884105727"),
        Ok((&b""[..], i128::MAX))
    );
    assert_eq!(isize::parse(b"-5,6"), Ok((&b",6"[..], -5)));
}

#[test]
fn signed_rejects_missing_and_oversized_numbers() {
    assert_eq!(i8::parse(b""), Err(failure("", ErrorKind::Digit)));
    assert_eq!(i8::parse(b"-"), Err(failure("-", ErrorKind::Digit)));
    assert_eq!(i8::parse(b"+x"), Err(failure("+x", ErrorKind::Digit)));
    assert_eq!(i8::parse(b"128"), Err(failure("128", ErrorKind::Digit)));
    assert_eq!(i8::parse(b"-129"), Err(failure("-129", ErrorKind::Digit)));
    assert_eq!(i8::parse(b"--1"), Err(failure("--1", ErrorKind::Digit)));
    assert_eq!(i16::parse(b"32768"), Err(failure("32768", ErrorKind::Digit)));
}

#[test]
fn char_takes_exactly_one_byte() {
    assert_eq!(<char as NmeaParse>::parse(b"AB"), Ok((&b"B"[..], 'A')));
    assert_eq!(<char as NmeaParse>::parse(b""), Err(failure("", ErrorKind::Eof)));
    assert_eq!(<char as NmeaParse>::parse_preceded(b',', b",V"), Ok((&b""[..], 'V')));
}

#[test]
fn separator_is_one_byte() {
    assert_eq!(char(b',', b",1"), Ok((&b"1"[..], b',')));
    assert_eq!(char(b',', b"1"), Err(failure("1", ErrorKind::Char)));
    assert_eq!(char(b',', b""), Err(failure("", ErrorKind::Char)));
    assert_eq!(COMMA, b',');
}

#[test]
fn preceded_reads_separator_then_value() {
    assert_eq!(u8::parse_preceded(b',', b",42"), Ok((&b""[..], 42)));
    assert_eq!(preceded::<u8>(b',', b",42"), Ok((&b""[..], 42)));
    assert_eq!(u8::parse_preceded(b',', b"42"), Err(failure("42", ErrorKind::Char)));
    assert_eq!(u8::parse_preceded(b',', b",x"), Err(failure("x", ErrorKind::Digit)));
}

#[test]
fn option_parse_never_fails() {
    assert_eq!(Option::<u8>::parse(b""), Ok((&b""[..], None)));
    assert_eq!(Option::<u8>::parse(b"42"), Ok((&b""[..], Some(42))));
    assert_eq!(Option::<u8>::parse(b"x"), Ok((&b"x"[..], None)));
}

#[test]
fn option_preceded_value_present() {
    assert_eq!(Option::<u8>::parse_preceded(b',', b",42"), Ok((&b""[..], Some(42))));
}

#[test]
fn option_preceded_two_consecutive_fields() {
    let (rest, first) = Option::<u8>::parse_preceded(b',', b",,4").unwrap();
    assert_eq!(first, None);
    assert_eq!(rest, b",4");
    let (rest, second) = Option::<u8>::parse_preceded(b',', rest).unwrap();
    assert_eq!(second, Some(4));
    assert_eq!(rest, b"");
}

#[test]
fn option_preceded_absent_at_end_of_input() {
    assert_eq!(Option::<u8>::parse_preceded(b',', b","), Ok((&b""[..], None)));
}

#[test]
fn option_preceded_rejects_malformed_value() {
    assert_eq!(Option::<u8>::parse_preceded(b',', b",x,"), Err(failure(",x,", ErrorKind::Verify)));
    assert_eq!(Option::<u8>::parse_preceded(b',', b"4"), Err(failure("4", ErrorKind::Char)));
}

#[test]
fn array_arity_is_enforced() {
    assert_eq!(<[u8; 3]>::parse(b"1,2"), Err(failure("", ErrorKind::Count)));
    assert_eq!(<[u8; 3]>::parse(b"1,2,3"), Ok((&b""[..], [1, 2, 3])));
    assert_eq!(<[u8; 3]>::parse(b"1,2,3,4"), Ok((&b",4"[..], [1, 2, 3])));
    assert_eq!(<[u8; 3]>::parse(b"x"), Err(failure("x", ErrorKind::Count)));
    assert_eq!(<[u8; 3]>::parse(b"1,x,3"), Err(failure(",x,3", ErrorKind::Count)));
    assert_eq!(<[u8; 0]>::parse(b"1"), Ok((&b"1"[..], [])));
}

#[test]
fn array_preceded_uses_the_elements_own_rule() {
    assert_eq!(<[u8; 2]>::parse_preceded(b',', b",1,2"), Ok((&b""[..], [1, 2])));
    assert_eq!(
        <[Option<u8>; 3]>::parse_preceded(b',', b",1,,3"),
        Ok((&b""[..], [Some(1), None, Some(3)]))
    );
    assert_eq!(<[u8; 2]>::parse_preceded(b',', b",1"), Err(failure("", ErrorKind::Count)));
    assert_eq!(
        <[Option<u8>; 3]>::parse(b"1,,3"),
        Ok((&b""[..], [Some(1), None, Some(3)]))
    );
    // In `parse`, an element is a separator and then a value, also for an
    // optional one: a missing separator is a missing element.
    assert_eq!(<[Option<u8>; 3]>::parse(b"1,2"), Err(failure("", ErrorKind::Count)));
    assert_eq!(
        <[Option<u8>; 3]>::parse_preceded(b',', b",1,2"),
        Err(failure("", ErrorKind::Count))
    );
}

#[test]
fn vec_stops_at_the_first_element_that_fails() {
    assert_eq!(Vec::<u8>::parse(b"1,2,x"), Ok((&b",x"[..], vec![1, 2])));
    assert_eq!(Vec::<u8>::parse(b""), Ok((&b""[..], vec![])));
    assert_eq!(Vec::<u8>::parse(b"x"), Ok((&b"x"[..], vec![])));
    assert_eq!(Vec::<u8>::parse_preceded(b',', b",7,8;"), Ok((&b";"[..], vec![7, 8])));
    assert_eq!(Vec::<u8>::parse_preceded(b',', b"7"), Ok((&b"7"[..], vec![])));
}

#[test]
fn vec_rejects_elements_that_take_no_input() {
    assert_eq!(Vec::<Option<u8>>::parse(b""), Err(failure("", ErrorKind::Many0)));
    assert_eq!(Vec::<Vec<u8>>::parse(b"x"), Err(failure("x", ErrorKind::Many0)));
}
