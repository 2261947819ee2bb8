use nmea0183_parser::nmea0183::declared_checksum;
use nmea0183_parser::nmea_content::parse::{date_full_year, utc_offset, Date, UtcOffset};
use nmea0183_parser::nmea_content::sentences::gsv::signal_id;
use nmea0183_parser::{ChecksumMode, NmeaParse};

/// All texts over `alphabet` of at most `max` bytes.
fn texts(alphabet: &[u8], max: usize) -> Vec<Vec<u8>> {
    let mut all = vec![vec![]];
    let mut last = vec![vec![]];
    for _ in 0..max {
        let mut next = Vec::new();
        for text in &last {
            for &b in alphabet {
                let mut longer: Vec<u8> = text.clone();
                longer.push(b);
                next.push(longer);
            }
        }
        all.extend(next.iter().cloned());
        last = next;
    }
    all
}

/// The number of digits at the start of `text`, and their value.
fn digits(text: &[u8]) -> (usize, i128) {
    let n = text.iter().take_while(|b| b.is_ascii_digit()).count();
    let value = text[..n].iter().fold(0i128, |v, b| v * 10 + (b - b'0') as i128);
    (n, value)
}

fn unsigned(text: &[u8], max: i128) -> Option<(&[u8], i128)> {
    let (n, value) = digits(text);
    if n == 0 || value > max {
        None
    } else {
        Some((&text[n..], value))
    }
}

fn signed(text: &[u8], min: i128, max: i128) -> Option<(&[u8], i128)> {
    let (negative, body) = match text.first() {
        Some(b'-') => (true, &text[1..]),
        Some(b'+') => (false, &text[1..]),
        _ => (false, text),
    };
    let (n, magnitude) = digits(body);
    let value = if negative { -magnitude } else { magnitude };
    if n == 0 || value < min || value > max {
        None
    } else {
        Some((&body[n..], value))
    }
}

#[test]
fn unsigned_numbers_are_read_as_specified() {
    for text in texts(b"0125679x+-", 4) {
        let expected = unsigned(&text, u8::MAX as i128);
        let read = u8::parse(&text).ok().map(|(rest, v)| (rest, v as i128));
        assert_eq!(read, expected, "{text:?}");
        let expected = unsigned(&text, u16::MAX as i128);
        let read = u16::parse(&text).ok().map(|(rest, v)| (rest, v as i128));
        assert_eq!(read, expected, "{text:?}");
    }
    for text in texts(b"0369,", 6) {
        let expected = unsigned(&text, u16::MAX as i128);
        let read = u16::parse(&text).ok().map(|(rest, v)| (rest, v as i128));
        assert_eq!(read, expected, "{text:?}");
        let expected = unsigned(&text, u32::MAX as i128);
        let read = u32::parse(&text).ok().map(|(rest, v)| (rest, v as i128));
        assert_eq!(read, expected, "{text:?}");
        let expected = unsigned(&text, u64::MAX as i128);
        let read = u64::parse(&text).ok().map(|(rest, v)| (rest, v as i128));
        assert_eq!(read, expected, "{text:?}");
        let read = usize::parse(&text).ok().map(|(rest, v)| (rest, v as i128));
        assert_eq!(read, unsigned(&text, usize::MAX as i128), "{text:?}");
    }
}

#[test]
fn unsigned_numbers_at_the_edge_of_their_type() {
    for (text, max) in [
        ("4294967295", u32::MAX as i128),
        ("4294967296", u32::MAX as i128),
        ("04294967295,", u32::MAX as i128),
        ("42949672950", u32::MAX as i128),
    ] {
        let read = u32::parse(text.as_bytes()).ok().map(|(rest, v)| (rest, v as i128));
        assert_eq!(read, unsigned(text.as_bytes(), max), "{text:?}");
    }
    assert!(u128::parse(b"340282366920938463463374607431768211456").is_err());
    assert!(u128::parse(b"340282366920938463463374607431768211455").is_ok());
    assert!(u64::parse(b"18446744073709551616").is_err());
    assert!(usize::parse(b"99999999999999999999999999").is_err());
}

#[test]
fn signed_numbers_are_read_as_specified() {
    for text in texts(b"012789x+-", 5) {
        let expected = signed(&text, i8::MIN as i128, i8::MAX as i128);
        let read = i8::parse(&text).ok().map(|(rest, v)| (rest, v as i128));
        assert_eq!(read, expected, "{text:?}");
        let expected = signed(&text, i16::MIN as i128, i16::MAX as i128);
        let read = i16::parse(&text).ok().map(|(rest, v)| (rest, v as i128));
        assert_eq!(read, expected, "{text:?}");
    }
    for text in texts(b"-2367,", 6) {
        let expected = signed(&text, i16::MIN as i128, i16::MAX as i128);
        let read = i16::parse(&text).ok().map(|(rest, v)| (rest, v as i128));
        assert_eq!(read, expected, "{text:?}");
        let expected = signed(&text, i32::MIN as i128, i32::MAX as i128);
        let read = i32::parse(&text).ok().map(|(rest, v)| (rest, v as i128));
        assert_eq!(read, expected, "{text:?}");
        let read = i64::parse(&text).ok().map(|(rest, v)| (rest, v as i128));
        assert_eq!(read, signed(&text, i64::MIN as i128, i64::MAX as i128), "{text:?}");
        let read = isize::parse(&text).ok().map(|(rest, v)| (rest, v as i128));
        assert_eq!(read, signed(&text, isize::MIN as i128, isize::MAX as i128), "{text:?}");
    }
}

#[test]
fn signed_numbers_at_the_edge_of_their_type() {
    for text in ["2147483647", "2147483648", "-2147483648", "-2147483649", "+2147483647x"] {
        let read = i32::parse(text.as_bytes()).ok().map(|(rest, v)| (rest, v as i128));
        assert_eq!(
            read,
            signed(text.as_bytes(), i32::MIN as i128, i32::MAX as i128),
            "{text:?}"
        );
    }
    assert!(i64::parse(b"9223372036854775808").is_err());
    assert!(i64::parse(b"-9223372036854775809").is_err());
    assert!(i128::parse(b"-170141183460469231731687303715884105728").is_ok());
    assert!(i128::parse(b"-170141183460469231731687303715884105729").is_err());
    assert!(i128::parse(b"170141183460469231731687303715884105728").is_err());
}

/// The number of hexadecimal digits at the start of `text`, at most 8, and
/// their value.
fn hex(text: &[u8]) -> Option<(&[u8], u64)> {
    let n = text.iter().take_while(|b| b.is_ascii_hexdigit()).count();
    if n == 0 {
        return None;
    }
    let m = n.min(8);
    let value = text[..m].iter().fold(0u64, |v, b| v * 16 + (*b as char).to_digit(16).unwrap() as u64);
    Some((&text[m..], value))
}

#[test]
fn hexadecimal_numbers_are_read_as_specified() {
    for text in texts(b"09afAFgG,", 4) {
        let mut field = vec![b','];
        field.extend(&text);
        let expected = match hex(&text) {
            Some((rest, v)) => (rest.to_vec(), Some((v % 256) as u8)),
            None => (text.clone(), None),
        };
        let (rest, read) = signal_id(true, &field).unwrap();
        assert_eq!((rest.to_vec(), read), expected, "{text:?}");
    }
    for text in [&b"123456789"[..], b"ffffffff", b"FFFFFFFFF", b"0000000012", b"1234567"] {
        let mut field = vec![b','];
        field.extend(text);
        let (rest, v) = hex(text).unwrap();
        assert_eq!(signal_id(true, &field), Ok((rest, Some((v % 256) as u8))), "{text:?}");
    }
}

#[test]
fn declared_checksums_are_read_as_specified() {
    for text in texts(b"09afAFgz", 2) {
        let mut tail = vec![b'*'];
        tail.extend(&text);
        let read = declared_checksum(ChecksumMode::Required, &tail);
        let all_hex = text.len() == 2 && text.iter().all(|b| b.is_ascii_hexdigit());
        assert_eq!(read.is_ok(), all_hex, "{text:?}");
        if all_hex {
            let (_, v) = hex(&text).unwrap();
            assert_eq!(read, Ok((&b""[..], Some(v as u8))), "{text:?}");
        }
    }
}

fn days_in_month(year: i32, month: u8) -> u8 {
    let leap = year % 4 == 0 && (year % 100 != 0 || year % 400 == 0);
    match month {
        2 if leap => 29,
        2 => 28,
        4 | 6 | 9 | 11 => 30,
        _ => 31,
    }
}

#[test]
fn calendar_dates_are_accepted_as_specified() {
    for year in [0u16, 1, 4, 100, 400, 1900, 1999, 2000, 2023, 2024, 2100, 9999, 10000, 65535] {
        for month in 0u8..=14 {
            for day in 0u8..=33 {
                let text = format!("{day},{month},{year}");
                let exists = year <= 9999
                    && (1..=12).contains(&month)
                    && day >= 1
                    && day <= days_in_month(year as i32, month);
                let read = date_full_year(text.as_bytes());
                if exists {
                    let date = Date { year: year as i32, month, day };
                    assert_eq!(read, Ok((&b""[..], Some(date))), "{text}");
                } else {
                    assert!(read.is_err(), "{text}");
                }
            }
        }
    }
}

#[test]
fn dates_of_six_digits_are_accepted_as_specified() {
    for yy in 0u8..=99 {
        let year = if (83..=99).contains(&yy) { 1900 + yy as i32 } else { 2000 + yy as i32 };
        for month in [0u8, 1, 2, 4, 12, 13] {
            for day in [0u8, 1, 28, 29, 30, 31, 32] {
                let text = format!("{day:02}{month:02}{yy:02}");
                let exists =
                    (1..=12).contains(&month) && day >= 1 && day <= days_in_month(year, month);
                let read = Date::parse(text.as_bytes());
                if exists {
                    assert_eq!(read, Ok((&b""[..], Date { year, month, day })), "{text}");
                } else {
                    assert!(read.is_err(), "{text}");
                }
            }
        }
    }
}

#[test]
fn offsets_are_accepted_as_specified() {
    for hours in i8::MIN..=i8::MAX {
        for minutes in [i8::MIN, -60, -59, -1, 0, 1, 30, 59, 60, i8::MAX] {
            let text = format!("{hours},{minutes}");
            // A `-` at the start is the sign of the offset: it turns both around.
            let (h, m) = if hours < 0 {
                (hours as i16, -(minutes as i16))
            } else {
                (hours as i16, minutes as i16)
            };
            let exists = (-25..=25).contains(&h) && (-59..=59).contains(&m);
            let read = utc_offset(text.as_bytes());
            if exists {
                let offset = UtcOffset { hours: h as i8, minutes: m as i8 };
                assert_eq!(read, Ok((&b""[..], Some(offset))), "{text}");
            } else {
                assert!(read.is_err(), "{text}");
            }
        }
    }
}
