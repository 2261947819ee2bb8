use nmea0183_parser::error::make_error;
use nmea0183_parser::nmea0183::{
    declared_checksum, find_byte, find_crlf, frame, is_ascii, ChecksumCrLf, CrLf,
};
use nmea0183_parser::{
    checksum, checksum_crlf, crlf, format_checksum, frame_str, nmea0183, ChecksumMode, Error, ErrorKind,
    IResult, LineEndingMode, Nmea0183ParserBuilder, ParseError,
};

fn failure(input: &str, code: ErrorKind) -> Error<&[u8], ParseError<&[u8]>> {
    Error::ParsingError(ParseError { input: input.as_bytes(), code })
}

fn content_parser(i: &[u8]) -> IResult<'_, bool> {
    Ok((i, true))
}

fn accepts_non_empty(i: &[u8]) -> IResult<'_, ()> {
    if i.is_empty() {
        return Err(make_error(i, ErrorKind::Eof));
    }
    Ok((i, ()))
}

fn expects_gga(i: &[u8]) -> IResult<'_, usize> {
    match i.strip_prefix(b"GPGGA,123456,data") {
        Some(rest) if rest.is_empty() => Ok((rest, 3)),
        _ => Err(Error::InvalidField(i)),
    }
}

const MODES: [(ChecksumMode, LineEndingMode); 4] = [
    (ChecksumMode::Required, LineEndingMode::Required),
    (ChecksumMode::Required, LineEndingMode::Forbidden),
    (ChecksumMode::Optional, LineEndingMode::Required),
    (ChecksumMode::Optional, LineEndingMode::Forbidden),
];

// --- checksum --------------------------------------------------------------

#[test]
fn checksum_is_the_xor_of_all_bytes() {
    let (input, cc) = checksum(b"GPGGA,123456,data");
    assert_eq!(input, b"GPGGA,123456,data");
    assert_eq!(cc, 0x41);
    assert_eq!(checksum(b"").1, 0);
    assert_eq!(checksum(b"X").1, 0x58);
    assert_eq!(checksum(b"XX").1, 0);
    assert_eq!(checksum(b"GPGGA,data").1, 0x6A);
    assert_eq!(checksum(&[0xff, 0x0f]).1, 0xf0);
}

#[test]
fn checksum_is_written_as_two_upper_case_hex_digits() {
    assert_eq!(format_checksum(0x41), "41");
    assert_eq!(format_checksum(0x0A), "0A");
    assert_eq!(format_checksum(0), "00");
    assert_eq!(format_checksum(0xFF), "FF");
    assert_eq!(format_checksum(0x9c), "9C");
}

#[test]
fn checksum_round_trip() {
    for c in 0..=255u8 {
        let tail = format!("*{}", format_checksum(c));
        let r = checksum_crlf(ChecksumMode::Required, LineEndingMode::Forbidden)
            .parse(tail.as_bytes());
        assert_eq!(r, Ok((&b""[..], Some(c))));
        let tail = format!("*{}\r\n", format_checksum(c));
        let r =
            checksum_crlf(ChecksumMode::Required, LineEndingMode::Required).parse(tail.as_bytes());
        assert_eq!(r, Ok((&b""[..], Some(c))));
    }
}

#[test]
fn declared_checksum_accepts_lower_case_digits() {
    assert_eq!(declared_checksum(ChecksumMode::Required, b"*9c"), Ok((&b""[..], Some(0x9c))));
    assert_eq!(declared_checksum(ChecksumMode::Optional, b"*fF"), Ok((&b""[..], Some(0xff))));
}

#[test]
fn declared_checksum_failures() {
    assert_eq!(declared_checksum(ChecksumMode::Required, b"*"), Err(failure("", ErrorKind::Count)));
    assert_eq!(
        declared_checksum(ChecksumMode::Required, b"*1"),
        Err(failure("1", ErrorKind::Count))
    );
    assert_eq!(
        declared_checksum(ChecksumMode::Required, b"*1F43"),
        Err(failure("43", ErrorKind::Count))
    );
    assert_eq!(
        declared_checksum(ChecksumMode::Required, b"*zz"),
        Err(failure("zz", ErrorKind::IsA))
    );
    assert_eq!(declared_checksum(ChecksumMode::Required, b"*1z"), Err(failure("z", ErrorKind::IsA)));
    assert_eq!(declared_checksum(ChecksumMode::Required, b""), Err(failure("", ErrorKind::Eof)));
    assert_eq!(declared_checksum(ChecksumMode::Required, b"1F"), Err(failure("1F", ErrorKind::Eof)));
    assert_eq!(declared_checksum(ChecksumMode::Optional, b"1F"), Err(failure("1F", ErrorKind::Count)));
    assert_eq!(declared_checksum(ChecksumMode::Optional, b""), Ok((&b""[..], None)));
}

// --- line ending -----------------------------------------------------------

#[test]
fn searching() {
    assert_eq!(find_crlf(b"ab\r\ncd\r\n"), Some(2));
    assert_eq!(find_crlf(b"\r\n"), Some(0));
    assert_eq!(find_crlf(b"a\rb\n\r"), None);
    assert_eq!(find_crlf(b""), None);
    assert_eq!(find_byte(b"a*b*", b'*'), Some(1));
    assert_eq!(find_byte(b"ab", b'*'), None);
    assert!(is_ascii(b"$GPGGA\r\n\x7f"));
    assert!(!is_ascii(b"$GP\x80"));
}

#[test]
fn line_ending_required() {
    let p: CrLf = crlf(LineEndingMode::Required);
    assert_eq!(p.parse(b"data\r\n"), Ok((&b"data"[..], ())));
    assert_eq!(p.parse(b"\r\n"), Ok((&b""[..], ())));
    assert_eq!(p.parse(b"data"), Err(failure("data", ErrorKind::CrLf)));
    assert_eq!(p.parse(b"data\n"), Err(failure("data\n", ErrorKind::CrLf)));
    assert_eq!(p.parse(b"data\r\nmore"), Err(failure("more", ErrorKind::CrLf)));
    assert_eq!(p.parse(b"a\r\nb\r\n"), Err(failure("b\r\n", ErrorKind::CrLf)));
}

#[test]
fn line_ending_forbidden() {
    let p: CrLf = crlf(LineEndingMode::Forbidden);
    assert_eq!(p.parse(b"data"), Ok((&b"data"[..], ())));
    assert_eq!(p.parse(b""), Ok((&b""[..], ())));
    assert_eq!(p.parse(b"data\r"), Ok((&b"data\r"[..], ())));
    assert_eq!(p.parse(b"data\r\n"), Err(failure("\r\n", ErrorKind::CrLf)));
    assert_eq!(p.parse(b"da\r\nta"), Err(failure("\r\nta", ErrorKind::CrLf)));
}

#[test]
fn line_ending_is_dealt_with_before_the_checksum() {
    let p: ChecksumCrLf = checksum_crlf(ChecksumMode::Optional, LineEndingMode::Required);
    assert_eq!(p.parse(b"*51\r\n"), Ok((&b""[..], Some(0x51))));
    assert_eq!(p.parse(b"\r\n"), Ok((&b""[..], None)));
    assert_eq!(p.parse(b"*51"), Err(failure("*51", ErrorKind::CrLf)));
    assert_eq!(p.parse(b"*5\r\n1"), Err(failure("1", ErrorKind::CrLf)));
    let p = checksum_crlf(ChecksumMode::Optional, LineEndingMode::Forbidden);
    assert!(p.parse(b"*51").is_ok());
    assert!(p.parse(b"").is_ok());
}

// --- framing ---------------------------------------------------------------

#[test]
fn builder_defaults_to_the_strict_configuration() {
    let strict = Nmea0183ParserBuilder::new().build(content_parser);
    assert!(strict.parse(b"$GPGGA,data*6A\r\n").is_ok());
    assert!(strict.parse(b"$GPGGA,data*6A").is_err());
    assert!(strict.parse(b"$GPGGA,data\r\n").is_err());
    let also_strict = Nmea0183ParserBuilder::default().build(content_parser);
    assert!(also_strict.parse(b"$GPGGA,data*6A\r\n").is_ok());
    assert!(also_strict.parse(b"$GPGGA,data*6A").is_err());
    assert_eq!(ChecksumMode::default(), ChecksumMode::Required);
    assert_eq!(LineEndingMode::default(), LineEndingMode::Required);
}

#[test]
fn mode_matrix_strict() {
    let parser = Nmea0183ParserBuilder::new()
        .checksum_mode(ChecksumMode::Required)
        .line_ending_mode(LineEndingMode::Required)
        .build(content_parser);
    assert_eq!(parser.parse(b"$GPGGA,data*6A\r\n"), Ok((&b"GPGGA,data"[..], true)));
    assert_eq!(parser.parse(b"$GPGGA,data*6A"), Err(failure("*6A", ErrorKind::CrLf)));
    assert_eq!(parser.parse(b"$GPGGA,data\r\n"), Err(failure("", ErrorKind::Eof)));
    assert_eq!(parser.parse(b"$GPGGA,data"), Err(failure("", ErrorKind::CrLf)));
}

#[test]
fn mode_matrix_checksum_required_line_ending_forbidden() {
    let parser = Nmea0183ParserBuilder::new()
        .checksum_mode(ChecksumMode::Required)
        .line_ending_mode(LineEndingMode::Forbidden)
        .build(content_parser);
    assert_eq!(parser.parse(b"$GPGGA,data*6A"), Ok((&b"GPGGA,data"[..], true)));
    assert_eq!(parser.parse(b"$GPGGA,data*6A\r\n"), Err(failure("\r\n", ErrorKind::CrLf)));
    assert_eq!(parser.parse(b"$GPGGA,data"), Err(failure("", ErrorKind::Eof)));
    assert_eq!(parser.parse(b"$X*58"), Ok((&b"X"[..], true)));
    assert!(parser.parse(b"$X*58\r\n").is_err());
    assert!(parser.parse(b"$X").is_err());
}

#[test]
fn mode_matrix_checksum_optional_line_ending_required() {
    let parser = Nmea0183ParserBuilder::new()
        .checksum_mode(ChecksumMode::Optional)
        .line_ending_mode(LineEndingMode::Required)
        .build(content_parser);
    assert_eq!(parser.parse(b"$GPGGA,data*6A\r\n"), Ok((&b"GPGGA,data"[..], true)));
    assert_eq!(parser.parse(b"$GPGGA,data\r\n"), Ok((&b"GPGGA,data"[..], true)));
    assert_eq!(
        parser.parse(b"$GPGGA,data*99\r\n"),
        Err(Error::ChecksumMismatch { expected: 0x6A, found: 0x99 })
    );
    assert_eq!(parser.parse(b"$GPGGA,data*6A"), Err(failure("*6A", ErrorKind::CrLf)));
}

#[test]
fn mode_matrix_lenient() {
    let parser = Nmea0183ParserBuilder::new()
        .checksum_mode(ChecksumMode::Optional)
        .line_ending_mode(LineEndingMode::Forbidden)
        .build(content_parser);
    assert_eq!(parser.parse(b"$GPGGA,data*6A"), Ok((&b"GPGGA,data"[..], true)));
    assert_eq!(parser.parse(b"$GPGGA,data"), Ok((&b"GPGGA,data"[..], true)));
    assert_eq!(
        parser.parse(b"$GPGGA,data*99"),
        Err(Error::ChecksumMismatch { expected: 0x6A, found: 0x99 })
    );
    assert_eq!(parser.parse(b"$GPGGA,data\r\n"), Err(failure("\r\n", ErrorKind::CrLf)));
}

#[test]
fn mode_matrix_over_all_tails() {
    let content = "GPGGA,123456,data";
    for (cc, le) in MODES {
        for with_checksum in [false, true] {
            for with_crlf in [false, true] {
                let mut sentence = format!("${content}");
                if with_checksum {
                    sentence.push('*');
                    sentence.push_str(&format_checksum(checksum(content.as_bytes()).1));
                }
                if with_crlf {
                    sentence.push_str("\r\n");
                }
                let accepted = (with_crlf == (le == LineEndingMode::Required))
                    && (with_checksum || cc == ChecksumMode::Optional);
                let r = frame(cc, le, sentence.as_bytes());
                if accepted {
                    assert_eq!(r, Ok(content.as_bytes()));
                } else {
                    assert!(r.is_err());
                }
                let parser = nmea0183(cc, le).build(content_parser);
                assert_eq!(parser.frame(sentence.as_bytes()), r);
                assert_eq!(parser.parse(sentence.as_bytes()).is_ok(), accepted);
            }
        }
    }
}

#[test]
fn framing_round_trip() {
    for content in ["", "X", "GPGGA,123456,data", "a,b\r\nc", "$$,,"] {
        let sentence = format!(
            "${}*{}\r\n",
            content,
            format_checksum(checksum(content.as_bytes()).1)
        );
        let r = frame(ChecksumMode::Required, LineEndingMode::Required, sentence.as_bytes());
        assert_eq!(r, Ok(content.as_bytes()));
    }
}

#[test]
fn concrete_scenario() {
    let parser = nmea0183(ChecksumMode::Optional, LineEndingMode::Required).build(accepts_non_empty);
    assert_eq!(
        parser.parse(b"$GPGGA,123456,data*41\r\n"),
        Ok((&b"GPGGA,123456,data"[..], ()))
    );
    assert_eq!(parser.parse(b"$\r\n"), Err(failure("", ErrorKind::Eof)));
    let parser = nmea0183(ChecksumMode::Optional, LineEndingMode::Required).build(expects_gga);
    assert_eq!(parser.parse(b"$GPGGA,123456,data*41\r\n"), Ok((&b""[..], 3)));
    assert_eq!(
        parser.parse(b"$GPGGA,123456,date\r\n"),
        Err(Error::InvalidField(&b"GPGGA,123456,date"[..]))
    );
}

#[test]
fn checksum_mismatch_scenario() {
    let parser = Nmea0183ParserBuilder::new().build(content_parser);
    assert_eq!(
        parser.parse(b"$X*99\r\n"),
        Err(Error::ChecksumMismatch { expected: 0x58, found: 0x99 })
    );
    assert_eq!(
        parser.parse(b"$X*41\r\n"),
        Err(Error::ChecksumMismatch { expected: 0x58, found: 0x41 })
    );
}

#[test]
fn non_ascii_anywhere_is_rejected_first() {
    for (cc, le) in MODES {
        assert_eq!(frame(cc, le, "$GPGGA,dat\u{e9}*6A\r\n".as_bytes()), Err(Error::NonAscii));
        assert_eq!(frame(cc, le, "$GPGGA,data*6A\r\n\u{e9}".as_bytes()), Err(Error::NonAscii));
        assert_eq!(frame(cc, le, "\u{e9}".as_bytes()), Err(Error::NonAscii));
        assert_eq!(frame(cc, le, &[b'G', 0x80]), Err(Error::NonAscii));
    }
}

#[test]
fn sentence_must_start_with_a_dollar() {
    for (cc, le) in MODES {
        assert_eq!(frame(cc, le, b"GPGGA,data*6A\r\n"), Err(failure("GPGGA,data*6A\r\n", ErrorKind::Char)));
        assert_eq!(frame(cc, le, b""), Err(failure("", ErrorKind::Char)));
    }
}

#[test]
fn content_ends_at_the_first_asterisk() {
    let r = frame(ChecksumMode::Required, LineEndingMode::Required, b"$A*B*00\r\n");
    assert_eq!(r, Err(failure("00", ErrorKind::Count)));
    let r = frame(ChecksumMode::Optional, LineEndingMode::Required, b"$AB\r\n*41");
    assert_eq!(r, Err(failure("*41", ErrorKind::CrLf)));
    let r = frame(ChecksumMode::Optional, LineEndingMode::Required, b"$AB\r\nCD\r\n");
    assert_eq!(r, Err(failure("CD\r\n", ErrorKind::CrLf)));
}

#[test]
fn empty_content_is_framed() {
    assert_eq!(frame(ChecksumMode::Required, LineEndingMode::Required, b"$*00\r\n"), Ok(&b""[..]));
    assert_eq!(frame(ChecksumMode::Optional, LineEndingMode::Forbidden, b"$"), Ok(&b""[..]));
}

// --- framing of text -------------------------------------------------------

fn text_failure(input: &str, code: ErrorKind) -> Error<&str, ParseError<&str>> {
    Error::ParsingError(ParseError { input, code })
}

fn text_parser(i: &str) -> nmea0183_parser::StrResult<'_, usize> {
    Ok(("", i.len()))
}

#[test]
fn text_is_framed_like_its_bytes() {
    for (cc, le) in MODES {
        for sentence in [
            "$GPGGA,data*6A\r\n",
            "$GPGGA,data*6A",
            "$GPGGA,data\r\n",
            "$GPGGA,data",
            "$GPGGA,data*99\r\n",
            "$GPGGA,data*6\r\n",
            "$GPGGA,data*6A7\r\n",
            "$GPGGA,data*6z",
            "$GPGGA,data*zz\r\n",
            "$GPGGA,data\r\nmore",
            "$GPGGA,data*6A\r\nmore\r\n",
            "$A*B*00\r\n",
            "GPGGA,data",
            "$",
            "",
        ] {
            let text = frame_str(cc, le, sentence);
            let bytes = frame(cc, le, sentence.as_bytes());
            match (text, bytes) {
                (Ok(t), Ok(b)) => assert_eq!(t.as_bytes(), b),
                (Err(Error::ParsingError(t)), Err(Error::ParsingError(b))) => {
                    assert_eq!(t.input.as_bytes(), b.input, "{sentence:?}");
                    assert_eq!(t.code, b.code);
                }
                (
                    Err(Error::ChecksumMismatch { expected, found }),
                    Err(Error::ChecksumMismatch { expected: e, found: f }),
                ) => assert_eq!((expected, found), (e, f)),
                (t, b) => panic!("{sentence:?}: {t:?} and {b:?}"),
            }
        }
    }
}

#[test]
fn text_parts_are_handed_back_as_text() {
    let strict = (ChecksumMode::Required, LineEndingMode::Required);
    assert_eq!(frame_str(strict.0, strict.1, "$GPGGA,data*6A\r\n"), Ok("GPGGA,data"));
    assert_eq!(frame_str(strict.0, strict.1, "$*00\r\n"), Ok(""));
    assert_eq!(
        frame_str(strict.0, strict.1, "$GPGGA,data*6A7\r\n"),
        Err(text_failure("7", ErrorKind::Count))
    );
    assert_eq!(
        frame_str(strict.0, strict.1, "$GPGGA,data*z\r\n"),
        Err(text_failure("z", ErrorKind::Count))
    );
    assert_eq!(
        frame_str(strict.0, strict.1, "$GPGGA,data*6z\r\n"),
        Err(text_failure("z", ErrorKind::IsA))
    );
    assert_eq!(
        frame_str(strict.0, strict.1, "$GPGGA,data\r\n"),
        Err(text_failure("", ErrorKind::Eof))
    );
    assert_eq!(
        frame_str(strict.0, strict.1, "$GPGGA,data*6A\r\nmore"),
        Err(text_failure("more", ErrorKind::CrLf))
    );
    assert_eq!(
        frame_str(strict.0, strict.1, "$GPGGA,data*6A"),
        Err(text_failure("*6A", ErrorKind::CrLf))
    );
    assert_eq!(
        frame_str(strict.0, strict.1, "GPGGA"),
        Err(text_failure("GPGGA", ErrorKind::Char))
    );
    assert_eq!(
        frame_str(ChecksumMode::Optional, LineEndingMode::Forbidden, "$GPGGA,data\r\n"),
        Err(text_failure("\r\n", ErrorKind::CrLf))
    );
    assert_eq!(
        frame_str(ChecksumMode::Optional, LineEndingMode::Forbidden, "$GPGGA,data*6"),
        Err(text_failure("6", ErrorKind::Count))
    );
    assert_eq!(
        frame_str(strict.0, strict.1, "$X*99\r\n"),
        Err(Error::ChecksumMismatch { expected: 0x58, found: 0x99 })
    );
}

#[test]
fn text_that_is_not_ascii_is_rejected() {
    for (cc, le) in MODES {
        assert_eq!(frame_str(cc, le, "$GPGGA,dat\u{e9}*6A\r\n"), Err(Error::NonAscii));
        assert_eq!(frame_str(cc, le, "$GPGGA,data*6A\r\n\u{e9}"), Err(Error::NonAscii));
        assert_eq!(frame_str(cc, le, "\u{1F600}"), Err(Error::NonAscii));
    }
}

#[test]
fn text_content_is_handed_to_the_content_parser() {
    let parser = Nmea0183ParserBuilder::new().build(text_parser);
    assert_eq!(parser.parse_str("$GPGGA,123456,data*41\r\n"), Ok(("", 17)));
    assert_eq!(parser.frame_str("$GPGGA,123456,data*41\r\n"), Ok("GPGGA,123456,data"));
    assert_eq!(
        parser.parse_str("$GPGGA,123456,data*41"),
        Err(text_failure("*41", ErrorKind::CrLf))
    );
    assert_eq!(parser.parse_str("$caf\u{e9}*00\r\n"), Err(Error::NonAscii));
}
