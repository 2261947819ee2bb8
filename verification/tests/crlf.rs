use nmea0183_parser::nmea0183::crlf;
use nmea0183_parser::{Error, ErrorKind, LineEndingMode};

#[test]
fn test_crlf() {
    let res = crlf(LineEndingMode::Required).parse("12345\r\n".as_bytes());
    assert!(res.is_ok());
    let (data, _) = res.unwrap();
    assert_eq!(data, "12345".as_bytes());

    let res = crlf(LineEndingMode::Required).parse("12345".as_bytes());
    assert!(res.is_err());
    let err = res.unwrap_err();
    if let Error::ParsingError(e) = err {
        assert_eq!(e.code, ErrorKind::CrLf);
    }

    let res = crlf(LineEndingMode::Forbidden).parse("12345".as_bytes());
    assert!(res.is_ok());
    let (data, _) = res.unwrap();
    assert_eq!(data, "12345".as_bytes());

    let res = crlf(LineEndingMode::Forbidden).parse("12345\r\n".as_bytes());
    assert!(res.is_err());
    let err = res.unwrap_err();
    if let Error::ParsingError(e) = err {
        assert_eq!(e.code, ErrorKind::CrLf);
    }
}
