use nmea0183_parser::nmea0183::checksum_crlf;
use nmea0183_parser::{ChecksumMode, Error, ErrorKind, IResult, LineEndingMode};

fn code_of<O: std::fmt::Debug>(res: IResult<'_, O>) -> ErrorKind {
    match res {
        Err(Error::ParsingError(error)) => error.code,
        other => panic!("Unexpected error: {:?}", other),
    }
}

#[test]
fn cc_crlf11_test_checksum_crlf_ok() {
    let i = "*1F\r\n";
    let res = checksum_crlf(ChecksumMode::Required, LineEndingMode::Required).parse(i.as_bytes());

    assert!(res.is_ok());
    assert_eq!(res.unwrap().1, Some(0x1F));
}

#[test]
fn cc_crlf11_test_checksum_crlf_large_hex() {
    let i = "*1F43\r\n";
    let res = checksum_crlf(ChecksumMode::Required, LineEndingMode::Required).parse(i.as_bytes());
    assert!(res.is_err());

    assert_eq!(code_of(res), ErrorKind::Count)
}

#[test]
fn cc_crlf11_test_checksum_crlf_large_text() {
    let i = "*1Fzz\r\n";
    let res = checksum_crlf(ChecksumMode::Required, LineEndingMode::Required).parse(i.as_bytes());
    assert!(res.is_err());

    assert_eq!(code_of(res), ErrorKind::Count)
}

#[test]
fn cc_crlf11_test_checksum_crlf_small() {
    let i = "*1\r\n";
    let res = checksum_crlf(ChecksumMode::Required, LineEndingMode::Required).parse(i.as_bytes());
    assert!(res.is_err());

    assert_eq!(code_of(res), ErrorKind::Count)
}

#[test]
fn cc_crlf11_test_checksum_crlf_non_hex() {
    let i = "*1z\r\n";
    let res = checksum_crlf(ChecksumMode::Required, LineEndingMode::Required).parse(i.as_bytes());
    assert!(res.is_err());

    assert_eq!(code_of(res), ErrorKind::IsA)
}

#[test]
fn test_checksum_crlf_no_crlf() {
    let i = "*1z";
    let res = checksum_crlf(ChecksumMode::Required, LineEndingMode::Required).parse(i.as_bytes());
    assert!(res.is_err());

    assert_eq!(code_of(res), ErrorKind::CrLf)
}

#[test]
fn cc_crlf11_test_checksum_crlf_no_checksum() {
    let i = "\r\n";
    let res = checksum_crlf(ChecksumMode::Required, LineEndingMode::Required).parse(i.as_bytes());
    assert!(res.is_err());

    assert_eq!(code_of(res), ErrorKind::Eof)
}
