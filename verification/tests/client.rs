use nmea0183_parser::{IResult, NmeaParse};

#[derive(Debug, PartialEq)]
struct Pair {
    a: u8,
    b: Option<u8>,
}

impl vstd::view::DeepView for Pair { type V = Self; fn deep_view(&self) -> Self { unreachable!() } }

impl nmea0183_parser::NmeaParse for Pair {
    fn spec_parse(_: vstd::seq::Seq<u8>) -> nmea0183_parser::error::SpecResult<Self> { unreachable!() }
    fn spec_parse_preceded(_: u8, _: vstd::seq::Seq<u8>) -> nmea0183_parser::error::SpecResult<Self> { unreachable!() }
    fn parse<'nmea>(nmea_input: &'nmea [u8]) -> nmea0183_parser::IResult<'nmea, Self> {
        let (nmea_input, a) = (<u8>::parse)(nmea_input)?;
        let (nmea_input, b) = (|i| <Option<u8>>::parse_preceded(b',', i))(nmea_input)?;
        let struct_def = Pair { a, b };
        Ok((nmea_input, struct_def))
    }
    fn parse_preceded<'nmea>(sep: u8, nmea_input: &'nmea [u8]) -> nmea0183_parser::IResult<'nmea, Self> {
        match nmea0183_parser::parse::char(sep, nmea_input) {
            Ok((rest, _)) => Self::parse(rest),
            Err(e) => Err(e),
        }
    }
}

#[derive(Debug, PartialEq)]
struct Mixed {
    count: u8,
    extra: Option<u16>,
    skipped: u32,
    wide: u64,
    flag: bool,
    tail: usize,
}

impl vstd::view::DeepView for Mixed { type V = Self; fn deep_view(&self) -> Self { unreachable!() } } impl nmea0183_parser::NmeaParse for Mixed { fn spec_parse(_: vstd::seq::Seq<u8>) -> nmea0183_parser::error::SpecResult<Self> { unreachable!() } fn spec_parse_preceded(_: u8, _: vstd::seq::Seq<u8>) -> nmea0183_parser::error::SpecResult<Self> { unreachable!() } fn parse<'nmea>(nmea_input: &'nmea [u8]) -> nmea0183_parser::IResult<'nmea, Self> { let whole = nmea_input; let (nmea_input, _) = nmea0183_parser::parsing::take(1 as usize, nmea_input)?; let (nmea_input, count) = (<u8>::parse)(nmea_input)?; let (nmea_input, extra) = (|i| nmea0183_parser::parsing::cond(count > 1, |i| <u16>::parse_preceded(b',', i), i))(nmea_input)?; let (nmea_input, skipped) = (|i| nmea0183_parser::parsing::success(<u32>::default(), i))(nmea_input)?; let (nmea_input, wide) = (|i| nmea0183_parser::parsing::into(|i| <u8>::parse_preceded(b',', i), i))(nmea_input)?; let (nmea_input, flag) = (|i| nmea0183_parser::parsing::map(|i| <char>::parse_preceded(b',', i), |c: char| c == 'Y', i))(nmea_input)?; let (nmea_input, tail) = (|i| nmea0183_parser::parsing::preceded_by(b',', |i: &'nmea [u8]| Ok((i, i.len())), i))(nmea_input)?; let struct_def = Mixed { count, extra, skipped, wide, flag, tail }; if !nmea_input.is_empty() { return Err(nmea0183_parser::error::make_error(nmea_input, nmea0183_parser::ErrorKind::Verify)); } let _ = whole; Ok((nmea_input, struct_def)) } fn parse_preceded<'nmea>(sep: u8, nmea_input: &'nmea [u8]) -> nmea0183_parser::IResult<'nmea, Self> { match nmea0183_parser::parse::char(sep, nmea_input) { Ok((rest, _)) => Self::parse(rest), Err(e) => Err(e) } } }

#[test]
fn client_type_with_every_kind_of_field() {
    assert_eq!(
        Mixed::parse(b"!2,500,7,Y,"),
        Ok((
            &b""[..],
            Mixed { count: 2, extra: Some(500), skipped: 0, wide: 7, flag: true, tail: 0 }
        ))
    );
    assert_eq!(
        Mixed::parse(b"!1,7,N,"),
        Ok((&b""[..], Mixed { count: 1, extra: None, skipped: 0, wide: 7, flag: false, tail: 0 }))
    );
    assert!(Mixed::parse(b"!1,7,N,x").is_err());
    assert!(Mixed::parse(b"").is_err());
}

#[test]
fn client_type_parses_its_fields_in_order() {
    let r: IResult<'_, Pair> = Pair::parse(b"7,");
    assert_eq!(r, Ok((&b""[..], Pair { a: 7, b: None })));
}

#[derive(Debug, PartialEq)]
enum Status<T> {
    Valid,
    Other(T),
}

impl<T> vstd::view::DeepView for Status<T> where T: Copy, T: nmea0183_parser::NmeaParse { type V = Self; fn deep_view(&self) -> Self { unreachable!() } } impl<T> nmea0183_parser::NmeaParse for Status<T> where T: Copy, T: nmea0183_parser::NmeaParse { fn spec_parse(_: vstd::seq::Seq<u8>) -> nmea0183_parser::error::SpecResult<Self> { unreachable!() } fn spec_parse_preceded(_: u8, _: vstd::seq::Seq<u8>) -> nmea0183_parser::error::SpecResult<Self> { unreachable!() } fn parse<'nmea>(nmea_input: &'nmea [u8]) -> nmea0183_parser::IResult<'nmea, Self> { let (nmea_input, nmea_selector) = (<char>::parse)(nmea_input)?; let (nmea_input, enum_def) = match nmea_selector { 'A' => { let (nmea_input, struct_def) = { let struct_def = Status::Valid; Ok((nmea_input, struct_def)) }?; Ok((nmea_input, struct_def)) } _ => { let (nmea_input, struct_def) = { let (nmea_input, _nmea_unnamed_0) = (|i| <T>::parse_preceded(b',', i))(nmea_input)?; let struct_def = Status::Other(_nmea_unnamed_0); Ok((nmea_input, struct_def)) }?; Ok((nmea_input, struct_def)) }  }?; Ok((nmea_input, enum_def)) } fn parse_preceded<'nmea>(sep: u8, nmea_input: &'nmea [u8]) -> nmea0183_parser::IResult<'nmea, Self> { match nmea0183_parser::parse::char(sep, nmea_input) { Ok((rest, _)) => Self::parse(rest), Err(e) => Err(e) } } }

#[test]
fn client_enum_is_selected_by_its_first_character() {
    assert_eq!(Status::<u8>::parse(b"A"), Ok((&b""[..], Status::Valid)));
    assert_eq!(Status::<u8>::parse(b"X,5"), Ok((&b""[..], Status::Other(5))));
}
