use nmea0183_parser::nmea_content::parse::{
    date_full_year, fix_sats_prn, satellites, utc_offset, Date, UtcOffset,
};
use nmea0183_parser::nmea_content::sentences::sentence_type;
use nmea0183_parser::nmea_content::{
    FaaMode, FixMode, NavStatus, Quality, Satellite, SelectionMode, SentenceType, Status,
    SystemId, GSV,
};
use nmea0183_parser::parse::{bounded, bounded_preceded, one_of, with_take, with_unit};
use nmea0183_parser::{Error, ErrorKind, NmeaParse, ParseError};

fn failure(input: &str, code: ErrorKind) -> Error<&[u8], ParseError<&[u8]>> {
    Error::ParsingError(ParseError { input: input.as_bytes(), code })
}

#[test]
fn test_status() {
    assert_eq!(Status::parse("A".as_bytes()).unwrap(), ("".as_bytes(), Status::Valid));
    assert_eq!(Status::parse("V".as_bytes()).unwrap(), ("".as_bytes(), Status::Invalid));
    assert!(Status::parse("K".as_bytes()).is_err());
}

#[test]
fn test_faa_mode() {
    assert_eq!(FaaMode::parse("A".as_bytes()).unwrap(), ("".as_bytes(), FaaMode::Autonomous));
    assert_eq!(FaaMode::parse("C".as_bytes()).unwrap(), ("".as_bytes(), FaaMode::Caution));
    assert_eq!(FaaMode::parse("D".as_bytes()).unwrap(), ("".as_bytes(), FaaMode::Differential));
    assert_eq!(FaaMode::parse("E".as_bytes()).unwrap(), ("".as_bytes(), FaaMode::Estimated));
    assert_eq!(FaaMode::parse("F".as_bytes()).unwrap(), ("".as_bytes(), FaaMode::FloatRtk));
    assert_eq!(FaaMode::parse("M".as_bytes()).unwrap(), ("".as_bytes(), FaaMode::Manual));
    assert_eq!(FaaMode::parse("N".as_bytes()).unwrap(), ("".as_bytes(), FaaMode::DataNotValid));
    assert_eq!(FaaMode::parse("P".as_bytes()).unwrap(), ("".as_bytes(), FaaMode::Precise));
    assert_eq!(FaaMode::parse("R".as_bytes()).unwrap(), ("".as_bytes(), FaaMode::FixedRtk));
    assert_eq!(FaaMode::parse("S".as_bytes()).unwrap(), ("".as_bytes(), FaaMode::Simulator));
    assert_eq!(FaaMode::parse("U".as_bytes()).unwrap(), ("".as_bytes(), FaaMode::Unsafe));
    assert!(FaaMode::parse("X".as_bytes()).is_err());
}

#[test]
fn test_gsa_quality() {
    assert_eq!(Quality::parse("0".as_bytes()).unwrap(), ("".as_bytes(), Quality::NoFix));
    assert_eq!(Quality::parse("1".as_bytes()).unwrap(), ("".as_bytes(), Quality::GPSFix));
    assert_eq!(Quality::parse("2".as_bytes()).unwrap(), ("".as_bytes(), Quality::DGPSFix));
    assert_eq!(Quality::parse("3".as_bytes()).unwrap(), ("".as_bytes(), Quality::PPSFix));
    assert_eq!(Quality::parse("4".as_bytes()).unwrap(), ("".as_bytes(), Quality::RTK));
    assert_eq!(Quality::parse("5".as_bytes()).unwrap(), ("".as_bytes(), Quality::FloatRTK));
    assert_eq!(Quality::parse("6".as_bytes()).unwrap(), ("".as_bytes(), Quality::Estimated));
    assert_eq!(Quality::parse("7".as_bytes()).unwrap(), ("".as_bytes(), Quality::Manual));
    assert_eq!(Quality::parse("8".as_bytes()).unwrap(), ("".as_bytes(), Quality::Simulation));
    assert!(Quality::parse("9".as_bytes()).is_err());
}

#[test]
fn test_selection_mode() {
    assert_eq!(
        SelectionMode::parse("A".as_bytes()).unwrap(),
        ("".as_bytes(), SelectionMode::Automatic)
    );
    assert_eq!(
        SelectionMode::parse("M".as_bytes()).unwrap(),
        ("".as_bytes(), SelectionMode::Manual)
    );
    assert!(SelectionMode::parse("X".as_bytes()).is_err());
}

#[test]
fn test_fix_mode() {
    assert_eq!(FixMode::parse("1".as_bytes()).unwrap(), ("".as_bytes(), FixMode::NoFix));
    assert_eq!(FixMode::parse("2".as_bytes()).unwrap(), ("".as_bytes(), FixMode::Fix2D));
    assert_eq!(FixMode::parse("3".as_bytes()).unwrap(), ("".as_bytes(), FixMode::Fix3D));
    assert!(FixMode::parse("4".as_bytes()).is_err());
}

#[test]
fn test_system_id() {
    assert_eq!(SystemId::parse("1".as_bytes()).unwrap(), ("".as_bytes(), SystemId::Gps));
    assert_eq!(SystemId::parse("2".as_bytes()).unwrap(), ("".as_bytes(), SystemId::Glonass));
    assert_eq!(SystemId::parse("3".as_bytes()).unwrap(), ("".as_bytes(), SystemId::Galileo));
    assert_eq!(SystemId::parse("4".as_bytes()).unwrap(), ("".as_bytes(), SystemId::Beidou));
    assert_eq!(SystemId::parse("5".as_bytes()).unwrap(), ("".as_bytes(), SystemId::Qzss));
    assert_eq!(SystemId::parse("6".as_bytes()).unwrap(), ("".as_bytes(), SystemId::Navic));
    assert!(SystemId::parse("7".as_bytes()).is_err());
}

#[test]
fn test_gsv_parsing() {
    let cases = [
        "1,1,00",
        "1,1,00,",
        "1,1,00,F",
        "1,1,01,05,45,120,38,",
        "1,1,04,01,60,150,45,02,30,090,30,03,70,270,50,04,10,010,20,",
        "1,1,01,05,45,120,,",
        "1,1,01,06,30,,40,",
        "1,1,01,07,,070,35,",
        "1,1,01,08,,,30,",
        "1,1,01,09,,180,,",
        "1,1,01,10,50,,,",
        "1,1,01,11,,,,",
        "1,1,03,01,60,150,45,02,30,,30,03,,270,,",
        "1,1,01,12,,,,",
        "1,1,01,05,45,,,",
    ];

    for &input in &cases {
        let result = GSV::parse(input.as_bytes());
        assert!(result.is_ok(), "Failed: {input:?}\n\t{result:?}");
        println!("Parsed: {input:?} -> {result:?}");
    }

    let cases = [
        "1,1,01,05,45,120,38",
        "1,1,04,01,60,150,45,02,30,090,30,03,70,270,50,04,10,010,20",
        "1,1,01,05,45,120,",
        "1,1,01,06,30,,40",
        "1,1,01,07,,070,35",
        "1,1,01,08,,,30",
        "1,1,01,09,,180,",
        "1,1,01,10,50,,",
        "1,1,01,11,,,",
        "1,1,03,01,60,150,45,02,30,,30,03,,270,",
        "1,1,01,12,,,",
        "1,1,01,05,45,,",
    ];

    for &input in &cases {
        let result = GSV::parse(input.as_bytes());
        assert!(result.is_err(), "Failed: {input:?}\n\t{result:?}");
    }
}

#[test]
fn test_parse_heapless_vec() {
    let input = "1,2,,4";
    let expected: heapless::Vec<u8, 4> = heapless::Vec::from_slice(&[1, 2, 4]).unwrap();
    let result = bounded::<Option<u8>>(4, input.as_bytes())
        .map(|(rest, v)| (rest, v.into_iter().flatten().collect::<heapless::Vec<u8, 4>>()));
    assert_eq!(result, Ok(("".as_bytes(), expected)));

    let input = ",1,2,,4";
    let expected: heapless::Vec<u8, 4> = heapless::Vec::from_slice(&[1, 2, 4]).unwrap();
    let result = bounded_preceded::<Option<u8>>(4, b',', input.as_bytes())
        .map(|(rest, v)| (rest, v.into_iter().flatten().collect::<heapless::Vec<u8, 4>>()));
    assert_eq!(result, Ok(("".as_bytes(), expected)));
}

#[test]
fn gsv_fields_are_read_in_order() {
    let (rest, gsv) = GSV::parse(b"3,2,11,05,50,045,25,06,30,,15,1F,x").unwrap();
    assert_eq!(rest, b",x");
    assert_eq!(gsv.total_messages, 3);
    assert_eq!(gsv.message_number, 2);
    assert_eq!(gsv.satellites_in_view, 11);
    assert_eq!(
        gsv.satellites.as_slice(),
        &[
            Satellite { prn: 5, elevation: Some(50), azimuth: Some(45), snr: Some(25) },
            Satellite { prn: 6, elevation: Some(30), azimuth: None, snr: Some(15) },
        ]
    );
    assert_eq!(gsv.signal_id, Some(0x1f));
    let (_, gsv) = GSV::parse(b"1,1,00,1ff").unwrap();
    assert_eq!(gsv.signal_id, Some(0xff));
    assert!(gsv.satellites.is_empty());
    assert_eq!(GSV::parse_preceded(b',', b",1,1,00").unwrap().1.signal_id, None);
}

#[test]
fn gsv_takes_at_most_four_satellites() {
    let (rest, gsv) =
        GSV::parse(b"1,1,05,01,1,1,1,02,2,2,2,03,3,3,3,04,4,4,4,05,5,5,5").unwrap();
    assert_eq!(gsv.satellites.len(), 4);
    assert_eq!(gsv.signal_id, Some(5));
    assert_eq!(rest, b",5,5,5");
}

#[test]
fn satellite_fields_may_be_missing() {
    assert_eq!(
        Satellite::parse(b"05,45,120,38"),
        Ok((&b""[..], Satellite { prn: 5, elevation: Some(45), azimuth: Some(120), snr: Some(38) }))
    );
    assert_eq!(
        Satellite::parse(b"11,,,"),
        Ok((&b""[..], Satellite { prn: 11, elevation: None, azimuth: None, snr: None }))
    );
    assert_eq!(Satellite::parse(b",1,2,3"), Err(failure(",1,2,3", ErrorKind::Digit)));
    assert_eq!(Satellite::parse(b"05,45,120"), Err(failure("", ErrorKind::Char)));
    assert_eq!(Satellite::parse(b"05,45,999,1"), Ok((&b""[..], Satellite { prn: 5, elevation: Some(45), azimuth: Some(999), snr: Some(1) })));
    assert_eq!(Satellite::parse(b"05,45,x,1"), Err(failure(",x,1", ErrorKind::Verify)));
}

#[test]
fn satellites_are_collected_up_to_four() {
    let (rest, list) = satellites(b',', b",1,,,,2,,,").unwrap();
    assert_eq!(rest, b"");
    assert_eq!(list.len(), 2);
    assert_eq!(list[1].prn, 2);
    let (rest, list) = satellites(b',', b"").unwrap();
    assert_eq!(rest, b"");
    assert!(list.is_empty());
}

#[test]
fn fix_sats_prn_leaves_out_empty_fields() {
    let expected: heapless::Vec<u8, 12> =
        heapless::Vec::from_slice(&[1, 2, 3, 5, 6, 8, 9, 11, 12]).unwrap();
    assert_eq!(
        fix_sats_prn(b',', b",1,2,3,,5,6,,8,9,,11,12,1.0,,3.0,"),
        Ok((&b",1.0,,3.0,"[..], expected))
    );
    let all: heapless::Vec<u8, 12> =
        heapless::Vec::from_slice(&[1, 2, 3, 4, 5, 6, 7, 8, 9, 10, 11, 12]).unwrap();
    assert_eq!(
        fix_sats_prn(b',', b",01,02,03,04,05,06,07,08,09,10,11,12"),
        Ok((&b""[..], all))
    );
    assert_eq!(fix_sats_prn(b',', b",,,,,,,,,,,,"), Ok((&b""[..], heapless::Vec::new())));
    assert_eq!(fix_sats_prn(b',', b",1,2,3"), Err(failure("", ErrorKind::Count)));
}

#[test]
fn enum_behind_a_separator() {
    assert_eq!(Status::parse_preceded(b',', b",A,"), Ok((&b","[..], Status::Valid)));
    assert_eq!(Status::parse_preceded(b',', b"A"), Err(failure("A", ErrorKind::Char)));
    assert_eq!(Status::parse(b""), Err(failure("", ErrorKind::OneOf)));
    assert_eq!(NavStatus::parse(b"V1"), Ok((&b"1"[..], NavStatus::Valid)));
    assert_eq!(NavStatus::parse(b"v"), Err(failure("v", ErrorKind::OneOf)));
    assert_eq!(Option::<FixMode>::parse_preceded(b',', b",,"), Ok((&b","[..], None)));
    assert_eq!(Status::from_selector(b'V'), Some(Status::Invalid));
    assert_eq!(Status::from_selector(b'v'), None);
}

#[test]
fn nav_status_values() {
    for (c, v) in [
        (b'A', NavStatus::Autonomous),
        (b'D', NavStatus::Differential),
        (b'E', NavStatus::Estimated),
        (b'M', NavStatus::Manual),
        (b'N', NavStatus::NotValid),
        (b'S', NavStatus::Simulator),
        (b'V', NavStatus::Valid),
    ] {
        assert_eq!(NavStatus::parse(&[c]), Ok((&b""[..], v)));
    }
}

#[test]
fn date_of_six_digits() {
    assert_eq!(
        Date::parse(b"230394"),
        Ok((&b""[..], Date { year: 1994, month: 3, day: 23 }))
    );
    assert_eq!(
        Date::parse(b"010100,"),
        Ok((&b","[..], Date { year: 2000, month: 1, day: 1 }))
    );
    assert_eq!(Date::parse(b"311283"), Ok((&b""[..], Date { year: 1983, month: 12, day: 31 })));
    assert_eq!(Date::parse(b"311282"), Ok((&b""[..], Date { year: 2082, month: 12, day: 31 })));
    assert_eq!(Date::parse(b"290224"), Ok((&b""[..], Date { year: 2024, month: 2, day: 29 })));
    assert_eq!(Date::parse(b"290200"), Ok((&b""[..], Date { year: 2000, month: 2, day: 29 })));
    assert_eq!(Date::parse_preceded(b',', b",050607"), Ok((&b""[..], Date { year: 2007, month: 6, day: 5 })));
}

#[test]
fn date_that_does_not_exist() {
    assert_eq!(Date::parse(b"290223x"), Err(failure("x", ErrorKind::Verify)));
    assert_eq!(Date::parse(b"320125"), Err(failure("", ErrorKind::Verify)));
    assert_eq!(Date::parse(b"011325"), Err(failure("", ErrorKind::Verify)));
    assert_eq!(Date::parse(b"000125"), Err(failure("", ErrorKind::Verify)));
    assert_eq!(Date::parse(b"010025"), Err(failure("", ErrorKind::Verify)));
    assert_eq!(Date::parse(b"310425"), Err(failure("", ErrorKind::Verify)));
}

#[test]
fn date_that_is_malformed() {
    assert_eq!(Date::parse(b"01012"), Err(failure("2", ErrorKind::Eof)));
    assert_eq!(Date::parse(b"01x125"), Err(failure("x1", ErrorKind::Digit)));
    // Each pair is read as a number by itself: what follows its digits is dropped.
    assert_eq!(Date::parse(b"1x0125"), Ok((&b""[..], Date { year: 2025, month: 1, day: 1 })));
    assert_eq!(Date::parse(b"x10125"), Err(failure("x1", ErrorKind::Digit)));
    assert_eq!(Date::parse(b""), Err(failure("", ErrorKind::Eof)));
}

#[test]
fn date_with_full_year() {
    assert_eq!(
        date_full_year(b"04,07,2025,,"),
        Ok((&b",,"[..], Some(Date { year: 2025, month: 7, day: 4 })))
    );
    assert_eq!(date_full_year(b",,,"), Ok((&b","[..], None)));
    assert_eq!(date_full_year(b"29,02,1900"), Err(failure("", ErrorKind::Verify)));
    assert_eq!(date_full_year(b"29,02,2000"), Ok((&b""[..], Some(Date { year: 2000, month: 2, day: 29 }))));
    assert_eq!(date_full_year(b"31,12,9999"), Ok((&b""[..], Some(Date { year: 9999, month: 12, day: 31 }))));
    assert_eq!(date_full_year(b"01,01,10000"), Err(failure("", ErrorKind::Verify)));
    assert_eq!(date_full_year(b"32,07,2025,,"), Err(failure(",,", ErrorKind::Verify)));
    assert_eq!(date_full_year(b"04,13,2025"), Err(failure("", ErrorKind::Verify)));
    assert_eq!(date_full_year(b"0,07,2025"), Err(failure("", ErrorKind::Verify)));
    assert_eq!(date_full_year(b"11,,"), Err(failure(",", ErrorKind::Digit)));
    assert_eq!(date_full_year(b",07,2025"), Err(failure(",07,2025", ErrorKind::Digit)));
    assert_eq!(date_full_year(b"04,07"), Err(failure("", ErrorKind::Char)));
}

#[test]
fn offset_from_utc() {
    assert_eq!(utc_offset(b","), Ok((&b""[..], None)));
    assert_eq!(utc_offset(b"+03,00"), Ok((&b""[..], Some(UtcOffset { hours: 3, minutes: 0 }))));
    assert_eq!(utc_offset(b"-03,30"), Ok((&b""[..], Some(UtcOffset { hours: -3, minutes: -30 }))));
    assert_eq!(utc_offset(b"01,00,"), Ok((&b","[..], Some(UtcOffset { hours: 1, minutes: 0 }))));
    assert_eq!(utc_offset(b"+14,00"), Ok((&b""[..], Some(UtcOffset { hours: 14, minutes: 0 }))));
    assert_eq!(utc_offset(b"--3,30"), Ok((&b""[..], Some(UtcOffset { hours: 3, minutes: -30 }))));
    assert_eq!(utc_offset(b"25,59"), Ok((&b""[..], Some(UtcOffset { hours: 25, minutes: 59 }))));
    assert_eq!(utc_offset(b"-25,59"), Ok((&b""[..], Some(UtcOffset { hours: -25, minutes: -59 }))));
}

#[test]
fn offset_that_does_not_exist() {
    assert_eq!(utc_offset(b"26,00"), Err(failure("", ErrorKind::Verify)));
    assert_eq!(utc_offset(b"-26,00x"), Err(failure("x", ErrorKind::Verify)));
    assert_eq!(utc_offset(b"01,60"), Err(failure("", ErrorKind::Verify)));
    assert_eq!(utc_offset(b"--128,0"), Err(failure("", ErrorKind::Verify)));
    assert_eq!(utc_offset(b"-1,-128"), Err(failure("", ErrorKind::Verify)));
    assert_eq!(utc_offset(b"XX,"), Err(failure("XX,", ErrorKind::Digit)));
    assert_eq!(utc_offset(b"01,ab"), Err(failure("ab", ErrorKind::Digit)));
    assert_eq!(utc_offset(b"01"), Err(failure("", ErrorKind::Char)));
    assert_eq!(utc_offset(b""), Err(failure("", ErrorKind::Digit)));
}

#[test]
fn value_with_unit() {
    assert_eq!(with_unit::<u8>(b'M', b"12,M,"), Ok((&b","[..], Some(12))));
    assert_eq!(with_unit::<u8>(b'M', b"12,f"), Ok((&b"f"[..], None)));
    assert_eq!(with_unit::<u8>(b'M', b",M"), Ok((&b""[..], None)));
    assert_eq!(with_unit::<u8>(b'M', b","), Ok((&b""[..], None)));
    assert_eq!(with_unit::<u8>(b'M', b"12"), Err(failure("", ErrorKind::Char)));
}

#[test]
fn value_from_a_fixed_number_of_bytes() {
    assert_eq!(with_take::<u8>(2, b"0512"), Ok((&b"12"[..], 5)));
    assert_eq!(with_take::<u8>(3, b"1x3,"), Ok((&b","[..], 1)));
    assert_eq!(with_take::<u8>(2, b"5"), Err(failure("5", ErrorKind::Eof)));
    assert_eq!(with_take::<u8>(2, b"x5"), Err(failure("x5", ErrorKind::Digit)));
    assert_eq!(with_take::<u8>(0, b"5"), Err(failure("", ErrorKind::Digit)));
    assert_eq!(with_take::<i32>(2, b"-5"), Ok((&b""[..], -5)));
}

#[test]
fn bounded_list_stops_when_full() {
    assert_eq!(bounded::<u8>(2, b"1,2,3"), Ok((&b",3"[..], vec![1, 2])));
    assert_eq!(bounded::<u8>(4, b"1,2,3"), Ok((&b""[..], vec![1, 2, 3])));
    assert_eq!(bounded::<u8>(0, b"1,2,3"), Ok((&b"1,2,3"[..], vec![])));
    assert_eq!(bounded::<u8>(1, b"x"), Ok((&b"x"[..], vec![])));
    assert_eq!(bounded_preceded::<u8>(2, b',', b",1,2,3"), Ok((&b",3"[..], vec![1, 2])));
    assert_eq!(bounded_preceded::<u8>(0, b',', b",1"), Ok((&b",1"[..], vec![])));
    assert_eq!(bounded::<Option<u8>>(4, b""), Err(failure("", ErrorKind::Many0)));
    assert_eq!(
        bounded_preceded::<Vec<u8>>(4, b',', b"x"),
        Err(failure("x", ErrorKind::ManyMN))
    );
}

#[test]
fn one_byte_out_of_a_set() {
    assert_eq!(one_of(b"NS", b"S,"), Ok((&b","[..], b'S')));
    assert_eq!(one_of(b"NS", b"E"), Err(failure("E", ErrorKind::OneOf)));
    assert_eq!(one_of(b"NS", b""), Err(failure("", ErrorKind::OneOf)));
    assert_eq!(one_of(b"", b"N"), Err(failure("N", ErrorKind::OneOf)));
}

#[test]
fn sentence_type_follows_the_talker() {
    for (letters, kind) in [
        ("DBT", SentenceType::DBT),
        ("DPT", SentenceType::DPT),
        ("GGA", SentenceType::GGA),
        ("GLL", SentenceType::GLL),
        ("GSA", SentenceType::GSA),
        ("GSV", SentenceType::GSV),
        ("RMC", SentenceType::RMC),
        ("VTG", SentenceType::VTG),
        ("ZDA", SentenceType::ZDA),
    ] {
        let content = format!("GP{letters},1,2");
        assert_eq!(sentence_type(content.as_bytes()), Ok((&b",1,2"[..], kind)));
        let b = letters.as_bytes();
        assert_eq!(SentenceType::from_letters(b[0], b[1], b[2]), Some(kind));
    }
    assert_eq!(sentence_type(b"GNGGA"), Ok((&b""[..], SentenceType::GGA)));
    assert_eq!(SentenceType::from_letters(b'g', b'g', b'a'), None);
}

#[test]
fn unknown_sentence_type_is_unrecognized() {
    assert_eq!(
        sentence_type(b"GPUNK,some,data,here"),
        Err(Error::UnrecognizedMessage(&b"GPUNK,some,data,here"[..]))
    );
    assert_eq!(sentence_type(b"GPgga,"), Err(Error::UnrecognizedMessage(&b"GPgga,"[..])));
    assert_eq!(sentence_type(b"GPGG"), Err(failure("GG", ErrorKind::Eof)));
    assert_eq!(sentence_type(b"G"), Err(failure("G", ErrorKind::Eof)));
    assert_eq!(sentence_type(b""), Err(failure("", ErrorKind::Eof)));
}
