//! GSV: the satellites in view.

use crate::error::{IResult, SpecResult};
use crate::lex::{lex_hex_u32, spec_hex_u32};
use crate::nmea_content::parse::{collect_satellites, satellite_items, spec_satellites};
use crate::nmea_content::sentences::{Satellite, SignalId};
use crate::parse::{bounded_preceded, char, spec_char, NmeaParse, COMMA};
use vstd::prelude::*;

verus! {

/// The satellites in view, as one sentence of a group reports them.
#[derive(Debug)]
pub struct GSV {
    /// The number of sentences of the group.
    pub total_messages: u8,
    /// The number of this sentence in the group, from 1.
    pub message_number: u8,
    /// The number of satellites in view.
    pub satellites_in_view: u8,
    /// The satellites that this sentence reports: at most four.
    pub satellites: heapless::Vec<Satellite, 4>,
    /// The signal that the satellites were heard on.
    pub signal_id: Option<SignalId>,
}

/// A GSV sentence as contracts speak of it.
pub struct SpecGSV {
    /// The number of sentences of the group.
    pub total_messages: u8,
    /// The number of this sentence in the group, from 1.
    pub message_number: u8,
    /// The number of satellites in view.
    pub satellites_in_view: u8,
    /// The satellites that this sentence reports.
    pub satellites: Seq<Satellite>,
    /// The signal that the satellites were heard on.
    pub signal_id: Option<SignalId>,
}

impl DeepView for GSV {
    type V = SpecGSV;

    open spec fn deep_view(&self) -> SpecGSV {
        SpecGSV {
            total_messages: self.total_messages,
            message_number: self.message_number,
            satellites_in_view: self.satellites_in_view,
            satellites: satellite_items(self.satellites),
            signal_id: self.signal_id,
        }
    }
}

/// What reading the signal of a GSV sentence gives, behind its satellites.
/// Where no satellite was read and no input is left there is no signal.
/// Else a comma must follow, and behind it the signal, a hexadecimal number
/// of which the lowest eight bits count, or nothing.
pub open spec fn spec_signal_id(any_satellite: bool, i: Seq<u8>) -> SpecResult<Option<SignalId>> {
    if !(any_satellite || i.len() > 0) {
        Ok((i, None))
    } else {
        match spec_char(COMMA, i) {
            Err(e) => Err(e),
            Ok((rest, _)) => match spec_hex_u32(rest) {
                Some((last, v)) => Ok((last, Some((v % 256) as u8))),
                None => Ok((rest, None)),
            },
        }
    }
}

/// Reads the signal of a GSV sentence, behind its satellites.
pub fn signal_id<'a>(any_satellite: bool, i: &'a [u8]) -> (r: IResult<'a, Option<SignalId>>)
    ensures
        crate::error::result_is(r, spec_signal_id(any_satellite, i@)),
{
    if !(any_satellite || i.len() > 0) {
        return Ok((i, None));
    }
    match char(COMMA, i) {
        Err(e) => Err(e),
        Ok((rest, _)) => match lex_hex_u32(rest) {
            Some((last, v)) => Ok((last, Some((v % 256) as u8))),
            None => Ok((rest, None)),
        },
    }
}

impl NmeaParse for GSV {
    /// Three numbers, separated by commas; then at most four satellites,
    /// each behind a comma; then the signal.
    open spec fn spec_parse(i: Seq<u8>) -> SpecResult<SpecGSV> {
        match u8::spec_parse(i) {
            Err(e) => Err(e),
            Ok((i1, total_messages)) => match u8::spec_parse_preceded(COMMA, i1) {
                Err(e) => Err(e),
                Ok((i2, message_number)) => match u8::spec_parse_preceded(COMMA, i2) {
                    Err(e) => Err(e),
                    Ok((i3, satellites_in_view)) => match spec_satellites(COMMA, i3) {
                        Err(e) => Err(e),
                        Ok((i4, satellites)) => match spec_signal_id(satellites.len() > 0, i4) {
                            Err(e) => Err(e),
                            Ok((i5, signal_id)) => Ok(
                                (
                                    i5,
                                    SpecGSV {
                                        total_messages,
                                        message_number,
                                        satellites_in_view,
                                        satellites,
                                        signal_id,
                                    },
                                ),
                            ),
                        },
                    },
                },
            },
        }
    }

    open spec fn spec_parse_preceded(sep: u8, i: Seq<u8>) -> SpecResult<SpecGSV> {
        match spec_char(sep, i) {
            Ok((rest, _)) => Self::spec_parse(rest),
            Err(e) => Err(e),
        }
    }

    fn parse<'a>(i: &'a [u8]) -> (r: IResult<'a, GSV>) {
        let (i, total_messages) = match u8::parse(i) {
            Ok(read) => read,
            Err(e) => {
                return Err(e);
            },
        };
        let (i, message_number) = match u8::parse_preceded(COMMA, i) {
            Ok(read) => read,
            Err(e) => {
                return Err(e);
            },
        };
        let (i, satellites_in_view) = match u8::parse_preceded(COMMA, i) {
            Ok(read) => read,
            Err(e) => {
                return Err(e);
            },
        };
        let (i, items) = match bounded_preceded::<Satellite>(4, COMMA, i) {
            Ok(read) => read,
            Err(e) => {
                return Err(e);
            },
        };
        assert(items.deep_view() =~= items@);
        let any_satellite = items.len() > 0;
        let satellites = collect_satellites(items);
        let (i, signal_id) = match signal_id(any_satellite, i) {
            Ok(read) => read,
            Err(e) => {
                return Err(e);
            },
        };
        Ok((i, GSV { total_messages, message_number, satellites_in_view, satellites, signal_id }))
    }

    fn parse_preceded<'a>(sep: u8, i: &'a [u8]) -> (r: IResult<'a, GSV>) {
        match char(sep, i) {
            Ok((rest, _)) => Self::parse(rest),
            Err(e) => Err(e),
        }
    }
}

} // verus!
