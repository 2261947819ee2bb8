//! The parsers of the fields that need more than their type: dates, offsets
//! from UTC, and the lists of satellites.

use crate::error::{make_error, spec_make_error, ErrorKind, IResult, SpecError, SpecResult};
use crate::nmea_content::sentences::Satellite;
use crate::parse::{
    bounded_preceded, char, spec_bounded_preceded, spec_char, spec_with_take, NmeaParse, COMMA,
};
use vstd::prelude::*;
use vstd::slice::slice_subrange;

pub use crate::parse::{with_take, with_unit};

verus! {

// ---------------------------------------------------------------------------
// Dates
// ---------------------------------------------------------------------------

/// A day of the calendar.
#[derive(Clone, Copy, Debug, PartialEq, Eq, Structural)]
pub struct Date {
    /// The year.
    pub year: i32,
    /// The month, from 1 for January to 12 for December.
    pub month: u8,
    /// The day of the month, from 1.
    pub day: u8,
}

impl DeepView for Date {
    type V = Date;

    open spec fn deep_view(&self) -> Date {
        *self
    }
}

/// Whether `year` is a leap year of the Gregorian calendar.
pub open spec fn is_leap_year(year: int) -> bool {
    year % 4 == 0 && (year % 100 != 0 || year % 400 == 0)
}

/// The number of days of the month `month` of the year `year`.
pub open spec fn days_in_month(year: int, month: int) -> int {
    if month == 2 {
        if is_leap_year(year) {
            29
        } else {
            28
        }
    } else if month == 4 || month == 6 || month == 9 || month == 11 {
        30
    } else {
        31
    }
}

/// Whether there is a day `day` of the month `month` of the year `year`: the
/// year is one of -9999 to 9999, the month one of 1 to 12, and the day one
/// of that month.
pub open spec fn is_calendar_date(year: int, month: int, day: int) -> bool {
    -9999 <= year <= 9999 && 1 <= month <= 12 && 1 <= day <= days_in_month(year, month)
}

impl Date {
    /// Whether this day exists.
    pub open spec fn wf(self) -> bool {
        is_calendar_date(self.year as int, self.month as int, self.day as int)
    }
}

/// Asks `time::Date::from_calendar_date` whether there is a day `day` of
/// the month `month` of the year `year`, the month being made by
/// `time::Month::try_from`. That function accepts the years from -9999 to
/// 9999, and in each the days that the Gregorian calendar gives the month;
/// `try_from` accepts the months from 1 to 12. The contract says exactly
/// this.
#[verifier::external_body]
pub(crate) fn calendar_date_exists(year: i32, month: u8, day: u8) -> (r: bool)
    ensures
        r == is_calendar_date(year as int, month as int, day as int),
{
    match time::Month::try_from(month) {
        Ok(month) => time::Date::from_calendar_date(year, month, day).is_ok(),
        Err(_) => false,
    }
}

/// The year that the two digits `year` of a date stand for: 1983 to 1999
/// for 83 to 99, a year counted from 2000 for any other number.
pub open spec fn spec_full_year(year: int) -> int {
    if 83 <= year <= 99 {
        year + 1900
    } else {
        year + 2000
    }
}

/// What the day of the year `year`, the month `month` and the day `day` is
/// once all three are read and `rest` is left: the day, or a failure of
/// kind `Verify` on `rest` where there is no such day.
pub open spec fn spec_date(rest: Seq<u8>, year: int, month: u8, day: u8) -> SpecResult<Date> {
    if is_calendar_date(year, month as int, day as int) {
        Ok((rest, Date { year: year as i32, month, day }))
    } else {
        Err(spec_make_error(rest, ErrorKind::Verify))
    }
}

/// Makes the day of the year `year`, the month `month` and the day `day`,
/// where `rest` is the input left behind the three.
fn date<'a>(rest: &'a [u8], year: i32, month: u8, day: u8) -> (r: IResult<'a, Date>)
    ensures
        crate::error::result_is(r, spec_date(rest@, year as int, month, day)),
{
    if calendar_date_exists(year, month, day) {
        Ok((rest, Date { year, month, day }))
    } else {
        Err(make_error(rest, ErrorKind::Verify))
    }
}

impl NmeaParse for Date {
    /// A date is six characters: two for the day, two for the month, two for
    /// the year of the century. Each pair is read as a number by itself.
    open spec fn spec_parse(i: Seq<u8>) -> SpecResult<Date> {
        match spec_with_take::<u8>(2, i) {
            Err(e) => Err(e),
            Ok((i1, day)) => match spec_with_take::<u8>(2, i1) {
                Err(e) => Err(e),
                Ok((i2, month)) => match spec_with_take::<i32>(2, i2) {
                    Err(e) => Err(e),
                    Ok((i3, year)) => spec_date(i3, spec_full_year(year as int), month, day),
                },
            },
        }
    }

    open spec fn spec_parse_preceded(sep: u8, i: Seq<u8>) -> SpecResult<Date> {
        match spec_char(sep, i) {
            Ok((rest, _)) => Self::spec_parse(rest),
            Err(e) => Err(e),
        }
    }

    fn parse<'a>(i: &'a [u8]) -> (r: IResult<'a, Date>) {
        let (i, day) = match with_take::<u8>(2, i) {
            Ok(read) => read,
            Err(e) => {
                return Err(e);
            },
        };
        let (i, month) = match with_take::<u8>(2, i) {
            Ok(read) => read,
            Err(e) => {
                return Err(e);
            },
        };
        let (i, year) = match with_take::<i32>(2, i) {
            Ok(read) => read,
            Err(e) => {
                return Err(e);
            },
        };
        let year: i32 = if 83 <= year && year <= 99 {
            year + 1900
        } else {
            match year.checked_add(2000) {
                Some(year) => year,
                None => {
                    return Err(make_error(i, ErrorKind::Verify));
                },
            }
        };
        date(i, year, month, day)
    }

    fn parse_preceded<'a>(sep: u8, i: &'a [u8]) -> (r: IResult<'a, Date>) {
        match char(sep, i) {
            Ok((rest, _)) => Self::parse(rest),
            Err(e) => Err(e),
        }
    }
}

/// What reading a date with a full year gives. Two commas at the start
/// stand for no date, and are taken. Else the date is three fields
/// separated by commas: the day, the month and the year, each a number.
pub open spec fn spec_date_full_year(i: Seq<u8>) -> SpecResult<Option<Date>> {
    if i.len() >= 2 && i[0] == COMMA && i[1] == COMMA {
        Ok((i.skip(2), None))
    } else {
        match u8::spec_parse(i) {
            Err(e) => Err(e),
            Ok((i1, day)) => match u8::spec_parse_preceded(COMMA, i1) {
                Err(e) => Err(e),
                Ok((i2, month)) => match u16::spec_parse_preceded(COMMA, i2) {
                    Err(e) => Err(e),
                    Ok((i3, year)) => match spec_date(i3, year as int, month, day) {
                        Ok((rest, date)) => Ok((rest, Some(date))),
                        Err(e) => Err(e),
                    },
                },
            },
        }
    }
}

/// Reads a date with a full year: day, month and year, or two commas for no
/// date.
pub fn date_full_year<'a>(i: &'a [u8]) -> (r: IResult<'a, Option<Date>>)
    ensures
        crate::error::result_is(r, spec_date_full_year(i@)),
        r matches Ok((_, Some(date))) ==> date.wf(),
{
    let n: usize = i.len();
    if n >= 2 && i[0] == COMMA && i[1] == COMMA {
        return Ok((slice_subrange(i, 2, n), None));
    }
    let (i, day) = match u8::parse(i) {
        Ok(read) => read,
        Err(e) => {
            return Err(e);
        },
    };
    let (i, month) = match u8::parse_preceded(COMMA, i) {
        Ok(read) => read,
        Err(e) => {
            return Err(e);
        },
    };
    let (i, year) = match u16::parse_preceded(COMMA, i) {
        Ok(read) => read,
        Err(e) => {
            return Err(e);
        },
    };
    match date(i, year as i32, month, day) {
        Ok((rest, date)) => Ok((rest, Some(date))),
        Err(e) => Err(e),
    }
}

// ---------------------------------------------------------------------------
// Offsets from UTC
// ---------------------------------------------------------------------------

/// An offset from UTC, in hours and minutes.
#[derive(Clone, Copy, Debug, PartialEq, Eq, Structural)]
pub struct UtcOffset {
    /// The hours of the offset.
    pub hours: i8,
    /// The minutes of the offset.
    pub minutes: i8,
}

/// Whether `hours` and `minutes` make an offset from UTC: at most 25 hours
/// and at most 59 minutes, either way.
pub open spec fn is_utc_offset(hours: int, minutes: int) -> bool {
    -25 <= hours <= 25 && -59 <= minutes <= 59
}

impl UtcOffset {
    /// Whether this offset is one that exists.
    pub open spec fn wf(self) -> bool {
        is_utc_offset(self.hours as int, self.minutes as int)
    }
}

/// Asks `time::UtcOffset::from_hms` whether `hours` and `minutes`, with no
/// seconds, make an offset from UTC. That function accepts hours from -25 to
/// 25 and minutes from -59 to 59. The contract says exactly this.
#[verifier::external_body]
pub(crate) fn utc_offset_exists(hours: i8, minutes: i8) -> (r: bool)
    ensures
        r == is_utc_offset(hours as int, minutes as int),
{
    time::UtcOffset::from_hms(hours, minutes, 0).is_ok()
}

/// What reading an offset from UTC gives. A comma at the start stands for
/// no offset, and is taken. Else the offset is an optional sign, the hours,
/// a comma and the minutes; hours and minutes are numbers that may carry a
/// sign of their own, and a `-` before the hours turns both around. Hours
/// and minutes that make no offset fail with `Verify`, on the input left
/// behind them.
pub open spec fn spec_utc_offset(i: Seq<u8>) -> SpecResult<Option<UtcOffset>> {
    if i.len() > 0 && i[0] == COMMA {
        Ok((i.skip(1), None))
    } else {
        let negative = i.len() > 0 && i[0] == 0x2d;
        let signed = i.len() > 0 && (i[0] == 0x2d || i[0] == 0x2b);
        let body = if signed {
            i.skip(1)
        } else {
            i
        };
        match i8::spec_parse(body) {
            Err(e) => Err(e),
            Ok((i1, h)) => match i8::spec_parse_preceded(COMMA, i1) {
                Err(e) => Err(e),
                Ok((i2, m)) => {
                    let hours = if negative {
                        -h
                    } else {
                        h as int
                    };
                    let minutes = if negative {
                        -m
                    } else {
                        m as int
                    };
                    if is_utc_offset(hours, minutes) {
                        Ok((i2, Some(UtcOffset { hours: hours as i8, minutes: minutes as i8 })))
                    } else {
                        Err(spec_make_error(i2, ErrorKind::Verify))
                    }
                },
            },
        }
    }
}

/// Reads an offset from UTC: hours and minutes, or a comma for no offset.
pub fn utc_offset<'a>(i: &'a [u8]) -> (r: IResult<'a, Option<UtcOffset>>)
    ensures
        crate::error::result_is(r, spec_utc_offset(i@)),
        r matches Ok((_, Some(offset))) ==> offset.wf(),
{
    let n: usize = i.len();
    if n > 0 && i[0] == COMMA {
        return Ok((slice_subrange(i, 1, n), None));
    }
    let negative = n > 0 && i[0] == 0x2d;
    let signed = n > 0 && (i[0] == 0x2d || i[0] == 0x2b);
    let body = if signed {
        slice_subrange(i, 1, n)
    } else {
        i
    };
    let (rest, h) = match i8::parse(body) {
        Ok(read) => read,
        Err(e) => {
            return Err(e);
        },
    };
    let (rest, m) = match i8::parse_preceded(COMMA, rest) {
        Ok(read) => read,
        Err(e) => {
            return Err(e);
        },
    };
    let (hours, minutes) = if negative {
        if h == i8::MIN || m == i8::MIN {
            return Err(make_error(rest, ErrorKind::Verify));
        }
        (-h, -m)
    } else {
        (h, m)
    };
    if utc_offset_exists(hours, minutes) {
        Ok((rest, Some(UtcOffset { hours, minutes })))
    } else {
        Err(make_error(rest, ErrorKind::Verify))
    }
}

// ---------------------------------------------------------------------------
// Lists of fixed capacity
// ---------------------------------------------------------------------------

/// `heapless::Vec`, a list of at most `N` values that lives without the
/// heap. Its values are known by the two names that follow.
#[verifier::external_type_specification]
#[verifier::external_body]
#[verifier::reject_recursive_types(T)]
pub struct ExHeaplessVec<T, const N: usize>(heapless::Vec<T, N>);

/// The numbers that a list of satellite numbers holds, in their order.
pub uninterp spec fn prn_items(list: heapless::Vec<u8, 12>) -> Seq<u8>;

/// The satellites that a list of satellites holds, in their order.
pub uninterp spec fn satellite_items(list: heapless::Vec<Satellite, 4>) -> Seq<Satellite>;

/// Collects `items` into a `heapless::Vec` of capacity 12, through its
/// `FromIterator`, which pushes the items one by one in their order and
/// panics where they are more than the capacity: the list then holds the
/// items, in their order.
#[verifier::external_body]
pub(crate) fn collect_prns(items: Vec<u8>) -> (list: heapless::Vec<u8, 12>)
    requires
        items.len() <= 12,
    ensures
        prn_items(list) == items@,
{
    items.into_iter().collect()
}

/// Collects `items` into a `heapless::Vec` of capacity 4, through its
/// `FromIterator`, which pushes the items one by one in their order and
/// panics where they are more than the capacity: the list then holds the
/// items, in their order.
#[verifier::external_body]
pub(crate) fn collect_satellites(items: Vec<Satellite>) -> (list: heapless::Vec<Satellite, 4>)
    requires
        items.len() <= 4,
    ensures
        satellite_items(list) == items@,
{
    items.into_iter().collect()
}

/// The values of `fields` that are there, in their order.
pub open spec fn spec_flatten(fields: Seq<Option<u8>>) -> Seq<u8>
    decreases fields.len(),
{
    if fields.len() == 0 {
        Seq::<u8>::empty()
    } else {
        match fields.last() {
            Some(value) => spec_flatten(fields.drop_last()).push(value),
            None => spec_flatten(fields.drop_last()),
        }
    }
}

/// What reading the numbers of the satellites used for a fix gives: twelve
/// fields, each behind the separator and each of which may be empty; the
/// list holds the numbers of the fields that are not.
pub open spec fn spec_fix_sats_prn(sep: u8, i: Seq<u8>) -> SpecResult<Seq<u8>> {
    match <[Option<u8>; 12]>::spec_parse_preceded(sep, i) {
        Ok((rest, fields)) => Ok((rest, spec_flatten(fields))),
        Err(e) => Err(e),
    }
}

/// Reads the numbers of the satellites used for a fix: twelve fields, each
/// behind the separator `sep`, of which the empty ones are left out.
pub fn fix_sats_prn<'a>(sep: u8, i: &'a [u8]) -> (r: IResult<'a, heapless::Vec<u8, 12>>)
    ensures
        match r {
            Ok((rest, list)) => spec_fix_sats_prn(sep, i@) == Ok::<(Seq<u8>, Seq<u8>), SpecError>(
                (rest@, prn_items(list)),
            ),
            Err(e) => spec_fix_sats_prn(sep, i@) == Err::<(Seq<u8>, Seq<u8>), SpecError>(e@),
        },
{
    let (rest, fields) = match <[Option<u8>; 12]>::parse_preceded(sep, i) {
        Ok(read) => read,
        Err(e) => {
            return Err(e);
        },
    };
    let ghost all = fields.deep_view();
    assert(all =~= fields@);
    let mut numbers: Vec<u8> = Vec::new();
    let mut k: usize = 0;
    while k < 12
        invariant
            k <= 12,
            fields@.len() == 12,
            numbers@ == spec_flatten(fields@.take(k as int)),
            numbers.len() <= k,
        decreases 12 - k,
    {
        proof {
            let next = fields@.take(k + 1);
            assert(next.drop_last() == fields@.take(k as int));
        }
        match fields[k] {
            Some(number) => {
                numbers.push(number);
            },
            None => {},
        }
        k += 1;
    }
    assert(fields@.take(12) == fields@);
    Ok((rest, collect_prns(numbers)))
}

/// What reading the satellites of one sentence gives: at most four
/// satellites, each behind the separator.
pub open spec fn spec_satellites(sep: u8, i: Seq<u8>) -> SpecResult<Seq<Satellite>> {
    spec_bounded_preceded::<Satellite>(4, sep, i)
}

/// Reads the satellites of one sentence: at most four, each behind the
/// separator `sep`.
pub fn satellites<'a>(sep: u8, i: &'a [u8]) -> (r: IResult<'a, heapless::Vec<Satellite, 4>>)
    ensures
        match r {
            Ok((rest, list)) => spec_satellites(sep, i@) == Ok::<
                (Seq<u8>, Seq<Satellite>),
                SpecError,
            >((rest@, satellite_items(list))),
            Err(e) => spec_satellites(sep, i@) == Err::<(Seq<u8>, Seq<Satellite>), SpecError>(e@),
        },
{
    match bounded_preceded::<Satellite>(4, sep, i) {
        Ok((rest, items)) => {
            assert(items.deep_view() =~= items@);
            Ok((rest, collect_satellites(items)))
        },
        Err(e) => Err(e),
    }
}

} // verus!
