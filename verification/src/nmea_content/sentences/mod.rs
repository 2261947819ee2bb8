//! The values that the fields of the standard sentences take.
//!
//! Each enum is read from one character, its selector; a satellite is read
//! from four fields.

pub mod gsv;

pub use gsv::GSV;

use crate::error::{make_error, spec_make_error, ErrorKind, IResult, SpecResult};
use crate::parse::{char, spec_char, NmeaParse};
use vstd::prelude::*;
use vstd::slice::slice_subrange;

verus! {

/// Status Mode Indicator
#[derive(Clone, Copy, Debug, PartialEq, Eq, Structural)]
pub enum Status {
    /// A - Valid
    Valid,
    /// V - Invalid
    Invalid,
}

impl DeepView for Status {
    type V = Status;

    open spec fn deep_view(&self) -> Status {
        *self
    }
}

impl Status {
    /// The value that the character `c` selects, if any.
    pub open spec fn spec_from_selector(c: u8) -> Option<Status> {
        if c == 0x41 {
            Some(Status::Valid)
        } else if c == 0x56 {
            Some(Status::Invalid)
        } else {
            None
        }
    }

    /// The value that the character `c` selects, if any.
    pub fn from_selector(c: u8) -> (r: Option<Status>)
        ensures
            r == Self::spec_from_selector(c),
    {
        match c {
            0x41 => Some(Status::Valid),
            0x56 => Some(Status::Invalid),
            _ => None,
        }
    }
}

impl NmeaParse for Status {
    /// The first character selects the value; a character that selects none,
    /// or no character at all, fails with `OneOf`.
    open spec fn spec_parse(i: Seq<u8>) -> SpecResult<Status> {
        if i.len() > 0 && Self::spec_from_selector(i[0]) is Some {
            Ok((i.skip(1), Self::spec_from_selector(i[0])->0))
        } else {
            Err(spec_make_error(i, ErrorKind::OneOf))
        }
    }

    open spec fn spec_parse_preceded(sep: u8, i: Seq<u8>) -> SpecResult<Status> {
        match spec_char(sep, i) {
            Ok((rest, _)) => Self::spec_parse(rest),
            Err(e) => Err(e),
        }
    }

    fn parse<'a>(i: &'a [u8]) -> (r: IResult<'a, Status>) {
        let n: usize = i.len();
        if n > 0 {
            match Self::from_selector(i[0]) {
                Some(value) => {
                    return Ok((slice_subrange(i, 1, n), value));
                },
                None => {},
            }
        }
        Err(make_error(i, ErrorKind::OneOf))
    }

    fn parse_preceded<'a>(sep: u8, i: &'a [u8]) -> (r: IResult<'a, Status>) {
        match char(sep, i) {
            Ok((rest, _)) => Self::parse(rest),
            Err(e) => Err(e),
        }
    }
}

/// FAA Mode Indicator
#[derive(Clone, Copy, Debug, PartialEq, Eq, Structural)]
pub enum FaaMode {
    /// A - Autonomous mode
    Autonomous,
    /// C - Quectel Querk, "Caution"
    Caution,
    /// D - Differential Mode
    Differential,
    /// E - Estimated (dead-reckoning) mode
    Estimated,
    /// F - RTK Float mode
    FloatRtk,
    /// M - Manual Input Mode
    Manual,
    /// N - Data Not Valid
    DataNotValid,
    /// P - Precise
    Precise,
    /// R - RTK Integer mode
    FixedRtk,
    /// S - Simulated Mode
    Simulator,
    /// U - Quectel Querk, "Unsafe"
    Unsafe,
}

impl DeepView for FaaMode {
    type V = FaaMode;

    open spec fn deep_view(&self) -> FaaMode {
        *self
    }
}

impl FaaMode {
    /// The value that the character `c` selects, if any.
    pub open spec fn spec_from_selector(c: u8) -> Option<FaaMode> {
        if c == 0x41 {
            Some(FaaMode::Autonomous)
        } else if c == 0x43 {
            Some(FaaMode::Caution)
        } else if c == 0x44 {
            Some(FaaMode::Differential)
        } else if c == 0x45 {
            Some(FaaMode::Estimated)
        } else if c == 0x46 {
            Some(FaaMode::FloatRtk)
        } else if c == 0x4d {
            Some(FaaMode::Manual)
        } else if c == 0x4e {
            Some(FaaMode::DataNotValid)
        } else if c == 0x50 {
            Some(FaaMode::Precise)
        } else if c == 0x52 {
            Some(FaaMode::FixedRtk)
        } else if c == 0x53 {
            Some(FaaMode::Simulator)
        } else if c == 0x55 {
            Some(FaaMode::Unsafe)
        } else {
            None
        }
    }

    /// The value that the character `c` selects, if any.
    pub fn from_selector(c: u8) -> (r: Option<FaaMode>)
        ensures
            r == Self::spec_from_selector(c),
    {
        match c {
            0x41 => Some(FaaMode::Autonomous),
            0x43 => Some(FaaMode::Caution),
            0x44 => Some(FaaMode::Differential),
            0x45 => Some(FaaMode::Estimated),
            0x46 => Some(FaaMode::FloatRtk),
            0x4d => Some(FaaMode::Manual),
            0x4e => Some(FaaMode::DataNotValid),
            0x50 => Some(FaaMode::Precise),
            0x52 => Some(FaaMode::FixedRtk),
            0x53 => Some(FaaMode::Simulator),
            0x55 => Some(FaaMode::Unsafe),
            _ => None,
        }
    }
}

impl NmeaParse for FaaMode {
    /// The first character selects the value; a character that selects none,
    /// or no character at all, fails with `OneOf`.
    open spec fn spec_parse(i: Seq<u8>) -> SpecResult<FaaMode> {
        if i.len() > 0 && Self::spec_from_selector(i[0]) is Some {
            Ok((i.skip(1), Self::spec_from_selector(i[0])->0))
        } else {
            Err(spec_make_error(i, ErrorKind::OneOf))
        }
    }

    open spec fn spec_parse_preceded(sep: u8, i: Seq<u8>) -> SpecResult<FaaMode> {
        match spec_char(sep, i) {
            Ok((rest, _)) => Self::spec_parse(rest),
            Err(e) => Err(e),
        }
    }

    fn parse<'a>(i: &'a [u8]) -> (r: IResult<'a, FaaMode>) {
        let n: usize = i.len();
        if n > 0 {
            match Self::from_selector(i[0]) {
                Some(value) => {
                    return Ok((slice_subrange(i, 1, n), value));
                },
                None => {},
            }
        }
        Err(make_error(i, ErrorKind::OneOf))
    }

    fn parse_preceded<'a>(sep: u8, i: &'a [u8]) -> (r: IResult<'a, FaaMode>) {
        match char(sep, i) {
            Ok((rest, _)) => Self::parse(rest),
            Err(e) => Err(e),
        }
    }
}

/// Navigation Status
#[derive(Clone, Copy, Debug, PartialEq, Eq, Structural)]
pub enum NavStatus {
    /// A - Autonomous mode
    Autonomous,
    /// D - Differential Mode
    Differential,
    /// E - Estimated (dead-reckoning) mode
    Estimated,
    /// M - Manual Input Mode
    Manual,
    /// N - Not Valid
    NotValid,
    /// S - Simulated Mode
    Simulator,
    /// V - Valid
    Valid,
}

impl DeepView for NavStatus {
    type V = NavStatus;

    open spec fn deep_view(&self) -> NavStatus {
        *self
    }
}

impl NavStatus {
    /// The value that the character `c` selects, if any.
    pub open spec fn spec_from_selector(c: u8) -> Option<NavStatus> {
        if c == 0x41 {
            Some(NavStatus::Autonomous)
        } else if c == 0x44 {
            Some(NavStatus::Differential)
        } else if c == 0x45 {
            Some(NavStatus::Estimated)
        } else if c == 0x4d {
            Some(NavStatus::Manual)
        } else if c == 0x4e {
            Some(NavStatus::NotValid)
        } else if c == 0x53 {
            Some(NavStatus::Simulator)
        } else if c == 0x56 {
            Some(NavStatus::Valid)
        } else {
            None
        }
    }

    /// The value that the character `c` selects, if any.
    pub fn from_selector(c: u8) -> (r: Option<NavStatus>)
        ensures
            r == Self::spec_from_selector(c),
    {
        match c {
            0x41 => Some(NavStatus::Autonomous),
            0x44 => Some(NavStatus::Differential),
            0x45 => Some(NavStatus::Estimated),
            0x4d => Some(NavStatus::Manual),
            0x4e => Some(NavStatus::NotValid),
            0x53 => Some(NavStatus::Simulator),
            0x56 => Some(NavStatus::Valid),
            _ => None,
        }
    }
}

impl NmeaParse for NavStatus {
    /// The first character selects the value; a character that selects none,
    /// or no character at all, fails with `OneOf`.
    open spec fn spec_parse(i: Seq<u8>) -> SpecResult<NavStatus> {
        if i.len() > 0 && Self::spec_from_selector(i[0]) is Some {
            Ok((i.skip(1), Self::spec_from_selector(i[0])->0))
        } else {
            Err(spec_make_error(i, ErrorKind::OneOf))
        }
    }

    open spec fn spec_parse_preceded(sep: u8, i: Seq<u8>) -> SpecResult<NavStatus> {
        match spec_char(sep, i) {
            Ok((rest, _)) => Self::spec_parse(rest),
            Err(e) => Err(e),
        }
    }

    fn parse<'a>(i: &'a [u8]) -> (r: IResult<'a, NavStatus>) {
        let n: usize = i.len();
        if n > 0 {
            match Self::from_selector(i[0]) {
                Some(value) => {
                    return Ok((slice_subrange(i, 1, n), value));
                },
                None => {},
            }
        }
        Err(make_error(i, ErrorKind::OneOf))
    }

    fn parse_preceded<'a>(sep: u8, i: &'a [u8]) -> (r: IResult<'a, NavStatus>) {
        match char(sep, i) {
            Ok((rest, _)) => Self::parse(rest),
            Err(e) => Err(e),
        }
    }
}

/// Quality of the GPS fix
#[derive(Clone, Copy, Debug, PartialEq, Eq, Structural)]
pub enum Quality {
    /// 0 - Fix not available
    NoFix,
    /// 1 - GPS fix
    GPSFix,
    /// 2 - Differential GPS fix
    DGPSFix,
    /// 3 - PPS fix
    PPSFix,
    /// 4 - Real Time Kinematic
    RTK,
    /// 5 - Float RTK
    FloatRTK,
    /// 6 - estimated (dead reckoning)
    Estimated,
    /// 7 - Manual input mode
    Manual,
    /// 8 - Simulation mode
    Simulation,
}

impl DeepView for Quality {
    type V = Quality;

    open spec fn deep_view(&self) -> Quality {
        *self
    }
}

impl Quality {
    /// The value that the character `c` selects, if any.
    pub open spec fn spec_from_selector(c: u8) -> Option<Quality> {
        if c == 0x30 {
            Some(Quality::NoFix)
        } else if c == 0x31 {
            Some(Quality::GPSFix)
        } else if c == 0x32 {
            Some(Quality::DGPSFix)
        } else if c == 0x33 {
            Some(Quality::PPSFix)
        } else if c == 0x34 {
            Some(Quality::RTK)
        } else if c == 0x35 {
            Some(Quality::FloatRTK)
        } else if c == 0x36 {
            Some(Quality::Estimated)
        } else if c == 0x37 {
            Some(Quality::Manual)
        } else if c == 0x38 {
            Some(Quality::Simulation)
        } else {
            None
        }
    }

    /// The value that the character `c` selects, if any.
    pub fn from_selector(c: u8) -> (r: Option<Quality>)
        ensures
            r == Self::spec_from_selector(c),
    {
        match c {
            0x30 => Some(Quality::NoFix),
            0x31 => Some(Quality::GPSFix),
            0x32 => Some(Quality::DGPSFix),
            0x33 => Some(Quality::PPSFix),
            0x34 => Some(Quality::RTK),
            0x35 => Some(Quality::FloatRTK),
            0x36 => Some(Quality::Estimated),
            0x37 => Some(Quality::Manual),
            0x38 => Some(Quality::Simulation),
            _ => None,
        }
    }
}

impl NmeaParse for Quality {
    /// The first character selects the value; a character that selects none,
    /// or no character at all, fails with `OneOf`.
    open spec fn spec_parse(i: Seq<u8>) -> SpecResult<Quality> {
        if i.len() > 0 && Self::spec_from_selector(i[0]) is Some {
            Ok((i.skip(1), Self::spec_from_selector(i[0])->0))
        } else {
            Err(spec_make_error(i, ErrorKind::OneOf))
        }
    }

    open spec fn spec_parse_preceded(sep: u8, i: Seq<u8>) -> SpecResult<Quality> {
        match spec_char(sep, i) {
            Ok((rest, _)) => Self::spec_parse(rest),
            Err(e) => Err(e),
        }
    }

    fn parse<'a>(i: &'a [u8]) -> (r: IResult<'a, Quality>) {
        let n: usize = i.len();
        if n > 0 {
            match Self::from_selector(i[0]) {
                Some(value) => {
                    return Ok((slice_subrange(i, 1, n), value));
                },
                None => {},
            }
        }
        Err(make_error(i, ErrorKind::OneOf))
    }

    fn parse_preceded<'a>(sep: u8, i: &'a [u8]) -> (r: IResult<'a, Quality>) {
        match char(sep, i) {
            Ok((rest, _)) => Self::parse(rest),
            Err(e) => Err(e),
        }
    }
}

/// Selection Mode
#[derive(Clone, Copy, Debug, PartialEq, Eq, Structural)]
pub enum SelectionMode {
    /// A - Automatic, 2D/3D
    Automatic,
    /// M - Manual, forced to operate in 2D or 3D
    Manual,
}

impl DeepView for SelectionMode {
    type V = SelectionMode;

    open spec fn deep_view(&self) -> SelectionMode {
        *self
    }
}

impl SelectionMode {
    /// The value that the character `c` selects, if any.
    pub open spec fn spec_from_selector(c: u8) -> Option<SelectionMode> {
        if c == 0x41 {
            Some(SelectionMode::Automatic)
        } else if c == 0x4d {
            Some(SelectionMode::Manual)
        } else {
            None
        }
    }

    /// The value that the character `c` selects, if any.
    pub fn from_selector(c: u8) -> (r: Option<SelectionMode>)
        ensures
            r == Self::spec_from_selector(c),
    {
        match c {
            0x41 => Some(SelectionMode::Automatic),
            0x4d => Some(SelectionMode::Manual),
            _ => None,
        }
    }
}

impl NmeaParse for SelectionMode {
    /// The first character selects the value; a character that selects none,
    /// or no character at all, fails with `OneOf`.
    open spec fn spec_parse(i: Seq<u8>) -> SpecResult<SelectionMode> {
        if i.len() > 0 && Self::spec_from_selector(i[0]) is Some {
            Ok((i.skip(1), Self::spec_from_selector(i[0])->0))
        } else {
            Err(spec_make_error(i, ErrorKind::OneOf))
        }
    }

    open spec fn spec_parse_preceded(sep: u8, i: Seq<u8>) -> SpecResult<SelectionMode> {
        match spec_char(sep, i) {
            Ok((rest, _)) => Self::spec_parse(rest),
            Err(e) => Err(e),
        }
    }

    fn parse<'a>(i: &'a [u8]) -> (r: IResult<'a, SelectionMode>) {
        let n: usize = i.len();
        if n > 0 {
            match Self::from_selector(i[0]) {
                Some(value) => {
                    return Ok((slice_subrange(i, 1, n), value));
                },
                None => {},
            }
        }
        Err(make_error(i, ErrorKind::OneOf))
    }

    fn parse_preceded<'a>(sep: u8, i: &'a [u8]) -> (r: IResult<'a, SelectionMode>) {
        match char(sep, i) {
            Ok((rest, _)) => Self::parse(rest),
            Err(e) => Err(e),
        }
    }
}

/// Fix Mode
#[derive(Clone, Copy, Debug, PartialEq, Eq, Structural)]
pub enum FixMode {
    /// 1 - No fix
    NoFix,
    /// 2 - 2D Fix
    Fix2D,
    /// 3 - 3D Fix
    Fix3D,
}

impl DeepView for FixMode {
    type V = FixMode;

    open spec fn deep_view(&self) -> FixMode {
        *self
    }
}

impl FixMode {
    /// The value that the character `c` selects, if any.
    pub open spec fn spec_from_selector(c: u8) -> Option<FixMode> {
        if c == 0x31 {
            Some(FixMode::NoFix)
        } else if c == 0x32 {
            Some(FixMode::Fix2D)
        } else if c == 0x33 {
            Some(FixMode::Fix3D)
        } else {
            None
        }
    }

    /// The value that the character `c` selects, if any.
    pub fn from_selector(c: u8) -> (r: Option<FixMode>)
        ensures
            r == Self::spec_from_selector(c),
    {
        match c {
            0x31 => Some(FixMode::NoFix),
            0x32 => Some(FixMode::Fix2D),
            0x33 => Some(FixMode::Fix3D),
            _ => None,
        }
    }
}

impl NmeaParse for FixMode {
    /// The first character selects the value; a character that selects none,
    /// or no character at all, fails with `OneOf`.
    open spec fn spec_parse(i: Seq<u8>) -> SpecResult<FixMode> {
        if i.len() > 0 && Self::spec_from_selector(i[0]) is Some {
            Ok((i.skip(1), Self::spec_from_selector(i[0])->0))
        } else {
            Err(spec_make_error(i, ErrorKind::OneOf))
        }
    }

    open spec fn spec_parse_preceded(sep: u8, i: Seq<u8>) -> SpecResult<FixMode> {
        match spec_char(sep, i) {
            Ok((rest, _)) => Self::spec_parse(rest),
            Err(e) => Err(e),
        }
    }

    fn parse<'a>(i: &'a [u8]) -> (r: IResult<'a, FixMode>) {
        let n: usize = i.len();
        if n > 0 {
            match Self::from_selector(i[0]) {
                Some(value) => {
                    return Ok((slice_subrange(i, 1, n), value));
                },
                None => {},
            }
        }
        Err(make_error(i, ErrorKind::OneOf))
    }

    fn parse_preceded<'a>(sep: u8, i: &'a [u8]) -> (r: IResult<'a, FixMode>) {
        match char(sep, i) {
            Ok((rest, _)) => Self::parse(rest),
            Err(e) => Err(e),
        }
    }
}

/// NMEA 4.11 System ID
#[derive(Clone, Copy, Debug, PartialEq, Eq, Structural)]
pub enum SystemId {
    /// 1 - GPS (GP)
    Gps,
    /// 2 - GLONASS (GL)
    Glonass,
    /// 3 - Galileo (GA)
    Galileo,
    /// 4 - BeiDou (GB/BD)
    Beidou,
    /// 5 - QZSS (GQ)
    Qzss,
    /// 6 - NavIC (GI)
    Navic,
}

impl DeepView for SystemId {
    type V = SystemId;

    open spec fn deep_view(&self) -> SystemId {
        *self
    }
}

impl SystemId {
    /// The value that the character `c` selects, if any.
    pub open spec fn spec_from_selector(c: u8) -> Option<SystemId> {
        if c == 0x31 {
            Some(SystemId::Gps)
        } else if c == 0x32 {
            Some(SystemId::Glonass)
        } else if c == 0x33 {
            Some(SystemId::Galileo)
        } else if c == 0x34 {
            Some(SystemId::Beidou)
        } else if c == 0x35 {
            Some(SystemId::Qzss)
        } else if c == 0x36 {
            Some(SystemId::Navic)
        } else {
            None
        }
    }

    /// The value that the character `c` selects, if any.
    pub fn from_selector(c: u8) -> (r: Option<SystemId>)
        ensures
            r == Self::spec_from_selector(c),
    {
        match c {
            0x31 => Some(SystemId::Gps),
            0x32 => Some(SystemId::Glonass),
            0x33 => Some(SystemId::Galileo),
            0x34 => Some(SystemId::Beidou),
            0x35 => Some(SystemId::Qzss),
            0x36 => Some(SystemId::Navic),
            _ => None,
        }
    }
}

impl NmeaParse for SystemId {
    /// The first character selects the value; a character that selects none,
    /// or no character at all, fails with `OneOf`.
    open spec fn spec_parse(i: Seq<u8>) -> SpecResult<SystemId> {
        if i.len() > 0 && Self::spec_from_selector(i[0]) is Some {
            Ok((i.skip(1), Self::spec_from_selector(i[0])->0))
        } else {
            Err(spec_make_error(i, ErrorKind::OneOf))
        }
    }

    open spec fn spec_parse_preceded(sep: u8, i: Seq<u8>) -> SpecResult<SystemId> {
        match spec_char(sep, i) {
            Ok((rest, _)) => Self::spec_parse(rest),
            Err(e) => Err(e),
        }
    }

    fn parse<'a>(i: &'a [u8]) -> (r: IResult<'a, SystemId>) {
        let n: usize = i.len();
        if n > 0 {
            match Self::from_selector(i[0]) {
                Some(value) => {
                    return Ok((slice_subrange(i, 1, n), value));
                },
                None => {},
            }
        }
        Err(make_error(i, ErrorKind::OneOf))
    }

    fn parse_preceded<'a>(sep: u8, i: &'a [u8]) -> (r: IResult<'a, SystemId>) {
        match char(sep, i) {
            Ok((rest, _)) => Self::parse(rest),
            Err(e) => Err(e),
        }
    }
}

/// NMEA 4.11 Signal ID
pub type SignalId = u8;

/// What is known of one satellite in view.
#[derive(Clone, Copy, Debug, PartialEq, Eq, Structural)]
pub struct Satellite {
    /// PRN number of the satellite
    pub prn: u8,
    /// Elevation in degrees (0-90)
    pub elevation: Option<u8>,
    /// Azimuth in degrees (0-359)
    pub azimuth: Option<u16>,
    /// Signal-to-Noise Ratio (SNR) in dBHz
    pub snr: Option<u8>,
}

impl DeepView for Satellite {
    type V = Satellite;

    open spec fn deep_view(&self) -> Satellite {
        *self
    }
}

impl NmeaParse for Satellite {
    /// Four fields, separated by commas: the number of the satellite, then
    /// its elevation, its azimuth and its signal-to-noise ratio, each of
    /// which may be missing.
    open spec fn spec_parse(i: Seq<u8>) -> SpecResult<Satellite> {
        match u8::spec_parse(i) {
            Err(e) => Err(e),
            Ok((i1, prn)) => match Option::<u8>::spec_parse_preceded(crate::parse::COMMA, i1) {
                Err(e) => Err(e),
                Ok((i2, elevation)) => match Option::<u16>::spec_parse_preceded(
                    crate::parse::COMMA,
                    i2,
                ) {
                    Err(e) => Err(e),
                    Ok((i3, azimuth)) => match Option::<u8>::spec_parse_preceded(
                        crate::parse::COMMA,
                        i3,
                    ) {
                        Err(e) => Err(e),
                        Ok((i4, snr)) => Ok((i4, Satellite { prn, elevation, azimuth, snr })),
                    },
                },
            },
        }
    }

    open spec fn spec_parse_preceded(sep: u8, i: Seq<u8>) -> SpecResult<Satellite> {
        match spec_char(sep, i) {
            Ok((rest, _)) => Self::spec_parse(rest),
            Err(e) => Err(e),
        }
    }

    fn parse<'a>(i: &'a [u8]) -> (r: IResult<'a, Satellite>) {
        let (i, prn) = match u8::parse(i) {
            Ok(read) => read,
            Err(e) => {
                return Err(e);
            },
        };
        let (i, elevation) = match Option::<u8>::parse_preceded(crate::parse::COMMA, i) {
            Ok(read) => read,
            Err(e) => {
                return Err(e);
            },
        };
        let (i, azimuth) = match Option::<u16>::parse_preceded(crate::parse::COMMA, i) {
            Ok(read) => read,
            Err(e) => {
                return Err(e);
            },
        };
        let (i, snr) = match Option::<u8>::parse_preceded(crate::parse::COMMA, i) {
            Ok(read) => read,
            Err(e) => {
                return Err(e);
            },
        };
        Ok((i, Satellite { prn, elevation, azimuth, snr }))
    }

    fn parse_preceded<'a>(sep: u8, i: &'a [u8]) -> (r: IResult<'a, Satellite>) {
        match char(sep, i) {
            Ok((rest, _)) => Self::parse(rest),
            Err(e) => Err(e),
        }
    }
}

/// The types of sentence that are known.
#[derive(Clone, Copy, Debug, PartialEq, Eq, Structural)]
pub enum SentenceType {
    /// Depth Below Transducer
    DBT,
    /// Depth of Water
    DPT,
    /// Global Positioning System Fix Data
    GGA,
    /// Geographic Position - Latitude/Longitude
    GLL,
    /// GPS DOP and active satellites
    GSA,
    /// Satellites in View
    GSV,
    /// Recommended Minimum Navigation Information
    RMC,
    /// Track made good and Ground speed
    VTG,
    /// Time & Date - UTC, day, month, year and local time zone
    ZDA,
}

impl SentenceType {
    /// The type of sentence that the three letters `a`, `b`, `c` name, if
    /// any.
    pub open spec fn spec_from_letters(a: u8, b: u8, c: u8) -> Option<SentenceType> {
        if a == 0x44 && b == 0x42 && c == 0x54 {
            Some(SentenceType::DBT)
        } else if a == 0x44 && b == 0x50 && c == 0x54 {
            Some(SentenceType::DPT)
        } else if a == 0x47 && b == 0x47 && c == 0x41 {
            Some(SentenceType::GGA)
        } else if a == 0x47 && b == 0x4c && c == 0x4c {
            Some(SentenceType::GLL)
        } else if a == 0x47 && b == 0x53 && c == 0x41 {
            Some(SentenceType::GSA)
        } else if a == 0x47 && b == 0x53 && c == 0x56 {
            Some(SentenceType::GSV)
        } else if a == 0x52 && b == 0x4d && c == 0x43 {
            Some(SentenceType::RMC)
        } else if a == 0x56 && b == 0x54 && c == 0x47 {
            Some(SentenceType::VTG)
        } else if a == 0x5a && b == 0x44 && c == 0x41 {
            Some(SentenceType::ZDA)
        } else {
            None
        }
    }

    /// The type of sentence that the three letters `a`, `b`, `c` name, if
    /// any.
    pub fn from_letters(a: u8, b: u8, c: u8) -> (r: Option<SentenceType>)
        ensures
            r == Self::spec_from_letters(a, b, c),
    {
        match (a, b, c) {
            (0x44, 0x42, 0x54) => Some(SentenceType::DBT),
            (0x44, 0x50, 0x54) => Some(SentenceType::DPT),
            (0x47, 0x47, 0x41) => Some(SentenceType::GGA),
            (0x47, 0x4c, 0x4c) => Some(SentenceType::GLL),
            (0x47, 0x53, 0x41) => Some(SentenceType::GSA),
            (0x47, 0x53, 0x56) => Some(SentenceType::GSV),
            (0x52, 0x4d, 0x43) => Some(SentenceType::RMC),
            (0x56, 0x54, 0x47) => Some(SentenceType::VTG),
            (0x5a, 0x44, 0x41) => Some(SentenceType::ZDA),
            _ => None,
        }
    }
}

/// What reading the type of a sentence from the start of its content gives.
/// The first two bytes name the talker and are passed over; the three bytes
/// that follow name the type. A content shorter than that fails with `Eof`;
/// three bytes that name no known type fail with `UnrecognizedMessage`,
/// which holds all of the content.
pub open spec fn spec_sentence_type(i: Seq<u8>) -> SpecResult<SentenceType> {
    if i.len() < 2 {
        Err(spec_make_error(i, ErrorKind::Eof))
    } else if i.len() < 5 {
        Err(spec_make_error(i.skip(2), ErrorKind::Eof))
    } else {
        match SentenceType::spec_from_letters(i[2], i[3], i[4]) {
            Some(sentence) => Ok((i.skip(5), sentence)),
            None => Err(crate::error::Error::UnrecognizedMessage(i)),
        }
    }
}

/// Reads the type of a sentence from the start of its content: the talker,
/// which is passed over, and the three letters of the type.
pub fn sentence_type<'a>(i: &'a [u8]) -> (r: IResult<'a, SentenceType>)
    ensures
        crate::error::result_is(r, spec_sentence_type(i@)),
{
    let n: usize = i.len();
    if n < 2 {
        return Err(make_error(i, ErrorKind::Eof));
    }
    if n < 5 {
        return Err(make_error(slice_subrange(i, 2, n), ErrorKind::Eof));
    }
    match SentenceType::from_letters(i[2], i[3], i[4]) {
        Some(sentence) => Ok((slice_subrange(i, 5, n), sentence)),
        None => Err(crate::error::Error::UnrecognizedMessage(i)),
    }
}

} // verus!
