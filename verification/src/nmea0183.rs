//! The framing of NMEA 0183 sentences: `$`, content, `*CC`, `\r\n`.
//!
//! A sentence starts with `$`. Its content runs up to the first `*`, or,
//! where there is none, up to the first line ending, or to the end of the
//! input. What follows the content is the tail: an optional checksum `*CC`
//! of two hexadecimal digits and an optional line ending `\r\n`. Two modes
//! say which of them the tail has to hold.

use crate::error::{
    make_error, result_is, spec_make_error, Error, ErrorKind, IResult, NmeaError, ParseError,
    SpecError, SpecResult, StrError, StrResult,
};
use crate::lex::{hex_digit_value, hex_run, is_hex_digit, lex_hex_u32, spec_hex_value};
use vstd::prelude::*;
use vstd::slice::slice_subrange;
use vstd::string::StringExecFns;

verus! {

/// Whether a sentence has to carry a checksum.
#[derive(Clone, Copy, Debug, PartialEq, Eq)]
pub enum ChecksumMode {
    /// The checksum `*CC` must be present, and must be right.
    Required,
    /// The checksum may be missing; where it is present it must be right.
    Optional,
}

/// Whether a sentence has to end with `\r\n`.
#[derive(Clone, Copy, Debug, PartialEq, Eq)]
pub enum LineEndingMode {
    /// The sentence must end with `\r\n`.
    Required,
    /// The sentence must not hold `\r\n`.
    Forbidden,
}

impl Default for ChecksumMode {
    fn default() -> (mode: Self)
        ensures
            mode == ChecksumMode::Required,
    {
        ChecksumMode::Required
    }
}

impl Default for LineEndingMode {
    fn default() -> (mode: Self)
        ensures
            mode == LineEndingMode::Required,
    {
        LineEndingMode::Required
    }
}

/// The byte `$` that starts a sentence.
pub const START: u8 = 0x24;

/// The byte `*` that starts a checksum.
pub const ASTERISK: u8 = 0x2a;

/// The byte `\r`, first of a line ending.
pub const CR: u8 = 0x0d;

/// The byte `\n`, second of a line ending.
pub const LF: u8 = 0x0a;

// ---------------------------------------------------------------------------
// Checksum
// ---------------------------------------------------------------------------

/// The XOR of all bytes of `content`.
pub open spec fn spec_checksum(content: Seq<u8>) -> u8
    decreases content.len(),
{
    if content.len() == 0 {
        0
    } else {
        spec_checksum(content.drop_last()) ^ content.last()
    }
}

/// Computes the checksum of `input`: the XOR of all its bytes. The input is
/// handed back untouched beside it.
pub fn checksum<'a>(input: &'a [u8]) -> (r: (&'a [u8], u8))
    ensures
        r.0 == input,
        r.1 == spec_checksum(input@),
{
    let mut acc: u8 = 0;
    let mut k: usize = 0;
    while k < input.len()
        invariant
            k <= input.len(),
            acc == spec_checksum(input@.take(k as int)),
        decreases input.len() - k,
    {
        proof {
            let next = input@.take(k + 1);
            assert(next.drop_last() == input@.take(k as int));
        }
        acc = acc ^ input[k];
        k += 1;
    }
    assert(input@.take(k as int) == input@);
    (input, acc)
}

/// The upper-case hexadecimal digit of the value `n`, which is below 16.
pub open spec fn upper_hex_digit(n: u8) -> u8 {
    if n < 10 {
        (0x30 + n) as u8
    } else {
        (0x41 + (n - 10)) as u8
    }
}

/// The text form of the checksum `c`: its two upper-case hexadecimal digits,
/// as bytes.
pub open spec fn spec_checksum_text(c: u8) -> Seq<u8> {
    seq![upper_hex_digit(c / 16), upper_hex_digit(c % 16)]
}

/// The text form of the checksum `c`: its two upper-case hexadecimal digits,
/// as characters.
pub open spec fn spec_format_checksum(c: u8) -> Seq<char> {
    seq![upper_hex_digit(c / 16) as char, upper_hex_digit(c % 16) as char]
}

/// The upper-case hexadecimal digit of the value `n`, as text.
fn upper_hex_digit_text(n: u8) -> (r: &'static str)
    requires
        n < 16,
    ensures
        r@ == seq![upper_hex_digit(n) as char],
{
    proof {
        reveal_strlit("0");
        reveal_strlit("1");
        reveal_strlit("2");
        reveal_strlit("3");
        reveal_strlit("4");
        reveal_strlit("5");
        reveal_strlit("6");
        reveal_strlit("7");
        reveal_strlit("8");
        reveal_strlit("9");
        reveal_strlit("A");
        reveal_strlit("B");
        reveal_strlit("C");
        reveal_strlit("D");
        reveal_strlit("E");
        reveal_strlit("F");
    }
    let r = match n {
        0 => "0",
        1 => "1",
        2 => "2",
        3 => "3",
        4 => "4",
        5 => "5",
        6 => "6",
        7 => "7",
        8 => "8",
        9 => "9",
        10 => "A",
        11 => "B",
        12 => "C",
        13 => "D",
        14 => "E",
        _ => "F",
    };
    r
}

/// Writes the checksum `c` as a sentence carries it: two upper-case
/// hexadecimal digits.
pub fn format_checksum(c: u8) -> (text: String)
    ensures
        text@ == spec_format_checksum(c),
{
    let high = upper_hex_digit_text(c / 16);
    let low = upper_hex_digit_text(c % 16);
    let text = String::from_str(high).concat(low);
    text
}

// ---------------------------------------------------------------------------
// Searching
// ---------------------------------------------------------------------------

/// Whether a line ending `\r\n` stands at index `k` of `s`.
pub open spec fn crlf_at(s: Seq<u8>, k: int) -> bool {
    0 <= k && k + 1 < s.len() && s[k] == CR && s[k + 1] == LF
}

/// The index of the first line ending of `s` at or after `from`.
pub open spec fn find_crlf_from(s: Seq<u8>, from: int) -> Option<int>
    decreases s.len() - from,
{
    if from < 0 || from + 1 >= s.len() {
        None
    } else if crlf_at(s, from) {
        Some(from)
    } else {
        find_crlf_from(s, from + 1)
    }
}

/// The index of the first line ending `\r\n` of `s`.
pub open spec fn spec_find_crlf(s: Seq<u8>) -> Option<int> {
    find_crlf_from(s, 0)
}

/// The index of the first byte `b` of `s` at or after `from`.
pub open spec fn find_byte_from(s: Seq<u8>, b: u8, from: int) -> Option<int>
    decreases s.len() - from,
{
    if from < 0 || from >= s.len() {
        None
    } else if s[from] == b {
        Some(from)
    } else {
        find_byte_from(s, b, from + 1)
    }
}

/// The index of the first byte `b` of `s`.
pub open spec fn spec_find_byte(s: Seq<u8>, b: u8) -> Option<int> {
    find_byte_from(s, b, 0)
}

/// `find_crlf_from` finds the first line ending at or after `from`, and
/// finds none only where there is none.
pub proof fn lemma_find_crlf_from(s: Seq<u8>, from: int)
    requires
        0 <= from,
    ensures
        match find_crlf_from(s, from) {
            Some(k) => from <= k && crlf_at(s, k) && forall|j: int|
                from <= j < k ==> !crlf_at(s, j),
            None => forall|j: int| from <= j ==> !crlf_at(s, j),
        },
    decreases s.len() - from,
{
    if from + 1 < s.len() && !crlf_at(s, from) {
        lemma_find_crlf_from(s, from + 1);
    }
}

/// `find_byte_from` finds the first byte `b` at or after `from`, and finds
/// none only where there is none.
pub proof fn lemma_find_byte_from(s: Seq<u8>, b: u8, from: int)
    requires
        0 <= from,
    ensures
        match find_byte_from(s, b, from) {
            Some(k) => from <= k < s.len() && s[k] == b && forall|j: int|
                from <= j < k ==> s[j] != b,
            None => forall|j: int| from <= j < s.len() ==> s[j] != b,
        },
    decreases s.len() - from,
{
    if from < s.len() && s[from] != b {
        lemma_find_byte_from(s, b, from + 1);
    }
}

/// Finds the first line ending `\r\n` of `s`.
pub fn find_crlf(s: &[u8]) -> (r: Option<usize>)
    ensures
        match r {
            Some(k) => spec_find_crlf(s@) == Some(k as int),
            None => spec_find_crlf(s@) is None,
        },
{
    let mut k: usize = 0;
    while k < s.len() && k + 1 < s.len()
        invariant
            k <= s.len(),
            find_crlf_from(s@, k as int) == spec_find_crlf(s@),
        decreases s.len() - k,
    {
        if s[k] == CR && s[k + 1] == LF {
            return Some(k);
        }
        k += 1;
    }
    None
}

/// Finds the first byte `b` of `s`.
pub fn find_byte(s: &[u8], b: u8) -> (r: Option<usize>)
    ensures
        match r {
            Some(k) => spec_find_byte(s@, b) == Some(k as int),
            None => spec_find_byte(s@, b) is None,
        },
{
    let mut k: usize = 0;
    while k < s.len()
        invariant
            k <= s.len(),
            find_byte_from(s@, b, k as int) == spec_find_byte(s@, b),
        decreases s.len() - k,
    {
        if s[k] == b {
            return Some(k);
        }
        k += 1;
    }
    None
}

// ---------------------------------------------------------------------------
// Line-ending policy
// ---------------------------------------------------------------------------

/// What the line-ending policy of `mode` makes of the text `i`.
///
/// With `Required`, the first `\r\n` of `i` must end it, and the text before
/// it is what is left. With `Forbidden`, `i` must hold no `\r\n`, and all of
/// it is left. Every failure is of kind `CrLf`.
pub open spec fn spec_crlf(mode: LineEndingMode, i: Seq<u8>) -> SpecResult<()> {
    match (spec_find_crlf(i), mode) {
        (Some(k), LineEndingMode::Required) => if k + 2 == i.len() {
            Ok((i.take(k), ()))
        } else {
            Err(spec_make_error(i.skip(k + 2), ErrorKind::CrLf))
        },
        (Some(k), LineEndingMode::Forbidden) => Err(spec_make_error(i.skip(k), ErrorKind::CrLf)),
        (None, LineEndingMode::Required) => Err(spec_make_error(i, ErrorKind::CrLf)),
        (None, LineEndingMode::Forbidden) => Ok((i, ())),
    }
}

/// The line-ending policy of one mode.
#[derive(Clone, Copy, Debug)]
pub struct CrLf {
    mode: LineEndingMode,
}

/// The line-ending policy of `mode`.
pub fn crlf(mode: LineEndingMode) -> (p: CrLf)
    ensures
        p.mode() == mode,
{
    CrLf { mode }
}

impl CrLf {
    /// The mode that this policy enforces.
    pub closed spec fn mode(&self) -> LineEndingMode {
        self.mode
    }

    /// Checks the line ending of `i`, and returns the text before it.
    pub fn parse<'a>(&self, i: &'a [u8]) -> (r: IResult<'a, ()>)
        ensures
            result_is(r, spec_crlf(self.mode(), i@)),
    {
        let n: usize = i.len();
        let found = find_crlf(i);
        proof {
            lemma_find_crlf_from(i@, 0);
        }
        match (found, self.mode) {
            (Some(k), LineEndingMode::Required) => {
                if k + 2 == n {
                    Ok((slice_subrange(i, 0, k), ()))
                } else {
                    Err(make_error(slice_subrange(i, k + 2, n), ErrorKind::CrLf))
                }
            },
            (Some(k), LineEndingMode::Forbidden) => Err(
                make_error(slice_subrange(i, k, n), ErrorKind::CrLf),
            ),
            (None, LineEndingMode::Required) => Err(make_error(i, ErrorKind::CrLf)),
            (None, LineEndingMode::Forbidden) => Ok((i, ())),
        }
    }
}

// ---------------------------------------------------------------------------
// Checksum policy
// ---------------------------------------------------------------------------

/// What is made of the text `d` that is left of a tail once its line ending
/// is dealt with: the checksum that it declares.
///
/// Where `d` starts with `*`, exactly two bytes must follow, both of them
/// hexadecimal digits; the checksum is the number they spell. Fewer or more
/// than two bytes fail with `Count` (fewer: at the bytes that are there;
/// more: at the bytes in excess), another byte than a hexadecimal digit with
/// `IsA` (at that byte). Where `d` does not start with `*`: with `Required`
/// this fails with `Eof`, as there is nothing to match; with `Optional`, `d`
/// must be empty, and no checksum is declared; anything else fails with
/// `Count`.
pub open spec fn spec_declared_checksum(cc: ChecksumMode, d: Seq<u8>) -> SpecResult<Option<u8>> {
    if d.len() > 0 && d[0] == ASTERISK {
        let h = d.skip(1);
        if h.len() < 2 {
            Err(spec_make_error(h, ErrorKind::Count))
        } else if h.len() > 2 {
            Err(spec_make_error(h.skip(2), ErrorKind::Count))
        } else if hex_run(h) < 2 {
            Err(spec_make_error(h.skip(hex_run(h) as int), ErrorKind::IsA))
        } else {
            Ok((Seq::<u8>::empty(), Some(spec_hex_value(h) as u8)))
        }
    } else {
        match cc {
            ChecksumMode::Required => Err(spec_make_error(d, ErrorKind::Eof)),
            ChecksumMode::Optional => if d.len() != 0 {
                Err(spec_make_error(d, ErrorKind::Count))
            } else {
                Ok((d, None))
            },
        }
    }
}

/// What the checksum policy of `cc`, together with the line-ending policy of
/// `le`, makes of the tail `i` of a sentence: the line ending is dealt with
/// first, on all of `i`, and the checksum is read from what is left.
pub open spec fn spec_checksum_crlf(cc: ChecksumMode, le: LineEndingMode, i: Seq<u8>) -> SpecResult<
    Option<u8>,
> {
    match spec_crlf(le, i) {
        Ok((d, _)) => spec_declared_checksum(cc, d),
        Err(e) => Err(e),
    }
}

/// Two hexadecimal digits spell a number below 256.
pub proof fn lemma_hex_value_two(h: Seq<u8>)
    requires
        h.len() == 2,
    ensures
        spec_hex_value(h) == 16 * hex_digit_value(h[0]) + hex_digit_value(h[1]),
        spec_hex_value(h) < 256,
        hex_run(h) == (if !is_hex_digit(h[0]) {
            0nat
        } else if !is_hex_digit(h[1]) {
            1nat
        } else {
            2nat
        }),
{
    let h1 = h.drop_last();
    assert(spec_hex_value(h1.drop_last()) == 0);
    assert(spec_hex_value(h1) == hex_digit_value(h[0]));
    let t1 = h.skip(1);
    let t2 = t1.skip(1);
    assert(hex_run(t2) == 0);
    assert(hex_run(t1) == (if is_hex_digit(h[1]) { 1nat } else { 0nat }));
}

/// The checksum policy of one checksum mode and one line-ending mode.
#[derive(Clone, Copy, Debug)]
pub struct ChecksumCrLf {
    cc: ChecksumMode,
    le: LineEndingMode,
}

/// The checksum policy of `cc`, which deals with the line ending as `le`
/// says.
pub fn checksum_crlf(cc: ChecksumMode, le: LineEndingMode) -> (p: ChecksumCrLf)
    ensures
        p.checksum_mode() == cc,
        p.line_ending_mode() == le,
{
    ChecksumCrLf { cc, le }
}

/// Whether `b` is one of `0-9`, `A-F`, `a-f`.
fn byte_is_hex_digit(b: u8) -> (r: bool)
    ensures
        r == is_hex_digit(b),
{
    (0x30 <= b && b <= 0x39) || (0x41 <= b && b <= 0x46) || (0x61 <= b && b <= 0x66)
}

/// Reads the checksum that the text `d` declares, which is what is left of a
/// tail once its line ending is dealt with.
pub fn declared_checksum<'a>(cc: ChecksumMode, d: &'a [u8]) -> (r: IResult<'a, Option<u8>>)
    ensures
        result_is(r, spec_declared_checksum(cc, d@)),
{
    let n: usize = d.len();
    if n > 0 && d[0] == ASTERISK {
        let h = slice_subrange(d, 1, n);
        let m: usize = h.len();
        if m < 2 {
            return Err(make_error(h, ErrorKind::Count));
        }
        if m > 2 {
            return Err(make_error(slice_subrange(h, 2, m), ErrorKind::Count));
        }
        proof {
            lemma_hex_value_two(h@);
        }
        if !byte_is_hex_digit(h[0]) {
            assert(h@.skip(0) == h@);
            return Err(make_error(h, ErrorKind::IsA));
        }
        if !byte_is_hex_digit(h[1]) {
            return Err(make_error(slice_subrange(h, 1, m), ErrorKind::IsA));
        }
        match lex_hex_u32(h) {
            Some((rest, v)) => {
                assert(h@.take(2) == h@);
                assert(h@.skip(2) == Seq::<u8>::empty());
                Ok((rest, Some(v as u8)))
            },
            None => {
                Err(Error::Unknown)
            },
        }
    } else {
        match cc {
            ChecksumMode::Required => Err(make_error(d, ErrorKind::Eof)),
            ChecksumMode::Optional => if n != 0 {
                Err(make_error(d, ErrorKind::Count))
            } else {
                Ok((d, None))
            },
        }
    }
}

impl ChecksumCrLf {
    /// The checksum mode that this policy enforces.
    pub closed spec fn checksum_mode(&self) -> ChecksumMode {
        self.cc
    }

    /// The line-ending mode that this policy enforces.
    pub closed spec fn line_ending_mode(&self) -> LineEndingMode {
        self.le
    }

    /// Checks the tail `i` of a sentence, and returns the checksum that it
    /// declares.
    pub fn parse<'a>(&self, i: &'a [u8]) -> (r: IResult<'a, Option<u8>>)
        ensures
            result_is(r, spec_checksum_crlf(self.checksum_mode(), self.line_ending_mode(), i@)),
    {
        match crlf(self.le).parse(i) {
            Ok((d, _)) => declared_checksum(self.cc, d),
            Err(e) => Err(e),
        }
    }
}

// ---------------------------------------------------------------------------
// Framing
// ---------------------------------------------------------------------------

/// Whether every byte of `s` is 7-bit ASCII.
pub open spec fn is_ascii_bytes(s: Seq<u8>) -> bool {
    forall|k: int| 0 <= k < s.len() ==> s[k] < 0x80
}

/// Where the content of a sentence ends in `body`, the text after `$`: at
/// the first `*`; where there is none, at the first `\r\n`; where there is
/// none either, at the end.
pub open spec fn spec_content_len(body: Seq<u8>) -> int {
    match spec_find_byte(body, ASTERISK) {
        Some(k) => k,
        None => match spec_find_crlf(body) {
            Some(k) => k,
            None => body.len() as int,
        },
    }
}

/// What the framing of the modes `cc` and `le` makes of the sentence `i`:
/// its content, or the first failure met in this order.
///
/// 1. A byte outside 7-bit ASCII anywhere in `i` fails with `NonAscii`.
/// 2. `i` must start with `$`, else the failure is of kind `Char`.
/// 3. The rest is cut into content and tail.
/// 4. The tail must be what the two modes ask for.
/// 5. A checksum declared in the tail must be that of the content, else the
///    failure is `ChecksumMismatch`.
pub open spec fn spec_frame(cc: ChecksumMode, le: LineEndingMode, i: Seq<u8>) -> Result<
    Seq<u8>,
    SpecError,
> {
    if !is_ascii_bytes(i) {
        Err(Error::NonAscii)
    } else if i.len() == 0 || i[0] != START {
        Err(spec_make_error(i, ErrorKind::Char))
    } else {
        let body = i.skip(1);
        let k = spec_content_len(body);
        let content = body.take(k);
        match spec_checksum_crlf(cc, le, body.skip(k)) {
            Err(e) => Err(e),
            Ok((_, Some(declared))) => if declared != spec_checksum(content) {
                Err(Error::ChecksumMismatch { expected: spec_checksum(content), found: declared })
            } else {
                Ok(content)
            },
            Ok((_, None)) => Ok(content),
        }
    }
}

/// Whether every byte of `s` is 7-bit ASCII.
pub fn is_ascii(s: &[u8]) -> (r: bool)
    ensures
        r == is_ascii_bytes(s@),
{
    let mut k: usize = 0;
    while k < s.len()
        invariant
            k <= s.len(),
            forall|j: int| 0 <= j < k ==> s@[j] < 0x80,
        decreases s.len() - k,
    {
        if s[k] >= 0x80 {
            return false;
        }
        k += 1;
    }
    true
}

/// Checks the framing of the sentence `i` as the modes `cc` and `le` ask, and
/// returns its content: the part of `i` between `$` and the tail.
pub fn frame<'a>(cc: ChecksumMode, le: LineEndingMode, i: &'a [u8]) -> (r: Result<
    &'a [u8],
    NmeaError<'a>,
>)
    ensures
        match r {
            Ok(content) => spec_frame(cc, le, i@) == Ok::<Seq<u8>, SpecError>(content@),
            Err(e) => spec_frame(cc, le, i@) == Err::<Seq<u8>, SpecError>(e@),
        },
{
    if !is_ascii(i) {
        return Err(Error::NonAscii);
    }
    let n: usize = i.len();
    if n == 0 || i[0] != START {
        return Err(make_error(i, ErrorKind::Char));
    }
    let body = slice_subrange(i, 1, n);
    let m: usize = body.len();
    proof {
        lemma_find_byte_from(body@, ASTERISK, 0);
        lemma_find_crlf_from(body@, 0);
    }
    let k: usize = match find_byte(body, ASTERISK) {
        Some(k) => k,
        None => match find_crlf(body) {
            Some(k) => k,
            None => m,
        },
    };
    let content = slice_subrange(body, 0, k);
    let tail = slice_subrange(body, k, m);
    match checksum_crlf(cc, le).parse(tail) {
        Err(e) => Err(e),
        Ok((_, declared)) => {
            let (content, computed) = checksum(content);
            match declared {
                Some(found) => if found != computed {
                    Err(Error::ChecksumMismatch { expected: computed, found })
                } else {
                    Ok(content)
                },
                None => Ok(content),
            }
        },
    }
}

/// The configuration of a framing parser: a checksum mode and a line-ending
/// mode. A new builder asks for both the checksum and the line ending.
#[derive(Clone, Copy, Debug)]
#[must_use]
pub struct Nmea0183ParserBuilder {
    checksum_mode: ChecksumMode,
    line_ending_mode: LineEndingMode,
}

impl View for Nmea0183ParserBuilder {
    type V = (ChecksumMode, LineEndingMode);

    closed spec fn view(&self) -> (ChecksumMode, LineEndingMode) {
        (self.checksum_mode, self.line_ending_mode)
    }
}

/// A framing parser: its two modes, and the parser to which it hands the
/// content of each sentence.
pub struct Nmea0183Parser<F> {
    checksum_mode: ChecksumMode,
    line_ending_mode: LineEndingMode,
    content_parser: F,
}

impl Nmea0183ParserBuilder {
    /// A builder in the strictest configuration: checksum and line ending are
    /// both required.
    pub fn new() -> (b: Self)
        ensures
            b@ == (ChecksumMode::Required, LineEndingMode::Required),
    {
        Nmea0183ParserBuilder {
            checksum_mode: ChecksumMode::Required,
            line_ending_mode: LineEndingMode::Required,
        }
    }

    /// Sets the checksum mode.
    pub fn checksum_mode(self, mode: ChecksumMode) -> (b: Self)
        ensures
            b@ == (mode, self@.1),
    {
        Nmea0183ParserBuilder { checksum_mode: mode, line_ending_mode: self.line_ending_mode }
    }

    /// Sets the line-ending mode.
    pub fn line_ending_mode(self, mode: LineEndingMode) -> (b: Self)
        ensures
            b@ == (self@.0, mode),
    {
        Nmea0183ParserBuilder { checksum_mode: self.checksum_mode, line_ending_mode: mode }
    }

    /// Builds the framing parser that hands the content of each sentence to
    /// `content_parser`.
    pub fn build<F>(self, content_parser: F) -> (p: Nmea0183Parser<F>)
        ensures
            p.modes() == self@,
            p.content_parser() == content_parser,
    {
        Nmea0183Parser {
            checksum_mode: self.checksum_mode,
            line_ending_mode: self.line_ending_mode,
            content_parser,
        }
    }
}

impl Default for Nmea0183ParserBuilder {
    fn default() -> (b: Self)
        ensures
            b@ == (ChecksumMode::Required, LineEndingMode::Required),
    {
        Nmea0183ParserBuilder::new()
    }
}

/// A builder with the checksum mode `cc` and the line-ending mode `crlf`.
pub fn nmea0183(cc: ChecksumMode, crlf: LineEndingMode) -> (b: Nmea0183ParserBuilder)
    ensures
        b@ == (cc, crlf),
{
    Nmea0183ParserBuilder::new().checksum_mode(cc).line_ending_mode(crlf)
}

impl<F> Nmea0183Parser<F> {
    /// The checksum mode and the line-ending mode of this parser.
    pub closed spec fn modes(&self) -> (ChecksumMode, LineEndingMode) {
        (self.checksum_mode, self.line_ending_mode)
    }

    /// The parser to which the content is handed.
    pub closed spec fn content_parser(&self) -> F {
        self.content_parser
    }

    /// Checks the framing of the sentence `i` and returns its content.
    pub fn frame<'a>(&self, i: &'a [u8]) -> (r: Result<&'a [u8], NmeaError<'a>>)
        ensures
            match r {
                Ok(content) => spec_frame(self.modes().0, self.modes().1, i@) == Ok::<
                    Seq<u8>,
                    SpecError,
                >(content@),
                Err(e) => spec_frame(self.modes().0, self.modes().1, i@) == Err::<
                    Seq<u8>,
                    SpecError,
                >(e@),
            },
    {
        frame(self.checksum_mode, self.line_ending_mode, i)
    }

    /// Parses the sentence `i`: checks its framing, then hands its content to
    /// the content parser, whose result is returned as it is. Where the
    /// framing fails the content parser is not called.
    pub fn parse<'a, O>(&self, i: &'a [u8]) -> (r: IResult<'a, O>) where
        F: Fn(&'a [u8]) -> IResult<'a, O>,

        requires
            forall|content: &'a [u8]|
                spec_frame(self.modes().0, self.modes().1, i@) == Ok::<Seq<u8>, SpecError>(
                    content@,
                ) ==> call_requires(self.content_parser(), (content,)),
        ensures
            match spec_frame(self.modes().0, self.modes().1, i@) {
                Ok(content) => exists|c: &'a [u8]|
                    c@ == content && call_ensures(self.content_parser(), (c,), r),
                Err(e) => r is Err && r->Err_0@ == e,
            },
    {
        match frame(self.checksum_mode, self.line_ending_mode, i) {
            Ok(content) => (self.content_parser)(content),
            Err(e) => Err(e),
        }
    }
}

// ---------------------------------------------------------------------------
// Laws
// ---------------------------------------------------------------------------

/// A line ending at `k` with none before it is the first one.
pub proof fn lemma_first_crlf_is(s: Seq<u8>, k: int)
    requires
        crlf_at(s, k),
        forall|j: int| 0 <= j < k ==> !crlf_at(s, j),
    ensures
        spec_find_crlf(s) == Some(k),
{
    lemma_find_crlf_from(s, 0);
}

/// A text without line ending has no first one.
pub proof fn lemma_no_crlf(s: Seq<u8>)
    requires
        forall|j: int| !crlf_at(s, j),
    ensures
        spec_find_crlf(s) is None,
{
    lemma_find_crlf_from(s, 0);
}

/// A byte `b` at `k` with none before it is the first one.
pub proof fn lemma_first_byte_is(s: Seq<u8>, b: u8, k: int)
    requires
        0 <= k < s.len(),
        s[k] == b,
        forall|j: int| 0 <= j < k ==> s[j] != b,
    ensures
        spec_find_byte(s, b) == Some(k),
{
    lemma_find_byte_from(s, b, 0);
}

/// A text without the byte `b` has no first one.
pub proof fn lemma_no_byte(s: Seq<u8>, b: u8)
    requires
        forall|j: int| 0 <= j < s.len() ==> s[j] != b,
    ensures
        spec_find_byte(s, b) is None,
{
    lemma_find_byte_from(s, b, 0);
}

/// The text form of a checksum is two hexadecimal digits that spell it.
pub proof fn lemma_checksum_text(c: u8)
    ensures
        spec_checksum_text(c).len() == 2,
        hex_run(spec_checksum_text(c)) == 2,
        spec_hex_value(spec_checksum_text(c)) == c,
        is_ascii_bytes(spec_checksum_text(c)),
        forall|j: int|
            0 <= j < 2 ==> spec_checksum_text(c)[j] != CR && spec_checksum_text(c)[j] != LF
                && spec_checksum_text(c)[j] != ASTERISK,
{
    let h = spec_checksum_text(c);
    lemma_hex_value_two(h);
}

/// The text form of a checksum as characters is its text form as bytes,
/// character by character, and all of it is ASCII.
pub proof fn lemma_format_checksum_is_text(c: u8)
    ensures
        spec_format_checksum(c).len() == 2,
        forall|k: int|
            0 <= k < 2 ==> spec_format_checksum(c)[k] == spec_checksum_text(c)[k] as char
                && spec_format_checksum(c)[k] as u8 == spec_checksum_text(c)[k],
        vstd::utf8::is_ascii_chars(spec_format_checksum(c)),
{
    lemma_checksum_text(c);
}

/// The line ending that a tail carries in the mode `le`: `\r\n` where it is
/// required, nothing where it is forbidden.
pub open spec fn spec_line_ending(le: LineEndingMode) -> Seq<u8> {
    match le {
        LineEndingMode::Required => seq![CR, LF],
        LineEndingMode::Forbidden => Seq::<u8>::empty(),
    }
}

/// Checksum round trip: the text form of the checksum of any content, put
/// behind `*` and read back by the checksum policy that requires a checksum,
/// gives that checksum again, whatever the line-ending mode, as long as the
/// tail ends as that mode asks.
pub proof fn lemma_checksum_round_trip(content: Seq<u8>, le: LineEndingMode)
    ensures
        spec_checksum_crlf(
            ChecksumMode::Required,
            le,
            seq![ASTERISK] + spec_checksum_text(spec_checksum(content)) + spec_line_ending(le),
        ) == Ok::<(Seq<u8>, Option<u8>), SpecError>(
            (Seq::<u8>::empty(), Some(spec_checksum(content))),
        ),
{
    let c = spec_checksum(content);
    let h = spec_checksum_text(c);
    let d = seq![ASTERISK] + h;
    let tail = d + spec_line_ending(le);
    lemma_checksum_text(c);
    assert(d.skip(1) == h);
    match le {
        LineEndingMode::Required => {
            lemma_first_crlf_is(tail, 3);
            assert(tail.take(3) == d);
        },
        LineEndingMode::Forbidden => {
            lemma_no_crlf(tail);
        },
    }
}

/// Framing accepts what a producer writes: for any ASCII content without
/// `*`, the sentence made of `$`, the content, `*`, the text form of the
/// content's checksum and `\r\n` is accepted where checksum and line ending
/// are both required, and its content is the one that was put in.
pub proof fn lemma_frame_round_trip(content: Seq<u8>)
    requires
        is_ascii_bytes(content),
        forall|j: int| 0 <= j < content.len() ==> content[j] != ASTERISK,
    ensures
        spec_frame(
            ChecksumMode::Required,
            LineEndingMode::Required,
            seq![START] + content + seq![ASTERISK] + spec_checksum_text(spec_checksum(content))
                + seq![CR, LF],
        ) == Ok::<Seq<u8>, SpecError>(content),
{
    let c = spec_checksum(content);
    let h = spec_checksum_text(c);
    let tail = seq![ASTERISK] + h + seq![CR, LF];
    let i = seq![START] + content + seq![ASTERISK] + h + seq![CR, LF];
    let body = content + tail;
    lemma_checksum_text(c);
    lemma_checksum_round_trip(content, LineEndingMode::Required);
    assert(i.skip(1) == body);
    lemma_first_byte_is(body, ASTERISK, content.len() as int);
    assert(body.take(content.len() as int) == content);
    assert(body.skip(content.len() as int) == tail);
}

/// The tail that a producer writes behind the content: `*` and the text
/// form of the checksum `c` where a checksum is written, then `\r\n` where
/// a line ending is written.
pub open spec fn spec_tail(c: u8, with_checksum: bool, with_crlf: bool) -> Seq<u8> {
    (if with_checksum {
        seq![ASTERISK] + spec_checksum_text(c)
    } else {
        Seq::<u8>::empty()
    }) + (if with_crlf {
        seq![CR, LF]
    } else {
        Seq::<u8>::empty()
    })
}

/// The mode matrix. Take any ASCII content that holds neither `*` nor
/// `\r\n`, and the sentence made of `$`, the content, and a tail with or
/// without the right checksum and with or without a line ending. The
/// framing accepts the sentence, and gives back the content, exactly where
/// the line ending is written if and only if it is required, and the
/// checksum is written or optional. Else it fails: with `CrLf` where the
/// line ending is not as its mode asks, and otherwise with `Eof`, for the
/// checksum that is required and missing.
pub proof fn lemma_mode_matrix(
    cc: ChecksumMode,
    le: LineEndingMode,
    content: Seq<u8>,
    with_checksum: bool,
    with_crlf: bool,
)
    requires
        is_ascii_bytes(content),
        forall|j: int| 0 <= j < content.len() ==> content[j] != ASTERISK,
        forall|j: int| !crlf_at(content, j),
    ensures
        ({
            let r = spec_frame(
                cc,
                le,
                seq![START] + content + spec_tail(spec_checksum(content), with_checksum, with_crlf),
            );
            if with_crlf != (le is Required) {
                r matches Err(Error::ParsingError(e)) && e.code == ErrorKind::CrLf
            } else if !with_checksum && cc is Required {
                r matches Err(Error::ParsingError(e)) && e.code == ErrorKind::Eof
            } else {
                r == Ok::<Seq<u8>, SpecError>(content)
            }
        }),
{
    let c = spec_checksum(content);
    let h = spec_checksum_text(c);
    let tail = spec_tail(c, with_checksum, with_crlf);
    let i = seq![START] + content + tail;
    let body = content + tail;
    let n = content.len() as int;
    lemma_checksum_text(c);
    assert(i.skip(1) == body);
    // Where the content ends.
    if with_checksum {
        lemma_first_byte_is(body, ASTERISK, n);
    } else {
        lemma_no_byte(body, ASTERISK);
        if with_crlf {
            assert forall|j: int| 0 <= j < n implies !crlf_at(body, j) by {
                if crlf_at(body, j) {
                    if j + 1 < n {
                        assert(crlf_at(content, j));
                    }
                }
            }
            lemma_first_crlf_is(body, n);
        } else {
            lemma_no_crlf(body);
        }
    }
    assert(body.take(n) == content);
    assert(body.skip(n) == tail);
    // What the tail is made of.
    let d = if with_checksum {
        seq![ASTERISK] + h
    } else {
        Seq::<u8>::empty()
    };
    if with_crlf {
        let k = d.len() as int;
        lemma_first_crlf_is(tail, k);
        assert(tail.take(k) == d);
    } else {
        lemma_no_crlf(tail);
    }
    if with_checksum {
        assert(d.skip(1) == h);
    }
}


// ---------------------------------------------------------------------------
// Framing of text
// ---------------------------------------------------------------------------

/// The bytes of the ASCII text `text`: each character is one byte.
pub open spec fn spec_ascii_bytes(text: Seq<char>) -> Seq<u8> {
    Seq::new(text.len(), |k: int| text[k] as u8)
}

/// The error `e` of a parser that works on text, as a parser that works on
/// the bytes of that text fails with it.
pub open spec fn spec_str_error(e: StrError<'_>) -> SpecError {
    match e {
        Error::NonAscii => Error::NonAscii,
        Error::ChecksumMismatch { expected, found } => Error::ChecksumMismatch { expected, found },
        Error::ParsingError(p) => Error::ParsingError(
            ParseError { input: spec_ascii_bytes(p.input@), code: p.code },
        ),
        Error::UnrecognizedMessage(i) => Error::UnrecognizedMessage(spec_ascii_bytes(i@)),
        Error::InvalidField(i) => Error::InvalidField(spec_ascii_bytes(i@)),
        Error::Unknown => Error::Unknown,
    }
}

/// Where the input of a failure of kind `code` ends in a sentence of `n`
/// bytes: at the end of the sentence, but before the line ending where that
/// was required and found, and the failure is one of the checksum.
pub open spec fn spec_error_end(le: LineEndingMode, code: ErrorKind, n: int) -> int {
    if code == ErrorKind::CrLf || code == ErrorKind::Char {
        n
    } else if le is Required {
        n - 2
    } else {
        n
    }
}

/// Where the parts that the framing hands back lie in the sentence: the
/// content starts behind `$`; the input of a failure ends where
/// `spec_error_end` says. The framing fails with no other errors than
/// `NonAscii`, `ChecksumMismatch` and `ParsingError`.
pub proof fn lemma_frame_parts(cc: ChecksumMode, le: LineEndingMode, i: Seq<u8>)
    ensures
        match spec_frame(cc, le, i) {
            Ok(content) => 1 + content.len() <= i.len() && content == i.subrange(
                1,
                1 + content.len() as int,
            ),
            Err(Error::ParsingError(e)) => {
                let end = spec_error_end(le, e.code, i.len() as int);
                0 <= end - e.input.len() && end <= i.len() && e.input == i.subrange(
                    end - e.input.len(),
                    end,
                )
            },
            Err(Error::NonAscii) => true,
            Err(Error::ChecksumMismatch { .. }) => true,
            Err(_) => false,
        },
{
    if is_ascii_bytes(i) && i.len() > 0 && i[0] == START {
        let body = i.skip(1);
        lemma_find_byte_from(body, ASTERISK, 0);
        lemma_find_crlf_from(body, 0);
        let k = spec_content_len(body);
        let tail = body.skip(k);
        lemma_find_crlf_from(tail, 0);
        assert(body.take(k) == i.subrange(1, 1 + k));
        match spec_find_crlf(tail) {
            Some(c) => {
                assert(tail.skip(c + 2) == i.subrange(1 + k + c + 2, i.len() as int));
                assert(tail.skip(c) == i.subrange(1 + k + c, i.len() as int));
                if c + 2 == tail.len() {
                    let d = tail.take(c);
                    assert(d == i.subrange(1 + k, i.len() - 2));
                    lemma_declared_parts(cc, d);
                    assert forall|a: int| 0 <= a <= d.len() implies #[trigger] d.skip(a)
                        == i.subrange(1 + k + a, i.len() - 2) by {}
                }
            },
            None => {
                assert(tail == i.subrange(1 + k, i.len() as int));
                lemma_declared_parts(cc, tail);
                assert forall|a: int| 0 <= a <= tail.len() implies #[trigger] tail.skip(a)
                    == i.subrange(1 + k + a, i.len() as int) by {}
            },
        }
    } else if is_ascii_bytes(i) {
        assert(i == i.subrange(0, i.len() as int));
    }
}

/// The input of a failure of the checksum policy is an end of the text that
/// the policy was given, and its kind is neither `CrLf` nor `Char`.
pub proof fn lemma_declared_parts(cc: ChecksumMode, d: Seq<u8>)
    ensures
        match spec_declared_checksum(cc, d) {
            Err(Error::ParsingError(e)) => e.code != ErrorKind::CrLf && e.code != ErrorKind::Char
                && exists|a: int| 0 <= a <= d.len() && e.input == #[trigger] d.skip(a),
            Err(_) => false,
            Ok(_) => true,
        },
{
    if d.len() > 0 && d[0] == ASTERISK {
        let h = d.skip(1);
        if h.len() < 2 {
            assert(h == d.skip(1));
        } else if h.len() > 2 {
            assert(h.skip(2) == d.skip(3));
        } else if hex_run(h) < 2 {
            lemma_hex_value_two(h);
            assert(h.skip(hex_run(h) as int) == d.skip(1 + hex_run(h) as int));
        }
    } else {
        assert(d == d.skip(0));
    }
}

/// Whether `r` is what the framing of the text `i` gives: the parts handed
/// back are ASCII texts whose bytes are those that the framing of the bytes
/// of `i` gives.
pub open spec fn framed_str_is(
    cc: ChecksumMode,
    le: LineEndingMode,
    i: &str,
    r: Result<&str, StrError<'_>>,
) -> bool {
    if !vstd::string::is_ascii(i) {
        r == Err::<&str, StrError<'_>>(Error::NonAscii)
    } else {
        match r {
            Ok(content) => vstd::string::is_ascii(content) && spec_frame(
                cc,
                le,
                spec_ascii_bytes(i@),
            ) == Ok::<Seq<u8>, SpecError>(spec_ascii_bytes(content@)) && content@ == i@.subrange(
                1,
                1 + content@.len() as int,
            ),
            Err(e) => spec_frame(cc, le, spec_ascii_bytes(i@)) == Err::<Seq<u8>, SpecError>(
                spec_str_error(e),
            ) && (e matches Error::ParsingError(p) ==> vstd::string::is_ascii(p.input)),
        }
    }
}

/// Checks the framing of the sentence `i`, given as text, as the modes `cc`
/// and `le` ask, and returns its content as a part of that text. A text that
/// is not ASCII fails with `NonAscii`; on any other text the result is that
/// of the framing of its bytes, each part handed back as text.
pub fn frame_str<'a>(cc: ChecksumMode, le: LineEndingMode, i: &'a str) -> (r: Result<
    &'a str,
    StrError<'a>,
>)
    ensures
        framed_str_is(cc, le, i, r),
{
    if !i.is_ascii() {
        return Err(Error::NonAscii);
    }
    let bytes = i.as_bytes();
    let n: usize = bytes.len();
    proof {
        vstd::string::is_ascii_spec_bytes(i);
        assert(bytes@ =~= spec_ascii_bytes(i@));
        lemma_frame_parts(cc, le, bytes@);
    }
    match frame(cc, le, bytes) {
        Ok(content) => {
            let len: usize = content.len();
            let part = i.substring_ascii(1, 1 + len);
            assert(spec_ascii_bytes(part@) =~= content@);
            Ok(part)
        },
        Err(Error::ParsingError(e)) => {
            let len: usize = e.input.len();
            let end: usize = match e.code {
                ErrorKind::CrLf | ErrorKind::Char => n,
                _ => match le {
                    LineEndingMode::Required => n - 2,
                    LineEndingMode::Forbidden => n,
                },
            };
            let part = i.substring_ascii(end - len, end);
            assert(spec_ascii_bytes(part@) =~= e.input@);
            Err(Error::ParsingError(ParseError { input: part, code: e.code }))
        },
        Err(Error::ChecksumMismatch { expected, found }) => Err(
            Error::ChecksumMismatch { expected, found },
        ),
        Err(_) => Err(Error::NonAscii),
    }
}


impl<F> Nmea0183Parser<F> {
    /// Checks the framing of the sentence `i`, given as text, and returns its
    /// content as a part of that text.
    pub fn frame_str<'a>(&self, i: &'a str) -> (r: Result<&'a str, StrError<'a>>)
        ensures
            framed_str_is(self.modes().0, self.modes().1, i, r),
    {
        frame_str(self.checksum_mode, self.line_ending_mode, i)
    }

    /// Parses the sentence `i`, given as text: checks its framing, then hands
    /// its content, a part of that text, to the content parser, whose result
    /// is returned as it is. Where the framing fails the content parser is
    /// not called.
    pub fn parse_str<'a, O>(&self, i: &'a str) -> (r: StrResult<'a, O>) where
        F: Fn(&'a str) -> StrResult<'a, O>,

        requires
            forall|content: &'a str|
                framed_str_is(
                    self.modes().0,
                    self.modes().1,
                    i,
                    Ok::<&str, StrError<'_>>(content),
                ) ==> call_requires(self.content_parser(), (content,)),
        ensures
            exists|framed: Result<&'a str, StrError<'a>>|
                #[trigger] framed_str_is(self.modes().0, self.modes().1, i, framed) && (match framed {
                    Ok(content) => call_ensures(self.content_parser(), (content,), r),
                    Err(e) => r == Err::<(&'a str, O), StrError<'a>>(e),
                }),
    {
        let framed = frame_str(self.checksum_mode, self.line_ending_mode, i);
        assert(framed_str_is(self.modes().0, self.modes().1, i, framed));
        match framed {
            Ok(content) => (self.content_parser)(content),
            Err(e) => Err(e),
        }
    }
}

} // verus!
