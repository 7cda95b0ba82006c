//! Start times in the one shape the tracker accepts:
//! `YYYY-MM-DDTHH:MM:SS.mmm±HHMM`, milliseconds always present and the offset
//! always a sign and four digits.

use crate::text::chars_of;
use chrono::format::ParseErrorKind;
use chrono::{DateTime, FixedOffset};
use vstd::prelude::*;

verus! {

/// How a start time is written when it comes from the command line: date and
/// time of day, a fraction of the second if there is one, and a numeric offset.
pub const INPUT_PATTERN: &'static str = "%Y-%m-%dT%H:%M:%S%.f%z";

/// How a start time is written for the tracker: as on input, the fraction
/// always as three digits.
pub const OUTPUT_PATTERN: &'static str = "%Y-%m-%dT%H:%M:%S%.3f%z";

/// The first second, counted from 1970-01-01T00:00:00 UTC, of the years that
/// a start time can lie in.
pub const FIRST_SECOND: i64 = -8_334_601_228_800;

/// The last such second.
pub const LAST_SECOND: i64 = 8_210_266_876_799;

/// The first second of the year 0000, counted in the same way.
pub const YEAR_0000: i64 = -62_167_219_200;

/// The first second of the year 10000.
pub const YEAR_10000: i64 = 253_402_300_800;

/// Whether `c` is one of the digits `0` to `9`.
pub open spec fn is_digit(c: char) -> bool {
    '0' <= c <= '9'
}

/// Whether `c` is a plus or a minus sign.
pub open spec fn is_sign(c: char) -> bool {
    c == '+' || c == '-'
}

/// Whether the character `c` fits the shape character `shape`: `d` stands for
/// any digit, `+` for either sign, and every other character for itself.
pub open spec fn fits(c: char, shape: char) -> bool {
    if shape == 'd' {
        is_digit(c)
    } else if shape == '+' {
        is_sign(c)
    } else {
        c == shape
    }
}

/// Whether `text` has the given shape, character by character.
pub open spec fn has_shape(text: Seq<char>, shape: Seq<char>) -> bool {
    &&& text.len() == shape.len()
    &&& forall|i: int| 0 <= i < text.len() ==> fits(#[trigger] text[i], shape[i])
}

/// The shape of a date as the user enters it.
pub open spec fn date_shape() -> Seq<char> {
    seq!['d', 'd', 'd', 'd', '-', 'd', 'd', '-', 'd', 'd']
}

/// The shape of a time of day as the user enters it.
pub open spec fn time_shape() -> Seq<char> {
    seq!['d', 'd', ':', 'd', 'd']
}

/// The shape of an offset from UTC.
pub open spec fn offset_shape() -> Seq<char> {
    seq!['+', 'd', 'd', 'd', 'd']
}

/// What stands between the date and the time of a start time.
pub open spec fn date_end() -> Seq<char> {
    seq!['T']
}

/// The seconds and milliseconds of a start time that was entered to the minute.
pub open spec fn zero_seconds() -> Seq<char> {
    seq![':', '0', '0', '.', '0', '0', '0']
}

/// The shape of the seconds and milliseconds of any start time.
pub open spec fn seconds_shape() -> Seq<char> {
    seq![':', 'd', 'd', '.', 'd', 'd', 'd']
}

/// The shape of a start time that was entered to the minute.
pub open spec fn entry_shape() -> Seq<char> {
    date_shape() + date_end() + time_shape() + zero_seconds() + offset_shape()
}

/// The shape of every start time the tracker accepts.
pub open spec fn stamp_shape() -> Seq<char> {
    date_shape() + date_end() + time_shape() + seconds_shape() + offset_shape()
}

/// The start time for a date, a time of day and an offset, as text: seconds
/// and milliseconds are zero.
pub open spec fn normalized(date: Seq<char>, time: Seq<char>, offset: Seq<char>) -> Seq<char> {
    date + date_end() + time + zero_seconds() + offset
}

/// Whether `text` has the shape the tracker accepts.
pub open spec fn is_normalized(text: Seq<char>) -> bool {
    has_shape(text, stamp_shape())
}

/// Decides `has_shape`.
pub fn fits_shape(text: &str, shape: &str) -> (r: bool)
    ensures
        r == has_shape(text@, shape@),
{
    let t = chars_of(text);
    let s = chars_of(shape);
    if t.len() != s.len() {
        return false;
    }
    let mut i: usize = 0;
    while i < t.len()
        invariant
            i <= t.len(),
            t.len() == s.len(),
            t@ == text@,
            s@ == shape@,
            forall|j: int| 0 <= j < i ==> fits(#[trigger] t[j], s[j]),
        decreases t.len() - i,
    {
        let c = t[i];
        let fit = if s[i] == 'd' {
            '0' <= c && c <= '9'
        } else if s[i] == '+' {
            c == '+' || c == '-'
        } else {
            c == s[i]
        };
        if !fit {
            assert(!fits(text@[i as int], shape@[i as int]));
            return false;
        }
        i += 1;
    }
    true
}

/// Whether `text` has the shape the tracker accepts.
pub fn is_normalized_text(text: &str) -> (r: bool)
    ensures
        r == is_normalized(text@),
{
    proof {
        reveal_strlit("dddd-dd-ddTdd:dd:dd.ddd+dddd");
        assert("dddd-dd-ddTdd:dd:dd.ddd+dddd"@ =~= stamp_shape());
    }
    fits_shape(text, "dddd-dd-ddTdd:dd:dd.ddd+dddd")
}

/// Two texts of two shapes make, one after the other, a text of the two
/// shapes one after the other.
pub proof fn lemma_shapes_join(a: Seq<char>, sa: Seq<char>, b: Seq<char>, sb: Seq<char>)
    requires
        has_shape(a, sa),
        has_shape(b, sb),
    ensures
        has_shape(a + b, sa + sb),
{
    assert forall|i: int| 0 <= i < (a + b).len() implies fits(
        #[trigger] (a + b)[i],
        (sa + sb)[i],
    ) by {
        if i < a.len() {
            assert(fits(a[i], sa[i]));
        } else {
            assert(fits(b[i - a.len()], sb[i - a.len()]));
        }
    }
}

/// A date, a time of day and an offset of the shapes `YYYY-MM-DD`, `HH:MM`
/// and `±HHMM` give a start time of the shape
/// `YYYY-MM-DDTHH:MM:00.000±HHMM`, which is one the tracker accepts.
pub proof fn law_normalize_shape(date: Seq<char>, time: Seq<char>, offset: Seq<char>)
    requires
        has_shape(date, date_shape()),
        has_shape(time, time_shape()),
        has_shape(offset, offset_shape()),
    ensures
        has_shape(normalized(date, time, offset), entry_shape()),
        is_normalized(normalized(date, time, offset)),
{
    assert(has_shape(date_end(), date_end()));
    assert(has_shape(zero_seconds(), zero_seconds()));
    assert(has_shape(zero_seconds(), seconds_shape()));
    lemma_shapes_join(date, date_shape(), date_end(), date_end());
    lemma_shapes_join(date + date_end(), date_shape() + date_end(), time, time_shape());
    lemma_shapes_join(
        date + date_end() + time,
        date_shape() + date_end() + time_shape(),
        zero_seconds(),
        zero_seconds(),
    );
    lemma_shapes_join(
        date + date_end() + time + zero_seconds(),
        date_shape() + date_end() + time_shape() + zero_seconds(),
        offset,
        offset_shape(),
    );
    lemma_shapes_join(
        date + date_end() + time,
        date_shape() + date_end() + time_shape(),
        zero_seconds(),
        seconds_shape(),
    );
    lemma_shapes_join(
        date + date_end() + time + zero_seconds(),
        date_shape() + date_end() + time_shape() + seconds_shape(),
        offset,
        offset_shape(),
    );
}

/// The start time for `date` and `time` in the zone of `utc_offset`: the
/// three joined as `{date}T{time}:00.000{utc_offset}`, nothing checked and
/// nothing converted.
pub fn normalize(date: &str, time: &str, utc_offset: &str) -> (r: String)
    ensures
        r@ == normalized(date@, time@, utc_offset@),
{
    proof {
        reveal_strlit("T");
        reveal_strlit(":00.000");
        assert("T"@ =~= date_end());
        assert(":00.000"@ =~= zero_seconds());
    }
    let mut out = date.to_owned();
    out.append("T");
    out.append(time);
    out.append(":00.000");
    out.append(utc_offset);
    out
}

/// Why a text could not be read as a start time.
#[derive(Clone, Copy, Debug, PartialEq, Eq, Structural)]
pub enum ParseError {
    /// A field is outside the range it may take.
    OutOfRange,
    /// The fields contradict each other: no such date and time exists.
    Impossible,
    /// The fields do not fix one date and time.
    NotEnough,
    /// A character does not fit the pattern.
    Invalid,
    /// The text ends before the pattern does.
    TooShort,
    /// The text goes on after the pattern has ended.
    TooLong,
    /// The pattern itself cannot be used.
    BadFormat,
}

impl ParseError {
    /// The message for the user.
    pub open spec fn text(self) -> Seq<char> {
        match self {
            ParseError::OutOfRange => "input is out of range"@,
            ParseError::Impossible => "no possible date and time matching input"@,
            ParseError::NotEnough => "input is not enough for unique date and time"@,
            ParseError::Invalid => "input contains invalid characters"@,
            ParseError::TooShort => "premature end of input"@,
            ParseError::TooLong => "trailing input"@,
            ParseError::BadFormat => "bad or unsupported format string"@,
        }
    }

    /// The message for the user, in the parser's own words.
    pub fn message(&self) -> (r: String)
        ensures
            r@ == self.text(),
    {
        match self {
            ParseError::OutOfRange => "input is out of range".to_owned(),
            ParseError::Impossible => "no possible date and time matching input".to_owned(),
            ParseError::NotEnough => "input is not enough for unique date and time".to_owned(),
            ParseError::Invalid => "input contains invalid characters".to_owned(),
            ParseError::TooShort => "premature end of input".to_owned(),
            ParseError::TooLong => "trailing input".to_owned(),
            ParseError::BadFormat => "bad or unsupported format string".to_owned(),
        }
    }
}

/// A moment with the offset from UTC of the clock it was read from.
#[derive(Clone, Copy, Debug, PartialEq, Eq, Structural)]
pub struct Timestamp {
    /// Whole seconds since 1970-01-01T00:00:00 UTC, leap seconds not counted.
    pub seconds: i64,
    /// Nanoseconds since that second began; a billion or more within a leap
    /// second, which follows a second that ends a minute.
    pub nanos: u32,
    /// What the local clock is ahead of UTC, in seconds.
    pub offset: i32,
}

impl Timestamp {
    /// Whether the fields are within their ranges.
    pub open spec fn wf(self) -> bool {
        &&& FIRST_SECOND <= self.seconds <= LAST_SECOND
        &&& self.nanos < 2_000_000_000
        &&& (self.nanos >= 1_000_000_000 ==> self.seconds % 60 == 59)
        &&& -86_400 < self.offset < 86_400
    }

    /// Whether the local date lies in the years 0000 to 9999, which are
    /// written with four digits and no sign.
    pub open spec fn in_four_digit_years(self) -> bool {
        YEAR_0000 <= self.seconds + self.offset < YEAR_10000
    }
}

/// What `DateTime::parse_from_str` of chrono makes of a text under a
/// pattern: the moment and offset it reads, or why it reads none.
pub uninterp spec fn parsed(text: Seq<char>, pattern: Seq<char>) -> Result<Timestamp, ParseError>;

/// The text that `DateTime::format` of chrono writes for a moment under a
/// pattern.
pub uninterp spec fn rendered(start: Timestamp, pattern: Seq<char>) -> Seq<char>;

/// The shape of the end of every start time: a point, three digits of
/// milliseconds, and an offset of a sign and four digits.
pub open spec fn tail_shape() -> Seq<char> {
    seq!['.', 'd', 'd', 'd', '+', 'd', 'd', 'd', 'd']
}

/// Whether `text` ends in milliseconds and offset, as every start time has to.
pub open spec fn ends_normalized(text: Seq<char>) -> bool {
    text.len() >= 9 && has_shape(text.skip(text.len() - 9), tail_shape())
}

/// Calls `DateTime::parse_from_str` of chrono and hands out the moment it
/// read as seconds, nanoseconds and offset, or the kind of its error.
/// Trusted: that the outcome depends on the text and the pattern alone, with
/// chrono's error kinds variant for variant; and that a moment read under
/// `INPUT_PATTERN` is within the ranges of `Timestamp::wf`, as chrono's own
/// types keep it.
#[verifier::external_body]
fn chrono_parse(text: &str, pattern: &str) -> (r: Result<Timestamp, ParseError>)
    ensures
        r == parsed(text@, pattern@),
        pattern@ == INPUT_PATTERN@ ==> (r matches Ok(start) ==> start.wf()),
{
    match DateTime::parse_from_str(text, pattern).map_err(|e| e.kind()) {
        Ok(at) => {
            let (seconds, nanos) = (at.timestamp(), at.timestamp_subsec_nanos());
            Ok(Timestamp { seconds, nanos, offset: at.offset().local_minus_utc() })
        },
        Err(ParseErrorKind::OutOfRange) => Err(ParseError::OutOfRange),
        Err(ParseErrorKind::Impossible) => Err(ParseError::Impossible),
        Err(ParseErrorKind::NotEnough) => Err(ParseError::NotEnough),
        Err(ParseErrorKind::Invalid) => Err(ParseError::Invalid),
        Err(ParseErrorKind::TooShort) => Err(ParseError::TooShort),
        Err(ParseErrorKind::TooLong) => Err(ParseError::TooLong),
        Err(_) => Err(ParseError::BadFormat),
    }
}

/// Calls `DateTime::format` of chrono on the moment that
/// `DateTime::from_timestamp` and `FixedOffset::east_opt` make of the
/// fields. Trusted, of `OUTPUT_PATTERN`: that the text depends on the fields
/// alone; that it ends in a point, three digits, a sign and four digits; and
/// that for a local date in the years 0000 to 9999 it has the whole shape
/// `YYYY-MM-DDTHH:MM:SS.mmm±HHMM`.
#[verifier::external_body]
fn chrono_format(start: &Timestamp, pattern: &str) -> (r: String)
    requires
        start.wf(),
        pattern@ == OUTPUT_PATTERN@,
    ensures
        r@ == rendered(*start, pattern@),
        ends_normalized(r@),
        start.in_four_digit_years() ==> is_normalized(r@),
{
    let zone = FixedOffset::east_opt(start.offset).unwrap();
    let at = DateTime::from_timestamp(start.seconds, start.nanos).unwrap().with_timezone(&zone);
    at.format(pattern).to_string()
}

/// What reading a text as a start time gives: the moment under
/// `INPUT_PATTERN`, or why there is none.
pub open spec fn read(text: Seq<char>) -> Result<Timestamp, ParseError> {
    parsed(text, INPUT_PATTERN@)
}

/// What reparsing a text gives: the moment that is read from it, written
/// under `OUTPUT_PATTERN`, or why none is read.
pub open spec fn reparsed(text: Seq<char>) -> Result<Seq<char>, ParseError> {
    match read(text) {
        Ok(start) => Ok(rendered(start, OUTPUT_PATTERN@)),
        Err(e) => Err(e),
    }
}

/// An outcome of `reparse` as plain text.
pub open spec fn written(r: Result<String, ParseError>) -> Result<Seq<char>, ParseError> {
    match r {
        Ok(text) => Ok(text@),
        Err(e) => Err(e),
    }
}

/// Reads `input` as a start time and writes it again as the tracker accepts
/// it, with exactly three digits of milliseconds. Fails where `input` is no
/// start time, with the parser's reason.
pub fn reparse(input: &str) -> (r: Result<String, ParseError>)
    ensures
        written(r) == reparsed(input@),
        r matches Ok(text) ==> ends_normalized(text@),
        r matches Ok(text) ==> (read(input@)->Ok_0.in_four_digit_years() ==> is_normalized(text@)),
{
    match chrono_parse(input, INPUT_PATTERN) {
        Ok(start) => Ok(chrono_format(&start, OUTPUT_PATTERN)),
        Err(e) => Err(e),
    }
}

} // verus!
