//! Timestamps as plain values, and a lenient parser for the textual forms
//! that clients send: `2021-12-01T09:20:00.000Z`, `2021-12-01 09:20:00` and
//! `2021-12-01` (midnight assumed).

use chrono::format::ParseErrorKind;
use chrono::{Datelike, Timelike};
use vstd::prelude::*;

verus! {

/// The strict form: ISO 8601 with milliseconds and a trailing UTC marker.
pub const ISO_FORMAT: &'static str = "%Y-%m-%dT%H:%M:%S%.3fZ";

/// The abbreviated form, date and time of day separated by a space.
pub const ABBREV_FORMAT: &'static str = "%Y-%m-%d %H:%M:%S";

/// The time of day appended to an abbreviated date that lacks one.
pub const MIDNIGHT_SUFFIX: &'static str = " 00:00:00";

/// A calendar date and time of day, without time zone.
#[derive(Clone, Copy, Debug, PartialEq, Eq, Structural)]
pub struct Timestamp {
    pub year: i32,
    pub month: u32,
    pub day: u32,
    pub hour: u32,
    pub minute: u32,
    pub second: u32,
    /// Nanoseconds within the second; a leap second counts from 1_000_000_000.
    pub nanosecond: u32,
}

impl Timestamp {
    /// Every field lies in its calendar range.
    pub open spec fn wf(self) -> bool {
        &&& 1 <= self.month <= 12
        &&& 1 <= self.day <= 31
        &&& self.hour < 24
        &&& self.minute < 60
        &&& self.second < 60
        &&& self.nanosecond < 2_000_000_000
    }

    /// `self` comes strictly before `other` in time.
    pub open spec fn before(self, other: Timestamp) -> bool {
        if self.year != other.year {
            self.year < other.year
        } else if self.month != other.month {
            self.month < other.month
        } else if self.day != other.day {
            self.day < other.day
        } else if self.hour != other.hour {
            self.hour < other.hour
        } else if self.minute != other.minute {
            self.minute < other.minute
        } else if self.second != other.second {
            self.second < other.second
        } else {
            self.nanosecond < other.nanosecond
        }
    }

    /// Whether `self` comes strictly before `other`.
    pub fn is_before(&self, other: &Timestamp) -> (r: bool)
        ensures
            r == self.before(*other),
    {
        if self.year != other.year {
            self.year < other.year
        } else if self.month != other.month {
            self.month < other.month
        } else if self.day != other.day {
            self.day < other.day
        } else if self.hour != other.hour {
            self.hour < other.hour
        } else if self.minute != other.minute {
            self.minute < other.minute
        } else if self.second != other.second {
            self.second < other.second
        } else {
            self.nanosecond < other.nanosecond
        }
    }
}

/// Why a text did not parse under a format.
#[derive(Clone, Copy, Debug, PartialEq, Eq, Structural)]
pub enum ParseFailure {
    /// A field is out of its permitted range.
    OutOfRange,
    /// The fields name no possible date and time.
    Impossible,
    /// The fields do not determine a date and time.
    NotEnough,
    /// The text holds a character that the format does not allow there.
    Invalid,
    /// The text ended before the format did.
    TooShort,
    /// Text remains after the format is used up.
    TooLong,
    /// The format itself is malformed.
    BadFormat,
}

/// What chrono's `NaiveDateTime::parse_from_str` gives for a text and a format.
pub uninterp spec fn chrono_parse(s: Seq<char>, fmt: Seq<char>) -> Result<Timestamp, ParseFailure>;

/// Relies on chrono's `NaiveDateTime::parse_from_str`: the outcome depends on
/// the text and the format alone, and a parsed value is a valid date and time.
#[verifier::external_body]
fn parse_with_format(s: &str, fmt: &str) -> (r: Result<Timestamp, ParseFailure>)
    ensures
        r == chrono_parse(s@, fmt@),
        r is Ok ==> r->Ok_0.wf(),
{
    match chrono::NaiveDateTime::parse_from_str(s, fmt) {
        Ok(t) => Ok(Timestamp { year: t.year(), month: t.month(), day: t.day(), hour: t.hour(), minute: t.minute(), second: t.second(), nanosecond: t.nanosecond() }),
        Err(e) => Err(match e.kind() {
            ParseErrorKind::OutOfRange => ParseFailure::OutOfRange,
            ParseErrorKind::Impossible => ParseFailure::Impossible,
            ParseErrorKind::NotEnough => ParseFailure::NotEnough,
            ParseErrorKind::Invalid => ParseFailure::Invalid,
            ParseErrorKind::TooShort => ParseFailure::TooShort,
            ParseErrorKind::TooLong => ParseFailure::TooLong,
            _ => ParseFailure::BadFormat,
        }),
    }
}

/// Relies on chrono's `Utc::now` and `DateTime::naive_utc`: the current UTC
/// time, a valid date and time.
#[verifier::external_body]
pub(crate) fn now() -> (r: Timestamp)
    ensures
        r.wf(),
{
    let t = chrono::Utc::now().naive_utc();
    Timestamp { year: t.year(), month: t.month(), day: t.day(), hour: t.hour(), minute: t.minute(), second: t.second(), nanosecond: t.nanosecond() }
}

pub open spec fn has_colon(s: Seq<char>) -> bool {
    exists|i: int| 0 <= i < s.len() && s[i] == ':'
}

/// An abbreviated text with a time of day kept as it is; one without gets midnight.
pub open spec fn corrected(s: Seq<char>) -> Seq<char> {
    if has_colon(s) {
        s
    } else {
        s + MIDNIGHT_SUFFIX@
    }
}

/// The failures of the strict form that the abbreviated form may mend: the
/// text stopped short, or held a character where the strict form has another.
pub open spec fn retries(e: ParseFailure) -> bool {
    e == ParseFailure::TooShort || e == ParseFailure::Invalid
}

/// The strict form first; where it stops short or meets an unexpected
/// character, the abbreviated form of the corrected text.
pub open spec fn parsed(s: Seq<char>) -> Result<Timestamp, ParseFailure> {
    match chrono_parse(s, ISO_FORMAT@) {
        Ok(t) => Ok(t),
        Err(e) => if retries(e) {
            chrono_parse(corrected(s), ABBREV_FORMAT@)
        } else {
            Err(e)
        },
    }
}

/// An optional field: a text that does not parse counts as absent.
pub open spec fn parsed_optional(s: Seq<char>) -> Option<Timestamp> {
    match parsed(s) {
        Ok(t) => Some(t),
        Err(_) => None,
    }
}

fn contains_colon(s: &str) -> (r: bool)
    ensures
        r == has_colon(s@),
{
    let n = s.unicode_len();
    let mut i: usize = 0;
    while i < n
        invariant
            n == s@.len(),
            i <= n,
            forall|j: int| 0 <= j < i ==> s@[j] != ':',
        decreases n - i,
    {
        if s.get_char(i) == ':' {
            return true;
        }
        i = i + 1;
    }
    false
}

/// Given an abbreviated text, appends a default time of day where it has none.
pub fn corrected_time(s: &str) -> (r: String)
    ensures
        r@ == corrected(s@),
{
    if contains_colon(s) {
        s.to_owned()
    } else {
        let mut r = s.to_owned();
        r.append(MIDNIGHT_SUFFIX);
        r
    }
}

/// Whether a failure of the strict form leads to a try of the abbreviated form.
pub fn falls_back(e: ParseFailure) -> (r: bool)
    ensures
        r == retries(e),
{
    match e {
        ParseFailure::TooShort | ParseFailure::Invalid => true,
        _ => false,
    }
}

/// Parses a required timestamp field.
pub fn parse_datetime(s: &str) -> (r: Result<Timestamp, ParseFailure>)
    ensures
        r == parsed(s@),
        r is Ok ==> r->Ok_0.wf(),
{
    match parse_with_format(s, ISO_FORMAT) {
        Ok(t) => Ok(t),
        Err(e) => {
            if falls_back(e) {
                let cs = corrected_time(s);
                parse_with_format(cs.as_str(), ABBREV_FORMAT)
            } else {
                Err(e)
            }
        },
    }
}

/// Parses an optional timestamp field: a malformed text resolves to absent.
pub fn parse_optional_datetime(s: &str) -> (r: Option<Timestamp>)
    ensures
        r == parsed_optional(s@),
{
    match parse_datetime(s) {
        Ok(t) => Some(t),
        Err(_) => None,
    }
}

/// The value of an optional timestamp field that is missing from the input.
pub fn default_optional_datetime() -> (r: Option<Timestamp>)
    ensures
        r is None,
{
    None
}

} // verus!
