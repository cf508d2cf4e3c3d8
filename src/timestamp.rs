//! Points in time as written in RFC 3339, read through chrono.
use crate::text::{digit_value, is_digit};
use chrono::{Datelike, Timelike};
use vstd::prelude::*;

verus! {

/// A date and time of day as written, with the offset from UTC it was written in.
#[derive(Debug, Clone, Copy, PartialEq, Eq, Structural)]
pub struct Timestamp {
    pub year: i32,
    pub month: u32,
    pub day: u32,
    pub hour: u32,
    pub minute: u32,
    pub second: u32,
    pub nanosecond: u32,
    pub offset_seconds: i32,
}

impl Timestamp {
    /// 1970-01-01T00:00:00Z.
    pub open spec fn unix_epoch() -> Timestamp {
        Timestamp {
            year: 1970,
            month: 1,
            day: 1,
            hour: 0,
            minute: 0,
            second: 0,
            nanosecond: 0,
            offset_seconds: 0,
        }
    }

    pub fn epoch() -> (r: Timestamp)
        ensures
            r == Timestamp::unix_epoch(),
    {
        Timestamp {
            year: 1970,
            month: 1,
            day: 1,
            hour: 0,
            minute: 0,
            second: 0,
            nanosecond: 0,
            offset_seconds: 0,
        }
    }
}

impl Default for Timestamp {
    fn default() -> (r: Timestamp)
        ensures
            r == Timestamp::unix_epoch(),
    {
        Timestamp::epoch()
    }
}

/// What chrono reads from an RFC 3339 text; `None` where it rejects the text.
pub uninterp spec fn rfc3339_value(s: Seq<char>) -> Option<Timestamp>;

pub open spec fn two_digits(s: Seq<char>, i: int) -> int {
    (digit_value(s[i]) * 10 + digit_value(s[i + 1])) as int
}

pub open spec fn four_digits(s: Seq<char>) -> int {
    two_digits(s, 0) * 100 + two_digits(s, 2)
}

/// The time-zone suffix: `Z`, or a sign, two digits of hours, `:` and two digits
/// of minutes.
pub open spec fn zone_shaped(s: Seq<char>) -> bool {
    let n = s.len() as int;
    ||| s[n - 1] == 'Z' || s[n - 1] == 'z'
    ||| {
        &&& n >= 25
        &&& (s[n - 6] == '+' || s[n - 6] == '-' || s[n - 6] == '\u{2212}')
        &&& is_digit(s[n - 5]) && is_digit(s[n - 4])
        &&& s[n - 3] == ':'
        &&& '0' <= s[n - 2] && s[n - 2] <= '5' && is_digit(s[n - 1])
    }
}

/// The offset in seconds that the time-zone suffix states.
pub open spec fn zone_offset(s: Seq<char>) -> int {
    let n = s.len() as int;
    if s[n - 1] == 'Z' || s[n - 1] == 'z' {
        0
    } else {
        let magnitude = two_digits(s, n - 5) * 3600 + two_digits(s, n - 2) * 60;
        if s[n - 6] == '+' {
            magnitude
        } else {
            -magnitude
        }
    }
}

/// The shape of an RFC 3339 date-time: `YYYY-MM-DD`, `T` (or `t`, or a space),
/// `hh:mm:ss`, and a time-zone suffix.
pub open spec fn rfc3339_shaped(s: Seq<char>) -> bool {
    &&& s.len() >= 20
    &&& is_digit(s[0]) && is_digit(s[1]) && is_digit(s[2]) && is_digit(s[3])
    &&& s[4] == '-' && is_digit(s[5]) && is_digit(s[6])
    &&& s[7] == '-' && is_digit(s[8]) && is_digit(s[9])
    &&& (s[10] == 'T' || s[10] == 't' || s[10] == ' ')
    &&& is_digit(s[11]) && is_digit(s[12]) && s[13] == ':'
    &&& is_digit(s[14]) && is_digit(s[15]) && s[16] == ':'
    &&& is_digit(s[17]) && is_digit(s[18])
    &&& zone_shaped(s)
}

/// What a text accepted as RFC 3339 says of its date, hour, minute and offset.
pub open spec fn rfc3339_fields(s: Seq<char>, t: Timestamp) -> bool {
    &&& t.year == four_digits(s)
    &&& t.month == two_digits(s, 5) && 1 <= t.month <= 12
    &&& t.day == two_digits(s, 8) && 1 <= t.day <= 31
    &&& t.hour == two_digits(s, 11) && t.hour <= 23
    &&& t.minute == two_digits(s, 14) && t.minute <= 59
    &&& t.offset_seconds == zone_offset(s)
}

#[verifier::external_type_specification]
#[verifier::external_body]
pub struct ExChronoParseError(chrono::ParseError);

/// Relies on chrono::DateTime::parse_from_rfc3339: the value depends on the text
/// alone; an accepted text has the date-time shape, its date, hour and minute are
/// the digits written (checked to be a valid date and time), and its offset is the
/// one the suffix states.
#[verifier::external_body]
fn parse_rfc3339(s: &str) -> (r: Result<Timestamp, chrono::ParseError>)
    ensures
        match r {
            Ok(t) => {
                &&& rfc3339_value(s@) == Some(t)
                &&& rfc3339_shaped(s@)
                &&& rfc3339_fields(s@, t)
            },
            Err(_) => rfc3339_value(s@) is None,
        },
{
    chrono::DateTime::parse_from_rfc3339(s).map(
        |d| Timestamp {
            year: d.year(),
            month: d.month(),
            day: d.day(),
            hour: d.hour(),
            minute: d.minute(),
            second: d.second(),
            nanosecond: d.nanosecond(),
            offset_seconds: d.offset().local_minus_utc(),
        },
    )
}

/// Reads a strict RFC 3339 date-time; `None` where the text is not one. An
/// accepted text keeps the offset it states.
pub fn parse_timestamp(s: &str) -> (r: Option<Timestamp>)
    ensures
        r == rfc3339_value(s@),
        r matches Some(t) ==> rfc3339_shaped(s@) && rfc3339_fields(s@, t),
        !rfc3339_shaped(s@) ==> r is None,
{
    match parse_rfc3339(s) {
        Ok(t) => Some(t),
        Err(_) => None,
    }
}

} // verus!
