//! Dates and times as `fossil` prints them.

use crate::digits::is_decimal;
use crate::text::{to_chars, to_text, trimmed, trimmed_end_text};
use vstd::prelude::*;
use vstd::string::*;

verus! {

/// How a date and a time of day are written.
pub const FOSSIL_TIMESTAMP_FORMAT: &'static str =
    "[year]-[month]-[day] [hour]:[minute]:[second]";

/// The calendar date and the time of day of a moment.
pub struct Moment {
    pub year: int,
    pub month: int,
    pub day: int,
    pub hour: int,
    pub minute: int,
    pub second: int,
}

/// Whether a year of the Gregorian calendar has a leap day.
pub open spec fn is_leap_year(year: int) -> bool {
    year % 4 == 0 && (year % 100 != 0 || year % 400 == 0)
}

/// How many days a month has.
pub open spec fn days_in_month(year: int, month: int) -> int {
    if month == 2 {
        if is_leap_year(year) {
            29
        } else {
            28
        }
    } else if month == 4 || month == 6 || month == 9 || month == 11 {
        30
    } else {
        31
    }
}

/// How many days of a year precede the first of a month.
pub open spec fn days_before_month(year: int, month: int) -> int
    decreases month,
{
    if month <= 1 {
        0
    } else {
        days_before_month(year, month - 1) + days_in_month(year, month - 1)
    }
}

/// How many days lie between the first of January of the year one and that of
/// `year`.
pub open spec fn days_before_year(year: int) -> int {
    365 * (year - 1) + (year - 1) / 4 - (year - 1) / 100 + (year - 1) / 400
}

/// Whether there is such a moment.
pub open spec fn is_moment(m: Moment) -> bool {
    &&& 1 <= m.month <= 12
    &&& 1 <= m.day <= days_in_month(m.year, m.month)
    &&& 0 <= m.hour < 24
    &&& 0 <= m.minute < 60
    &&& 0 <= m.second < 60
}

/// The seconds from the start of 1970 to a moment.
pub open spec fn unix_seconds(m: Moment) -> int {
    (days_before_year(m.year) - days_before_year(1970) + days_before_month(m.year, m.month) + m.day
        - 1) * 86400 + m.hour * 3600 + m.minute * 60 + m.second
}

/// The number in the digits from `from` up to `to`.
pub open spec fn number_at(s: Seq<char>, from: int, to: int) -> int {
    crate::digits::digits_value(s.subrange(from, to), 10) as int
}

/// Whether a text has the shape `YYYY-MM-DD hh:mm:ss`.
pub open spec fn is_moment_shape(s: Seq<char>) -> bool {
    &&& s.len() == 19
    &&& s[4] == '-' && s[7] == '-' && s[10] == ' ' && s[13] == ':' && s[16] == ':'
    &&& forall|i: int|
        0 <= i < 19 && i != 4 && i != 7 && i != 10 && i != 13 && i != 16 ==> is_decimal(
            #[trigger] s[i],
        )
}

/// The moment that a text of that shape writes, in a year with the given sign.
pub open spec fn moment_at(s: Seq<char>, sign: int) -> Moment {
    Moment {
        year: sign * number_at(s, 0, 4),
        month: number_at(s, 5, 7),
        day: number_at(s, 8, 10),
        hour: number_at(s, 11, 13),
        minute: number_at(s, 14, 16),
        second: number_at(s, 17, 19),
    }
}

/// The seconds that a text writes: a year of four digits, which may have a sign,
/// and two digits for everything else.
pub open spec fn moment_seconds(s: Seq<char>) -> Option<int> {
    let signed = s.len() > 0 && (s[0] == '+' || s[0] == '-');
    let body = if signed {
        s.skip(1)
    } else {
        s
    };
    let m = moment_at(
        body,
        if signed && s[0] == '-' {
            -1
        } else {
            1
        },
    );
    if is_moment_shape(body) && is_moment(m) {
        Some(unix_seconds(m))
    } else {
        None
    }
}

/// The number in an optional result.
pub open spec fn opt_int(n: Option<i64>) -> Option<int> {
    match n {
        Some(n) => Some(n as int),
        None => None,
    }
}

/// `time::PrimitiveDateTime::parse`, with the description that
/// `time::format_description::parse_borrowed` makes of the format, reads a year
/// of exactly four digits, which may have a sign, and two digits for the month,
/// day, hour, minute and second, with nothing before, between or behind but what
/// the format holds. It fails on any other text, and where the proleptic
/// Gregorian calendar has no such day or the day no such time. `assume_utc` and
/// `unix_timestamp` then count the seconds from the start of 1970 in UTC.
#[verifier::external_body]
fn parse_moment(text: &str, format: &str) -> (r: Option<i64>)
    requires
        format@ == FOSSIL_TIMESTAMP_FORMAT@,
    ensures
        opt_int(r) == moment_seconds(text@),
{
    let description = time::format_description::parse_borrowed::<3>(format).ok()?;
    let moment = time::PrimitiveDateTime::parse(text, &description).ok()?;
    Some(moment.assume_utc().unix_timestamp())
}

/// A time stamp without the mark of its time zone.
pub open spec fn bare_timestamp(value: Seq<char>) -> Seq<char> {
    crate::text::trim(crate::text::trim_end_text(crate::text::trim(value), " UTC"@))
}

/// The seconds that a time stamp stands for.
pub open spec fn timestamp(value: Seq<char>) -> Option<int> {
    moment_seconds(bare_timestamp(value))
}

/// The seconds that a time stamp stands for, from the start of 1970.
pub fn parse_fossil_timestamp(value: &str) -> (r: Option<i64>)
    ensures
        opt_int(r) == timestamp(value@),
{
    let chars = to_chars(value);
    timestamp_of(chars.as_slice())
}

/// The seconds that the characters of a time stamp stand for.
pub fn timestamp_of(value: &[char]) -> (r: Option<i64>)
    ensures
        opt_int(r) == timestamp(value@),
{
    proof {
        reveal_strlit(" UTC");
    }
    let bare = trimmed(trimmed_end_text(trimmed(value), " UTC"));
    if bare.len() == 0 {
        return None;
    }
    parse_moment(to_text(bare).as_str(), FOSSIL_TIMESTAMP_FORMAT)
}

/// Law: `UTC` behind a time stamp changes nothing.
pub proof fn law_timestamp_ignores_utc(value: Seq<char>)
    requires
        value.len() > 0,
        !crate::text::is_white(value[0]),
        !crate::text::is_white(value.last()),
    ensures
        timestamp(value + " UTC"@) == timestamp(value),
{
    reveal_strlit(" UTC");
    let utc = " UTC"@;
    let s = value + utc;
    assert(utc =~= seq![' ', 'U', 'T', 'C']);
    assert(s.skip(s.len() - 4) =~= utc);
    assert(s.take(s.len() - 4) =~= value);
    assert(crate::text::trim(s) == s);
    assert(crate::text::trim(value) == value);
}

} // verus!
