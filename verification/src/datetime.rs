//! Calendar dates and the capture-timestamp text format.
//!
//! A capture timestamp is reduced to the local calendar date, which is all
//! the path template consumes.  The text form `YYYY-MM-DD HH:MM:SS` is
//! parsed here; mapping a naive timestamp or an epoch offset to the local
//! time zone is delegated to chrono behind trusted wrappers.

use chrono::{Datelike, TimeZone};
use vstd::prelude::*;

verus! {

/// A calendar date as the template resolver consumes it: a year, and
/// 1-based month and day.
#[derive(Clone, Copy, Debug, PartialEq, Eq, Structural)]
pub struct Date {
    pub year: u32,
    pub month: u32,
    pub day: u32,
}

/// Month and day are in their calendar ranges.  The year is any `u32`: the
/// sources that feed a date in (a four-digit timestamp text, chrono's local
/// calendar) bound it themselves.
pub open spec fn valid_date(d: Date) -> bool {
    1 <= d.month <= 12 && 1 <= d.day <= 31
}

impl Date {
    /// A date from its fields; rejects a month or day outside the calendar
    /// ranges.
    pub fn new(year: u32, month: u32, day: u32) -> (r: Option<Date>)
        ensures
            (1 <= month <= 12 && 1 <= day <= 31) ==> r == Some(Date { year, month, day }),
            !(1 <= month <= 12 && 1 <= day <= 31) ==> r is None,
            r matches Some(d) ==> valid_date(d),
    {
        if 1 <= month && month <= 12 && 1 <= day && day <= 31 {
            Some(Date { year, month, day })
        } else {
            None
        }
    }
}

/// The six numeric fields of a timestamp text, before any calendar or time
/// zone check.
#[derive(Clone, Copy, Debug, PartialEq, Eq, Structural)]
pub struct DateTimeParts {
    pub year: u32,
    pub month: u32,
    pub day: u32,
    pub hour: u32,
    pub minute: u32,
    pub second: u32,
}

/// `c` is a decimal digit.
pub open spec fn is_digit(c: char) -> bool {
    48 <= c as int <= 57
}

/// The value of the decimal digit `c`.
pub open spec fn digit_val(c: char) -> int {
    c as int - 48
}

/// The value of the two decimal digits of `t` at `i`.
pub open spec fn two_digit_val(t: Seq<char>, i: int) -> int {
    digit_val(t[i]) * 10 + digit_val(t[i + 1])
}

/// The value of the four decimal digits of `t` at `i`.
pub open spec fn four_digit_val(t: Seq<char>, i: int) -> int {
    two_digit_val(t, i) * 100 + two_digit_val(t, i + 2)
}

/// `t` has the exact shape `YYYY-MM-DD HH:MM:SS`: nineteen characters,
/// digits in the numeric positions and the three separators in theirs.
pub open spec fn datetime_shape_ok(t: Seq<char>) -> bool {
    &&& t.len() == 19
    &&& is_digit(t[0]) && is_digit(t[1]) && is_digit(t[2]) && is_digit(t[3])
    &&& t[4] == '-'
    &&& is_digit(t[5]) && is_digit(t[6])
    &&& t[7] == '-'
    &&& is_digit(t[8]) && is_digit(t[9])
    &&& t[10] == ' '
    &&& is_digit(t[11]) && is_digit(t[12])
    &&& t[13] == ':'
    &&& is_digit(t[14]) && is_digit(t[15])
    &&& t[16] == ':'
    &&& is_digit(t[17]) && is_digit(t[18])
}

/// The numeric fields of a well-shaped timestamp text, or `None` on any
/// shape mismatch.  Field ranges are not judged here: the calendar check
/// falls to the local-time mapping.
pub open spec fn spec_parse_datetime(t: Seq<char>) -> Option<DateTimeParts> {
    if datetime_shape_ok(t) {
        Some(DateTimeParts {
            year: four_digit_val(t, 0) as u32,
            month: two_digit_val(t, 5) as u32,
            day: two_digit_val(t, 8) as u32,
            hour: two_digit_val(t, 11) as u32,
            minute: two_digit_val(t, 14) as u32,
            second: two_digit_val(t, 17) as u32,
        })
    } else {
        None
    }
}

/// The value of a decimal digit character, or `None` for any other
/// character.
fn digit_of(c: char) -> (r: Option<u32>)
    ensures
        is_digit(c) ==> r == Some(digit_val(c) as u32),
        !is_digit(c) ==> r is None,
{
    let u = c as u32;
    if 48 <= u && u <= 57 {
        Some(u - 48)
    } else {
        None
    }
}

/// Parses `YYYY-MM-DD HH:MM:SS` into its six numeric fields.
pub fn parse_datetime(text: &str) -> (r: Option<DateTimeParts>)
    ensures
        r == spec_parse_datetime(text@),
{
    if text.unicode_len() != 19 {
        return None;
    }
    if text.get_char(4) != '-' || text.get_char(7) != '-' || text.get_char(10) != ' '
        || text.get_char(13) != ':' || text.get_char(16) != ':' {
        return None;
    }
    let year = match four_digits_at(text, 0) {
        Some(v) => v,
        None => return None,
    };
    let month = match two_digits_at(text, 5) {
        Some(v) => v,
        None => return None,
    };
    let day = match two_digits_at(text, 8) {
        Some(v) => v,
        None => return None,
    };
    let hour = match two_digits_at(text, 11) {
        Some(v) => v,
        None => return None,
    };
    let minute = match two_digits_at(text, 14) {
        Some(v) => v,
        None => return None,
    };
    let second = match two_digits_at(text, 17) {
        Some(v) => v,
        None => return None,
    };
    Some(DateTimeParts { year, month, day, hour, minute, second })
}

/// Reads the two-digit field of `text` at `i`.
fn two_digits_at(text: &str, i: usize) -> (r: Option<u32>)
    requires
        i + 2 <= text@.len(),
        text@.len() <= usize::MAX,
    ensures
        (is_digit(text@[i as int]) && is_digit(text@[i + 1])) ==> r == Some(
            two_digit_val(text@, i as int) as u32,
        ),
        !(is_digit(text@[i as int]) && is_digit(text@[i + 1])) ==> r is None,
{
    let hi = match digit_of(text.get_char(i)) {
        Some(v) => v,
        None => return None,
    };
    let lo = match digit_of(text.get_char(i + 1)) {
        Some(v) => v,
        None => return None,
    };
    Some(hi * 10 + lo)
}

/// Reads the four-digit field of `text` at `i`.
fn four_digits_at(text: &str, i: usize) -> (r: Option<u32>)
    requires
        i + 4 <= text@.len(),
        text@.len() <= usize::MAX,
    ensures
        (is_digit(text@[i as int]) && is_digit(text@[i + 1]) && is_digit(text@[i + 2])
            && is_digit(text@[i + 3])) ==> r == Some(four_digit_val(text@, i as int) as u32),
        !(is_digit(text@[i as int]) && is_digit(text@[i + 1]) && is_digit(text@[i + 2])
            && is_digit(text@[i + 3])) ==> r is None,
{
    let hi = match two_digits_at(text, i) {
        Some(v) => v,
        None => return None,
    };
    let lo = match two_digits_at(text, i + 2) {
        Some(v) => v,
        None => return None,
    };
    Some(hi * 100 + lo)
}


/// `y` is a leap year of the Gregorian calendar.
pub open spec fn spec_is_leap_year(y: int) -> bool {
    (y % 4 == 0 && y % 100 != 0) || y % 400 == 0
}

/// The number of days of month `m` in year `y`.
pub open spec fn spec_days_in_month(y: int, m: int) -> int {
    if m == 2 {
        if spec_is_leap_year(y) {
            29
        } else {
            28
        }
    } else if m == 4 || m == 6 || m == 9 || m == 11 {
        30
    } else {
        31
    }
}

/// The six fields name a real calendar datetime: a day that exists in its
/// month, and in-range clock fields.  A leap second (second 60) is not a
/// clock field here: such a timestamp is rejected as invalid.
pub open spec fn spec_real_datetime(y: int, mo: int, d: int, h: int, mi: int, s: int) -> bool {
    &&& 1 <= mo <= 12
    &&& 1 <= d <= spec_days_in_month(y, mo)
    &&& 0 <= h <= 23
    &&& 0 <= mi <= 59
    &&& 0 <= s <= 59
}

/// Relies on chrono's `NaiveDate::from_ymd_opt`, `NaiveDate::and_hms_opt`
/// and `NaiveDateTime::and_local_timezone`: the outer `None` comes exactly
/// when the fields are no real calendar datetime (the two `_opt`
/// constructors check just that, and a year up to 9999 is well inside
/// chrono's calendar); `Some(None)` means the naive timestamp falls in a
/// local-time gap; otherwise the mapping keeps the naive calendar fields.
/// Of an ambiguous mapping (a fold) chrono's earlier occurrence is taken,
/// which shares those fields.
#[verifier::external_body]
pub(crate) fn local_ymd_from_naive(
    year: u32,
    month: u32,
    day: u32,
    hour: u32,
    minute: u32,
    second: u32,
) -> (r: Option<Option<(u32, u32, u32)>>)
    requires
        year <= 9999,
    ensures
        r is None <==> !spec_real_datetime(
            year as int,
            month as int,
            day as int,
            hour as int,
            minute as int,
            second as int,
        ),
        r matches Some(Some(t)) ==> t.0 == year && t.1 == month && t.2 == day && 1 <= month <= 12
            && 1 <= day <= 31,
{
    let nd = chrono::NaiveDate::from_ymd_opt(year as i32, month, day)?;
    let ndt = nd.and_hms_opt(hour, minute, second)?;
    match ndt.and_local_timezone(chrono::Local) {
        chrono::LocalResult::None => Some(None),
        chrono::LocalResult::Single(t) => Some(Some((t.year() as u32, t.month(), t.day()))),
        chrono::LocalResult::Ambiguous(t, _) => Some(Some((t.year() as u32, t.month(), t.day()))),
    }
}

/// Relies on chrono: 1904-01-01T00:00:00Z plus `secs` seconds, rendered in
/// the machine's local time zone; `None` when the seconds leave the
/// representable time range.  Seconds beyond `i64::MAX` always fail;
/// seconds up to `u32::MAX` always succeed (they reach at most the year
/// 2040, well inside chrono's range, read against `TimeDelta::try_seconds`
/// and `DateTime::checked_add_signed`).  Month and day are chrono's
/// 1-based calendar fields; which calendar date a given instant renders as
/// depends on the machine's time zone, so no more is stated of the value.
#[verifier::external_body]
pub(crate) fn local_ymd_from_epoch_1904(secs: u64) -> (r: Option<(u32, u32, u32)>)
    ensures
        r matches Some(t) ==> 1 <= t.1 <= 12 && 1 <= t.2 <= 31,
        secs > i64::MAX as u64 ==> r is None,
        secs <= u32::MAX as u64 ==> r is Some,
{
    let epoch = chrono::Utc.with_ymd_and_hms(1904, 1, 1, 0, 0, 0).single()?;
    let delta = chrono::TimeDelta::try_seconds(i64::try_from(secs).ok()?)?;
    let utc = epoch.checked_add_signed(delta)?;
    let loc = utc.with_timezone(&chrono::Local);
    let y = u32::try_from(loc.year()).ok()?;
    Some((y, loc.month(), loc.day()))
}

/// Relies on chrono's `Local::now`: the current wall-clock local date.
/// Month and day are chrono's 1-based calendar fields; nothing else can be
/// said of the clock's answer.
#[verifier::external_body]
pub(crate) fn today_local() -> (r: (u32, u32, u32))
    ensures
        1 <= r.1 <= 12 && 1 <= r.2 <= 31,
{
    let now = chrono::Local::now();
    (now.year() as u32, now.month(), now.day())
}

} // verus!
