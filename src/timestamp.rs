//! Snapshot names: a local date and time written `YYYY-MM-DD_HH-MM-SS`.

use vstd::prelude::*;

verus! {

/// A local calendar date and time of day, to the second.
#[derive(Debug, Clone, Copy, PartialEq, Eq, Structural)]
pub struct LocalTime {
    pub year: i32,
    pub month: u32,
    pub day: u32,
    pub hour: u32,
    pub minute: u32,
    pub second: u32,
}

pub open spec fn is_leap_year(y: int) -> bool {
    y % 4 == 0 && (y % 100 != 0 || y % 400 == 0)
}

pub open spec fn days_in_month(y: int, m: int) -> int {
    if m == 2 {
        if is_leap_year(y) {
            29
        } else {
            28
        }
    } else if m == 4 || m == 6 || m == 9 || m == 11 {
        30
    } else {
        31
    }
}

/// A real date of the Gregorian calendar with a four-digit year, and a time
/// of day without leap second.
pub open spec fn is_valid_time(t: LocalTime) -> bool {
    &&& 0 <= t.year <= 9999
    &&& 1 <= t.month <= 12
    &&& 1 <= t.day <= days_in_month(t.year as int, t.month as int)
    &&& t.hour < 24
    &&& t.minute < 60
    &&& t.second < 60
}

pub open spec fn digit(n: int) -> char {
    seq!['0', '1', '2', '3', '4', '5', '6', '7', '8', '9'][n]
}

/// `n` in two decimal digits.
pub open spec fn two_digits(n: int) -> Seq<char> {
    seq![digit(n / 10), digit(n % 10)]
}

/// `n` in four decimal digits.
pub open spec fn four_digits(n: int) -> Seq<char> {
    seq![digit(n / 1000), digit(n / 100 % 10), digit(n / 10 % 10), digit(n % 10)]
}

/// The text `YYYY-MM-DD_HH-MM-SS` of a time, each field zero-padded.
pub open spec fn stamp_of(t: LocalTime) -> Seq<char> {
    four_digits(t.year as int) + "-"@ + two_digits(t.month as int) + "-"@ + two_digits(
        t.day as int,
    ) + "_"@ + two_digits(t.hour as int) + "-"@ + two_digits(t.minute as int) + "-"@
        + two_digits(t.second as int)
}

/// Relies on chrono's `NaiveDate::from_ymd_opt` and `NaiveDate::and_hms_opt`,
/// which accept every valid date and time, and on `NaiveDateTime::format`
/// with `%Y-%m-%d_%H-%M-%S`, which writes a year from 0 to 9999 in four
/// zero-padded digits and the other fields in two.
#[verifier::external_body]
fn chrono_stamp(t: &LocalTime) -> (r: String)
    requires
        is_valid_time(*t),
    ensures
        r@ == stamp_of(*t),
{
    chrono::NaiveDate::from_ymd_opt(t.year, t.month, t.day)
        .and_then(|d| d.and_hms_opt(t.hour, t.minute, t.second))
        .map(|dt| dt.format("%Y-%m-%d_%H-%M-%S").to_string())
        .unwrap_or_default()
}

/// Whether `t` is a valid time with a four-digit year.
pub fn is_valid(t: &LocalTime) -> (r: bool)
    ensures
        r == is_valid_time(*t),
{
    if t.year < 0 || t.year > 9999 || t.month < 1 || t.month > 12 || t.hour >= 24 || t.minute
        >= 60 || t.second >= 60 || t.day < 1 {
        return false;
    }
    let y = t.year;
    let leap = y % 4 == 0 && (y % 100 != 0 || y % 400 == 0);
    let days: u32 = if t.month == 2 {
        if leap {
            29
        } else {
            28
        }
    } else if t.month == 4 || t.month == 6 || t.month == 9 || t.month == 11 {
        30
    } else {
        31
    };
    t.day <= days
}

/// The snapshot name of `t`, or `None` if `t` is not a valid time with a
/// four-digit year.
pub fn format_timestamp(t: &LocalTime) -> (r: Option<String>)
    ensures
        r is Some <==> is_valid_time(*t),
        r matches Some(s) ==> s@ == stamp_of(*t),
{
    if is_valid(t) {
        Some(chrono_stamp(t))
    } else {
        None
    }
}

} // verus!
