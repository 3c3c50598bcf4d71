//! Selecting stored predictions: which day, and which requests are accepted.
use vstd::prelude::*;
use crate::text::digit_char;

verus! {

/// The `LIKE` pattern that selects the predictions of one day: the day as
/// `YYYYMMDD` followed by `%`.
pub fn day_pattern(day: &str) -> (res: String)
    ensures
        res@ == day@ + "%"@,
{
    day.to_string().concat("%")
}

/// Gregorian leap years (proleptic, so also before year 1).
pub open spec fn is_leap_year(year: int) -> bool {
    year % 4 == 0 && (year % 100 != 0 || year % 400 == 0)
}

/// The number of days of a month (1 to 12) in a year.
pub open spec fn days_in_month(year: int, month: int) -> int {
    if month == 2 {
        if is_leap_year(year) { 29 } else { 28 }
    } else if month == 4 || month == 6 || month == 9 || month == 11 {
        30
    } else {
        31
    }
}

/// A day that exists in the calendar and in the year range of chrono's `NaiveDate`.
pub open spec fn is_calendar_date(year: int, month: int, day: int) -> bool {
    &&& -262143 <= year <= 262142
    &&& 1 <= month <= 12
    &&& 1 <= day <= days_in_month(year, month)
}

/// The last `width` decimal digits of `n`, zero-padded on the left.
pub open spec fn padded_digits(n: nat, width: nat) -> Seq<char>
    decreases width,
{
    if width == 0 {
        Seq::empty()
    } else {
        padded_digits(n / 10, (width - 1) as nat).push(digit_char((n % 10) as int))
    }
}

/// A day written as `YYYYMMDD` (for years 0 to 9999).
pub open spec fn ymd_digits(year: nat, month: nat, day: nat) -> Seq<char> {
    padded_digits(year, 4) + padded_digits(month, 2) + padded_digits(day, 2)
}

/// What chrono writes for a day with the format `%Y%m%d`.
pub uninterp spec fn chrono_ymd_text(year: i32, month: u32, day: u32) -> Seq<char>;

/// chrono's `NaiveDate::from_ymd_opt` on the plain values, then `format("%Y%m%d")`.
/// chrono gives a date exactly for an existing calendar day within its year
/// range, and writes `%Y` zero-padded to 4 digits, `%m` and `%d` zero-padded
/// to 2. For years before 0 or after 9999 chrono adds a sign to the year;
/// the contract leaves the text of those years to the name alone.
#[verifier::external_body]
fn format_day(year: i32, month: u32, day: u32) -> (res: Option<String>)
    ensures
        res is Some <==> is_calendar_date(year as int, month as int, day as int),
        res matches Some(text) ==> text@ == chrono_ymd_text(year, month, day),
        0 <= year <= 9999 ==> (res matches Some(text) ==> text@ == ymd_digits(
            year as nat,
            month as nat,
            day as nat,
        )),
{
    chrono::NaiveDate::from_ymd_opt(year, month, day).map(|date| date.format("%Y%m%d").to_string())
}

/// The day whose predictions are asked for: the requested day, else today.
pub open spec fn chosen_day(requested: Option<(i32, u32, u32)>, today: (i32, u32, u32)) -> (i32, u32, u32) {
    match requested {
        Some(day) => day,
        None => today,
    }
}

/// The `LIKE` pattern of the day whose predictions are asked for (the
/// requested day as year, month and day, else today): the day as
/// `YYYYMMDD` followed by `%`; `None` when that day does not exist.
pub fn prediction_day(requested: Option<(i32, u32, u32)>, today: (i32, u32, u32)) -> (res: Option<String>)
    ensures
        res is Some <==> is_calendar_date(
            chosen_day(requested, today).0 as int,
            chosen_day(requested, today).1 as int,
            chosen_day(requested, today).2 as int,
        ),
        res matches Some(p) ==> p@ == chrono_ymd_text(
            chosen_day(requested, today).0,
            chosen_day(requested, today).1,
            chosen_day(requested, today).2,
        ) + "%"@,
        0 <= chosen_day(requested, today).0 <= 9999 ==> (res matches Some(p) ==> p@ == ymd_digits(
            chosen_day(requested, today).0 as nat,
            chosen_day(requested, today).1 as nat,
            chosen_day(requested, today).2 as nat,
        ) + "%"@),
{
    let (year, month, day) = match requested {
        Some(d) => d,
        None => today,
    };
    match format_day(year, month, day) {
        Some(text) => Some(day_pattern(text.as_str())),
        None => None,
    }
}

/// Why a request for predictions names no region.
#[derive(Debug, Clone, Copy, PartialEq, Eq, Structural)]
pub enum RegionCodeError {
    /// No `regionCode` was given.
    Missing,
    /// `regionCode` was given empty.
    Empty,
}

/// The region code of a prediction request is required and may not be empty.
pub fn validate_region_code(code: &Option<String>) -> (res: Result<(), RegionCodeError>)
    ensures
        code is None ==> res == Err::<(), RegionCodeError>(RegionCodeError::Missing),
        code matches Some(c) && c@.len() == 0 ==> res == Err::<(), RegionCodeError>(RegionCodeError::Empty),
        code matches Some(c) && c@.len() > 0 ==> res == Ok::<(), RegionCodeError>(()),
{
    match code {
        None => Err(RegionCodeError::Missing),
        Some(c) => {
            if c.as_str().is_empty() {
                Err(RegionCodeError::Empty)
            } else {
                Ok(())
            }
        },
    }
}

/// How long the service waits between two scrapes of all provinces: a day.
pub const SCRAPE_INTERVAL_SECS: u64 = 24 * 60 * 60;

} // verus!
