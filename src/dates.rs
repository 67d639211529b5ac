use vstd::prelude::*;

verus! {

/// Earliest supported day: 0001-01-01, counted from 1970-01-01.
pub const FIRST_DAY: i32 = -719162;

/// Latest supported day: 9999-12-31, counted from 1970-01-01.
pub const LAST_DAY: i32 = 2932896;

/// A moment in UTC: the day, counted from 1970-01-01 (day 0), and the second
/// within that day.
#[derive(Clone, Copy, Debug, PartialEq, Eq, Structural)]
pub struct Timestamp {
    pub day: i32,
    pub second: u32,
}

impl Timestamp {
    /// Position of the moment on one time line, in seconds.
    pub open spec fn key(self) -> int {
        self.day * 86400 + self.second
    }

    pub fn sort_key(&self) -> (r: i64)
        ensures
            r == self.key(),
    {
        (self.day as i64) * 86400 + (self.second as i64)
    }
}

/// A day of years 1 to 9999, whose text is `YYYY-MM-DD`.
pub open spec fn valid_day(day: int) -> bool {
    FIRST_DAY <= day <= LAST_DAY
}

/// Days since the last Monday: 0 on a Monday, 6 on a Sunday
/// (0001-01-01 was a Monday).
pub open spec fn weekday_from_monday(day: int) -> int {
    (day - FIRST_DAY) % 7
}

/// The `YYYY-MM-DD` text of a day.
pub uninterp spec fn date_text(day: int) -> Seq<char>;

/// The day that a `YYYY-MM-DD` text names, if it names one.
pub uninterp spec fn parsed_day(text: Seq<char>) -> Option<int>;

/// The first day of the month that holds a day.
pub uninterp spec fn month_start_of(day: int) -> int;

/// Relies on chrono's `NaiveDate::from_epoch_days` and its `Display`, which
/// writes a date of years 0 to 9999 as four digits of year, two of month and
/// two of day, joined by `-`.
#[verifier::external_body]
pub(crate) fn day_text(day: i32) -> (r: String)
    requires
        valid_day(day as int),
    ensures
        r@ == date_text(day as int),
        r@.len() == 10,
{
    chrono::NaiveDate::from_epoch_days(day).unwrap().to_string()
}

/// Relies on chrono's `NaiveDate::parse_from_str` with the format `%Y-%m-%d`,
/// and on `NaiveDate::to_epoch_days`.
#[verifier::external_body]
pub(crate) fn parse_day(text: &str) -> (r: Option<i32>)
    ensures
        r matches Some(d) ==> parsed_day(text@) == Some(d as int),
        r is None ==> parsed_day(text@) is None,
{
    chrono::NaiveDate::parse_from_str(text, "%Y-%m-%d").ok().map(|d| d.to_epoch_days())
}

/// Relies on chrono's `NaiveDate::with_day(1)`: the same year and month, on
/// its first day.
#[verifier::external_body]
fn first_of_month(day: i32) -> (r: i32)
    requires
        valid_day(day as int),
    ensures
        r == month_start_of(day as int),
        valid_day(r as int),
        r <= day,
        day - r <= 30,
{
    let d = chrono::NaiveDate::from_epoch_days(day).unwrap();
    chrono::Datelike::with_day(&d, 1).unwrap().to_epoch_days()
}

pub fn days_since_monday(day: i32) -> (r: u32)
    requires
        valid_day(day as int),
    ensures
        r == weekday_from_monday(day as int),
        r < 7,
{
    ((day as i64 - FIRST_DAY as i64) % 7) as u32
}

/// A caller's bound, or the default where it is absent or empty.
pub open spec fn bound_or(given: Option<String>, default: Seq<char>) -> Seq<char> {
    match given {
        Some(s) => if s@.len() == 0 { default } else { s@ },
        None => default,
    }
}

/// Both bounds of a reporting window as given, where the empty or absent start
/// is the first day of the current month and the empty or absent end is today.
pub open spec fn resolved_range(start: Option<String>, end: Option<String>, today: int) -> (Seq<
    char,
>, Seq<char>) {
    (bound_or(start, date_text(month_start_of(today))), bound_or(end, date_text(today)))
}

fn take_or_default(given: Option<String>, default: String) -> (r: String)
    ensures
        r@ == bound_or(given, default@),
{
    match given {
        Some(s) => if s.as_str().is_empty() {
            default
        } else {
            s
        },
        None => default,
    }
}

/// Fills in the absent or empty bounds of a reporting window; supplied bounds
/// are passed through unchecked.
pub fn resolve_date_range(start: Option<String>, end: Option<String>, today: i32) -> (r: (
    String,
    String,
))
    requires
        valid_day(today as int),
    ensures
        (r.0@, r.1@) == resolved_range(start, end, today as int),
{
    let first = first_of_month(today);
    let s = take_or_default(start, day_text(first));
    let e = take_or_default(end, day_text(today));
    (s, e)
}

/// Whether a day lies in the window between two date texts, both inclusive.
/// A text that names no day matches nothing.
pub open spec fn in_window(day: int, start: Seq<char>, end: Seq<char>) -> bool {
    match (parsed_day(start), parsed_day(end)) {
        (Some(a), Some(b)) => a <= day <= b,
        _ => false,
    }
}

/// The days that two date texts name, if both name one.
pub fn window_bounds(start: &str, end: &str) -> (r: Option<(i32, i32)>)
    ensures
        r matches Some(b) ==> parsed_day(start@) == Some(b.0 as int) && parsed_day(end@) == Some(
            b.1 as int,
        ),
        r is None ==> parsed_day(start@) is None || parsed_day(end@) is None,
{
    match (parse_day(start), parse_day(end)) {
        (Some(a), Some(b)) => Some((a, b)),
        _ => None,
    }
}

} // verus!
