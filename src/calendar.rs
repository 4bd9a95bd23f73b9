use chrono::{Datelike, Local, NaiveDate};
use vstd::prelude::*;
use vstd::string::StringExecFns;

verus! {

// Dates are day numbers counted as chrono's `num_days_from_ce` counts them:
// 0001-01-01 of the proleptic Gregorian calendar is day 1.

/// Largest magnitude of a day number that the date functions take: about
/// 260,000 years either side of the common era, inside chrono's own range.
pub const DAY_LIMIT: i64 = 95_000_000;

/// Days in a week.
pub const DAYS_PER_WEEK: i64 = 7;

/// Weeks between today and the start of the painting window.
pub const LOOKBACK_WEEKS: i64 = 50;

/// Whether the date functions take `day`.
pub open spec fn in_day_range(day: int) -> bool {
    -DAY_LIMIT <= day <= DAY_LIMIT
}

/// Weekday of a day number, Sunday being 0 and Saturday 6 (day 1 is a Monday).
pub open spec fn weekday(day: int) -> int {
    day % 7
}

/// The start of the painting window for `today`: the last Sunday on or before
/// the day `LOOKBACK_WEEKS` weeks back.
pub open spec fn anchor_of(today: int) -> int {
    let back = today - LOOKBACK_WEEKS * DAYS_PER_WEEK;
    back - weekday(back)
}

/// The dates `today` admits for a window: its anchor and itself are in range.
pub open spec fn window_fits(today: int) -> bool {
    -DAY_LIMIT + LOOKBACK_WEEKS * DAYS_PER_WEEK + 6 <= today <= DAY_LIMIT
}

/// Whatever `today` is, its anchor is a Sunday, six days or less before the
/// day `LOOKBACK_WEEKS` weeks back.
pub proof fn lemma_anchor_is_sunday(today: int)
    ensures
        weekday(anchor_of(today)) == 0,
        today - LOOKBACK_WEEKS * DAYS_PER_WEEK - 6 <= anchor_of(today) <= today - LOOKBACK_WEEKS
            * DAYS_PER_WEEK,
{
}

/// The ISO 8601 text of a day (`YYYY-MM-DD` for the years 0 to 9999).
pub uninterp spec fn iso_date_of(day: int) -> Seq<char>;

/// Relies on chrono's `Local::now`, `DateTime::date_naive` and
/// `Datelike::num_days_from_ce`: the local calendar date of the moment of the
/// call as a day number. Nothing is promised of its value.
#[verifier::external_body]
fn local_today() -> (r: i32) {
    Local::now().date_naive().num_days_from_ce()
}

/// Relies on chrono's `NaiveDate::from_num_days_from_ce_opt`, which gives a date
/// for every day in range, and `Weekday::number_from_sunday`, which counts
/// Sunday as 1; day 1, 0001-01-01, is a Monday.
#[verifier::external_body]
fn number_from_sunday(day: i32) -> (r: u32)
    requires
        in_day_range(day as int),
    ensures
        r == weekday(day as int) + 1,
{
    NaiveDate::from_num_days_from_ce_opt(day).unwrap().weekday().number_from_sunday()
}

/// Relies on chrono's `NaiveDate::from_num_days_from_ce_opt`, which gives a date
/// for every day in range, and on `NaiveDate`'s `Display`, which writes it as
/// ISO 8601 (`%Y-%m-%d` for the years 0 to 9999).
#[verifier::external_body]
fn date_text(day: i32) -> (r: String)
    requires
        in_day_range(day as int),
    ensures
        r@ == iso_date_of(day as int),
{
    NaiveDate::from_num_days_from_ce_opt(day).unwrap().to_string()
}

/// The start of the painting window: `LOOKBACK_WEEKS` weeks before `today`,
/// walked back to a Sunday.
pub fn calendar_anchor(today: i64) -> (r: i64)
    requires
        window_fits(today as int),
    ensures
        r == anchor_of(today as int),
        weekday(r as int) == 0,
        today - LOOKBACK_WEEKS * DAYS_PER_WEEK - 6 <= r <= today - LOOKBACK_WEEKS * DAYS_PER_WEEK,
{
    let ghost back = today - LOOKBACK_WEEKS * DAYS_PER_WEEK;
    let mut d: i64 = today - LOOKBACK_WEEKS * DAYS_PER_WEEK;
    while number_from_sunday(d as i32) != 1
        invariant
            back == today - LOOKBACK_WEEKS * DAYS_PER_WEEK,
            window_fits(today as int),
            back - weekday(back) <= d <= back,
            weekday(d as int) == weekday(back) - (back - d),
        decreases d - (back - weekday(back)),
    {
        d = d - 1;
    }
    d
}

/// A painting window: the days from `anchor` to `today`, both included.
#[derive(Clone, Copy, Debug, PartialEq, Eq, Structural)]
pub struct Window {
    pub anchor: i64,
    pub today: i64,
}

/// The painting window ending on `today`, if its days are in range.
pub fn window_for(today: i64) -> (r: Option<Window>)
    ensures
        r == (if window_fits(today as int) {
            Some((Window { anchor: anchor_of(today as int) as i64, today }))
        } else {
            None
        }),
{
    if -DAY_LIMIT + LOOKBACK_WEEKS * DAYS_PER_WEEK + 6 <= today && today <= DAY_LIMIT {
        Some(Window { anchor: calendar_anchor(today), today })
    } else {
        None
    }
}

/// The painting window ending on the local date of the moment of the call.
pub fn painting_window() -> (r: Option<Window>)
    ensures
        r matches Some(w) ==> window_fits(w.today as int) && w.anchor == anchor_of(
            w.today as int,
        ),
{
    let today = local_today();
    window_for(today as i64)
}

/// The commit timestamp of a date given as text: noon of that date, so that
/// no time zone moves it to another day.
pub fn timestamp_from_date_text(date: &str) -> (r: String)
    ensures
        r@ == date@ + "T12:00:00"@,
{
    let mut s = String::from_str(date);
    s.append("T12:00:00");
    s
}

/// The commit timestamp (`YYYY-MM-DDT12:00:00`) of a day, if it is in range.
pub fn commit_timestamp(day: i64) -> (r: Option<String>)
    ensures
        r.is_some() <==> in_day_range(day as int),
        r matches Some(s) ==> s@ == iso_date_of(day as int) + "T12:00:00"@,
{
    if -DAY_LIMIT <= day && day <= DAY_LIMIT {
        let text = date_text(day as i32);
        Some(timestamp_from_date_text(text.as_str()))
    } else {
        None
    }
}

} // verus!
