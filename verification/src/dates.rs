//! Calendar days in UTC, as the provider's date filters want them, and the
//! windows of days around an instant.

use vstd::prelude::*;
use vstd::string::StringExecFns;

verus! {

/// The seconds of a day.
pub const DAY_SECS: i64 = 86_400;

/// The days that count as newly released, looking back.
pub const NEW_RELEASE_DAYS: i64 = 30;

/// The days that count as upcoming, looking ahead.
pub const UPCOMING_DAYS: i64 = 180;

/// The calendar day in UTC, written as year, month and day with hyphens, of
/// the instant `secs` seconds after the start of 1970; nothing where `chrono`
/// has no date for that instant.
pub uninterp spec fn utc_date(secs: i64) -> Option<Seq<char>>;

/// Calls `chrono::DateTime::from_timestamp` with no nanoseconds, then
/// `date_naive` and the date's `Display`. Claimed: the text depends on the
/// seconds alone, and `None` is what `from_timestamp` gave.
#[verifier::external_body]
fn format_utc_date(secs: i64) -> (text: Option<String>)
    ensures
        match text {
            Some(day) => utc_date(secs) == Some(day@),
            None => utc_date(secs) is None,
        },
{
    chrono::DateTime::from_timestamp(secs, 0).map(|instant| instant.date_naive().to_string())
}

/// The instant `days` days away from `now`, where it can be counted.
pub open spec fn shifted(now: i64, days: int) -> Option<i64> {
    if i64::MIN <= now + days * DAY_SECS <= i64::MAX {
        Some((now + days * DAY_SECS) as i64)
    } else {
        None
    }
}

/// The filter for the days from `from` to `to`: both days, a comma between.
pub open spec fn window_between(from: Option<i64>, to: Option<i64>) -> Option<Seq<char>> {
    match (from, to) {
        (Some(from), Some(to)) => match (utc_date(from), utc_date(to)) {
            (Some(first), Some(last)) => Some(first + ","@ + last),
            _ => None,
        },
        _ => None,
    }
}

/// The filter for what was released in the days up to `now`.
pub open spec fn released_window(now: i64) -> Option<Seq<char>> {
    window_between(shifted(now, -NEW_RELEASE_DAYS), Some(now))
}

/// The filter for what is released in the days after `now`.
pub open spec fn upcoming_window(now: i64) -> Option<Seq<char>> {
    window_between(Some(now), shifted(now, UPCOMING_DAYS as int))
}

/// The instant `days` days away from `now`; nothing where the seconds leave
/// the range of the clock.
pub fn shift_days(now: i64, days: i64) -> (instant: Option<i64>)
    ensures
        instant == shifted(now, days as int),
{
    let wide: i128 = (now as i128) + (days as i128) * (DAY_SECS as i128);
    if wide < i64::MIN as i128 || wide > i64::MAX as i128 {
        None
    } else {
        Some(wide as i64)
    }
}

/// Writes the filter for the days from `from` to `to`.
pub fn date_window(from: Option<i64>, to: Option<i64>) -> (window: Option<String>)
    ensures
        match window {
            Some(text) => window_between(from, to) == Some(text@),
            None => window_between(from, to) is None,
        },
{
    match (from, to) {
        (Some(from), Some(to)) => {
            let first = format_utc_date(from);
            let last = format_utc_date(to);
            match (first, last) {
                (Some(first), Some(last)) => Some(first.concat(",").concat(last.as_str())),
                _ => None,
            }
        },
        _ => None,
    }
}

/// Writes the filter for the thirty days that end at `now`; nothing where
/// the calendar does not reach that far.
pub fn new_release_window(now: i64) -> (window: Option<String>)
    ensures
        match window {
            Some(text) => released_window(now) == Some(text@),
            None => released_window(now) is None,
        },
{
    date_window(shift_days(now, -NEW_RELEASE_DAYS), Some(now))
}

/// Writes the filter for the hundred and eighty days that start at `now`;
/// nothing where the calendar does not reach that far.
pub fn upcoming_release_window(now: i64) -> (window: Option<String>)
    ensures
        match window {
            Some(text) => upcoming_window(now) == Some(text@),
            None => upcoming_window(now) is None,
        },
{
    date_window(Some(now), shift_days(now, UPCOMING_DAYS))
}

} // verus!
