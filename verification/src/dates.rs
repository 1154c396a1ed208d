//! Calendar plumbing for the submission window. A date is carried as its
//! day number in the proleptic Gregorian calendar (January 1 of year 1
//! being day 1); the calendar work itself — today's date, weekday lookup,
//! rendering and parsing of `YYYY-MM-DD` — is done by the `chrono` crate
//! behind trusted wrappers, and the window arithmetic on day numbers is
//! verified here.

use vstd::prelude::*;

verus! {

/// Bound within which every date `chrono` can represent falls: its
/// documentation limits dates to about ±262,000 years from the common
/// epoch, under 100,000,000 days.
pub open spec fn day_number_in_range(days: int) -> bool {
    -100_000_000 <= days <= 100_000_000
}

/// Day numbers the wrappers below accept: comfortably inside the
/// documented range, and no earlier than day 1.
pub open spec fn wrappable_day(days: int) -> bool {
    1 <= days <= 10_000_000
}

/// What `Weekday::num_days_from_monday` answers for the date with this day
/// number: a function of the day number alone.
pub uninterp spec fn weekday_of(days: int) -> int;

/// What `NaiveDate::format("%Y-%m-%d")` renders for the date with this day
/// number: a function of the day number alone.
pub uninterp spec fn date_string_of(days: int) -> Seq<char>;

/// What parsing a string as a `%Y-%m-%d` date yields, as a day number: a
/// function of the characters alone.
pub uninterp spec fn parsed_day_number(s: Seq<char>) -> Option<i32>;

/// Relies on `chrono::Local::now` and `Datelike::num_days_from_ce`: the
/// operator's current local date as a day number. The value depends on the
/// clock; only the documented range of representable dates is promised.
#[verifier::external_body]
pub(crate) fn today_day_number() -> (r: i32)
    ensures
        day_number_in_range(r as int),
{
    chrono::Datelike::num_days_from_ce(&chrono::Local::now().date_naive())
}

/// Relies on `NaiveDate::from_num_days_from_ce_opt` and
/// `Weekday::num_days_from_monday`: the weekday of the date with this day
/// number, 0 for Monday through 6 for Sunday. The documented range of
/// `NaiveDate` covers every accepted day number, so the lookup cannot fail.
#[verifier::external_body]
pub(crate) fn weekday_from_monday(days: i32) -> (r: u8)
    requires
        wrappable_day(days as int),
    ensures
        r < 7,
        r as int == weekday_of(days as int),
{
    let date = chrono::NaiveDate::from_num_days_from_ce_opt(days).unwrap();
    chrono::Datelike::weekday(&date).num_days_from_monday() as u8
}

/// Relies on `NaiveDate::from_num_days_from_ce_opt` and `NaiveDate::format`
/// with `%Y-%m-%d`: the `YYYY-MM-DD` rendering of the date with this day
/// number. The documented range of `NaiveDate` covers every accepted day
/// number.
#[verifier::external_body]
pub(crate) fn format_day_number(days: i32) -> (r: String)
    requires
        wrappable_day(days as int),
    ensures
        r@ == date_string_of(days as int),
{
    let date = chrono::NaiveDate::from_num_days_from_ce_opt(days).unwrap();
    date.format("%Y-%m-%d").to_string()
}

/// Relies on `NaiveDate::parse_from_str` with `%Y-%m-%d` and
/// `Datelike::num_days_from_ce`: the day number of a well-formed date
/// string, `None` where the string does not parse. Every date `chrono`
/// represents lies in its documented range.
#[verifier::external_body]
pub(crate) fn parse_day_number(s: &str) -> (r: Option<i32>)
    ensures
        r == parsed_day_number(s@),
        r is Some ==> day_number_in_range(r.unwrap() as int),
{
    match chrono::NaiveDate::parse_from_str(s, "%Y-%m-%d") {
        Ok(d) => Some(chrono::Datelike::num_days_from_ce(&d)),
        Err(_) => None,
    }
}

/// Day numbers a submission round can be planned on: far enough from the
/// calendar backend's representable edges that the preceding week exists
/// and can be rendered.
pub open spec fn plannable_day(today: int) -> bool {
    15 <= today <= 9_000_000
}

/// The anchor of a submission round on the given day: the day itself with
/// its weekday, exactly when the day lies in the plannable range.
pub fn round_anchor_of(today: i32) -> (r: Option<(i32, u8)>)
    requires
        day_number_in_range(today as int),
    ensures
        r is Some <==> plannable_day(today as int),
        r matches Some(a) ==> a.0 == today && a.1 < 7 && a.1 as int == weekday_of(today as int),
{
    if 15 <= today && today <= 9_000_000 {
        let weekday = weekday_from_monday(today);
        Option::Some((today, weekday))
    } else {
        Option::None
    }
}

/// Today's day number and weekday, as the anchor of a submission round.
/// `None` only where the clock stands outside the plannable range.
pub fn current_round_anchor() -> (r: Option<(i32, u8)>)
    ensures
        r matches Some(a) ==> plannable_day(a.0 as int) && a.1 < 7 && a.1 as int == weekday_of(
            a.0 as int,
        ),
{
    round_anchor_of(today_day_number())
}

/// The Monday and the Sunday of the calendar week before the one holding
/// `today`, as day numbers.
pub open spec fn last_week_window(today: int, weekday: int) -> (int, int) {
    let start = today - weekday - 7;
    (start, start + 6)
}

/// Computes the preceding calendar week, Monday through Sunday, relative
/// to `today` with the given weekday index (0 for Monday).
pub fn preceding_week(today: i32, weekday: u8) -> (r: (i32, i32))
    requires
        weekday < 7,
        day_number_in_range(today as int),
    ensures
        (r.0 as int, r.1 as int) == last_week_window(today as int, weekday as int),
        r.0 <= r.1 < today,
{
    let start = today - (weekday as i32) - 7;
    (start, start + 6)
}

} // verus!
