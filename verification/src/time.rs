//! The clock: points in time and the calendar year.

use vstd::prelude::*;

verus! {

/// The last second that the calendar of `chrono` reaches to: the end of the year 262142.
pub const LAST_SECOND: i64 = 8_210_266_876_799;

/// The first day of a year, counted from the first of January 1970: a year has 365 days, and one
/// more where it can be divided by 4, unless it can be by 100 and not by 400.
pub open spec fn first_day(year: int) -> int {
    let past = year - 1;
    365 * past + past / 4 - past / 100 + past / 400 - 719_162
}

/// Whether a number of seconds since the epoch lies in a year.
pub open spec fn lies_in(secs: int, year: int) -> bool {
    first_day(year) <= secs / 86_400 < first_day(year + 1)
}

proof fn lemma_years_follow(a: int, b: int)
    requires
        1 <= a <= b,
    ensures
        first_day(a) <= first_day(b),
    decreases b - a,
{
    if a < b {
        lemma_years_follow(a, b - 1);
    }
}

/// A second lies in one year only.
pub proof fn lemma_a_second_has_one_year(secs: int, a: int, b: int)
    requires
        1 <= a,
        1 <= b,
        lies_in(secs, a),
        lies_in(secs, b),
    ensures
        a == b,
{
    if a < b {
        lemma_years_follow(a + 1, b);
    } else if b < a {
        lemma_years_follow(b + 1, a);
    }
}

/// `chrono::DateTime::from_timestamp`, for whole seconds from the epoch on: `None` beyond its
/// calendar, and else the point in time with that many seconds since the epoch.
#[verifier::external_body]
pub(crate) fn timestamp(secs: i64) -> (r: Option<i64>)
    requires
        secs >= 0,
    ensures
        r == if secs <= LAST_SECOND { Some(secs) } else { None },
{
    chrono::DateTime::from_timestamp(secs, 0).map(|time| time.timestamp())
}

/// `chrono::DateTime::from_timestamp` and `DateTime::format` with `%Y`, for whole seconds from the
/// epoch on: `None` beyond its calendar, and else the year of that second in UTC.
#[verifier::external_body]
pub(crate) fn year(secs: i64) -> (r: Option<u32>)
    requires
        secs >= 0,
    ensures
        match r {
            Some(year) => secs <= LAST_SECOND && year >= 1970 && lies_in(secs as int, year as int),
            None => secs > LAST_SECOND,
        },
{
    chrono::DateTime::from_timestamp(secs, 0)
        .and_then(|time| time.format("%Y").to_string().parse::<u32>().ok())
}

/// Whether a year is the one that a clock of unsigned seconds is in; beyond the calendar it is the
/// epoch's, as models are newer than that.
pub open spec fn is_year_at(unix_secs: u64, year: u32) -> bool {
    if unix_secs <= LAST_SECOND {
        year >= 1970 && lies_in(unix_secs as int, year as int)
    } else {
        year == 1970
    }
}

/// The calendar year for a number of seconds since the epoch.
#[must_use]
pub fn now_year(unix_secs: u64) -> (r: u32)
    ensures
        is_year_at(unix_secs, r),
{
    let secs: i64 = if unix_secs <= i64::MAX as u64 { unix_secs as i64 } else { i64::MAX };
    match year(secs) {
        Some(year) => year,
        None => 1970,
    }
}

/// The point in time a clock of unsigned seconds is at; the epoch where it is beyond the calendar.
pub open spec fn moment_of(unix_secs: u64) -> i64 {
    if unix_secs <= LAST_SECOND { unix_secs as i64 } else { 0 }
}

/// The point in time a clock of unsigned seconds is at.
#[must_use]
pub fn moment(unix_secs: u64) -> (r: i64)
    ensures
        r == moment_of(unix_secs),
{
    let secs: i64 = if unix_secs <= i64::MAX as u64 { unix_secs as i64 } else { 0 };
    match timestamp(secs) {
        Some(secs) => secs,
        None => 0,
    }
}

} // verus!
