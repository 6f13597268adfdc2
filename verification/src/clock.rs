//! Instants and calendar arithmetic, as chrono computes them.
//!
//! An instant is what a `chrono::DateTime<Utc>` holds: whole seconds since the
//! Unix epoch and the nanoseconds into that second (a leap second carries
//! 1_000_000_000 or more).
use chrono::{Datelike, Timelike};
use vstd::prelude::*;

verus! {

/// Whole days in a second count, as `TimeDelta::num_days` divides (truncating toward zero).
pub const SECS_PER_DAY: i64 = 86400;

/// chrono's calendar spans 1 January −262143 to 31 December 262142 (UTC), so
/// every timestamp it produces lies in this range of seconds; the sub-second
/// part is below 2·10^9.
pub open spec fn in_chrono_range(t: (i64, u32)) -> bool {
    &&& -8_334_601_228_800 <= t.0 <= 8_210_266_876_799
    &&& t.1 < 2_000_000_000
}

/// An instant as chrono can hold it: in range, and inside a leap second only
/// at second 59 of a minute (where a leap second falls).
pub open spec fn chrono_instant(t: (i64, u32)) -> bool {
    in_chrono_range(t) && (t.1 < 1_000_000_000 || t.0 % 60 == 59)
}

/// An instant in chrono's range that is not inside a leap second: chrono can
/// always rebuild it with `DateTime::from_timestamp`.
pub open spec fn plain_instant(t: (i64, u32)) -> bool {
    in_chrono_range(t) && t.1 < 1_000_000_000
}

/// The whole seconds from `earlier` to `later`, truncated toward zero.
pub open spec fn truncated_seconds(later: (i64, u32), earlier: (i64, u32)) -> int {
    let d = (later.0 - earlier.0) * 1_000_000_000 + (later.1 - earlier.1);
    if d >= 0 {
        d / 1_000_000_000
    } else {
        -((-d) / 1_000_000_000)
    }
}

/// The instant `s.parse::<DateTime<Utc>>()` gives (`None` when chrono refuses the text).
pub uninterp spec fn utc_from_str(s: Seq<char>) -> Option<(i64, u32)>;

/// The instant `DateTime::parse_from_rfc3339(s)` gives, taken to UTC.
pub uninterp spec fn utc_from_rfc3339(s: Seq<char>) -> Option<(i64, u32)>;

/// The whole seconds chrono counts from `earlier` to `later`: the truncated
/// difference outside leap seconds, else what chrono gives.
pub open spec fn seconds_from(later: (i64, u32), earlier: (i64, u32)) -> Option<i64> {
    if plain_instant(later) && plain_instant(earlier) {
        Some(truncated_seconds(later, earlier) as i64)
    } else {
        utc_seconds_between(later, earlier)
    }
}

/// `(later - earlier).num_seconds()` for the two instants (`None` when chrono
/// cannot build one of them). Outside leap seconds it is stated by
/// `seconds_between`; this name covers instants inside a leap second.
pub uninterp spec fn utc_seconds_between(later: (i64, u32), earlier: (i64, u32)) -> Option<i64>;

/// Day of the month (1..=31) of the day `z` days after 1 January 1970, in the
/// proleptic Gregorian calendar (by 400-year eras of 146097 days).
pub open spec fn day_of_month(z: int) -> int {
    let zz = z + 719468;
    let era = zz / 146097;
    let doe = zz - era * 146097;
    let yoe = (doe - doe / 1460 + doe / 36524 - doe / 146096) / 365;
    let doy = doe - (365 * yoe + yoe / 4 - yoe / 100);
    let mp = (5 * doy + 2) / 153;
    doy - (153 * mp + 2) / 5 + 1
}

/// Midnight (UTC) of the first day of the month of the instant with these
/// seconds since the epoch, in seconds.
pub open spec fn month_start_of(secs: int) -> int {
    let day = secs / 86400;
    (day - (day_of_month(day) - 1)) * 86400
}

/// `s.parse::<DateTime<Utc>>()` (chrono's `FromStr`, which accepts a relaxed
/// RFC 3339 and converts any offset to UTC). The result is named; it lies
/// within chrono's range, and a leap second (second 60 in the text) is held at
/// second 59 with 10^9 nanoseconds added, which the whole-minute offset the
/// parser reads keeps at second 59 in UTC.
#[verifier::external_body]
pub fn parse_utc(s: &str) -> (r: Option<(i64, u32)>)
    ensures
        r == utc_from_str(s@),
        r matches Some(t) ==> chrono_instant(t),
{
    match s.parse::<chrono::DateTime<chrono::Utc>>() {
        Ok(d) => Some((d.timestamp(), d.timestamp_subsec_nanos())),
        Err(_) => None,
    }
}

/// `DateTime::parse_from_rfc3339(s)`, then `with_timezone(&Utc)`. The result
/// is named; as for `parse_utc`, it lies within chrono's range and a leap
/// second falls at second 59 (RFC 3339 offsets are whole minutes).
#[verifier::external_body]
pub fn parse_rfc3339(s: &str) -> (r: Option<(i64, u32)>)
    ensures
        r == utc_from_rfc3339(s@),
        r matches Some(t) ==> chrono_instant(t),
{
    match chrono::DateTime::parse_from_rfc3339(s) {
        Ok(d) => {
            let u = d.with_timezone(&chrono::Utc);
            Some((u.timestamp(), u.timestamp_subsec_nanos()))
        },
        Err(_) => None,
    }
}

/// `Utc::now()`: the system clock. Nothing ties one reading to another; the
/// result is a `DateTime<Utc>`, so it lies within chrono's range, and chrono
/// builds it from `Duration::subsec_nanos`, so the nanoseconds are below 10^9.
/// (chrono panics when the clock is set before 1970.)
#[verifier::external_body]
pub fn utc_now() -> (r: (i64, u32))
    ensures
        plain_instant(r),
{
    let d = chrono::Utc::now();
    (d.timestamp(), d.timestamp_subsec_nanos())
}

/// `later - earlier` (`DateTime`'s `Sub`, a `TimeDelta`) in whole seconds
/// (`TimeDelta::num_seconds`), each instant rebuilt with `DateTime::from_timestamp`.
/// `from_timestamp` accepts every instant of chrono's range whose leap second,
/// if any, is at second 59, and `Sub` always gives a difference; between two
/// instants outside leap seconds it is the exact nanosecond difference, which
/// `num_seconds` truncates toward zero.
#[verifier::external_body]
pub fn seconds_between(later: (i64, u32), earlier: (i64, u32)) -> (r: Option<i64>)
    ensures
        r == utc_seconds_between(later, earlier),
        r == seconds_from(later, earlier),
        chrono_instant(later) && chrono_instant(earlier) ==> r is Some,
{
    match (chrono::DateTime::from_timestamp(later.0, later.1), chrono::DateTime::from_timestamp(earlier.0, earlier.1)) {
        (Some(a), Some(b)) => Some((a - b).num_seconds()),
        _ => None,
    }
}

/// The first day of the instant's month at 00:00:00 UTC, in seconds
/// (`date_naive().with_day(1)`, `and_hms_opt(0, 0, 0)`, `and_utc().timestamp()`).
/// `from_timestamp` rebuilds exactly the instants chrono can hold, and for
/// those `with_day(1)` and `and_hms_opt(0, 0, 0)` always succeed: the result is
/// the first of the instant's (UTC) month at midnight.
#[verifier::external_body]
pub fn month_start(t: (i64, u32)) -> (r: Option<i64>)
    ensures
        r == (if chrono_instant(t) {
            Some(month_start_of(t.0 as int) as i64)
        } else {
            None
        }),
{
    match chrono::DateTime::from_timestamp(t.0, t.1) {
        Some(d) => {
            let day = d.date_naive();
            let first = day.with_day(1).unwrap_or(day);
            match first.and_hms_opt(0, 0, 0) {
                Some(m) => Some(m.and_utc().timestamp()),
                None => None,
            }
        },
        None => None,
    }
}

/// `DateTime::timestamp_millis`: the seconds in milliseconds plus the whole
/// milliseconds of the sub-second part.
pub open spec fn millis_of(t: (i64, u32)) -> int {
    t.0 * 1000 + t.1 / 1_000_000
}

pub fn timestamp_millis(t: (i64, u32)) -> (r: i64)
    requires
        in_chrono_range(t),
    ensures
        r == millis_of(t),
{
    t.0 * 1000 + (t.1 / 1_000_000) as i64
}

/// `TimeDelta::num_days`: whole days, truncated toward zero.
pub open spec fn whole_days(secs: int) -> int {
    if secs >= 0 {
        secs / 86400
    } else {
        -((-secs) / 86400)
    }
}

pub fn days_in(secs: i64) -> (r: i64)
    ensures
        r == whole_days(secs as int),
{
    if secs >= 0 {
        secs / SECS_PER_DAY
    } else if secs == i64::MIN {
        -((i64::MAX / SECS_PER_DAY))
    } else {
        -((-secs) / SECS_PER_DAY)
    }
}

/// Whether instant `a` is later than instant `b` (chrono orders by the
/// seconds, then by the sub-second part).
pub open spec fn is_later(a: (i64, u32), b: (i64, u32)) -> bool {
    a.0 > b.0 || (a.0 == b.0 && a.1 > b.1)
}

pub fn later_than(a: (i64, u32), b: (i64, u32)) -> (r: bool)
    ensures
        r == is_later(a, b),
{
    a.0 > b.0 || (a.0 == b.0 && a.1 > b.1)
}

/// `Local::now()`, as its hour and minute (`hour()`, `minute()`): the clock and
/// the machine's time zone decide them; an hour is below 24 and a minute below
/// 60. (Like `Utc::now`, it panics when the clock is set before 1970.)
#[verifier::external_body]
pub fn local_hour_minute() -> (r: (u32, u32))
    ensures
        r.0 < 24,
        r.1 < 60,
{
    let now = chrono::Local::now();
    (now.hour(), now.minute())
}

} // verus!
