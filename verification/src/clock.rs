//! Reading the UTC clock and the calendar, through `std::time` and `chrono`.

use chrono::Datelike;
use vstd::prelude::*;

use crate::models::Timestamp;

verus! {

/// The latest instant that `chrono` represents: the end of year 262142, in epoch seconds.
pub open spec fn latest_utc_secs() -> int {
    8210266876799
}

/// The proleptic Gregorian (year, month) of a day counted from 1970-01-01 (day 0).
pub open spec fn civil_from_days(days: int) -> (int, int) {
    let z = days + 719468;
    let era = z / 146097;
    let doe = z - era * 146097;
    let yoe = (doe - doe / 1460 + doe / 36524 - doe / 146096) / 365;
    let doy = doe - (365 * yoe + yoe / 4 - yoe / 100);
    let mp = (5 * doy + 2) / 153;
    let month = if mp < 10 {
        mp + 3
    } else {
        mp - 9
    };
    let year = yoe + era * 400 + if month <= 2 {
        1int
    } else {
        0int
    };
    (year, month)
}

/// Within one 400-year era, the year of the era and the day of that year (from March 1) are
/// in range.
proof fn lemma_era_day_bounds(doe: int)
    requires
        0 <= doe <= 146096,
    ensures
        0 <= (doe - doe / 1460 + doe / 36524 - doe / 146096) / 365 <= 399,
        ({
            let yoe = (doe - doe / 1460 + doe / 36524 - doe / 146096) / 365;
            let doy = doe - (365 * yoe + yoe / 4 - yoe / 100);
            0 <= doy <= 365
        }),
{
}

/// The UTC calendar year of an instant given in epoch seconds.
pub open spec fn utc_year_of(secs: int) -> int {
    civil_from_days(secs / 86400).0
}

/// The UTC calendar month, 1 to 12, of an instant given in epoch seconds.
pub open spec fn utc_month_of(secs: int) -> int {
    civil_from_days(secs / 86400).1
}

/// Months counted from year 0: twelve per year, plus the month of the year.
pub open spec fn civil_month_index(days: int) -> int {
    12 * civil_from_days(days).0 + civil_from_days(days).1
}

/// The month of a day is 1 to 12, and its month index counts the months of the whole eras and
/// years (from March) before it, plus the months since March.
proof fn lemma_civil_index_parts(days: int)
    ensures
        1 <= civil_from_days(days).1 <= 12,
        ({
            let z = days + 719468;
            let era = z / 146097;
            let doe = z - era * 146097;
            let yoe = (doe - doe / 1460 + doe / 36524 - doe / 146096) / 365;
            let doy = doe - (365 * yoe + yoe / 4 - yoe / 100);
            let mp = (5 * doy + 2) / 153;
            &&& 0 <= doe <= 146096
            &&& 0 <= yoe <= 399
            &&& 0 <= doy <= 365
            &&& 0 <= mp <= 11
            &&& civil_month_index(days) == 12 * (400 * era + yoe) + mp + 3
        }),
{
    let z = days + 719468;
    let era = z / 146097;
    let doe = z - era * 146097;
    lemma_era_day_bounds(doe);
}

/// From one day to the next, the month index never goes back.
proof fn lemma_civil_index_step(days: int)
    ensures
        civil_month_index(days) <= civil_month_index(days + 1),
{
    lemma_civil_index_parts(days);
    lemma_civil_index_parts(days + 1);
    let z = days + 719468;
    let era = z / 146097;
    let doe = z - era * 146097;
    let yoe = (doe - doe / 1460 + doe / 36524 - doe / 146096) / 365;
    let doy = doe - (365 * yoe + yoe / 4 - yoe / 100);
    let z2 = z + 1;
    let era2 = z2 / 146097;
    let doe2 = z2 - era2 * 146097;
    let yoe2 = (doe2 - doe2 / 1460 + doe2 / 36524 - doe2 / 146096) / 365;
    let doy2 = doe2 - (365 * yoe2 + yoe2 / 4 - yoe2 / 100);
    if doe < 146096 {
        assert(era2 == era && doe2 == doe + 1);
        assert(yoe2 >= yoe);
        if yoe2 == yoe {
            assert(doy2 == doy + 1);
            assert((5 * doy2 + 2) / 153 >= (5 * doy + 2) / 153);
        }
    } else {
        assert(era2 == era + 1 && doe2 == 0);
    }
}

/// Over any span of days, the month index never goes back.
proof fn lemma_civil_index_monotone(d1: int, d2: int)
    requires
        d1 <= d2,
    ensures
        civil_month_index(d1) <= civil_month_index(d2),
    decreases d2 - d1,
{
    if d1 < d2 {
        lemma_civil_index_monotone(d1, d2 - 1);
        lemma_civil_index_step(d2 - 1);
    }
}

/// The UTC date never goes back as time passes: of two instants in order, the later one is in
/// a later year, or in the same year and the same or a later month. Months are 1 to 12.
pub proof fn lemma_utc_date_monotone(s1: int, s2: int)
    requires
        s1 <= s2,
    ensures
        1 <= utc_month_of(s1) <= 12,
        1 <= utc_month_of(s2) <= 12,
        utc_year_of(s1) < utc_year_of(s2) || (utc_year_of(s1) == utc_year_of(s2)
            && utc_month_of(s1) <= utc_month_of(s2)),
{
    let d1 = s1 / 86400;
    let d2 = s2 / 86400;
    assert(d1 <= d2) by {
        vstd::arithmetic::div_mod::lemma_div_is_ordered(s1, s2, 86400);
    }
    lemma_civil_index_parts(d1);
    lemma_civil_index_parts(d2);
    lemma_civil_index_monotone(d1, d2);
}

/// A UTC (year, month) that the clock may have read: absent, or the date of some instant
/// between the epoch and the latest instant `chrono` represents.
pub open spec fn is_clock_date(today: Option<(int, int)>) -> bool {
    match today {
        None => true,
        Some((y, m)) => exists|secs: int|
            0 <= secs <= latest_utc_secs() && y == utc_year_of(secs) && m == utc_month_of(secs),
    }
}

/// A (year, month) reading as the contracts speak of it.
pub open spec fn date_reading(today: Option<(i32, u32)>) -> Option<(int, int)> {
    match today {
        Some((y, m)) => Some((y as int, m as int)),
        None => None,
    }
}

/// `std::time::SystemTime::now` measured with `duration_since(UNIX_EPOCH)`: whole seconds and
/// the nanoseconds past them, or `None` when the clock reads before the epoch. Which instant
/// comes back is not stated; `Duration::subsec_nanos` is documented to be below one second.
#[verifier::external_body]
fn system_clock() -> (r: Option<(u64, u32)>)
    ensures
        r matches Some((_, n)) ==> n < 1_000_000_000,
{
    match std::time::SystemTime::now().duration_since(std::time::UNIX_EPOCH) {
        Ok(d) => Some((d.as_secs(), d.subsec_nanos())),
        Err(_) => None,
    }
}

/// The UTC instant of a reading of the system clock (whole seconds since the epoch and the
/// nanoseconds past them): `None` where `chrono::Utc::now` would panic, that is when the clock
/// reads before the epoch or later than the latest instant `chrono` represents.
pub open spec fn instant_of(reading: Option<(u64, u32)>) -> Option<Timestamp> {
    match reading {
        Some((secs, nanos)) => if secs <= latest_utc_secs() {
            Some(Timestamp { secs: secs as i64, nanos })
        } else {
            None
        },
        None => None,
    }
}

/// Converts a reading of the system clock to a UTC instant (see [`instant_of`]).
pub fn utc_instant(reading: Option<(u64, u32)>) -> (r: Option<Timestamp>)
    ensures
        r == instant_of(reading),
{
    match reading {
        Some((secs, nanos)) => if secs <= 8210266876799 {
            Some(Timestamp { secs: secs as i64, nanos })
        } else {
            None
        },
        None => None,
    }
}

/// The current UTC instant as `chrono::Utc::now` reads it: the system clock since the epoch,
/// converted by [`utc_instant`]. Which reading the clock gives is not stated.
pub fn utc_now() -> (r: Option<Timestamp>)
    ensures
        exists|reading: Option<(u64, u32)>|
            (reading matches Some((_, n)) ==> n < 1_000_000_000) && r == instant_of(reading),
        r matches Some(t) ==> 0 <= t.secs <= latest_utc_secs() && t.nanos < 1_000_000_000,
{
    let reading = system_clock();
    utc_instant(reading)
}

/// The instant of a reading of the system clock, held within the instants that `chrono`
/// represents from the epoch on: a clock that reads before the epoch is taken at the epoch,
/// and one that reads past the latest instant at that second.
pub open spec fn bounded_instant_of(reading: Option<(u64, u32)>) -> Timestamp {
    match reading {
        Some((secs, nanos)) => if secs <= latest_utc_secs() {
            Timestamp { secs: secs as i64, nanos }
        } else {
            Timestamp { secs: latest_utc_secs() as i64, nanos }
        },
        None => Timestamp { secs: 0, nanos: 0 },
    }
}

/// Converts a reading of the system clock to an instant (see [`bounded_instant_of`]).
pub fn bounded_instant(reading: Option<(u64, u32)>) -> (t: Timestamp)
    ensures
        t == bounded_instant_of(reading),
{
    match reading {
        Some((secs, nanos)) => if secs <= 8210266876799 {
            Timestamp { secs: secs as i64, nanos }
        } else {
            Timestamp { secs: 8210266876799, nanos }
        },
        None => Timestamp { secs: 0, nanos: 0 },
    }
}

/// The current instant, always one that `chrono` represents: the system clock converted by
/// [`bounded_instant`]. Which reading the clock gives is not stated.
pub fn current_instant() -> (t: Timestamp)
    ensures
        exists|reading: Option<(u64, u32)>|
            (reading matches Some((_, n)) ==> n < 1_000_000_000) && t == bounded_instant_of(
                reading,
            ),
        0 <= t.secs <= latest_utc_secs(),
        t.nanos < 1_000_000_000,
{
    let reading = system_clock();
    bounded_instant(reading)
}

/// `chrono::DateTime::from_timestamp` then `Datelike::year`: the UTC year of an instant.
#[verifier::external_body]
fn utc_year(secs: i64) -> (y: i32)
    requires
        0 <= secs <= latest_utc_secs(),
    ensures
        y == utc_year_of(secs as int),
{
    chrono::DateTime::from_timestamp(secs, 0).unwrap().year()
}

/// `chrono::DateTime::from_timestamp` then `Datelike::month`: the UTC month (1 to 12) of an
/// instant.
#[verifier::external_body]
fn utc_month(secs: i64) -> (m: u32)
    requires
        0 <= secs <= latest_utc_secs(),
    ensures
        m == utc_month_of(secs as int),
        1 <= m <= 12,
{
    chrono::DateTime::from_timestamp(secs, 0).unwrap().month()
}

/// The UTC year and month of an instant read from the clock.
pub fn utc_date(t: Timestamp) -> (r: (i32, u32))
    requires
        0 <= t.secs <= latest_utc_secs(),
    ensures
        r.0 == utc_year_of(t.secs as int),
        r.1 == utc_month_of(t.secs as int),
        1 <= r.1 <= 12,
{
    (utc_year(t.secs), utc_month(t.secs))
}

/// Today's UTC year and month, read from the clock; `None` where the clock cannot be read.
pub fn utc_today() -> (r: Option<(i32, u32)>)
    ensures
        is_clock_date(date_reading(r)),
{
    match utc_now() {
        Some(t) => {
            let d = utc_date(t);
            assert(0 <= t.secs as int <= latest_utc_secs() && d.0 == utc_year_of(t.secs as int)
                && d.1 == utc_month_of(t.secs as int));
            Some(d)
        },
        None => None,
    }
}

/// The whole seconds from `earlier` to `later` as `chrono` counts them:
/// `(later - earlier).num_seconds()`, leap seconds (a sub-second part of one second or more)
/// included. Whole days and seconds of the day are compared, a leap second counting once,
/// and the count is rounded towards zero.
pub open spec fn chrono_whole_seconds(later: Timestamp, earlier: Timestamp) -> int {
    let sl = later.secs % 86400;
    let se = earlier.secs % 86400;
    let adjust = if sl > se && earlier.nanos >= 1_000_000_000 {
        1int
    } else if sl < se && later.nanos >= 1_000_000_000 {
        -1int
    } else {
        0int
    };
    let frac = later.nanos - earlier.nanos;
    let secs = later.secs - earlier.secs + adjust + frac / 1_000_000_000;
    let nanos = frac % 1_000_000_000;
    if secs < 0 && nanos > 0 {
        secs + 1
    } else {
        secs
    }
}

/// `chrono`'s `DateTime` subtraction followed by `TimeDelta::num_seconds`.
#[verifier::external_body]
pub(crate) fn whole_seconds_between(later: Timestamp, earlier: Timestamp) -> (s: i64)
    requires
        later.representable(),
        earlier.representable(),
    ensures
        s == chrono_whole_seconds(later, earlier),
{
    let l = chrono::DateTime::from_timestamp(later.secs, later.nanos).unwrap();
    let e = chrono::DateTime::from_timestamp(earlier.secs, earlier.nanos).unwrap();
    (l - e).num_seconds()
}

} // verus!
