//! Points in time and calendar days, as plain numbers.
//!
//! A [`Moment`] is an instant, counted in seconds and nanoseconds since
//! 1970-01-01 00:00:00 UTC. A [`Day`] is a day of the local calendar,
//! counted in the proleptic Gregorian calendar with January 1 of year 1
//! as day 1.

use chrono::Datelike;
use vstd::prelude::*;

verus! {

pub const SECS_PER_HOUR: i64 = 3600;

pub const SECS_PER_DAY: i64 = 86400;

pub const SECS_PER_WEEK: i64 = 604800;

pub const NANOS_PER_SEC: u32 = 1_000_000_000;

/// The first day that chrono's dates can hold (January 1, 262144 BCE).
pub const MIN_DAY: i32 = -95_746_129;

/// The last day that chrono's dates can hold (December 31, 262142 CE).
pub const MAX_DAY: i32 = 95_745_399;

/// An instant: seconds and nanoseconds since 1970-01-01 00:00:00 UTC.
#[derive(Clone, Copy, Debug, PartialEq, Eq)]
pub struct Moment {
    pub secs: i64,
    pub nanos: u32,
}

impl Moment {
    /// The nanosecond part is below one second.
    pub open spec fn normalized(self) -> bool {
        self.nanos < NANOS_PER_SEC
    }

    /// Normalized, and a week can be added or taken away without leaving
    /// the range of the seconds counter.
    pub open spec fn shiftable(self) -> bool {
        &&& self.normalized()
        &&& i64::MIN + SECS_PER_WEEK <= self.secs <= i64::MAX - SECS_PER_WEEK
    }

    /// Nanoseconds since 1970-01-01 00:00:00 UTC.
    pub open spec fn total_nanos(self) -> int {
        self.secs as int * NANOS_PER_SEC as int + self.nanos as int
    }

    pub open spec fn spec_shifted(self, secs: int) -> Moment {
        Moment { secs: (self.secs + secs) as i64, nanos: self.nanos }
    }

    /// The moment `secs` seconds later (earlier, where `secs` is negative).
    pub fn shifted(self, secs: i64) -> (r: Moment)
        requires
            self.shiftable(),
            -SECS_PER_WEEK <= secs <= SECS_PER_WEEK,
        ensures
            r == self.spec_shifted(secs as int),
            r.normalized(),
            r.total_nanos() == self.total_nanos() + secs * NANOS_PER_SEC,
    {
        Moment { secs: self.secs + secs, nanos: self.nanos }
    }

    /// Whether `self` comes strictly before `other`.
    pub fn is_before(self, other: Moment) -> (b: bool)
        requires
            self.normalized(),
            other.normalized(),
        ensures
            b == (self.total_nanos() < other.total_nanos()),
    {
        self.secs < other.secs || (self.secs == other.secs && self.nanos < other.nanos)
    }

    /// Nanoseconds from `earlier` to `self` (negative where `earlier` comes later).
    pub fn nanos_since(self, earlier: Moment) -> (d: i128)
        ensures
            d == self.total_nanos() - earlier.total_nanos(),
    {
        let secs: i128 = self.secs as i128 - earlier.secs as i128;
        let nanos: i128 = self.nanos as i128 - earlier.nanos as i128;
        assert(-18446744073709551616 <= secs <= 18446744073709551616);
        assert(secs * 1_000_000_000 <= 18446744073709551616 * 1_000_000_000) by (nonlinear_arith)
            requires
                secs <= 18446744073709551616,
        ;
        assert(secs * 1_000_000_000 >= -18446744073709551616 * 1_000_000_000) by (nonlinear_arith)
            requires
                secs >= -18446744073709551616,
        ;
        secs * 1_000_000_000 + nanos
    }
}

/// A day of the local calendar: its number counted from January 1 of year 1
/// (day 1) in the proleptic Gregorian calendar.
#[derive(Clone, Copy, Debug, PartialEq, Eq)]
pub struct Day {
    pub days_from_ce: i32,
}

impl Day {
    /// A day that chrono's dates can hold.
    pub open spec fn in_range(self) -> bool {
        MIN_DAY <= self.days_from_ce <= MAX_DAY
    }

    /// The day's weekday counted from Sunday (1) to Saturday (7).
    /// January 1 of year 1 was a Monday.
    pub open spec fn spec_weekday_from_sunday(self) -> int {
        self.days_from_ce as int % 7 + 1
    }

    /// The day's weekday counted from Sunday (1) to Saturday (7).
    pub fn weekday_from_sunday(self) -> (n: u32)
        ensures
            n == self.spec_weekday_from_sunday(),
            1 <= n <= 7,
    {
        let shifted: i64 = self.days_from_ce as i64 + 3_003_000_000;
        let r: i64 = shifted % 7;
        assert(r == self.days_from_ce as int % 7) by (nonlinear_arith)
            requires
                shifted == self.days_from_ce as int + 3_003_000_000,
                shifted >= 0,
                r == shifted % 7,
        ;
        (r + 1) as u32
    }

    pub open spec fn spec_plus_days(self, n: int) -> Day {
        Day { days_from_ce: (self.days_from_ce + n) as i32 }
    }

    /// The day `n` days later (earlier, where `n` is negative).
    pub fn plus_days(self, n: i32) -> (r: Day)
        requires
            self.in_range(),
            -14 <= n <= 14,
        ensures
            r == self.spec_plus_days(n as int),
            r.days_from_ce == self.days_from_ce + n,
    {
        Day { days_from_ce: self.days_from_ce + n }
    }
}


/// The day that chrono's `with_day` gives for the date numbered
/// `days_from_ce` with its day of month set to `day_of_month`, if that date
/// exists.
pub uninterp spec fn day_with_day_of_month(days_from_ce: i32, day_of_month: u32) -> Option<i32>;

/// The day that chronoutil's `shift_months` gives for the date numbered
/// `days_from_ce` moved by `months` months.
pub uninterp spec fn day_shifted_by_months(days_from_ce: i32, months: i32) -> i32;

/// Calls chrono's `Datelike::with_day` on the date of `day`. The contract
/// names the result, and adds what the method's documentation gives: a
/// date of the same month, so no more than 30 days away and with the same
/// first day of the month, and one that chrono can hold.
#[verifier::external_body]
pub(crate) fn with_day_of_month(day: Day, day_of_month: u32) -> (r: Option<Day>)
    requires
        day.in_range(),
    ensures
        r == match day_with_day_of_month(day.days_from_ce, day_of_month) {
            Some(d) => Some(Day { days_from_ce: d }),
            None => None,
        },
        r matches Some(d) ==> d.in_range() && day.days_from_ce - 30 <= d.days_from_ce
            <= day.days_from_ce + 30,
        r matches Some(d) ==> day_with_day_of_month(d.days_from_ce, 1) == day_with_day_of_month(
            day.days_from_ce,
            1,
        ),
{
    chrono::NaiveDate::from_num_days_from_ce_opt(day.days_from_ce).unwrap().with_day(
        day_of_month,
    ).map(|d| Day { days_from_ce: d.num_days_from_ce() })
}

/// Calls chronoutil's `delta::shift_months` on the date of `day`, which
/// panics only where the shifted month leaves chrono's range of years: the
/// requirement keeps `day` out of the first and the last month of that
/// range. The contract names the result and adds that it is a date chrono
/// can hold, and, shifted a month forward, a date of the next month: later
/// than every day of the month of `day` (the days with the same first day of
/// the month).
#[verifier::external_body]
pub(crate) fn shift_months(day: Day, months: i32) -> (r: Day)
    requires
        MIN_DAY + 31 <= day.days_from_ce <= MAX_DAY - 31,
        -1 <= months <= 1,
    ensures
        r.days_from_ce == day_shifted_by_months(day.days_from_ce, months),
        r.in_range(),
        months == 1 ==> forall|e: i32|
            MIN_DAY <= e <= MAX_DAY && #[trigger] day_with_day_of_month(e, 1)
                == day_with_day_of_month(day.days_from_ce, 1) ==> e < r.days_from_ce,
{
    Day {
        days_from_ce: chronoutil::delta::shift_months(
            chrono::NaiveDate::from_num_days_from_ce_opt(day.days_from_ce).unwrap(),
            months,
        ).num_days_from_ce(),
    }
}

} // verus!
