//! Instants and calendar days as plain numbers, in the form `chrono` gives them.

use vstd::prelude::*;

verus! {

/// Seconds in a day.
pub const SECONDS_PER_DAY: i64 = 86400;

/// A UTC instant as `chrono::DateTime<Utc>` holds it: whole seconds since
/// 1970-01-01T00:00:00Z (`timestamp()`) and the nanoseconds into that second
/// (`timestamp_subsec_nanos()`).
#[derive(Clone, Copy, Debug, PartialEq, Eq, Structural)]
pub struct Timestamp {
    pub secs: i64,
    pub nanos: u32,
}

/// A calendar day as `chrono::NaiveDate` numbers it: days since 1970-01-01 (`to_epoch_days()`),
/// within the days that `NaiveDate` can hold.
#[derive(Clone, Copy, Debug, PartialEq, Eq, Structural)]
pub struct CalendarDate {
    epoch_days: i32,
}

/// First day that `chrono::NaiveDate` can hold (-262143-01-01).
pub const MIN_EPOCH_DAY: i32 = -96465292;

/// Last day that `chrono::NaiveDate` can hold (+262142-12-31).
pub const MAX_EPOCH_DAY: i32 = 95026236;

impl CalendarDate {
    #[verifier::type_invariant]
    spec fn representable(self) -> bool {
        MIN_EPOCH_DAY <= self.epoch_days <= MAX_EPOCH_DAY
    }

    /// The day, counted from 1970-01-01.
    pub closed spec fn day(self) -> int {
        self.epoch_days as int
    }

    /// The day `epoch_days` days after 1970-01-01, if `NaiveDate` can hold it.
    pub fn from_epoch_days(epoch_days: i32) -> (d: Option<CalendarDate>)
        ensures
            d is Some <==> MIN_EPOCH_DAY <= epoch_days <= MAX_EPOCH_DAY,
            d matches Some(date) ==> date.day() == epoch_days,
    {
        if MIN_EPOCH_DAY <= epoch_days && epoch_days <= MAX_EPOCH_DAY {
            Some(CalendarDate { epoch_days })
        } else {
            None
        }
    }

    /// The day, counted from 1970-01-01.
    pub fn epoch_days(&self) -> (d: i32)
        ensures
            d == self.day(),
            MIN_EPOCH_DAY <= d <= MAX_EPOCH_DAY,
    {
        proof {
            use_type_invariant(self);
        }
        self.epoch_days
    }
}

impl Timestamp {
    /// Instants are ordered by their seconds, then by their nanoseconds.
    pub open spec fn precedes(self, other: Timestamp) -> bool {
        self.secs < other.secs || (self.secs == other.secs && self.nanos < other.nanos)
    }

    /// The UTC day that contains the instant (`date_naive()`), counted from 1970-01-01.
    pub open spec fn epoch_day(self) -> int {
        (self.secs as int) / (SECONDS_PER_DAY as int)
    }

    /// Makes an instant from its seconds and nanoseconds.
    pub fn new(secs: i64, nanos: u32) -> (t: Timestamp)
        ensures
            t.secs == secs,
            t.nanos == nanos,
    {
        Timestamp { secs, nanos }
    }

    /// Whether `self` comes strictly before `other`.
    pub fn is_before(&self, other: &Timestamp) -> (r: bool)
        ensures
            r == self.precedes(*other),
    {
        self.secs < other.secs || (self.secs == other.secs && self.nanos < other.nanos)
    }

    /// The UTC day of the instant, counted from 1970-01-01.
    pub fn day(&self) -> (d: i64)
        ensures
            d == self.epoch_day(),
    {
        let s = self.secs;
        if s >= 0 {
            let q = s / SECONDS_PER_DAY;
            q
        } else {
            let m: u64 = (-(s + 1)) as u64;
            let q: u64 = m / 86400;
            proof {
                let si = s as int;
                let mi = m as int;
                let qi = q as int;
                assert(mi == -si - 1);
                assert(qi == mi / 86400);
                assert(si / 86400 == -qi - 1) by (nonlinear_arith)
                    requires
                        mi == -si - 1,
                        mi >= 0,
                        qi == mi / 86400,
                ;
            }
            -(q as i64) - 1
        }
    }
}

} // verus!
