//! Wall-clock time and signed durations.
//!
//! A [`Time`] is an hour/minute pair used relatively within the 24 hours that
//! start at wake-up, so arithmetic on it wraps around at 24 hours.  A
//! [`Duration`] is a signed count of minutes.

use vstd::math::abs;
use vstd::prelude::*;

verus! {

/// Minutes in a 24-hour day.
pub const MINUTES_PER_DAY: i64 = 1440;

/// A naive wall-clock time.  May be used relatively in the span of 24 hours
/// starting from wake-up, e.g. if wake-up was at 10:00, 8:30 can be later
/// than 10:00.
#[derive(Clone, Copy, Debug, PartialEq, Eq, Structural)]
pub struct Time {
    pub hour: u8,
    pub min: u8,
}

/// A positive or negative span of time, counted in whole minutes.
#[derive(Clone, Copy, Debug, PartialEq, Eq, Structural)]
pub struct Duration {
    pub minutes: i32,
}

impl Time {
    /// Minutes since midnight, as a mathematical integer.
    pub open spec fn spec_minutes(self) -> int {
        self.hour * 60 + self.min
    }

    /// A well-formed time of day: hour in [0, 24), minute in [0, 60).
    pub open spec fn wf(self) -> bool {
        self.hour < 24 && self.min < 60
    }
}

/// The time of day reached `m` minutes after midnight, wrapping at 24 hours
/// in both directions.
pub open spec fn time_of_day(m: int) -> Time {
    let n = m % (MINUTES_PER_DAY as int);
    Time { hour: (n / 60) as u8, min: (n % 60) as u8 }
}

/// A time of day built by wrapping is always well formed.
pub proof fn lemma_time_of_day_wf(m: int)
    ensures
        time_of_day(m).wf(),
        time_of_day(m).spec_minutes() == m % (MINUTES_PER_DAY as int),
{
    let n = m % (MINUTES_PER_DAY as int);
    assert(0 <= n < 1440);
    assert(0 <= n / 60 < 24 && 0 <= n % 60 < 60 && n == (n / 60) * 60 + n % 60)
        by (nonlinear_arith)
        requires 0 <= n < 1440;
}

/// Wrapping a well-formed time's own minute count reproduces it exactly.
pub proof fn lemma_time_of_day_identity(t: Time)
    requires
        t.wf(),
    ensures
        time_of_day(t.spec_minutes()) == t,
{
    let m = t.spec_minutes();
    assert(0 <= m < 1440);
    vstd::arithmetic::div_mod::lemma_small_mod(m as nat, 1440);
    assert(m / 60 == t.hour && m % 60 == t.min) by (nonlinear_arith)
        requires m == t.hour * 60 + t.min && t.hour < 24 && t.min < 60;
}

impl Time {
    /// Builds a time directly from an hour and a minute.
    pub fn hm(hour: u8, min: u8) -> (t: Time)
        ensures
            t == (Time { hour, min }),
    {
        Time { hour, min }
    }

    /// The time `d` minutes after `self`, wrapping around at 24 hours.
    pub fn plus(&self, d: &Duration) -> (t: Time)
        requires
            self.wf(),
        ensures
            t == time_of_day(self.spec_minutes() + d.minutes),
            t.wf(),
    {
        proof {
            lemma_time_of_day_wf(self.spec_minutes() + d.minutes);
        }
        let total: i64 = self.hour as i64 * 60 + self.min as i64 + d.minutes as i64;
        let n: i64 = total.checked_rem_euclid(MINUTES_PER_DAY).unwrap();
        let n16: u16 = n as u16;
        proof {
            assert(n16 / 60 < 24 && n16 % 60 < 60) by (nonlinear_arith)
                requires n16 < 1440;
        }
        Time { hour: (n16 / 60) as u8, min: (n16 % 60) as u8 }
    }

    /// The time `d` minutes before `self`, wrapping around at 24 hours.
    pub fn minus(&self, d: &Duration) -> (t: Time)
        requires
            self.wf(),
        ensures
            t == time_of_day(self.spec_minutes() - d.minutes),
            t.wf(),
    {
        proof {
            lemma_time_of_day_wf(self.spec_minutes() - d.minutes);
        }
        let total: i64 = self.hour as i64 * 60 + self.min as i64 - d.minutes as i64;
        let n: i64 = total.checked_rem_euclid(MINUTES_PER_DAY).unwrap();
        let n16: u16 = n as u16;
        proof {
            assert(n16 / 60 < 24 && n16 % 60 < 60) by (nonlinear_arith)
                requires n16 < 1440;
        }
        Time { hour: (n16 / 60) as u8, min: (n16 % 60) as u8 }
    }

    /// The duration from `earlier` to `self`, assuming the two are less than
    /// 24 hours apart; when `self` lies before `earlier` it is taken to be on
    /// the next day.
    pub fn since(&self, earlier: &Time) -> (d: Duration)
        requires
            self.wf(),
            earlier.wf(),
        ensures
            d.minutes == (self.spec_minutes() - earlier.spec_minutes()) % (MINUTES_PER_DAY as int),
            0 <= d.minutes < 1440,
    {
        let self_min: i32 = self.hour as i32 * 60 + self.min as i32;
        let rhs_min: i32 = earlier.hour as i32 * 60 + earlier.min as i32;
        let diff: i32 = if self_min >= rhs_min {
            self_min - rhs_min
        } else {
            self_min - rhs_min + 1440
        };
        proof {
            if self_min >= rhs_min {
                assert((self.spec_minutes() - earlier.spec_minutes()) % 1440 == diff) by {
                    vstd::arithmetic::div_mod::lemma_small_mod(diff as nat, 1440);
                };
            } else {
                vstd::arithmetic::div_mod::lemma_mod_multiples_vanish(
                    1, self.spec_minutes() - earlier.spec_minutes(), 1440);
                vstd::arithmetic::div_mod::lemma_small_mod(diff as nat, 1440);
            }
        }
        Duration { minutes: diff }
    }

    /// Shifts this time by `d`, wrapping around at 24 hours.
    pub fn adjust(&mut self, d: &Duration)
        requires
            old(self).wf(),
        ensures
            *final(self) == time_of_day(old(self).spec_minutes() + d.minutes),
            final(self).wf(),
    {
        *self = self.plus(d);
    }

    /// The spec-level result of rounding to the nearest quarter hour.
    pub open spec fn spec_round_to_quarter(self) -> Time {
        let q = ((self.min + 7) % 60) / 15;
        if q == 0 {
            Time { hour: if self.min > 45 { (self.hour + 1) as u8 } else { self.hour }, min: 0 }
        } else if q == 1 {
            Time { hour: self.hour, min: 15 }
        } else if q == 2 {
            Time { hour: self.hour, min: 30 }
        } else {
            Time { hour: self.hour, min: 45 }
        }
    }

    /// Rounds to the nearest quarter-hour mark (:00, :15, :30 or :45); a
    /// minute within 7 of the next mark rounds up to it.
    pub fn round_to_quarter(self) -> (t: Time)
        requires
            self.wf(),
        ensures
            t == self.spec_round_to_quarter(),
            t.min == 0 || t.min == 15 || t.min == 30 || t.min == 45,
            t.hour <= self.hour + 1,
    {
        let which_quarter: u8 = ((self.min + 7) % 60) / 15;
        if which_quarter == 0 {
            let hour = if self.min > 45 { self.hour + 1 } else { self.hour };
            Time { hour, min: 0 }
        } else if which_quarter == 1 {
            Time { hour: self.hour, min: 15 }
        } else if which_quarter == 2 {
            Time { hour: self.hour, min: 30 }
        } else {
            Time { hour: self.hour, min: 45 }
        }
    }

    /// The spec-level result of rounding to the nearest half hour.
    pub open spec fn spec_round_to_half(self) -> Time {
        let h = ((self.min + 15) % 60) / 30;
        if h == 0 {
            Time { hour: if self.min > 30 { (self.hour + 1) as u8 } else { self.hour }, min: 0 }
        } else {
            Time { hour: self.hour, min: 30 }
        }
    }

    /// Rounds to the nearest half-hour mark (:00 or :30); a minute within 15
    /// of the next mark rounds up to it.
    pub fn round_to_half(self) -> (t: Time)
        requires
            self.wf(),
        ensures
            t == self.spec_round_to_half(),
            t.min == 0 || t.min == 30,
            t.hour <= self.hour + 1,
    {
        let which_half: u8 = ((self.min + 15) % 60) / 30;
        if which_half == 0 {
            let hour = if self.min > 30 { self.hour + 1 } else { self.hour };
            Time { hour, min: 0 }
        } else {
            Time { hour: self.hour, min: 30 }
        }
    }

    /// Reads a non-negative duration of less than 25 hours as a time of day.
    /// An hour count above 24 is outside the representable range and is
    /// excluded by precondition: a hard limit of the time model.
    pub fn from_duration(d: &Duration) -> (t: Time)
        requires
            0 <= d.minutes,
            d.minutes / 60 <= 24,
        ensures
            t.hour == d.minutes / 60,
            t.min == d.minutes % 60,
    {
        let hour: i32 = d.minutes / 60;
        let min: i32 = d.minutes % 60;
        Time { hour: hour as u8, min: min as u8 }
    }
}

impl Duration {
    /// A duration of a whole number of hours.
    pub fn hours(hours: i8) -> (d: Duration)
        ensures
            d.minutes == hours * 60,
    {
        Duration { minutes: hours as i32 * 60 }
    }

    /// A duration of `hours` hours plus `minutes` minutes.
    pub fn hm(hours: i8, minutes: i8) -> (d: Duration)
        ensures
            d.minutes == hours * 60 + minutes,
    {
        Duration { minutes: hours as i32 * 60 + minutes as i32 }
    }

    /// The minutes of a time of day, as a duration since midnight.
    pub fn from_time(t: &Time) -> (d: Duration)
        requires
            t.wf(),
        ensures
            d.minutes == t.spec_minutes(),
    {
        Duration { minutes: t.hour as i32 * 60 + t.min as i32 }
    }

    /// The sum of two durations.
    pub fn plus(&self, other: &Duration) -> (d: Duration)
        requires
            i32::MIN <= self.minutes + other.minutes <= i32::MAX,
        ensures
            d.minutes == self.minutes + other.minutes,
    {
        Duration { minutes: self.minutes + other.minutes }
    }

    /// The difference of two durations.
    pub fn minus(&self, other: &Duration) -> (d: Duration)
        requires
            i32::MIN <= self.minutes - other.minutes <= i32::MAX,
        ensures
            d.minutes == self.minutes - other.minutes,
    {
        Duration { minutes: self.minutes - other.minutes }
    }
}

/// An unsigned hour/minute distance between two times of day.
pub struct Clock {
    pub hour: u8,
    pub min: u8,
}

impl Clock {
    /// The absolute difference between two times, split into hours and
    /// minutes.
    pub fn difference(start: &Time, end: &Time) -> (c: Clock)
        requires
            start.wf(),
            end.wf(),
        ensures
            c.hour * 60 + c.min == abs(start.spec_minutes() - end.spec_minutes()),
            c.min < 60,
    {
        let start_minutes: i32 = start.hour as i32 * 60 + start.min as i32;
        let end_minutes: i32 = end.hour as i32 * 60 + end.min as i32;
        let diff_minutes: i32 = if start_minutes < end_minutes {
            end_minutes - start_minutes
        } else {
            start_minutes - end_minutes
        };

        let hour: i32 = diff_minutes / 60;
        let min: i32 = diff_minutes - hour * 60;
        proof {
            assert(diff_minutes / 60 < 24 && 0 <= diff_minutes % 60 < 60
                && diff_minutes == (diff_minutes / 60) * 60 + diff_minutes % 60)
                by (nonlinear_arith)
                requires 0 <= diff_minutes < 1440;
        }
        Clock { hour: hour as u8, min: min as u8 }
    }

    /// This distance read as a time of day.
    pub fn to_time(&self) -> (t: Time)
        ensures
            t == (Time { hour: self.hour, min: self.min }),
    {
        Time { hour: self.hour, min: self.min }
    }

    /// This distance as a signed duration.
    pub fn to_duration(&self) -> (d: Duration)
        ensures
            d.minutes == self.hour * 60 + self.min,
    {
        Duration { minutes: self.hour as i32 * 60 + self.min as i32 }
    }
}

} // verus!
