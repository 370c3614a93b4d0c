//! The clock's three hands, the angles they point at, and the local time.
use vstd::prelude::*;
use crate::dial::{TURN, DialPose, rotated};
use chrono::Timelike;

verus! {

/// Units per second of wall time on the dial (`TURN / 60`): one second of the
/// second hand, one minute of the minute hand.
pub const UNITS_PER_SIXTIETH: u64 = 3_600_000_000;

/// Units per hour mark (`TURN / 12`).
pub const UNITS_PER_HOUR_MARK: u64 = 18_000_000_000;

/// Home distance of the hour hand from the pivot, in micro-units (1.5).
pub const HOUR_HOME: u64 = 1_500_000;

/// Home distance of the minute hand from the pivot, in micro-units (2.75).
pub const MINUTE_HOME: u64 = 2_750_000;

/// Home distance of the second hand from the pivot, in micro-units (4.0).
pub const SECOND_HOME: u64 = 4_000_000;

/// A local time of day, as read from the wall clock.
#[derive(Clone, Copy, Debug, PartialEq, Eq)]
pub struct TimeOfDay {
    pub hour: u32,
    pub minute: u32,
    pub second: u32,
}

impl TimeOfDay {
    /// Hour in 0..=23, minute and second in 0..=59.
    pub open spec fn wf(&self) -> bool {
        self.hour < 24 && self.minute < 60 && self.second < 60
    }
}

/// One hand of the clock.
#[derive(Clone, Copy, Debug, PartialEq, Eq)]
pub enum Hand {
    Hour,
    Minute,
    Second,
}

/// The distance from the pivot at which a hand rests.
pub open spec fn home_radius(h: Hand) -> u64 {
    match h {
        Hand::Hour => HOUR_HOME,
        Hand::Minute => MINUTE_HOME,
        Hand::Second => SECOND_HOME,
    }
}

/// The angle a hand shows at time `t`: seconds and minutes in sixtieths of a
/// turn, the hour (taken mod 12, without the minutes) in twelfths.
pub open spec fn time_angle(h: Hand, t: TimeOfDay) -> int {
    match h {
        Hand::Hour => (t.hour % 12) as int * TURN as int / 12,
        Hand::Minute => t.minute as int * TURN as int / 60,
        Hand::Second => t.second as int * TURN as int / 60,
    }
}

/// How many units a hand sweeps per microsecond: a turn per minute, per hour,
/// and per sixty hours.
pub open spec fn sweep_rate(h: Hand) -> int {
    match h {
        Hand::Hour => 1,
        Hand::Minute => 60,
        Hand::Second => 3600,
    }
}

/// The angle a hand sweeps in `dt` microseconds, before wrapping.
pub open spec fn sweep_angle(h: Hand, dt: int) -> int {
    sweep_rate(h) * dt
}

impl Hand {
    /// The distance from the pivot at which the hand rests.
    pub fn home_radius(&self) -> (r: u64)
        ensures
            r == home_radius(*self),
    {
        match self {
            Hand::Hour => HOUR_HOME,
            Hand::Minute => MINUTE_HOME,
            Hand::Second => SECOND_HOME,
        }
    }

    /// The hand's pose at time `t`: its home pose turned by the time's angle.
    pub fn pose_at(&self, t: TimeOfDay) -> (r: DialPose)
        requires
            t.wf(),
        ensures
            r.radius == home_radius(*self),
            r.angle == time_angle(*self, t),
            r.wf(),
    {
        let angle: u64 = match self {
            Hand::Hour => (t.hour % 12) as u64 * UNITS_PER_HOUR_MARK,
            Hand::Minute => t.minute as u64 * UNITS_PER_SIXTIETH,
            Hand::Second => t.second as u64 * UNITS_PER_SIXTIETH,
        };
        DialPose::home(self.home_radius()).rotate_around(angle)
    }

    /// The hand's pose after sweeping for `dt` microseconds from `p`.
    pub fn swept(&self, p: DialPose, dt: u64) -> (r: DialPose)
        requires
            p.wf(),
        ensures
            r.radius == p.radius,
            r.angle == rotated(p.angle as int, sweep_angle(*self, dt as int)),
            r.wf(),
    {
        let d = dt % TURN;
        let delta: u64 = match self {
            Hand::Hour => d,
            Hand::Minute => d * 60,
            Hand::Second => d * 3600,
        };
        let r = p.rotate_around(delta);
        proof {
            let a = p.angle as int;
            let n = TURN as int;
            let k = sweep_rate(*self);
            vstd::arithmetic::div_mod::lemma_mul_mod_noop_right(k, dt as int, n);
            vstd::arithmetic::div_mod::lemma_add_mod_noop(a, k * (dt as int), n);
            vstd::arithmetic::div_mod::lemma_add_mod_noop(a, k * (d as int), n);
        }
        r
    }
}

/// Relies on `chrono::Local::now` for the current local date and time, and on
/// chrono's `Timelike::{hour, minute, second}`, documented to return 0 to 23
/// and 0 to 59 (a leap second still reads 59).
#[verifier::external_body]
pub(crate) fn local_time_of_day() -> (r: TimeOfDay)
    ensures
        r.wf(),
{
    let now = chrono::Local::now().time();
    TimeOfDay { hour: now.hour(), minute: now.minute(), second: now.second() }
}

} // verus!
