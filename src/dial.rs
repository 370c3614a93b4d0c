//! Angles about the clock's vertical axis and poses of items placed on the dial.
use vstd::prelude::*;

verus! {

/// The number of angle units in one full turn. One unit is the angle that
/// the hour hand sweeps in one microsecond (a turn takes 216 000 s), so
/// every sweep rate of the clock is a whole number of units per microsecond.
pub const TURN: u64 = 216_000_000_000;

/// Adds `delta` units to the angle `a`, wrapping around at a full turn.
pub open spec fn rotated(a: int, delta: int) -> int {
    (a + delta) % (TURN as int)
}

/// A placement on the dial: an item sitting `radius` micro-units from the
/// pivot, at its home direction turned by `angle` units about the vertical
/// axis. The item's own orientation turns with it.
#[derive(Clone, Copy, Debug, PartialEq, Eq)]
pub struct DialPose {
    pub radius: u64,
    pub angle: u64,
}

impl DialPose {
    /// The angle is reduced: strictly less than a full turn.
    pub open spec fn wf(&self) -> bool {
        self.angle < TURN
    }

    /// The home pose at distance `radius`, not turned at all.
    pub fn home(radius: u64) -> (r: DialPose)
        ensures
            r.radius == radius,
            r.angle == 0,
            r.wf(),
    {
        DialPose { radius, angle: 0 }
    }

    /// Turns the pose by `delta` units about the pivot; the radius is kept.
    pub fn rotate_around(&self, delta: u64) -> (r: DialPose)
        requires
            self.wf(),
        ensures
            r.radius == self.radius,
            r.angle == rotated(self.angle as int, delta as int),
            r.wf(),
    {
        let d = delta % TURN;
        let a = (self.angle + d) % TURN;
        assert(rotated(self.angle as int, delta as int) == a) by {
            vstd::arithmetic::div_mod::lemma_add_mod_noop(self.angle as int, delta as int, TURN as int);
            vstd::arithmetic::div_mod::lemma_mod_twice(self.angle as int, TURN as int);
            vstd::arithmetic::div_mod::lemma_small_mod(self.angle as nat, TURN as nat);
        };
        DialPose { radius: self.radius, angle: a }
    }
}

} // verus!
