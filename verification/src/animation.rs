//! The state of the spring animation that the controller drives: the
//! endpoints it was last launched with, the velocity it was seeded with, and
//! whether it is currently running.  The time-stepped physics itself is the
//! host animation driver's; the controller only sets targets and reads back
//! the running flag.

use vstd::prelude::*;

verus! {

/// The controller-visible state of the spring animation.
#[derive(Clone, Copy, PartialEq, Eq, Debug)]
pub struct SpringAnimation {
    /// Whether the driver is currently stepping the animation.
    pub playing: bool,
    /// The value the current run started from.
    pub value_from: i64,
    /// The destination the current run is heading to.
    pub value_to: i64,
    /// The velocity the current run was seeded with.
    pub initial_velocity: i64,
}

impl SpringAnimation {
    /// A freshly created animation: idle, endpoints at zero.
    pub fn new() -> (a: SpringAnimation)
        ensures
            a == (SpringAnimation { playing: false, value_from: 0, value_to: 0, initial_velocity: 0 }),
    {
        SpringAnimation { playing: false, value_from: 0, value_to: 0, initial_velocity: 0 }
    }

    /// Stop the animation, dropping its in-flight destination's authority
    /// over future scroll targets.  The stored endpoints are left behind as
    /// the driver leaves them; only `playing` decides whether they matter.
    pub fn reset(&mut self)
        ensures
            *final(self) == (SpringAnimation { playing: false, ..*old(self) }),
    {
        self.playing = false;
    }
}

} // verus!
