//! The smooth-scroll controller: routes scroll events on the widget, turning
//! wheel ticks into spring-animation targets and letting every other scroll
//! input fall through to the default handling.

use vstd::prelude::*;
use crate::adjustment::{clamped, Adjustment};
use crate::animation::SpringAnimation;

verus! {

/// Scroll-position distance of one wheel tick.
pub const SCROLL_STEP: i64 = 250;

/// The unit a scroll event's delta is measured in: discrete wheel clicks,
/// or continuous surface (pixel / touch) deltas.
#[derive(Clone, Copy, PartialEq, Eq, Debug)]
pub enum ScrollUnit {
    Wheel,
    Surface,
}

/// What the event handler tells the toolkit to do with the event next.
#[derive(Clone, Copy, PartialEq, Eq, Debug)]
pub enum Propagation {
    /// Let the default handlers run.
    Proceed,
    /// The event is fully handled; suppress the default handlers.
    Stop,
}

/// The one property the widget declares to the toolkit's property system.
/// An unknown property name never reaches this type: the host side treats it
/// as a programming-contract violation and aborts there.
#[derive(Clone, Copy, PartialEq, Eq, Debug)]
pub enum Property {
    /// The content widget displayed inside the internal viewport.
    Child,
}

/// The scrolled window's state, as the controller sees it: the viewport's
/// adjustment, the spring animation, and the content child slot.
#[derive(Clone, Copy, PartialEq, Eq, Debug)]
pub struct BzScrolledWindow {
    /// The vertical adjustment of the internally managed viewport.
    pub adjustment: Adjustment,
    /// The spring animation driving the adjustment toward its target.
    pub animation: SpringAnimation,
    /// Whether the internal viewport has been put in place.
    pub has_viewport: bool,
    /// Handle of the content widget shown inside the viewport, if any.
    pub child: Option<u64>,
}

impl BzScrolledWindow {
    /// The adjustment is well formed, and while the animation runs its
    /// destination stays inside the viewport's range.
    pub open spec fn wf(self) -> bool {
        &&& self.adjustment.wf()
        &&& self.animation.playing ==> self.adjustment.lower <= self.animation.value_to
            <= self.adjustment.upper
    }

    /// The value a new wheel tick is measured from: the in-flight destination
    /// while the animation runs, else the viewport's present value.
    pub open spec fn scroll_base(self) -> int {
        if self.animation.playing {
            self.animation.value_to as int
        } else {
            self.adjustment.value as int
        }
    }

    /// The destination a wheel tick of `delta` sets: one step per unit of
    /// delta away from the base, clamped to the viewport's range.
    pub open spec fn scroll_target(self, delta: int) -> int {
        clamped(
            self.scroll_base() + delta * SCROLL_STEP,
            self.adjustment.lower as int,
            self.adjustment.upper as int,
        )
    }

    /// The state a wheel tick of `delta` leaves behind: the animation runs
    /// from the viewport's present value toward the tick's target, seeded
    /// with the driver's current `velocity`.
    pub open spec fn wheel_step(self, delta: int, velocity: i64) -> BzScrolledWindow {
        BzScrolledWindow {
            animation: SpringAnimation {
                playing: true,
                value_from: self.adjustment.value,
                value_to: self.scroll_target(delta) as i64,
                initial_velocity: velocity,
            },
            ..self
        }
    }

    /// The widget as constructed: the internal viewport in place with the
    /// given range, the animation idle, no content child yet.
    pub fn new(lower: i64, upper: i64, value: i64) -> (w: BzScrolledWindow)
        requires
            lower <= value <= upper,
        ensures
            w == (BzScrolledWindow {
                adjustment: Adjustment { lower, upper, value },
                animation: SpringAnimation { playing: false, value_from: 0, value_to: 0, initial_velocity: 0 },
                has_viewport: true,
                child: None,
            }),
            w.wf(),
    {
        BzScrolledWindow {
            adjustment: Adjustment::new(lower, upper, value),
            animation: SpringAnimation::new(),
            has_viewport: true,
            child: None,
        }
    }

    /// Handle one scroll event of `delta` units of `unit`, with the
    /// animation driver reporting its current `velocity`.  A wheel tick
    /// launches (or retargets) the animation and suppresses the default
    /// scroll; any other unit leaves the state alone and lets the event
    /// proceed.
    pub fn on_scroll(&mut self, delta: i64, unit: ScrollUnit, velocity: i64) -> (p: Propagation)
        requires
            old(self).wf(),
        ensures
            final(self).wf(),
            unit is Wheel <==> p is Stop,
            unit is Surface ==> *final(self) == *old(self),
            unit is Wheel ==> *final(self) == old(self).wheel_step(delta as int, velocity),
    {
        match unit {
            ScrollUnit::Surface => Propagation::Proceed,
            ScrollUnit::Wheel => {
                let lower = self.adjustment.lower;
                let upper = self.adjustment.upper;
                let base: i64 = if self.animation.playing {
                    self.animation.value_to
                } else {
                    self.adjustment.value
                };
                let raw: i128 = base as i128 + delta as i128 * SCROLL_STEP as i128;
                let value_to: i64 = if raw < lower as i128 {
                    lower
                } else if raw > upper as i128 {
                    upper
                } else {
                    raw as i64
                };
                self.animation.value_from = self.adjustment.value;
                self.animation.value_to = value_to;
                self.animation.initial_velocity = velocity;
                self.animation.playing = true;
                Propagation::Stop
            },
        }
    }

    /// The animation driver's per-frame callback: write the interpolated
    /// value into the viewport.  Nothing else changes.
    pub fn on_animation_step(&mut self, v: i64)
        requires
            old(self).wf(),
        ensures
            final(self).wf(),
            final(self).adjustment.lower == old(self).adjustment.lower,
            final(self).adjustment.upper == old(self).adjustment.upper,
            final(self).adjustment.value as int == clamped(
                v as int,
                old(self).adjustment.lower as int,
                old(self).adjustment.upper as int,
            ),
            final(self).animation == old(self).animation,
            final(self).has_viewport == old(self).has_viewport,
            final(self).child == old(self).child,
    {
        self.adjustment.set_value(v);
    }

    /// A child-initiated scroll (focus moving into a child and pulling it
    /// into view): drop the in-flight animation target, then report the
    /// event as handled so the default scroll may do the actual adjustment.
    pub fn on_scroll_child(&mut self) -> (handled: bool)
        requires
            old(self).wf(),
        ensures
            final(self).wf(),
            handled,
            *final(self) == (BzScrolledWindow {
                animation: SpringAnimation { playing: false, ..old(self).animation },
                ..*old(self)
            }),
            final(self).scroll_base() == old(self).adjustment.value,
    {
        self.animation.reset();
        true
    }

    /// Read a declared property.
    pub fn property(&self, p: Property) -> (r: Option<u64>)
        ensures
            p is Child ==> r == self.child,
    {
        match p {
            Property::Child => self.child,
        }
    }

    /// Write a declared property.  Setting the child re-parents `widget`
    /// into the internal viewport; while no viewport exists the request is
    /// silently dropped, as the widget's documented behaviour has it.
    pub fn set_property(&mut self, p: Property, widget: u64)
        ensures
            p is Child && old(self).has_viewport ==> *final(self) == (BzScrolledWindow {
                child: Some(widget),
                ..*old(self)
            }),
            p is Child && !old(self).has_viewport ==> *final(self) == *old(self),
    {
        match p {
            Property::Child => {
                if self.has_viewport {
                    self.child = Some(widget);
                }
            },
        }
    }
}

/// A wheel tick whose undamped destination already lies inside the
/// viewport's range lands exactly there: on `base + delta * SCROLL_STEP`,
/// where the base is the running animation's destination if there is one,
/// else the viewport's present value.
pub proof fn lemma_in_range_target_is_exact(w: BzScrolledWindow, delta: int)
    requires
        w.wf(),
        w.adjustment.lower <= w.scroll_base() + delta * SCROLL_STEP <= w.adjustment.upper,
    ensures
        w.scroll_target(delta) == w.scroll_base() + delta * SCROLL_STEP,
{
}

/// A wheel tick that would drive the destination past a bound of the
/// viewport's range lands exactly on that bound: no overshoot in either
/// direction.
pub proof fn lemma_out_of_range_target_is_bound(w: BzScrolledWindow, delta: int)
    requires
        w.wf(),
    ensures
        w.scroll_base() + delta * SCROLL_STEP < w.adjustment.lower ==> w.scroll_target(delta)
            == w.adjustment.lower,
        w.scroll_base() + delta * SCROLL_STEP > w.adjustment.upper ==> w.scroll_target(delta)
            == w.adjustment.upper,
{
}

/// A wheel tick leaves the stored destination inside the viewport's range:
/// the state stays well formed, whatever the delta.
pub proof fn lemma_wheel_step_wf(w: BzScrolledWindow, delta: int, velocity: i64)
    requires
        w.wf(),
    ensures
        w.wheel_step(delta, velocity).wf(),
{
}

/// Rapid successive wheel ticks accumulate: after a first tick, the next
/// tick is measured from that tick's destination, not from the viewport's
/// still-moving live value, so the second destination is the first one
/// moved by the second delta and clamped to the unchanged range.
pub proof fn lemma_wheel_ticks_accumulate(w: BzScrolledWindow, d1: int, v1: i64, d2: int)
    requires
        w.wf(),
    ensures
        w.wheel_step(d1, v1).scroll_base() == w.scroll_target(d1),
        w.wheel_step(d1, v1).scroll_target(d2) == clamped(
            w.scroll_target(d1) + d2 * SCROLL_STEP,
            w.adjustment.lower as int,
            w.adjustment.upper as int,
        ),
{
}

} // verus!
