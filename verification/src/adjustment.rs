//! The scrollable viewport's vertical adjustment: a scroll range and the
//! current position inside it.

use vstd::prelude::*;

verus! {

/// Mathematical clamp of `x` to the closed interval `[lo, hi]`.
pub open spec fn clamped(x: int, lo: int, hi: int) -> int
    recommends
        lo <= hi,
{
    if x < lo {
        lo
    } else if x > hi {
        hi
    } else {
        x
    }
}

/// The viewport's vertical adjustment: the scrollable range `[lower, upper]`
/// and the current scroll position within it.
#[derive(Clone, Copy, PartialEq, Eq, Debug)]
pub struct Adjustment {
    pub lower: i64,
    pub upper: i64,
    pub value: i64,
}

impl Adjustment {
    /// The range is ordered and the current position lies inside it.
    pub open spec fn wf(self) -> bool {
        self.lower <= self.value <= self.upper
    }

    pub fn new(lower: i64, upper: i64, value: i64) -> (a: Adjustment)
        requires
            lower <= value <= upper,
        ensures
            a == (Adjustment { lower, upper, value }),
            a.wf(),
    {
        Adjustment { lower, upper, value }
    }

    /// Move the scroll position to `v`; a request outside the range lands on
    /// the nearer bound, as the toolkit's adjustment clamps it.
    pub fn set_value(&mut self, v: i64)
        requires
            old(self).wf(),
        ensures
            final(self).wf(),
            final(self).lower == old(self).lower,
            final(self).upper == old(self).upper,
            final(self).value as int == clamped(v as int, old(self).lower as int, old(self).upper as int),
    {
        if v < self.lower {
            let lo = self.lower;
            self.value = lo;
        } else if v > self.upper {
            let hi = self.upper;
            self.value = hi;
        } else {
            self.value = v;
        }
    }
}

} // verus!
