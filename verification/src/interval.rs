//! One-dimensional closed ranges of fixed-point scalars.

use vstd::prelude::*;

use crate::fixed::FP_ONE;
use crate::fixed::fp_add;
use crate::fixed::fp_add_spec;
use crate::fixed::fp_div;
use crate::fixed::fp_div_spec;
use crate::fixed::fp_sub;
use crate::fixed::fp_sub_spec;

verus! {

/// A bounded range `[min, max]`. The empty interval is the sentinel with
/// `min` at positive infinity and `max` at negative infinity, so that it is
/// the identity of `from_intervals`.
#[derive(Clone, Copy, Debug, PartialEq, Eq, Structural)]
pub struct Interval {
    pub min: i64,
    pub max: i64,
}

/// The empty interval: the identity of the union.
pub open spec fn interval_empty() -> Interval {
    Interval { min: i64::MAX, max: i64::MIN }
}

/// The interval spanning every representable scalar.
pub open spec fn interval_universe() -> Interval {
    Interval { min: i64::MIN, max: i64::MAX }
}

/// The smallest interval containing both arguments.
pub open spec fn union_spec(a: Interval, b: Interval) -> Interval {
    Interval {
        min: if a.min <= b.min {
            a.min
        } else {
            b.min
        },
        max: if a.max >= b.max {
            a.max
        } else {
            b.max
        },
    }
}

pub open spec fn contains_spec(i: Interval, x: i64) -> bool {
    i.min <= x <= i.max
}

pub open spec fn surrounds_spec(i: Interval, x: i64) -> bool {
    i.min < x < i.max
}

pub open spec fn clamp_spec(i: Interval, x: i64) -> i64 {
    if x < i.min {
        i.min
    } else if x > i.max {
        i.max
    } else {
        x
    }
}

/// The interval narrowed from below by `a` and from above by `b`.
pub open spec fn shrink_spec(i: Interval, a: i64, b: i64) -> Interval {
    Interval {
        min: if a >= i.min {
            a
        } else {
            i.min
        },
        max: if b <= i.max {
            b
        } else {
            i.max
        },
    }
}

/// The interval widened symmetrically by half of `delta` on each side.
pub open spec fn expand_spec(i: Interval, delta: i64) -> Interval {
    let padding = fp_div_spec(delta as int, 2 * FP_ONE as int);
    Interval {
        min: fp_sub_spec(i.min as int, padding) as i64,
        max: fp_add_spec(i.max as int, padding) as i64,
    }
}

impl Interval {
    pub fn new(min: i64, max: i64) -> (r: Interval)
        ensures
            r == (Interval { min, max }),
    {
        Interval { min, max }
    }

    /// The empty interval.
    pub fn empty() -> (r: Interval)
        ensures
            r == interval_empty(),
    {
        Interval { min: i64::MAX, max: i64::MIN }
    }

    /// The interval spanning everything.
    pub fn universe() -> (r: Interval)
        ensures
            r == interval_universe(),
    {
        Interval { min: i64::MIN, max: i64::MAX }
    }

    /// The union of two intervals.
    pub fn from_intervals(a: Interval, b: Interval) -> (r: Interval)
        ensures
            r == union_spec(a, b),
    {
        Interval {
            min: if a.min <= b.min {
                a.min
            } else {
                b.min
            },
            max: if a.max >= b.max {
                a.max
            } else {
                b.max
            },
        }
    }

    /// Inclusive membership.
    pub fn contains(&self, x: i64) -> (r: bool)
        ensures
            r == contains_spec(*self, x),
    {
        self.min <= x && x <= self.max
    }

    /// Strict membership.
    pub fn surrounds(&self, x: i64) -> (r: bool)
        ensures
            r == surrounds_spec(*self, x),
    {
        self.min < x && x < self.max
    }

    /// `x` clamped into the interval.
    pub fn clamp(&self, x: i64) -> (r: i64)
        ensures
            r == clamp_spec(*self, x),
    {
        if x < self.min {
            self.min
        } else if x > self.max {
            self.max
        } else {
            x
        }
    }

    /// The width `max - min` (negative for the empty sentinel, saturated).
    pub fn size(&self) -> (r: i64)
        ensures
            r as int == fp_sub_spec(self.max as int, self.min as int),
    {
        fp_sub(self.max, self.min)
    }

    /// The interval widened symmetrically by half of `delta` on each side.
    pub fn expand(&self, delta: i64) -> (r: Interval)
        ensures
            r == expand_spec(*self, delta),
    {
        let padding = fp_div(delta, 2 * FP_ONE);
        Interval { min: fp_sub(self.min, padding), max: fp_add(self.max, padding) }
    }

    /// Narrow the interval in place from below by `a` and from above by `b`.
    pub fn shrink(&mut self, a: i64, b: i64)
        ensures
            *final(self) == shrink_spec(*old(self), a, b),
    {
        self.min = if a >= self.min {
            a
        } else {
            self.min
        };
        self.max = if b <= self.max {
            b
        } else {
            self.max
        };
    }
}

impl Default for Interval {
    /// The default interval is empty.
    fn default() -> (r: Interval)
        ensures
            r == interval_empty(),
    {
        Interval::empty()
    }
}

/// The union of intervals is commutative.
pub proof fn lemma_union_commutative(a: Interval, b: Interval)
    ensures
        union_spec(a, b) == union_spec(b, a),
{
}

/// The union of intervals is associative.
pub proof fn lemma_union_associative(a: Interval, b: Interval, c: Interval)
    ensures
        union_spec(union_spec(a, b), c) == union_spec(a, union_spec(b, c)),
{
}

/// The empty interval is the identity of the union, on either side.
pub proof fn lemma_union_empty_identity(i: Interval)
    ensures
        union_spec(interval_empty(), i) == i,
        union_spec(i, interval_empty()) == i,
{
}

} // verus!
