use vstd::prelude::*;

verus! {

/// `x` limited to the closed range `[lo, hi]`.
pub open spec fn clamp(x: int, lo: int, hi: int) -> int {
    if x < lo {
        lo
    } else if x > hi {
        hi
    } else {
        x
    }
}

/// A numeric panel extent (a width or a height) kept within fixed bounds.
pub struct Dimension {
    value: u32,
    min: u32,
    max: u32,
}

impl Dimension {
    pub closed spec fn value_spec(&self) -> int {
        self.value as int
    }

    pub closed spec fn min_spec(&self) -> int {
        self.min as int
    }

    pub closed spec fn max_spec(&self) -> int {
        self.max as int
    }

    /// The current value lies within the bounds.
    pub open spec fn wf(&self) -> bool {
        self.min_spec() <= self.value_spec() <= self.max_spec()
    }

    /// A dimension whose starting value is `initial`, clamped into `[min, max]`.
    pub fn new(initial: i64, min: u32, max: u32) -> (r: Self)
        requires
            min <= max,
        ensures
            r.wf(),
            r.min_spec() == min,
            r.max_spec() == max,
            r.value_spec() == clamp(initial as int, min as int, max as int),
    {
        let value: u32 = if initial < min as i64 {
            min
        } else if initial > max as i64 {
            max
        } else {
            initial as u32
        };
        Dimension { value, min, max }
    }

    pub fn value(&self) -> (r: u32)
        ensures
            r == self.value_spec(),
    {
        self.value
    }

    pub fn min(&self) -> (r: u32)
        ensures
            r == self.min_spec(),
    {
        self.min
    }

    pub fn max(&self) -> (r: u32)
        ensures
            r == self.max_spec(),
    {
        self.max
    }

    /// Moves the value by `delta` (or by `-delta` when `grows_with_positive`
    /// is false), clamped into the bounds, and returns the new value.
    /// Out-of-range moves are never rejected.
    pub fn apply_delta(&mut self, delta: i64, grows_with_positive: bool) -> (r: u32)
        requires
            old(self).wf(),
        ensures
            final(self).wf(),
            final(self).min_spec() == old(self).min_spec(),
            final(self).max_spec() == old(self).max_spec(),
            r == final(self).value_spec(),
            r == clamp(
                old(self).value_spec() + signed_delta(delta as int, grows_with_positive),
                old(self).min_spec(),
                old(self).max_spec(),
            ),
            old(self).min_spec() <= r <= old(self).max_spec(),
            old(self).min_spec() <= old(self).value_spec() + signed_delta(
                delta as int,
                grows_with_positive,
            ) <= old(self).max_spec() ==> r == old(self).value_spec() + signed_delta(
                delta as int,
                grows_with_positive,
            ),
    {
        let moved: i128 = if grows_with_positive {
            self.value as i128 + delta as i128
        } else {
            self.value as i128 - delta as i128
        };
        let value: u32 = if moved < self.min as i128 {
            self.min
        } else if moved > self.max as i128 {
            self.max
        } else {
            moved as u32
        };
        self.value = value;
        value
    }
}

/// The change that a drag of `delta` makes to a dimension that grows with a
/// positive delta, or with a negative one.
pub open spec fn signed_delta(delta: int, grows_with_positive: bool) -> int {
    if grows_with_positive {
        delta
    } else {
        -delta
    }
}

} // verus!
