//! Small range types shared across the library.

use vstd::prelude::*;

verus! {

/// Half-open range `start..end`.
#[derive(Clone, Copy, PartialEq, Eq, Structural, Debug)]
pub struct RangeExclusive<T> {
    pub start: T,
    pub end: T,
}

impl<T: Copy> RangeExclusive<T> {
    /// Build the range from a standard library range.
    pub fn from_std(range: core::ops::Range<T>) -> (result: Self)
        ensures
            result.start == range.start,
            result.end == range.end,
    {
        RangeExclusive { start: range.start, end: range.end }
    }
}

/// Closed range `min..=max`.
#[derive(Clone, Copy, PartialEq, Eq, Structural, Debug)]
pub struct RangeInclusive<T> {
    pub min: T,
    pub max: T,
}

} // verus!
