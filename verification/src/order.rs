//! The comparison operators on scalars, and clamping by them.

use std::cmp::Ordering;
use vstd::prelude::*;
use vstd::std_specs::cmp::{PartialEqSpec, PartialEqSpecImpl, PartialOrdSpec, PartialOrdSpecImpl};
use crate::scalar::Scalar;

verus! {

impl PartialEq for Scalar {
    /// Equality of the numbers, not of the bits: a NaN equals nothing, not
    /// even itself, and the two zeros are equal.
    fn eq(&self, other: &Scalar) -> (r: bool) {
        self.equals(*other)
    }
}

impl PartialEqSpecImpl for Scalar {
    open spec fn obeys_eq_spec() -> bool {
        true
    }

    open spec fn eq_spec(&self, other: &Scalar) -> bool {
        self.same(*other)
    }
}

impl PartialOrd for Scalar {
    /// The IEEE-754 order: none where either side is a NaN.
    fn partial_cmp(&self, other: &Scalar) -> (r: Option<Ordering>) {
        if self.below(*other) {
            Some(Ordering::Less)
        } else if other.below(*self) {
            Some(Ordering::Greater)
        } else if self.equals(*other) {
            Some(Ordering::Equal)
        } else {
            None
        }
    }
}

impl PartialOrdSpecImpl for Scalar {
    open spec fn obeys_partial_cmp_spec() -> bool {
        true
    }

    open spec fn partial_cmp_spec(&self, other: &Scalar) -> Option<Ordering> {
        if self.less(*other) {
            Some(Ordering::Less)
        } else if other.less(*self) {
            Some(Ordering::Greater)
        } else if self.same(*other) {
            Some(Ordering::Equal)
        } else {
            None
        }
    }
}

/// What `clamp` gives: `min` where `x` is less than `min`, else `max` where
/// `x` is greater than `max`, else `x` itself (so also where `x` compares with
/// neither).
pub open spec fn clamp_spec<T: PartialOrd>(x: T, min: T, max: T) -> T {
    if x.partial_cmp_spec(&min) == Some(Ordering::Less) {
        min
    } else if x.partial_cmp_spec(&max) == Some(Ordering::Greater) {
        max
    } else {
        x
    }
}

/// Holds `x` to the span from `min` to `max`.
pub fn clamp<T: PartialOrd>(x: T, min: T, max: T) -> (r: T)
    ensures
        T::obeys_partial_cmp_spec() ==> r == clamp_spec(x, min, max),
{
    if x < min {
        return min;
    }
    if x > max {
        return max;
    }
    x
}

} // verus!
