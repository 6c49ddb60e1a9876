//! Vectors of three scalars, and rays.

use vstd::prelude::*;
use vstd::std_specs::cmp::PartialEqSpecImpl;
use crate::scalar::{Scalar, ONE_BITS};

verus! {

/// A point, a direction or a color: three scalars.
#[derive(Clone, Copy, Debug)]
pub struct Vec3 {
    pub x: Scalar,
    pub y: Scalar,
    pub z: Scalar,
}

impl Vec3 {
    /// Some component is a NaN.
    pub open spec fn has_nan(self) -> bool {
        self.x.nan() || self.y.nan() || self.z.nan()
    }

    /// Every component is a zero, of either sign.
    pub open spec fn all_zero(self) -> bool {
        self.x.zero() && self.y.zero() && self.z.zero()
    }

    /// No direction at all: a NaN among the components, or no length.
    pub open spec fn degenerate(self) -> bool {
        self.has_nan() || self.all_zero()
    }

    /// The vector with each component's sign turned.
    pub open spec fn negated(self) -> Vec3 {
        Vec3 { x: self.x.negated(), y: self.y.negated(), z: self.z.negated() }
    }

    /// Equal as IEEE-754 has it, component by component.
    pub open spec fn same(self, other: Vec3) -> bool {
        self.x.same(other.x) && self.y.same(other.y) && self.z.same(other.z)
    }

    pub fn new(x: Scalar, y: Scalar, z: Scalar) -> (v: Vec3)
        ensures
            v == (Vec3 { x, y, z }),
    {
        Vec3 { x, y, z }
    }

    /// The vector of three positive zeros.
    pub open spec fn zeros_spec() -> Vec3 {
        Vec3 { x: Scalar { bits: 0 }, y: Scalar { bits: 0 }, z: Scalar { bits: 0 } }
    }

    /// The vector of three positive zeros.
    pub fn zeros() -> (v: Vec3)
        ensures
            v == Vec3::zeros_spec(),
    {
        Vec3 { x: Scalar { bits: 0 }, y: Scalar { bits: 0 }, z: Scalar { bits: 0 } }
    }

    /// The opposite vector: exact, whatever the components hold.
    pub fn neg(self) -> (v: Vec3)
        ensures
            v == self.negated(),
            v.x.scaled() == -self.x.scaled(),
            v.y.scaled() == -self.y.scaled(),
            v.z.scaled() == -self.z.scaled(),
            v.has_nan() == self.has_nan(),
    {
        Vec3 { x: self.x.neg(), y: self.y.neg(), z: self.z.neg() }
    }

    pub fn is_degenerate(self) -> (r: bool)
        ensures
            r == self.degenerate(),
    {
        self.x.is_nan() || self.y.is_nan() || self.z.is_nan() || (self.x.is_zero()
            && self.y.is_zero() && self.z.is_zero())
    }
}

impl PartialEq for Vec3 {
    /// Equality of the numbers, component by component.
    fn eq(&self, other: &Vec3) -> (r: bool) {
        self.x.equals(other.x) && self.y.equals(other.y) && self.z.equals(other.z)
    }
}

impl PartialEqSpecImpl for Vec3 {
    open spec fn obeys_eq_spec() -> bool {
        true
    }

    open spec fn eq_spec(&self, other: &Vec3) -> bool {
        self.same(*other)
    }
}

/// The vector whose components are the three items of `color`.
pub fn arry_to_vec3(color: [Scalar; 3]) -> (v: Vec3)
    ensures
        v.x == color[0],
        v.y == color[1],
        v.z == color[2],
{
    Vec3 { x: color[0], y: color[1], z: color[2] }
}

/// Whether a point drawn from the cube around the unit ball is one of the
/// ball: its squared length is below one. A sampler draws until this holds.
pub fn is_in_unit_sphere(length_squared: Scalar) -> (r: bool)
    ensures
        r == length_squared.less(Scalar { bits: ONE_BITS }),
{
    length_squared.below(Scalar::from_bits(ONE_BITS))
}

/// Turns a random vector into the half-space of a normal: the vector itself
/// where `facing`, its dot product with the normal, is above zero, else its
/// opposite.
pub fn random_in_hemisphere(in_unit_sphere: Vec3, facing: Scalar) -> (v: Vec3)
    ensures
        v == (if facing.above_zero() {
            in_unit_sphere
        } else {
            in_unit_sphere.negated()
        }),
{
    if facing.is_above_zero() {
        in_unit_sphere
    } else {
        in_unit_sphere.neg()
    }
}

/// A half-line: the points `origin + t * direction` for `t >= 0`.
#[derive(Clone, Copy, Debug)]
pub struct Ray {
    pub origin: Vec3,
    pub direction: Vec3,
}

impl Ray {
    pub fn new(origin: Vec3, direction: Vec3) -> (r: Ray)
        ensures
            r.origin == origin,
            r.direction == direction,
    {
        Ray { origin, direction }
    }
}

impl Default for Ray {
    /// The ray from `(1.5, 1.5, -4)` along `(0, 0, -1)`.
    fn default() -> (r: Ray)
        ensures
            r.origin.x.bits == 0x3fc0_0000,
            r.origin.y.bits == 0x3fc0_0000,
            r.origin.z.bits == 0xc080_0000,
            r.direction.x.bits == 0,
            r.direction.y.bits == 0,
            r.direction.z.bits == 0xbf80_0000,
    {
        Ray {
            origin: Vec3 {
                x: Scalar { bits: 0x3fc0_0000 },
                y: Scalar { bits: 0x3fc0_0000 },
                z: Scalar { bits: 0xc080_0000 },
            },
            direction: Vec3 {
                x: Scalar { bits: 0 },
                y: Scalar { bits: 0 },
                z: Scalar { bits: 0xbf80_0000 },
            },
        }
    }
}

} // verus!
