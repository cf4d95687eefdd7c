//! The 4-component vector type: the homogeneous-coordinate companion of
//! the 3-component type, used as its extension and truncation target.

use vstd::prelude::*;
use crate::scalar::EPSILON;
use crate::scalar::POS_ZERO;
use crate::scalar::lt_bits;
use crate::scalar::abs_bits;
use crate::scalar::div_bits;
use crate::scalar::eq_bits;
use crate::scalar::lt_b;
use crate::scalar::abs_b;
use crate::scalar::eq_b;
use crate::scalar::div_f;
use crate::vec3::Vec3;
use crate::vec3::spec_zero3;

verus! {

/// A 4-component vector; each field holds an IEEE-754 binary32 bit
/// pattern. The `w` component is the homogeneous coordinate that
/// distinguishes points (w = 1) from directions (w = 0).
#[derive(Clone, Copy, Debug)]
pub struct Vec4 {
    pub x: u32,
    pub y: u32,
    pub z: u32,
    pub w: u32,
}

/// Whether the homogeneous divisor is within the general tolerance of
/// zero, in which case perspective truncation degenerates to the zero
/// vector.
pub open spec fn spec_w_degenerate(v: Vec4) -> bool {
    lt_bits(abs_bits(v.w), EPSILON)
}

/// Perspective truncation: each spatial component divided by `w`, or the
/// zero vector when `w` is within the tolerance of zero.
pub open spec fn spec_truncate_with_perspective(v: Vec4) -> Vec3 {
    if spec_w_degenerate(v) {
        spec_zero3()
    } else {
        (Vec3 { x: div_bits(v.x, v.w), y: div_bits(v.y, v.w), z: div_bits(v.z, v.w) })
    }
}

/// IEEE-754 equality of all four component pairs.
pub open spec fn spec_eq4(a: Vec4, b: Vec4) -> bool {
    eq_bits(a.x, b.x) && eq_bits(a.y, b.y) && eq_bits(a.z, b.z) && eq_bits(a.w, b.w)
}

impl Vec4 {
    /// Creates a vector from the four component bit patterns.
    pub fn new(x: u32, y: u32, z: u32, w: u32) -> (r: Vec4)
        ensures
            r == (Vec4 { x, y, z, w }),
    {
        Vec4 { x, y, z, w }
    }

    /// Truncates to a 3-component vector by dropping the `w` component.
    pub fn truncate(self) -> (r: Vec3)
        ensures
            r == (Vec3 { x: self.x, y: self.y, z: self.z }),
    {
        Vec3 { x: self.x, y: self.y, z: self.z }
    }

    /// Truncates to a 3-component vector by perspective division: each
    /// spatial component is divided by `w`, unless `w` is within the
    /// general tolerance of zero, in which case the zero vector is
    /// returned rather than failing.
    pub fn truncate_with_perspective(self) -> (r: Vec3)
        ensures
            r == spec_truncate_with_perspective(self),
            spec_w_degenerate(self) ==> r == spec_zero3(),
    {
        if lt_b(abs_b(self.w), EPSILON) {
            Vec3 { x: POS_ZERO, y: POS_ZERO, z: POS_ZERO }
        } else {
            Vec3 {
                x: div_f(self.x, self.w),
                y: div_f(self.y, self.w),
                z: div_f(self.z, self.w),
            }
        }
    }
}

impl PartialEq for Vec4 {
    /// IEEE-754 component-wise equality: a vector with a NaN component
    /// compares unequal to every vector, itself included; negative and
    /// positive zero components compare equal.
    fn eq(&self, other: &Vec4) -> (r: bool) {
        eq_b(self.x, other.x) && eq_b(self.y, other.y) && eq_b(self.z, other.z) && eq_b(
            self.w,
            other.w,
        )
    }
}

impl vstd::std_specs::cmp::PartialEqSpecImpl for Vec4 {
    open spec fn obeys_eq_spec() -> bool {
        true
    }

    open spec fn eq_spec(&self, other: &Vec4) -> bool {
        spec_eq4(*self, *other)
    }
}

} // verus!
