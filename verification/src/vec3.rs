//! The 3-component vector type and its operation set.
//!
//! Components are IEEE-754 binary32 values carried as `u32` bit patterns
//! (see the scalar module). Each operation's contract states the result
//! exactly, component by component, over the scalar primitives.

use vstd::prelude::*;
use crate::scalar::EPSILON;
use crate::scalar::ONE;
use crate::scalar::NEG_ONE;
use crate::scalar::TWO;
use crate::scalar::POS_ZERO;
use crate::scalar::is_nan_bits;
use crate::scalar::is_finite_bits;
use crate::scalar::lt_bits;
use crate::scalar::gt_bits;
use crate::scalar::eq_bits;
use crate::scalar::neg_bits;
use crate::scalar::abs_bits;
use crate::scalar::min_bits;
use crate::scalar::max_bits;
use crate::scalar::clamp_bits;
use crate::scalar::add_bits;
use crate::scalar::sub_bits;
use crate::scalar::mul_bits;
use crate::scalar::div_bits;
use crate::scalar::sqrt_bits;
use crate::scalar::floor_bits;
use crate::scalar::ceil_bits;
use crate::scalar::round_bits;
use crate::scalar::acos_bits;
use crate::scalar::sin_bits;
use crate::scalar::is_nan_b;
use crate::scalar::is_finite_b;
use crate::scalar::lt_b;
use crate::scalar::eq_b;
use crate::scalar::neg_b;
use crate::scalar::abs_b;
use crate::scalar::min_b;
use crate::scalar::max_b;
use crate::scalar::clamp_b;
use crate::scalar::add_f;
use crate::scalar::sub_f;
use crate::scalar::mul_f;
use crate::scalar::div_f;
use crate::scalar::sqrt_f;
use crate::scalar::floor_f;
use crate::scalar::ceil_f;
use crate::scalar::round_f;
use crate::scalar::acos_f;
use crate::scalar::sin_f;
use crate::vec4::Vec4;

verus! {

/// A 3-component vector; each field holds an IEEE-754 binary32 bit
/// pattern. No invariant is enforced: any combination of finite, infinite
/// or NaN components is a legal value.
#[derive(Clone, Copy, Debug)]
pub struct Vec3 {
    pub x: u32,
    pub y: u32,
    pub z: u32,
}

/// The zero vector.
pub open spec fn spec_zero3() -> Vec3 {
    (Vec3 { x: POS_ZERO, y: POS_ZERO, z: POS_ZERO })
}

/// Component-wise sum.
pub open spec fn spec_add3(a: Vec3, b: Vec3) -> Vec3 {
    (Vec3 { x: add_bits(a.x, b.x), y: add_bits(a.y, b.y), z: add_bits(a.z, b.z) })
}

/// Component-wise difference.
pub open spec fn spec_sub3(a: Vec3, b: Vec3) -> Vec3 {
    (Vec3 { x: sub_bits(a.x, b.x), y: sub_bits(a.y, b.y), z: sub_bits(a.z, b.z) })
}

/// Component-wise negation.
pub open spec fn spec_neg3(a: Vec3) -> Vec3 {
    (Vec3 { x: neg_bits(a.x), y: neg_bits(a.y), z: neg_bits(a.z) })
}

/// Every component multiplied by the scalar `s`.
pub open spec fn spec_scale3(a: Vec3, s: u32) -> Vec3 {
    (Vec3 { x: mul_bits(a.x, s), y: mul_bits(a.y, s), z: mul_bits(a.z, s) })
}

/// Scalar division: the reciprocal of `s` is computed once and every
/// component is multiplied by it.
pub open spec fn spec_div_scale3(a: Vec3, s: u32) -> Vec3 {
    spec_scale3(a, div_bits(ONE, s))
}

/// IEEE-754 equality of all three component pairs (NaN components compare
/// unequal, the two zero encodings compare equal).
pub open spec fn spec_eq3(a: Vec3, b: Vec3) -> bool {
    eq_bits(a.x, b.x) && eq_bits(a.y, b.y) && eq_bits(a.z, b.z)
}

impl Vec3 {
    /// Creates a vector from the three component bit patterns.
    pub fn new(x: u32, y: u32, z: u32) -> (r: Vec3)
        ensures
            r == (Vec3 { x, y, z }),
    {
        Vec3 { x, y, z }
    }

    /// The zero vector.
    pub fn zero() -> (r: Vec3)
        ensures
            r == spec_zero3(),
    {
        Vec3 { x: POS_ZERO, y: POS_ZERO, z: POS_ZERO }
    }

    /// The vector with every component 1.0.
    pub fn one() -> (r: Vec3)
        ensures
            r == (Vec3 { x: ONE, y: ONE, z: ONE }),
    {
        Vec3 { x: ONE, y: ONE, z: ONE }
    }

    /// The positive X axis.
    pub fn unit_x() -> (r: Vec3)
        ensures
            r == (Vec3 { x: ONE, y: POS_ZERO, z: POS_ZERO }),
    {
        Vec3 { x: ONE, y: POS_ZERO, z: POS_ZERO }
    }

    /// The positive Y axis.
    pub fn unit_y() -> (r: Vec3)
        ensures
            r == (Vec3 { x: POS_ZERO, y: ONE, z: POS_ZERO }),
    {
        Vec3 { x: POS_ZERO, y: ONE, z: POS_ZERO }
    }

    /// The positive Z axis.
    pub fn unit_z() -> (r: Vec3)
        ensures
            r == (Vec3 { x: POS_ZERO, y: POS_ZERO, z: ONE }),
    {
        Vec3 { x: POS_ZERO, y: POS_ZERO, z: ONE }
    }

    /// The vector with every component equal to `value`.
    pub fn splat(value: u32) -> (r: Vec3)
        ensures
            r == (Vec3 { x: value, y: value, z: value }),
    {
        Vec3 { x: value, y: value, z: value }
    }

    /// Component-wise sum.
    pub fn add(self, other: Vec3) -> (r: Vec3)
        ensures
            r == spec_add3(self, other),
    {
        Vec3 {
            x: add_f(self.x, other.x),
            y: add_f(self.y, other.y),
            z: add_f(self.z, other.z),
        }
    }

    /// Component-wise sum, assigned in place.
    pub fn add_assign(&mut self, other: Vec3)
        ensures
            *final(self) == spec_add3(*old(self), other),
    {
        *self = self.add(other);
    }

    /// Component-wise difference.
    pub fn sub(self, other: Vec3) -> (r: Vec3)
        ensures
            r == spec_sub3(self, other),
    {
        Vec3 {
            x: sub_f(self.x, other.x),
            y: sub_f(self.y, other.y),
            z: sub_f(self.z, other.z),
        }
    }

    /// Component-wise difference, assigned in place.
    pub fn sub_assign(&mut self, other: Vec3)
        ensures
            *final(self) == spec_sub3(*old(self), other),
    {
        *self = self.sub(other);
    }

    /// Component-wise negation.
    pub fn neg(self) -> (r: Vec3)
        ensures
            r == spec_neg3(self),
    {
        Vec3 { x: neg_b(self.x), y: neg_b(self.y), z: neg_b(self.z) }
    }

    /// Every component multiplied by the scalar `scalar`.
    pub fn mul(self, scalar: u32) -> (r: Vec3)
        ensures
            r == spec_scale3(self, scalar),
    {
        Vec3 {
            x: mul_f(self.x, scalar),
            y: mul_f(self.y, scalar),
            z: mul_f(self.z, scalar),
        }
    }

    /// Scalar multiplication, assigned in place.
    pub fn mul_assign(&mut self, scalar: u32)
        ensures
            *final(self) == spec_scale3(*old(self), scalar),
    {
        *self = self.mul(scalar);
    }

    /// Scalar division: the reciprocal of `scalar` is computed once and
    /// each component is multiplied by it. Division by zero yields
    /// infinite or NaN components per the IEEE-754 rules, not an error.
    pub fn div(self, scalar: u32) -> (r: Vec3)
        ensures
            r == spec_div_scale3(self, scalar),
    {
        let inv = div_f(ONE, scalar);
        self.mul(inv)
    }

    /// Scalar division, assigned in place.
    pub fn div_assign(&mut self, scalar: u32)
        ensures
            *final(self) == spec_div_scale3(*old(self), scalar),
    {
        *self = self.div(scalar);
    }

    /// The dot product: the sum of the pairwise component products,
    /// accumulated left to right. A non-NaN dot product does not depend on
    /// the argument order.
    pub fn dot(self, other: Vec3) -> (r: u32)
        ensures
            r == spec_dot(self, other),
            !is_nan_bits(r) ==> r == spec_dot(other, self),
    {
        let mx = mul_f(self.x, other.x);
        let my = mul_f(self.y, other.y);
        let mz = mul_f(self.z, other.z);
        add_f(add_f(mx, my), mz)
    }

    /// The cross product, by the right-handed determinant formula. For
    /// every component that is not NaN, the result equals the negation of
    /// the cross product with the arguments swapped; and the cross product
    /// of a vector with itself is exactly the zero vector whenever its
    /// pairwise component products stay finite.
    pub fn cross(self, other: Vec3) -> (r: Vec3)
        ensures
            r == spec_cross(self, other),
            !is_nan_bits(r.x) ==> eq_bits(r.x, neg_bits(spec_cross(other, self).x)),
            !is_nan_bits(r.y) ==> eq_bits(r.y, neg_bits(spec_cross(other, self).y)),
            !is_nan_bits(r.z) ==> eq_bits(r.z, neg_bits(spec_cross(other, self).z)),
            other == self && is_finite_bits(mul_bits(self.y, self.z))
                && is_finite_bits(mul_bits(self.z, self.x))
                && is_finite_bits(mul_bits(self.x, self.y)) ==> r == spec_zero3(),
    {
        Vec3 {
            x: sub_f(mul_f(self.y, other.z), mul_f(self.z, other.y)),
            y: sub_f(mul_f(self.z, other.x), mul_f(self.x, other.z)),
            z: sub_f(mul_f(self.x, other.y), mul_f(self.y, other.x)),
        }
    }
}

/// The dot product of two vectors: the pairwise component products summed
/// left to right.
pub open spec fn spec_dot(a: Vec3, b: Vec3) -> u32 {
    add_bits(add_bits(mul_bits(a.x, b.x), mul_bits(a.y, b.y)), mul_bits(a.z, b.z))
}

/// The cross product of two vectors, by the right-handed determinant
/// formula.
pub open spec fn spec_cross(a: Vec3, b: Vec3) -> Vec3 {
    (Vec3 {
        x: sub_bits(mul_bits(a.y, b.z), mul_bits(a.z, b.y)),
        y: sub_bits(mul_bits(a.z, b.x), mul_bits(a.x, b.z)),
        z: sub_bits(mul_bits(a.x, b.y), mul_bits(a.y, b.x)),
    })
}

/// The squared length of a vector: its dot product with itself.
pub open spec fn spec_len_sq(a: Vec3) -> u32 {
    spec_dot(a, a)
}

/// The squared general tolerance: the normalization operations treat a
/// vector whose squared length is below it as degenerate.
pub open spec fn spec_eps_sq() -> u32 {
    mul_bits(EPSILON, EPSILON)
}

/// Whether a vector is too close to zero to normalize: its squared length
/// is below the squared general tolerance.
pub open spec fn spec_near_zero(a: Vec3) -> bool {
    lt_bits(spec_len_sq(a), spec_eps_sq())
}

/// The reciprocal of a vector's length: one divided by the square root of
/// the squared length.
pub open spec fn spec_inv_len(a: Vec3) -> u32 {
    div_bits(ONE, sqrt_bits(spec_len_sq(a)))
}

/// The normalized vector: the vector scaled by the reciprocal of its
/// length, or the zero vector when it is too close to zero.
pub open spec fn spec_normalize(a: Vec3) -> Vec3 {
    if spec_near_zero(a) {
        spec_zero3()
    } else {
        spec_scale3(a, spec_inv_len(a))
    }
}

impl Vec3 {
    /// The squared length (magnitude squared): the dot product of the
    /// vector with itself. Avoids the square root.
    pub fn length_squared(self) -> (r: u32)
        ensures
            r == spec_len_sq(self),
    {
        self.dot(self)
    }

    /// The length (magnitude): the square root of the squared length.
    pub fn length(self) -> (r: u32)
        ensures
            r == sqrt_bits(spec_len_sq(self)),
    {
        sqrt_f(self.length_squared())
    }

    /// Normalizes the vector to unit length by scaling it with the
    /// reciprocal of its length; a vector whose squared length is below
    /// the squared general tolerance yields exactly the zero vector rather
    /// than failing.
    pub fn normalize(self) -> (r: Vec3)
        ensures
            r == spec_normalize(self),
            spec_near_zero(self) ==> r == spec_zero3(),
    {
        let len_sq = self.length_squared();
        if lt_b(len_sq, mul_f(EPSILON, EPSILON)) {
            Vec3::zero()
        } else {
            self.mul(inv_sqrt(len_sq))
        }
    }

    /// The faster normalization entry point for callers that would accept
    /// reduced precision. This build uses the exact reciprocal square
    /// root, so it returns the same result as `normalize`, and it honors
    /// the same near-zero policy.
    pub fn normalize_fast(self) -> (r: Vec3)
        ensures
            r == spec_normalize(self),
            spec_near_zero(self) ==> r == spec_zero3(),
    {
        let len_sq = self.length_squared();
        if lt_b(len_sq, mul_f(EPSILON, EPSILON)) {
            Vec3::zero()
        } else {
            self.mul(inv_sqrt(len_sq))
        }
    }

    /// Attempts to normalize the vector: reports absence instead of
    /// silently degenerating, so the caller can tell a degenerate input
    /// apart. Returns `None` exactly when the squared length is below the
    /// squared general tolerance, and the normalized vector otherwise.
    pub fn try_normalize(self) -> (r: Option<Vec3>)
        ensures
            spec_near_zero(self) <==> r is None,
            !spec_near_zero(self) ==> r == Some(spec_normalize(self)),
    {
        let len_sq = self.length_squared();
        if lt_b(len_sq, mul_f(EPSILON, EPSILON)) {
            None
        } else {
            Some(self.mul(div_f(ONE, sqrt_f(len_sq))))
        }
    }

    /// The distance to another point: the length of the difference vector.
    pub fn distance_to(self, other: Vec3) -> (r: u32)
        ensures
            r == sqrt_bits(spec_len_sq(spec_sub3(self, other))),
    {
        self.sub(other).length()
    }

    /// The squared distance to another point: the squared length of the
    /// difference vector. Avoids the square root.
    pub fn distance_squared_to(self, other: Vec3) -> (r: u32)
        ensures
            r == spec_len_sq(spec_sub3(self, other)),
    {
        self.sub(other).length_squared()
    }
}

/// The reciprocal square root, computed as one divided by the exact square
/// root.
fn inv_sqrt(x: u32) -> (r: u32)
    ensures
        r == div_bits(ONE, sqrt_bits(x)),
{
    div_f(ONE, sqrt_f(x))
}

/// The two normalization entry points agree with the reporting one: where
/// `try_normalize` reports absence, `normalize` substitutes the zero
/// vector; where it reports a result, that result is exactly the
/// normalized vector.
pub proof fn lemma_normalize_degenerate_policy(a: Vec3)
    ensures
        spec_near_zero(a) ==> spec_normalize(a) == spec_zero3(),
        !spec_near_zero(a) ==> spec_normalize(a) == spec_scale3(a, spec_inv_len(a)),
{
}

/// The component selected by an index: 0 is x, 1 is y, 2 is z.
pub open spec fn spec_at(a: Vec3, i: int) -> u32 {
    if i == 0 {
        a.x
    } else if i == 1 {
        a.y
    } else {
        a.z
    }
}

/// The vector with the indexed component replaced by `v` and the other two
/// kept.
pub open spec fn spec_set_at(a: Vec3, i: int, v: u32) -> Vec3 {
    if i == 0 {
        (Vec3 { x: v, ..a })
    } else if i == 1 {
        (Vec3 { y: v, ..a })
    } else {
        (Vec3 { z: v, ..a })
    }
}

impl Vec3 {
    /// The component-wise minimum of two vectors (per axis, ignoring NaN
    /// as the scalar minimum does).
    pub fn min(self, other: Vec3) -> (r: Vec3)
        ensures
            r == (Vec3 {
                x: min_bits(self.x, other.x),
                y: min_bits(self.y, other.y),
                z: min_bits(self.z, other.z),
            }),
    {
        Vec3 {
            x: min_b(self.x, other.x),
            y: min_b(self.y, other.y),
            z: min_b(self.z, other.z),
        }
    }

    /// The component-wise maximum of two vectors (per axis, ignoring NaN
    /// as the scalar maximum does).
    pub fn max(self, other: Vec3) -> (r: Vec3)
        ensures
            r == (Vec3 {
                x: max_bits(self.x, other.x),
                y: max_bits(self.y, other.y),
                z: max_bits(self.z, other.z),
            }),
    {
        Vec3 {
            x: max_b(self.x, other.x),
            y: max_b(self.y, other.y),
            z: max_b(self.z, other.z),
        }
    }

    /// The component-wise absolute value.
    pub fn abs(self) -> (r: Vec3)
        ensures
            r == (Vec3 { x: abs_bits(self.x), y: abs_bits(self.y), z: abs_bits(self.z) }),
    {
        Vec3 { x: abs_b(self.x), y: abs_b(self.y), z: abs_b(self.z) }
    }

    /// Clamps each component between the corresponding components of `min`
    /// and `max`, applying the lower bound first: `self.max(min).min(max)`.
    /// When a lower bound exceeds the corresponding upper bound, that
    /// ordering decides the result; it is not symmetric.
    pub fn clamp(self, min: Vec3, max: Vec3) -> (r: Vec3)
        ensures
            r == (Vec3 {
                x: min_bits(max_bits(self.x, min.x), max.x),
                y: min_bits(max_bits(self.y, min.y), max.y),
                z: min_bits(max_bits(self.z, min.z), max.z),
            }),
    {
        self.max(min).min(max)
    }

    /// The component-wise round toward negative infinity.
    pub fn floor(self) -> (r: Vec3)
        ensures
            r == (Vec3 { x: floor_bits(self.x), y: floor_bits(self.y), z: floor_bits(self.z) }),
    {
        Vec3 { x: floor_f(self.x), y: floor_f(self.y), z: floor_f(self.z) }
    }

    /// The component-wise round toward positive infinity.
    pub fn ceil(self) -> (r: Vec3)
        ensures
            r == (Vec3 { x: ceil_bits(self.x), y: ceil_bits(self.y), z: ceil_bits(self.z) }),
    {
        Vec3 { x: ceil_f(self.x), y: ceil_f(self.y), z: ceil_f(self.z) }
    }

    /// The component-wise round to the nearest integral value, ties away
    /// from zero.
    pub fn round(self) -> (r: Vec3)
        ensures
            r == (Vec3 { x: round_bits(self.x), y: round_bits(self.y), z: round_bits(self.z) }),
    {
        Vec3 { x: round_f(self.x), y: round_f(self.y), z: round_f(self.z) }
    }

    /// Whether every component is finite (neither infinite nor NaN).
    pub fn is_finite(self) -> (r: bool)
        ensures
            r == (is_finite_bits(self.x) && is_finite_bits(self.y) && is_finite_bits(self.z)),
    {
        is_finite_b(self.x) && is_finite_b(self.y) && is_finite_b(self.z)
    }

    /// Whether any component is NaN.
    pub fn is_nan(self) -> (r: bool)
        ensures
            r == (is_nan_bits(self.x) || is_nan_bits(self.y) || is_nan_bits(self.z)),
    {
        is_nan_b(self.x) || is_nan_b(self.y) || is_nan_b(self.z)
    }

    /// Whether the vector is approximately zero: its squared length is
    /// below the squared general tolerance. Exactly the condition under
    /// which the normalization operations degenerate.
    pub fn is_zero(self) -> (r: bool)
        ensures
            r == spec_near_zero(self),
    {
        lt_b(self.length_squared(), mul_f(EPSILON, EPSILON))
    }

    /// Whether the vector is approximately of unit length: the squared
    /// length is within the general tolerance of one.
    pub fn is_normalized(self) -> (r: bool)
        ensures
            r == lt_bits(abs_bits(sub_bits(spec_len_sq(self), ONE)), EPSILON),
    {
        lt_b(abs_b(sub_f(self.length_squared(), ONE)), EPSILON)
    }

    /// The largest absolute component value among the three axes.
    pub fn max_component(self) -> (r: u32)
        ensures
            r == max_bits(max_bits(abs_bits(self.x), abs_bits(self.y)), abs_bits(self.z)),
    {
        max_b(max_b(abs_b(self.x), abs_b(self.y)), abs_b(self.z))
    }

    /// The smallest absolute component value among the three axes.
    pub fn min_component(self) -> (r: u32)
        ensures
            r == min_bits(min_bits(abs_bits(self.x), abs_bits(self.y)), abs_bits(self.z)),
    {
        min_b(min_b(abs_b(self.x), abs_b(self.y)), abs_b(self.z))
    }

    /// Reads the component selected by `i`: 0 is x, 1 is y, 2 is z. Any
    /// other index is a programming error and is ruled out by the
    /// precondition; the unverified layer treats it as a fatal
    /// out-of-bounds access.
    pub fn at(self, i: usize) -> (r: u32)
        requires
            i < 3,
        ensures
            r == spec_at(self, i as int),
    {
        if i == 0 {
            self.x
        } else if i == 1 {
            self.y
        } else {
            self.z
        }
    }

    /// Writes the component selected by `i`, keeping the other two. The
    /// same index contract as `at`.
    pub fn set_at(&mut self, i: usize, v: u32)
        requires
            i < 3,
        ensures
            *final(self) == spec_set_at(*old(self), i as int, v),
    {
        if i == 0 {
            self.x = v;
        } else if i == 1 {
            self.y = v;
        } else {
            self.z = v;
        }
    }

    /// Builds a new vector by indexed reordering of the components,
    /// reusing the indexed read and its index contract.
    pub fn swizzle(self, x_idx: usize, y_idx: usize, z_idx: usize) -> (r: Vec3)
        requires
            x_idx < 3,
            y_idx < 3,
            z_idx < 3,
        ensures
            r == (Vec3 {
                x: spec_at(self, x_idx as int),
                y: spec_at(self, y_idx as int),
                z: spec_at(self, z_idx as int),
            }),
    {
        Vec3 { x: self.at(x_idx), y: self.at(y_idx), z: self.at(z_idx) }
    }
}

/// Linear interpolation: `a` plus `t` times the difference toward `b`.
/// Not clamped, so `t` outside [0, 1] extrapolates.
pub open spec fn spec_lerp(a: Vec3, b: Vec3, t: u32) -> Vec3 {
    spec_add3(a, spec_scale3(spec_sub3(b, a), t))
}

/// The dot product clamped to [-1, 1], read by spherical interpolation as
/// the cosine of the angle between its (unit) inputs.
pub open spec fn spec_slerp_cos(a: Vec3, b: Vec3) -> u32 {
    clamp_bits(spec_dot(a, b), NEG_ONE, ONE)
}

/// Whether spherical interpolation falls back to normalized linear
/// interpolation: the clamped cosine is within the general tolerance of
/// one in magnitude, i.e. the inputs are nearly parallel or nearly
/// antiparallel and the great-circle weights would be unstable.
pub open spec fn spec_slerp_degenerate(a: Vec3, b: Vec3) -> bool {
    gt_bits(abs_bits(spec_slerp_cos(a, b)), sub_bits(ONE, EPSILON))
}

/// Spherical interpolation between two unit vectors: the great-circle
/// weighted sum `sin((1-t)θ)/sin θ · a + sin(tθ)/sin θ · b`, or normalized
/// linear interpolation when the inputs are nearly parallel.
pub open spec fn spec_slerp(a: Vec3, b: Vec3, t: u32) -> Vec3 {
    if spec_slerp_degenerate(a, b) {
        spec_normalize(spec_lerp(a, b, t))
    } else {
        let angle = acos_bits(spec_slerp_cos(a, b));
        let sin_angle = sin_bits(angle);
        let wa = div_bits(sin_bits(mul_bits(sub_bits(ONE, t), angle)), sin_angle);
        let wb = div_bits(sin_bits(mul_bits(t, angle)), sin_angle);
        spec_add3(spec_scale3(a, wa), spec_scale3(b, wb))
    }
}

/// Reflection around a normal: `a - n·(2·(a·n))`. Physically meaningful
/// only for a unit normal, which is the caller's responsibility.
pub open spec fn spec_reflect(a: Vec3, n: Vec3) -> Vec3 {
    spec_sub3(a, spec_scale3(n, mul_bits(TWO, spec_dot(a, n))))
}

/// The squared sine of the refraction angle by Snell's law:
/// `eta² · (1 - cos²I)` with `cosI = -(a·n)`.
pub open spec fn spec_refract_sin_t2(a: Vec3, n: Vec3, eta: u32) -> u32 {
    mul_bits(mul_bits(eta, eta), sub_bits(ONE, mul_bits(spec_refract_cos_i(a, n), spec_refract_cos_i(a, n))))
}

/// The cosine of the incidence angle: the negated dot product of the
/// incident vector with the normal.
pub open spec fn spec_refract_cos_i(a: Vec3, n: Vec3) -> u32 {
    neg_bits(spec_dot(a, n))
}

/// The refracted vector: `a·eta + n·(eta·cosI - sqrt(1 - sin²T))`.
pub open spec fn spec_refract_vec(a: Vec3, n: Vec3, eta: u32) -> Vec3 {
    spec_add3(
        spec_scale3(a, eta),
        spec_scale3(
            n,
            sub_bits(
                mul_bits(eta, spec_refract_cos_i(a, n)),
                sqrt_bits(sub_bits(ONE, spec_refract_sin_t2(a, n, eta))),
            ),
        ),
    )
}

/// Projection of `a` onto `b`: `b` scaled by `(a·b) / |b|²`. Undefined (an
/// infinity or NaN propagation, not a guarded error) when `b` is the zero
/// vector.
pub open spec fn spec_project(a: Vec3, b: Vec3) -> Vec3 {
    spec_scale3(b, div_bits(spec_dot(a, b), spec_len_sq(b)))
}

impl Vec3 {
    /// Linear interpolation toward `other`: `t` of zero yields this
    /// vector's value, one yields `other`'s; `t` outside [0, 1]
    /// extrapolates, it is not clamped.
    pub fn lerp(self, other: Vec3, t: u32) -> (r: Vec3)
        ensures
            r == spec_lerp(self, other, t),
    {
        self.add(other.sub(self).mul(t))
    }

    /// Spherical interpolation between two unit vectors: interpolates
    /// along the great circle through them, falling back to normalized
    /// linear interpolation when they are nearly parallel or nearly
    /// antiparallel (where the great-circle weights would divide by a
    /// near-zero sine).
    pub fn slerp(self, other: Vec3, t: u32) -> (r: Vec3)
        ensures
            r == spec_slerp(self, other, t),
            spec_slerp_degenerate(self, other) ==> r == spec_normalize(spec_lerp(self, other, t)),
    {
        let cos_angle = clamp_b(self.dot(other), NEG_ONE, ONE);

        if lt_b(sub_f(ONE, EPSILON), abs_b(cos_angle)) {
            return self.lerp(other, t).normalize();
        }

        let angle = acos_f(cos_angle);
        let sin_angle = sin_f(angle);
        let wa = div_f(sin_f(mul_f(sub_f(ONE, t), angle)), sin_angle);
        let wb = div_f(sin_f(mul_f(t, angle)), sin_angle);

        self.mul(wa).add(other.mul(wb))
    }

    /// Reflects the vector around a normal. The normal should be of unit
    /// length for a physically meaningful result; that is the caller's
    /// responsibility.
    pub fn reflect(self, normal: Vec3) -> (r: Vec3)
        ensures
            r == spec_reflect(self, normal),
    {
        self.sub(normal.mul(mul_f(TWO, self.dot(normal))))
    }

    /// Refracts the vector through a surface by Snell's law, for the given
    /// normal and refractive index ratio `eta`. Reports absence exactly
    /// when the squared refraction sine exceeds one: total internal
    /// reflection, a valid physical outcome rather than an error.
    pub fn refract(self, normal: Vec3, eta: u32) -> (r: Option<Vec3>)
        ensures
            gt_bits(spec_refract_sin_t2(self, normal, eta), ONE) <==> r is None,
            !gt_bits(spec_refract_sin_t2(self, normal, eta), ONE) ==> r == Some(
                spec_refract_vec(self, normal, eta),
            ),
    {
        let cos_i = neg_b(self.dot(normal));
        let sin_t2 = mul_f(mul_f(eta, eta), sub_f(ONE, mul_f(cos_i, cos_i)));

        if lt_b(ONE, sin_t2) {
            None
        } else {
            let cos_t = sqrt_f(sub_f(ONE, sin_t2));
            Some(self.mul(eta).add(normal.mul(sub_f(mul_f(eta, cos_i), cos_t))))
        }
    }

    /// Projects this vector onto `other`: `other` scaled by their dot
    /// product over `other`'s squared length. Undefined (infinity or NaN
    /// propagation, not a guarded error) when `other` is the zero vector;
    /// the caller must ensure it is not.
    pub fn project_onto(self, other: Vec3) -> (r: Vec3)
        ensures
            r == spec_project(self, other),
    {
        other.mul(div_f(self.dot(other), other.length_squared()))
    }

    /// Rejects this vector from `other`: the difference between this
    /// vector and its projection onto `other`, i.e. the component
    /// perpendicular to `other`. By construction the projection and the
    /// rejection sum back to this vector up to rounding.
    pub fn reject_from(self, other: Vec3) -> (r: Vec3)
        ensures
            r == spec_sub3(self, spec_project(self, other)),
    {
        self.sub(self.project_onto(other))
    }

    /// Extends to a 4-component vector by appending the homogeneous
    /// component `w`.
    pub fn extend(self, w: u32) -> (r: Vec4)
        ensures
            r == (Vec4 { x: self.x, y: self.y, z: self.z, w }),
    {
        Vec4::new(self.x, self.y, self.z, w)
    }

    /// The point representation: the vector extended with w = 1.
    pub fn to_point(self) -> (r: Vec4)
        ensures
            r == (Vec4 { x: self.x, y: self.y, z: self.z, w: ONE }),
    {
        self.extend(ONE)
    }

    /// The direction representation: the vector extended with w = 0.
    pub fn to_direction(self) -> (r: Vec4)
        ensures
            r == (Vec4 { x: self.x, y: self.y, z: self.z, w: POS_ZERO }),
    {
        self.extend(POS_ZERO)
    }

    /// The components as a 3-element array, in x, y, z order, bit for bit.
    pub fn to_array(self) -> (r: [u32; 3])
        ensures
            r@ == spec_to_seq(self),
    {
        [self.x, self.y, self.z]
    }

    /// A vector built from a 3-element array read in x, y, z order, bit
    /// for bit.
    pub fn from_array(arr: [u32; 3]) -> (r: Vec3)
        ensures
            r == spec_from_seq(arr@),
    {
        Vec3 { x: arr[0], y: arr[1], z: arr[2] }
    }

    /// The components as a 3-tuple, in x, y, z order, bit for bit.
    pub fn to_tuple(self) -> (r: (u32, u32, u32))
        ensures
            r == (self.x, self.y, self.z),
    {
        (self.x, self.y, self.z)
    }

    /// A vector built from a 3-tuple read in x, y, z order, bit for bit.
    pub fn from_tuple(t: (u32, u32, u32)) -> (r: Vec3)
        ensures
            r == (Vec3 { x: t.0, y: t.1, z: t.2 }),
    {
        Vec3 { x: t.0, y: t.1, z: t.2 }
    }
}

/// The components of a vector as a sequence, in x, y, z order.
pub open spec fn spec_to_seq(a: Vec3) -> Seq<u32> {
    seq![a.x, a.y, a.z]
}

/// The vector whose components are the first three elements of a sequence,
/// in x, y, z order.
pub open spec fn spec_from_seq(s: Seq<u32>) -> Vec3 {
    (Vec3 { x: s[0], y: s[1], z: s[2] })
}

/// Round trip: converting a vector to a 3-element sequence or 3-tuple and
/// back reproduces the original bit for bit, and converting a 3-element
/// sequence to a vector and back reproduces the sequence.
pub proof fn lemma_conversion_round_trip(a: Vec3, s: Seq<u32>)
    ensures
        spec_from_seq(spec_to_seq(a)) == a,
        s.len() == 3 ==> spec_to_seq(spec_from_seq(s)) =~= s,
        (Vec3 { x: a.x, y: a.y, z: a.z }) == a,
{
}

impl PartialEq for Vec3 {
    /// IEEE-754 component-wise equality: a vector with a NaN component
    /// compares unequal to every vector, itself included; negative and
    /// positive zero components compare equal.
    fn eq(&self, other: &Vec3) -> (r: bool) {
        eq_b(self.x, other.x) && eq_b(self.y, other.y) && eq_b(self.z, other.z)
    }
}

impl vstd::std_specs::cmp::PartialEqSpecImpl for Vec3 {
    open spec fn obeys_eq_spec() -> bool {
        true
    }

    open spec fn eq_spec(&self, other: &Vec3) -> bool {
        spec_eq3(*self, *other)
    }
}

impl Default for Vec3 {
    /// The default vector is the zero vector.
    fn default() -> (r: Vec3)
        ensures
            r == spec_zero3(),
    {
        Vec3::zero()
    }
}

} // verus!
