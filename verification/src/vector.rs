//! The vector type and its componentwise operations.
//!
//! Every operation is componentwise over the three stored bit patterns.
//! The pure operations return a fresh vector and leave both operands
//! unchanged; the in-place operations overwrite the receiver and leave the
//! operand unchanged. The two divisions are the only operations that can
//! fail: a divisor holding an exact zero is reported as a
//! [`DivisionByZero`] value instead of being carried out, and a failed
//! in-place division leaves the receiver exactly as it was.

use vstd::prelude::*;

use crate::scalar::add_bits;
use crate::scalar::div_bits;
use crate::scalar::fadd;
use crate::scalar::fdiv;
use crate::scalar::float_eq;
use crate::scalar::fmul;
use crate::scalar::fsqrt;
use crate::scalar::fsub;
use crate::scalar::is_finite_bits;
use crate::scalar::is_nan_bits;
use crate::scalar::is_zero;
use crate::scalar::is_zero_bits;
use crate::scalar::mul_bits;
use crate::scalar::neg_bits;
use crate::scalar::scalar_eq;
use crate::scalar::ftext;
use crate::scalar::scalar_neg;
use crate::scalar::sqrt_bits;
use crate::scalar::sub_bits;
use crate::scalar::text_of;
use vstd::string::StringExecFns;

verus! {

/// A three-component vector of IEEE-754 binary64 values, each component
/// stored as its 64-bit pattern (see [`crate::scalar`]).
#[derive(Clone, Copy, Debug)]
pub struct Vec3 {
    pub x: u64,
    pub y: u64,
    pub z: u64,
}

/// The error of a division whose divisor holds an exact zero. It names the
/// zero divisor: for a componentwise division, which divisor components
/// were zero; for a scalar division, the zero scalar itself.
#[derive(Clone, Copy, Debug, PartialEq, Eq)]
pub enum DivisionByZero {
    /// A componentwise division was refused; each flag says whether that
    /// component of the divisor was an exact zero.
    Components { x_zero: bool, y_zero: bool, z_zero: bool },
    /// A scalar division was refused; the field holds the divisor's bit
    /// pattern, an exact zero of either sign.
    Scalar { divisor: u64 },
}

/// Some component of `v` is a NaN.
pub open spec fn has_nan(v: Vec3) -> bool {
    is_nan_bits(v.x) || is_nan_bits(v.y) || is_nan_bits(v.z)
}

/// Some component of `v` is an exact zero.
pub open spec fn has_zero(v: Vec3) -> bool {
    is_zero_bits(v.x) || is_zero_bits(v.y) || is_zero_bits(v.z)
}

/// Every component of `v` is finite: neither a NaN nor an infinity.
pub open spec fn all_finite(v: Vec3) -> bool {
    is_finite_bits(v.x) && is_finite_bits(v.y) && is_finite_bits(v.z)
}

/// The vectors are equal componentwise under IEEE-754 equality.
pub open spec fn eq3(a: Vec3, b: Vec3) -> bool {
    float_eq(a.x, b.x) && float_eq(a.y, b.y) && float_eq(a.z, b.z)
}

/// The componentwise sum.
pub open spec fn add3(a: Vec3, b: Vec3) -> Vec3 {
    Vec3 { x: add_bits(a.x, b.x), y: add_bits(a.y, b.y), z: add_bits(a.z, b.z) }
}

/// The componentwise difference.
pub open spec fn sub3(a: Vec3, b: Vec3) -> Vec3 {
    Vec3 { x: sub_bits(a.x, b.x), y: sub_bits(a.y, b.y), z: sub_bits(a.z, b.z) }
}

/// The componentwise (Hadamard) product.
pub open spec fn mul3(a: Vec3, b: Vec3) -> Vec3 {
    Vec3 { x: mul_bits(a.x, b.x), y: mul_bits(a.y, b.y), z: mul_bits(a.z, b.z) }
}

/// The componentwise quotient.
pub open spec fn div3(a: Vec3, b: Vec3) -> Vec3 {
    Vec3 { x: div_bits(a.x, b.x), y: div_bits(a.y, b.y), z: div_bits(a.z, b.z) }
}

/// The componentwise negation: each sign bit flipped.
pub open spec fn neg3(v: Vec3) -> Vec3 {
    Vec3 { x: neg_bits(v.x), y: neg_bits(v.y), z: neg_bits(v.z) }
}

/// Every component multiplied by the scalar `s`.
pub open spec fn scale3(v: Vec3, s: u64) -> Vec3 {
    Vec3 { x: mul_bits(v.x, s), y: mul_bits(v.y, s), z: mul_bits(v.z, s) }
}

/// Every component divided by the scalar `s`.
pub open spec fn scalar_div3(v: Vec3, s: u64) -> Vec3 {
    Vec3 { x: div_bits(v.x, s), y: div_bits(v.y, s), z: div_bits(v.z, s) }
}

/// The dot product, summed left to right: `a.x*b.x + a.y*b.y + a.z*b.z`.
pub open spec fn dot3(a: Vec3, b: Vec3) -> u64 {
    add_bits(add_bits(mul_bits(a.x, b.x), mul_bits(a.y, b.y)), mul_bits(a.z, b.z))
}

/// The sum of the squared componentwise differences `b - a`, summed left
/// to right.
pub open spec fn dist_sq3(a: Vec3, b: Vec3) -> u64 {
    add_bits(
        add_bits(
            mul_bits(sub_bits(b.x, a.x), sub_bits(b.x, a.x)),
            mul_bits(sub_bits(b.y, a.y), sub_bits(b.y, a.y)),
        ),
        mul_bits(sub_bits(b.z, a.z), sub_bits(b.z, a.z)),
    )
}

/// The flags that a refused componentwise division reports: one per
/// divisor component that is an exact zero.
pub open spec fn zero_flags(b: Vec3) -> DivisionByZero {
    DivisionByZero::Components {
        x_zero: is_zero_bits(b.x),
        y_zero: is_zero_bits(b.y),
        z_zero: is_zero_bits(b.z),
    }
}

impl Vec3 {
    /// The zero vector: every component is positive zero.
    pub fn new() -> (r: Vec3)
        ensures
            r == (Vec3 { x: 0, y: 0, z: 0 }),
    {
        Vec3 { x: 0, y: 0, z: 0 }
    }

    /// Structural equality: every component compares equal under IEEE-754
    /// equality, so a NaN component makes the vectors unequal, whatever
    /// the other operand holds.
    pub fn equals(a: &Vec3, b: &Vec3) -> (r: bool)
        ensures
            r == eq3(*a, *b),
    {
        scalar_eq(a.x, b.x) && scalar_eq(a.y, b.y) && scalar_eq(a.z, b.z)
    }

    /// The componentwise sum, leaving both operands unchanged. The sum
    /// does not depend on the order of the operands when no component is
    /// a NaN.
    pub fn add(&self, rhs: &Vec3) -> (r: Vec3)
        ensures
            r == add3(*self, *rhs),
            !has_nan(*self) && !has_nan(*rhs) ==> r == add3(*rhs, *self),
    {
        Vec3 { x: fadd(self.x, rhs.x), y: fadd(self.y, rhs.y), z: fadd(self.z, rhs.z) }
    }

    /// The componentwise difference, leaving both operands unchanged.
    /// When no operand component is a NaN and no difference is a NaN,
    /// subtracting in the other order gives the negated result, up to
    /// IEEE-754 equality (the sign of an exact zero may differ).
    pub fn subtract(&self, rhs: &Vec3) -> (r: Vec3)
        ensures
            r == sub3(*self, *rhs),
            !has_nan(*self) && !has_nan(*rhs) && !has_nan(sub3(*self, *rhs)) ==> eq3(
                r,
                neg3(sub3(*rhs, *self)),
            ),
    {
        Vec3 { x: fsub(self.x, rhs.x), y: fsub(self.y, rhs.y), z: fsub(self.z, rhs.z) }
    }

    /// The componentwise (Hadamard) product, leaving both operands
    /// unchanged. The product does not depend on the order of the
    /// operands when no component is a NaN.
    pub fn multiply(&self, rhs: &Vec3) -> (r: Vec3)
        ensures
            r == mul3(*self, *rhs),
            !has_nan(*self) && !has_nan(*rhs) ==> r == mul3(*rhs, *self),
    {
        Vec3 { x: fmul(self.x, rhs.x), y: fmul(self.y, rhs.y), z: fmul(self.z, rhs.z) }
    }

    /// The componentwise quotient, leaving both operands unchanged. If any
    /// component of the divisor is an exact zero, no quotient is formed:
    /// the error names exactly the zero components.
    pub fn divide(&self, rhs: &Vec3) -> (r: Result<Vec3, DivisionByZero>)
        ensures
            match r {
                Ok(q) => !has_zero(*rhs) && q == div3(*self, *rhs),
                Err(e) => has_zero(*rhs) && e == zero_flags(*rhs),
            },
    {
        let xz = is_zero(rhs.x);
        let yz = is_zero(rhs.y);
        let zz = is_zero(rhs.z);
        if xz || yz || zz {
            Err(DivisionByZero::Components { x_zero: xz, y_zero: yz, z_zero: zz })
        } else {
            Ok(
                Vec3 {
                    x: fdiv(self.x, rhs.x),
                    y: fdiv(self.y, rhs.y),
                    z: fdiv(self.z, rhs.z),
                },
            )
        }
    }

    /// The componentwise negation: each sign bit flipped, exactly.
    pub fn negate(&self) -> (r: Vec3)
        ensures
            r == neg3(*self),
    {
        Vec3 { x: scalar_neg(self.x), y: scalar_neg(self.y), z: scalar_neg(self.z) }
    }

    /// In-place componentwise sum: the receiver becomes `add(self, rhs)`;
    /// `rhs` is unchanged. Never fails.
    pub fn add_assign(&mut self, rhs: &Vec3)
        ensures
            *final(self) == add3(*old(self), *rhs),
    {
        self.x = fadd(self.x, rhs.x);
        self.y = fadd(self.y, rhs.y);
        self.z = fadd(self.z, rhs.z);
    }

    /// In-place componentwise difference: the receiver becomes
    /// `subtract(self, rhs)`; `rhs` is unchanged. Never fails.
    pub fn subtract_assign(&mut self, rhs: &Vec3)
        ensures
            *final(self) == sub3(*old(self), *rhs),
    {
        self.x = fsub(self.x, rhs.x);
        self.y = fsub(self.y, rhs.y);
        self.z = fsub(self.z, rhs.z);
    }

    /// In-place componentwise product: the receiver becomes
    /// `multiply(self, rhs)`; `rhs` is unchanged. Never fails.
    pub fn multiply_assign(&mut self, rhs: &Vec3)
        ensures
            *final(self) == mul3(*old(self), *rhs),
    {
        self.x = fmul(self.x, rhs.x);
        self.y = fmul(self.y, rhs.y);
        self.z = fmul(self.z, rhs.z);
    }

    /// In-place componentwise quotient. If every component of the divisor
    /// is non-zero, the receiver becomes `divide(self, rhs)`; otherwise
    /// the receiver keeps its prior components, untouched, and the error
    /// names exactly the zero components of the divisor.
    pub fn divide_assign(&mut self, rhs: &Vec3) -> (r: Result<(), DivisionByZero>)
        ensures
            match r {
                Ok(_) => !has_zero(*rhs) && *final(self) == div3(*old(self), *rhs),
                Err(e) => has_zero(*rhs) && *final(self) == *old(self) && e == zero_flags(*rhs),
            },
    {
        let xz = is_zero(rhs.x);
        let yz = is_zero(rhs.y);
        let zz = is_zero(rhs.z);
        if xz || yz || zz {
            Err(DivisionByZero::Components { x_zero: xz, y_zero: yz, z_zero: zz })
        } else {
            self.x = fdiv(self.x, rhs.x);
            self.y = fdiv(self.y, rhs.y);
            self.z = fdiv(self.z, rhs.z);
            Ok(())
        }
    }

    /// Every component multiplied by the scalar `s`, leaving the receiver
    /// unchanged.
    pub fn scale(&self, s: u64) -> (r: Vec3)
        ensures
            r == scale3(*self, s),
    {
        Vec3 { x: fmul(self.x, s), y: fmul(self.y, s), z: fmul(self.z, s) }
    }

    /// In-place form of [`Vec3::scale`]. Never fails.
    pub fn scale_assign(&mut self, s: u64)
        ensures
            *final(self) == scale3(*old(self), s),
    {
        self.x = fmul(self.x, s);
        self.y = fmul(self.y, s);
        self.z = fmul(self.z, s);
    }

    /// Every component divided by the scalar `s`, leaving the receiver
    /// unchanged. A zero scalar is refused: the error carries the zero
    /// divisor itself. This test is on the one scalar, not on three
    /// components.
    pub fn scalar_divide(&self, s: u64) -> (r: Result<Vec3, DivisionByZero>)
        ensures
            match r {
                Ok(q) => !is_zero_bits(s) && q == scalar_div3(*self, s),
                Err(e) => is_zero_bits(s) && e == (DivisionByZero::Scalar { divisor: s }),
            },
    {
        if is_zero(s) {
            Err(DivisionByZero::Scalar { divisor: s })
        } else {
            Ok(Vec3 { x: fdiv(self.x, s), y: fdiv(self.y, s), z: fdiv(self.z, s) })
        }
    }

    /// In-place form of [`Vec3::scalar_divide`]: on a zero scalar the
    /// receiver keeps its prior components, untouched.
    pub fn scalar_divide_assign(&mut self, s: u64) -> (r: Result<(), DivisionByZero>)
        ensures
            match r {
                Ok(_) => !is_zero_bits(s) && *final(self) == scalar_div3(*old(self), s),
                Err(e) => is_zero_bits(s) && *final(self) == *old(self) && e == (
                    DivisionByZero::Scalar { divisor: s }
                ),
            },
    {
        if is_zero(s) {
            Err(DivisionByZero::Scalar { divisor: s })
        } else {
            self.x = fdiv(self.x, s);
            self.y = fdiv(self.y, s);
            self.z = fdiv(self.z, s);
            Ok(())
        }
    }

    /// The Euclidean distance: the square root of
    /// [`Vec3::distance_squared`]. Never fails; a NaN component runs
    /// through per IEEE-754. The distance does not depend on the order of
    /// the two vectors when no component is a NaN, and the distance from
    /// a finite vector to itself is exactly positive zero.
    pub fn distance(a: &Vec3, b: &Vec3) -> (r: u64)
        ensures
            r == sqrt_bits(dist_sq3(*a, *b)),
            !has_nan(*a) && !has_nan(*b) ==> r == sqrt_bits(dist_sq3(*b, *a)),
            *a == *b && all_finite(*a) ==> r == 0,
    {
        let sq: u64 = Vec3::distance_squared(a, b);
        fsqrt(sq)
    }

    /// The sum of the squared componentwise differences, with no square
    /// root taken: callers that only compare distances should prefer this
    /// over [`Vec3::distance`] to avoid the square root. Never fails. The
    /// result does not depend on the order of the two vectors when no
    /// component is a NaN, and the squared distance from a finite vector
    /// to itself is exactly positive zero.
    pub fn distance_squared(a: &Vec3, b: &Vec3) -> (r: u64)
        ensures
            r == dist_sq3(*a, *b),
            !has_nan(*a) && !has_nan(*b) ==> r == dist_sq3(*b, *a),
            *a == *b && all_finite(*a) ==> r == 0,
    {
        let dx: u64 = fsub(b.x, a.x);
        let dy: u64 = fsub(b.y, a.y);
        let dz: u64 = fsub(b.z, a.z);
        fadd(fadd(fmul(dx, dx), fmul(dy, dy)), fmul(dz, dz))
    }

    /// The dot product `a.x*b.x + a.y*b.y + a.z*b.z`, summed left to
    /// right. Never fails. The result does not depend on the order of the
    /// two vectors when no component is a NaN.
    pub fn dot(a: &Vec3, b: &Vec3) -> (r: u64)
        ensures
            r == dot3(*a, *b),
            !has_nan(*a) && !has_nan(*b) ==> r == dot3(*b, *a),
    {
        fadd(fadd(fmul(a.x, b.x), fmul(a.y, b.y)), fmul(a.z, b.z))
    }

    /// A human-readable form: the three components as decimal text, in
    /// the order X, Y, Z.
    pub fn to_string(&self) -> (r: String)
        ensures
            r@ == "X: "@ + text_of(self.x) + " Y: "@ + text_of(self.y) + " Z: "@ + text_of(
                self.z,
            ),
    {
        let mut s = String::from_str("X: ");
        let tx = ftext(self.x);
        s.append(tx.as_str());
        s.append(" Y: ");
        let ty = ftext(self.y);
        s.append(ty.as_str());
        s.append(" Z: ");
        let tz = ftext(self.z);
        s.append(tz.as_str());
        s
    }
}

impl PartialEq for Vec3 {
    /// `==` is exactly `Vec3::equals`; `!=` is its exact logical
    /// negation, through the default `ne`, not a componentwise
    /// all-components-differ test.
    fn eq(&self, other: &Vec3) -> (r: bool) {
        Vec3::equals(self, other)
    }
}

impl vstd::std_specs::cmp::PartialEqSpecImpl for Vec3 {
    open spec fn obeys_eq_spec() -> bool {
        true
    }

    open spec fn eq_spec(&self, other: &Vec3) -> bool {
        eq3(*self, *other)
    }
}

/// `equals` is reflexive exactly on the vectors without a NaN component:
/// a vector compares equal to itself unless some component is a NaN.
pub proof fn lemma_equals_reflexive(v: Vec3)
    ensures
        eq3(v, v) <==> !has_nan(v),
{
}

} // verus!
