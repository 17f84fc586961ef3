//! Single-precision numbers, held by their IEEE 754 bit patterns.
//!
//! The library never computes with these numbers; it only compares them.
//! Their order is decided on the patterns alone.

use vstd::arithmetic::power2::{lemma_pow2_pos, lemma_pow2_strictly_increases, lemma_pow2_unfold, pow2};
use vstd::prelude::*;

verus! {

/// The bit that holds the sign.
pub const SIGN_BIT: u32 = 0x8000_0000;

/// The pattern of positive infinity. A larger magnitude is not a number.
pub const INFINITY_BITS: u32 = 0x7f80_0000;

/// The pattern without its sign bit.
pub open spec fn magnitude(bits: u32) -> u32 {
    if bits >= SIGN_BIT {
        (bits - SIGN_BIT) as u32
    } else {
        bits
    }
}

/// Whether the sign bit of the pattern is set.
pub open spec fn sign_is_set(bits: u32) -> bool {
    bits >= SIGN_BIT
}

/// A single-precision number, held by its bit pattern.
#[derive(Clone, Copy, Debug)]
pub struct Scalar {
    pub bits: u32,
}

impl Scalar {
    /// Whether the pattern stands for no number at all.
    pub open spec fn spec_is_nan(&self) -> bool {
        magnitude(self.bits) > INFINITY_BITS
    }

    /// Whether the pattern is one of the two zeros.
    pub open spec fn spec_is_zero(&self) -> bool {
        magnitude(self.bits) == 0
    }

    /// The place of a number in the order of all numbers: the magnitude of
    /// its pattern, counted downwards from zero where the sign is set. Both
    /// zeros have rank zero.
    pub open spec fn rank(&self) -> int {
        if sign_is_set(self.bits) {
            -(magnitude(self.bits) as int)
        } else {
            magnitude(self.bits) as int
        }
    }

    /// `self < other`: both are numbers, and `self` ranks lower.
    pub open spec fn spec_lt(&self, other: Scalar) -> bool {
        !self.spec_is_nan() && !other.spec_is_nan() && self.rank() < other.rank()
    }

    /// `self <= other`: both are numbers, and `self` ranks no higher.
    pub open spec fn spec_le(&self, other: Scalar) -> bool {
        !self.spec_is_nan() && !other.spec_is_nan() && self.rank() <= other.rank()
    }

    /// `self > other`, which is `other < self`.
    pub open spec fn spec_gt(&self, other: Scalar) -> bool {
        other.spec_lt(*self)
    }

    /// Positive zero.
    pub open spec fn spec_zero() -> Scalar {
        Scalar { bits: 0 }
    }

    /// The number with the given bit pattern.
    pub fn from_bits(bits: u32) -> (result: Scalar)
        ensures
            result.bits == bits,
    {
        Scalar { bits }
    }

    /// The bit pattern of the number.
    pub fn to_bits(&self) -> (bits: u32)
        ensures
            bits == self.bits,
    {
        self.bits
    }

    /// Positive zero.
    pub fn zero() -> (result: Scalar)
        ensures
            result == Scalar::spec_zero(),
    {
        Scalar { bits: 0 }
    }

    fn magnitude(&self) -> (result: u32)
        ensures
            result == magnitude(self.bits),
    {
        if self.bits >= SIGN_BIT {
            self.bits - SIGN_BIT
        } else {
            self.bits
        }
    }

    fn signed_rank(&self) -> (result: i64)
        ensures
            result == self.rank(),
    {
        let magnitude: u32 = self.magnitude();
        if self.bits >= SIGN_BIT {
            -(magnitude as i64)
        } else {
            magnitude as i64
        }
    }

    /// Whether the pattern stands for no number at all.
    pub fn is_nan(&self) -> (result: bool)
        ensures
            result == self.spec_is_nan(),
    {
        self.magnitude() > INFINITY_BITS
    }

    /// Whether the number is zero, of either sign.
    pub fn is_zero(&self) -> (result: bool)
        ensures
            result == self.spec_is_zero(),
    {
        self.magnitude() == 0
    }

    /// Whether `self < other`. False where either is not a number.
    pub fn lt(&self, other: Scalar) -> (result: bool)
        ensures
            result == self.spec_lt(other),
    {
        !self.is_nan() && !other.is_nan() && self.signed_rank() < other.signed_rank()
    }

    /// Whether `self <= other`. False where either is not a number.
    pub fn le(&self, other: Scalar) -> (result: bool)
        ensures
            result == self.spec_le(other),
    {
        !self.is_nan() && !other.is_nan() && self.signed_rank() <= other.signed_rank()
    }

    /// Whether `self > other`. False where either is not a number.
    pub fn gt(&self, other: Scalar) -> (result: bool)
        ensures
            result == self.spec_gt(other),
    {
        other.lt(*self)
    }
}

/// `<` is a strict order: no number is below itself, no two are below each
/// other, and what is below a number is below all that it is below.
pub proof fn lemma_lt_is_a_strict_order(a: Scalar, b: Scalar, c: Scalar)
    ensures
        !a.spec_lt(a),
        a.spec_lt(b) ==> !b.spec_lt(a),
        a.spec_lt(b) && b.spec_lt(c) ==> a.spec_lt(c),
{
}

/// `<=` goes with `<`: it is transitive, alone and in a chain with `<`,
/// and it holds just when `<` does or both are numbers of one rank.
pub proof fn lemma_le_goes_with_lt(a: Scalar, b: Scalar, c: Scalar)
    ensures
        a.spec_le(b) <==> a.spec_lt(b) || (!a.spec_is_nan() && !b.spec_is_nan() && a.rank()
            == b.rank()),
        a.spec_le(b) && b.spec_le(c) ==> a.spec_le(c),
        a.spec_lt(b) && b.spec_le(c) ==> a.spec_lt(c),
        a.spec_le(b) && b.spec_lt(c) ==> a.spec_lt(c),
{
}

/// Of two numbers one is below the other or they have one rank; what is
/// not a number compares with nothing, not even with itself.
pub proof fn lemma_numbers_are_comparable(a: Scalar, b: Scalar)
    ensures
        !a.spec_is_nan() && !b.spec_is_nan() ==> a.spec_lt(b) || b.spec_lt(a) || a.rank()
            == b.rank(),
        a.spec_is_nan() || b.spec_is_nan() ==> !a.spec_lt(b) && !a.spec_le(b) && !a.spec_gt(b),
        (Scalar { bits: 0 }).rank() == (Scalar { bits: SIGN_BIT }).rank(),
{
}

/// How many patterns share one exponent: two to the power of 23.
pub const FRACTION_SPAN: u32 = 0x80_0000;

/// The number that a finite magnitude stands for, counted in units of two
/// to the power of -149, the smallest step between two numbers.
///
/// With exponent field `e` and fraction field `f`, that is `f` units where
/// `e` is zero, and `(2^23 + f) * 2^(e - 1)` units elsewhere. For the
/// magnitude of infinity the same rule gives a count beyond that of every
/// finite number.
pub open spec fn scaled_magnitude(magnitude: u32) -> nat {
    let exponent = magnitude as nat / FRACTION_SPAN as nat;
    let fraction = magnitude as nat % FRACTION_SPAN as nat;
    if exponent == 0 {
        fraction
    } else {
        (FRACTION_SPAN as nat + fraction) * pow2((exponent - 1) as nat)
    }
}

impl Scalar {
    /// Whether the pattern stands for a number that is not infinite.
    pub open spec fn spec_is_finite(&self) -> bool {
        magnitude(self.bits) < INFINITY_BITS
    }

    /// The number that the pattern stands for, counted in units of two to
    /// the power of -149; for an infinity, a count beyond that of every
    /// finite number, on its side of zero.
    pub open spec fn scaled_value(&self) -> int
        recommends
            !self.spec_is_nan(),
    {
        if sign_is_set(self.bits) {
            -(scaled_magnitude(magnitude(self.bits)) as int)
        } else {
            scaled_magnitude(magnitude(self.bits)) as int
        }
    }
}

/// A larger magnitude stands for a larger number.
pub proof fn lemma_scaled_magnitude_increases(a: u32, b: u32)
    requires
        a < b,
    ensures
        scaled_magnitude(a) < scaled_magnitude(b),
{
    let span = FRACTION_SPAN as nat;
    let ea = a as nat / span;
    let fa = a as nat % span;
    let eb = b as nat / span;
    let fb = b as nat % span;
    assert(a == ea * span + fa && b == eb * span + fb && fa < span && fb < span);
    assert(ea <= eb) by (nonlinear_arith)
        requires
            ea * span + fa < eb * span + fb,
            fa < span,
            fb < span,
    ;
    if ea == eb {
        if ea != 0 {
            let p = pow2((ea - 1) as nat);
            lemma_pow2_pos((ea - 1) as nat);
            assert((span + fa) * p < (span + fb) * p) by (nonlinear_arith)
                requires
                    fa < fb,
                    p > 0,
            ;
        }
    } else {
        let q = pow2((eb - 1) as nat);
        lemma_pow2_pos((eb - 1) as nat);
        assert(span * q <= (span + fb) * q) by (nonlinear_arith)
            requires
                q > 0,
        ;
        if ea == 0 {
            assert(span <= span * q) by (nonlinear_arith)
                requires
                    q > 0,
            ;
        } else {
            let p = pow2((ea - 1) as nat);
            lemma_pow2_pos((ea - 1) as nat);
            lemma_pow2_unfold(ea);
            assert(pow2(ea) == 2 * p);
            if ea < eb - 1 {
                lemma_pow2_strictly_increases(ea, (eb - 1) as nat);
            }
            assert(pow2(ea) <= q);
            assert((span + fa) * p < span * q) by (nonlinear_arith)
                requires
                    fa < span,
                    p > 0,
                    2 * p <= q,
            ;
        }
    }
}

/// The order by rank is the order of the numbers themselves, and two
/// patterns have one rank just when they stand for the same number.
pub proof fn lemma_rank_orders_values(a: Scalar, b: Scalar)
    requires
        !a.spec_is_nan(),
        !b.spec_is_nan(),
    ensures
        a.rank() < b.rank() <==> a.scaled_value() < b.scaled_value(),
        a.rank() == b.rank() <==> a.scaled_value() == b.scaled_value(),
{
    let ma = magnitude(a.bits);
    let mb = magnitude(b.bits);
    assert(scaled_magnitude(0) == 0);
    if ma < mb {
        lemma_scaled_magnitude_increases(ma, mb);
    }
    if mb < ma {
        lemma_scaled_magnitude_increases(mb, ma);
    }
    if 0 < ma {
        lemma_scaled_magnitude_increases(0, ma);
    }
    if 0 < mb {
        lemma_scaled_magnitude_increases(0, mb);
    }
}

/// Every finite number lies strictly between the two infinities.
pub proof fn lemma_infinities_bound_the_finite(a: Scalar)
    requires
        a.spec_is_finite(),
    ensures
        (Scalar { bits: (SIGN_BIT + INFINITY_BITS) as u32 }).spec_lt(a),
        a.spec_lt(Scalar { bits: INFINITY_BITS }),
        (Scalar { bits: (SIGN_BIT + INFINITY_BITS) as u32 }).scaled_value() < a.scaled_value(),
        a.scaled_value() < (Scalar { bits: INFINITY_BITS }).scaled_value(),
{
    lemma_rank_orders_values(Scalar { bits: (SIGN_BIT + INFINITY_BITS) as u32 }, a);
    lemma_rank_orders_values(a, Scalar { bits: INFINITY_BITS });
}

/// Three numbers: a position or a velocity in space.
#[derive(Clone, Copy, Debug)]
pub struct Vector {
    pub x: Scalar,
    pub y: Scalar,
    pub z: Scalar,
}

impl Vector {
    /// The vector whose three components are positive zero.
    pub open spec fn spec_zero() -> Vector {
        Vector { x: Scalar::spec_zero(), y: Scalar::spec_zero(), z: Scalar::spec_zero() }
    }

    /// Whether every component is zero, of either sign.
    pub open spec fn spec_is_zero(&self) -> bool {
        self.x.spec_is_zero() && self.y.spec_is_zero() && self.z.spec_is_zero()
    }

    /// The vector with the given components.
    pub fn new(x: Scalar, y: Scalar, z: Scalar) -> (result: Vector)
        ensures
            result == (Vector { x, y, z }),
    {
        Vector { x, y, z }
    }

    /// The vector whose three components are positive zero.
    pub fn zero() -> (result: Vector)
        ensures
            result == Vector::spec_zero(),
    {
        Vector { x: Scalar::zero(), y: Scalar::zero(), z: Scalar::zero() }
    }

    /// Whether every component is zero, of either sign.
    pub fn is_zero(&self) -> (result: bool)
        ensures
            result == self.spec_is_zero(),
    {
        self.x.is_zero() && self.y.is_zero() && self.z.is_zero()
    }
}

} // verus!
