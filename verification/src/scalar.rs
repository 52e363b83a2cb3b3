//! Single-precision numbers as bit patterns, with the tests that can be
//! decided on the encoding alone.

use vstd::prelude::*;
use vstd::arithmetic::power2::{pow2, lemma_pow2_pos, lemma_pow2_unfold,
    lemma_pow2_strictly_increases};

verus! {

/// The weight of the hidden bit of a fraction: 2 to the power 23.
pub const HIDDEN_BIT: u32 = 0x80_0000;

/// All bits of an encoding but the sign.
pub const MAGNITUDE_MASK: u32 = 0x7FFF_FFFF;

/// Encoding of positive infinity; every larger magnitude is a NaN.
pub const INFINITY_BITS: u32 = 0x7F80_0000;

/// Encoding of 0.0005, under which a magnitude counts as nothing.
pub const SMALLEST_MAGNITUDE_BITS: u32 = 0x3A03_126F;

/// Encoding of 0.00001, the dampening of an impulse.
pub const IMPULSE_DAMPENING_BITS: u32 = 0x3727_C5AC;

/// Encoding of the largest finite value, the cap of an uncapped momentum.
pub const UNBOUNDED_BITS: u32 = 0x7F7F_FFFF;

/// Encoding of 0.75, the share of the present heading in the blend.
pub const BLEND_WEIGHT_BITS: u32 = 0x3F40_0000;

/// An IEEE-754 single-precision number, held by its encoding.
///
/// `==` on two scalars compares encodings.
#[derive(Clone, Copy, Debug, PartialEq, Eq, Structural, Hash)]
pub struct Scalar {
    pub bits: u32,
}

impl Scalar {
    /// The encoding without its sign bit: the encoding of the absolute value.
    pub open spec fn magnitude(self) -> u32 {
        self.bits & MAGNITUDE_MASK
    }

    /// The exponent field of the encoding.
    pub open spec fn exponent_field(self) -> nat {
        (self.magnitude() / HIDDEN_BIT) as nat
    }

    /// The fraction field of the encoding.
    pub open spec fn fraction_field(self) -> nat {
        (self.magnitude() % HIDDEN_BIT) as nat
    }

    /// The absolute value of the number that the encoding stands for, in
    /// units of 2 to the power -149: the fraction alone where the exponent
    /// field is zero, and elsewhere the fraction with its hidden bit, doubled
    /// once for each step of the exponent field above one.
    pub open spec fn scaled_magnitude(self) -> nat {
        if self.exponent_field() == 0 {
            self.fraction_field()
        } else {
            (HIDDEN_BIT as nat + self.fraction_field()) * pow2((self.exponent_field() - 1) as nat)
        }
    }

    pub open spec fn is_nan_spec(self) -> bool {
        self.magnitude() > INFINITY_BITS
    }

    pub open spec fn is_finite_spec(self) -> bool {
        self.magnitude() < INFINITY_BITS
    }

    pub open spec fn is_zero_spec(self) -> bool {
        self.magnitude() == 0
    }

    /// `|self| < |bound|` as IEEE-754 compares: false when either is a NaN.
    /// Magnitudes of numbers are ordered as their encodings are.
    pub open spec fn abs_below_spec(self, bound: Scalar) -> bool {
        !self.is_nan_spec() && !bound.is_nan_spec() && self.magnitude() < bound.magnitude()
    }

    /// `|self| > |bound|` as IEEE-754 compares: false when either is a NaN.
    pub open spec fn abs_exceeds_spec(self, bound: Scalar) -> bool {
        !self.is_nan_spec() && !bound.is_nan_spec() && self.magnitude() > bound.magnitude()
    }

    pub open spec fn zero_spec() -> Scalar {
        Scalar { bits: 0 }
    }

    pub open spec fn smallest_magnitude_spec() -> Scalar {
        Scalar { bits: SMALLEST_MAGNITUDE_BITS }
    }

    pub fn from_bits(bits: u32) -> (r: Scalar)
        ensures
            r.bits == bits,
    {
        Scalar { bits }
    }

    pub fn to_bits(self) -> (r: u32)
        ensures
            r == self.bits,
    {
        self.bits
    }

    /// Positive zero.
    pub fn zero() -> (r: Scalar)
        ensures
            r == Scalar::zero_spec(),
            r.is_zero_spec(),
            r.is_finite_spec(),
    {
        assert(0u32 & 0x7FFF_FFFF == 0) by (bit_vector);
        Scalar { bits: 0 }
    }

    /// The threshold under which a magnitude counts as nothing.
    pub fn smallest_magnitude() -> (r: Scalar)
        ensures
            r == Scalar::smallest_magnitude_spec(),
    {
        Scalar { bits: SMALLEST_MAGNITUDE_BITS }
    }

    pub fn is_nan(self) -> (r: bool)
        ensures
            r == self.is_nan_spec(),
    {
        (self.bits & MAGNITUDE_MASK) > INFINITY_BITS
    }

    pub fn is_finite(self) -> (r: bool)
        ensures
            r == self.is_finite_spec(),
    {
        (self.bits & MAGNITUDE_MASK) < INFINITY_BITS
    }

    pub fn is_zero(self) -> (r: bool)
        ensures
            r == self.is_zero_spec(),
    {
        (self.bits & MAGNITUDE_MASK) == 0
    }

    pub fn abs_below(self, bound: Scalar) -> (r: bool)
        ensures
            r == self.abs_below_spec(bound),
    {
        let mine: u32 = self.bits & MAGNITUDE_MASK;
        let other: u32 = bound.bits & MAGNITUDE_MASK;
        mine <= INFINITY_BITS && other <= INFINITY_BITS && mine < other
    }

    pub fn abs_exceeds(self, bound: Scalar) -> (r: bool)
        ensures
            r == self.abs_exceeds_spec(bound),
    {
        let mine: u32 = self.bits & MAGNITUDE_MASK;
        let other: u32 = bound.bits & MAGNITUDE_MASK;
        mine <= INFINITY_BITS && other <= INFINITY_BITS && mine > other
    }
}

proof fn lemma_larger_encoding_is_larger(a: Scalar, b: Scalar)
    requires
        a.magnitude() < b.magnitude(),
    ensures
        a.scaled_magnitude() < b.scaled_magnitude(),
{
    let ea = a.exponent_field();
    let eb = b.exponent_field();
    let fa = a.fraction_field() as int;
    let fb = b.fraction_field() as int;
    let k = HIDDEN_BIT as int;
    assert(ea < eb || (ea == eb && fa < fb));
    if ea == eb {
        if ea > 0 {
            let p = pow2((ea - 1) as nat) as int;
            lemma_pow2_pos((ea - 1) as nat);
            assert((k + fa) * p < (k + fb) * p) by (nonlinear_arith)
                requires
                    fa < fb,
                    p > 0,
            ;
        }
    } else {
        let q = pow2((eb - 1) as nat) as int;
        lemma_pow2_pos((eb - 1) as nat);
        assert(k * q <= (k + fb) * q) by (nonlinear_arith)
            requires
                fb >= 0,
                q > 0,
        ;
        if ea == 0 {
            assert(k <= k * q) by (nonlinear_arith)
                requires
                    k > 0,
                    q >= 1,
            ;
        } else {
            let p = pow2((ea - 1) as nat) as int;
            let r = pow2(ea) as int;
            lemma_pow2_pos((ea - 1) as nat);
            lemma_pow2_unfold(ea);
            if ea < eb - 1 {
                lemma_pow2_strictly_increases(ea, (eb - 1) as nat);
            }
            assert(r <= q);
            assert((k + fa) * p < k * r) by (nonlinear_arith)
                requires
                    fa < k,
                    p > 0,
                    r == 2 * p,
            ;
            assert(k * r <= k * q) by (nonlinear_arith)
                requires
                    k > 0,
                    r <= q,
            ;
        }
    }
}

/// The encodings without their signs are ordered as the absolute values of
/// the numbers they stand for, so a test on magnitudes can compare the
/// encodings.
pub proof fn lemma_magnitudes_are_ordered_as_encodings(a: Scalar, b: Scalar)
    ensures
        a.magnitude() < b.magnitude() <==> a.scaled_magnitude() < b.scaled_magnitude(),
        a.magnitude() == b.magnitude() <==> a.scaled_magnitude() == b.scaled_magnitude(),
{
    if a.magnitude() < b.magnitude() {
        lemma_larger_encoding_is_larger(a, b);
    } else if b.magnitude() < a.magnitude() {
        lemma_larger_encoding_is_larger(b, a);
    }
}

/// A magnitude under another, and one over another, say of two numbers what
/// their names say: the absolute value of the first is the smaller, or the
/// larger.
pub proof fn lemma_magnitude_tests(a: Scalar, b: Scalar)
    requires
        !a.is_nan_spec(),
        !b.is_nan_spec(),
    ensures
        a.abs_below_spec(b) <==> a.scaled_magnitude() < b.scaled_magnitude(),
        a.abs_exceeds_spec(b) <==> a.scaled_magnitude() > b.scaled_magnitude(),
        a.is_zero_spec() <==> a.scaled_magnitude() == 0,
{
    lemma_magnitudes_are_ordered_as_encodings(a, b);
    lemma_magnitudes_are_ordered_as_encodings(b, a);
    lemma_magnitudes_are_ordered_as_encodings(a, Scalar { bits: 0 });
    assert(0u32 & 0x7FFF_FFFF == 0) by (bit_vector);
}

} // verus!
