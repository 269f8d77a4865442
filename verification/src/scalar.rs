//! Single-precision numbers held by their bit pattern.
//!
//! Lengths, positions and quaternion components travel through the library
//! exactly as the graphics hardware will receive them: as the 32 bits of an
//! IEEE 754 binary32 number. The library never rounds. The only arithmetic it
//! performs on a `Scalar` is arithmetic that can be carried out exactly on the
//! bit pattern: negation, comparison and halving.
//!
//! To reason about such a number, `Scalar::units` gives it as a whole number
//! of units of 2^-149, the spacing of the smallest subnormals. Every finite
//! binary32 number is an exact multiple of that unit.

use vstd::prelude::*;
use vstd::arithmetic::power2::{pow2, lemma_pow2_pos, lemma_pow2_unfold, lemma_pow2_strictly_increases, lemma2_to64};

verus! {

/// The bit that holds the sign.
pub const SIGN_BIT: u32 = 0x8000_0000;

/// The magnitude bits of an infinity; larger magnitudes are not numbers.
pub const INFINITY_BITS: u32 = 0x7f80_0000;

/// The weight of the implicit leading bit of a normal number's significand.
pub const HIDDEN_BIT: u32 = 0x0080_0000;

/// A binary32 number, identified by its bits.
///
/// Two scalars are equal when their bits are equal, so `+0` and `-0` are
/// different scalars although they denote the same number.
#[derive(Clone, Copy, Debug, PartialEq, Eq, Hash, Structural)]
pub struct Scalar {
    pub bits: u32,
}

/// The number, in units of 2^-149, that the 31 magnitude bits `m` denote.
///
/// The top eight bits are the exponent field and the low 23 the fraction. For
/// the magnitude of an infinity this is 2^277, above every finite number.
pub open spec fn magnitude_units(m: nat) -> nat {
    let exponent = m / (HIDDEN_BIT as nat);
    let fraction = m % (HIDDEN_BIT as nat);
    if exponent == 0 {
        fraction
    } else {
        (HIDDEN_BIT as nat + fraction) * pow2((exponent - 1) as nat)
    }
}

/// Half of `n`, rounded to the nearest whole number, ties going to the even one.
pub open spec fn half_to_even(n: nat) -> nat {
    if n % 2 == 1 && (n / 2) % 2 == 1 {
        n / 2 + 1
    } else {
        n / 2
    }
}

/// The magnitude bits of half the number with magnitude bits `m`: one step
/// down in the exponent where that is exact, a rounded shift of the
/// significand where the result is subnormal. Infinities and NaNs stay.
pub open spec fn halved_magnitude(m: nat) -> nat {
    if m >= INFINITY_BITS {
        m
    } else if m >= 2 * HIDDEN_BIT {
        (m - HIDDEN_BIT) as nat
    } else {
        half_to_even(m)
    }
}

/// Magnitudes below the second binade count their own units.
pub proof fn lemma_small_magnitude_units(m: nat)
    requires
        m < 2 * HIDDEN_BIT,
    ensures
        magnitude_units(m) == m,
{
    let h = HIDDEN_BIT as nat;
    if m >= h {
        assert(m / h == 1 && m % h == m - h);
        assert(pow2(0) == 1) by {
            lemma2_to64();
        }
        assert((h + (m - h)) * 1 == m);
    }
}

/// A larger bit pattern denotes a larger magnitude.
pub proof fn lemma_magnitude_units_increase(m1: nat, m2: nat)
    requires
        m1 < m2,
    ensures
        magnitude_units(m1) < magnitude_units(m2),
{
    let h = HIDDEN_BIT as nat;
    let e1 = m1 / h;
    let f1 = m1 % h;
    let e2 = m2 / h;
    let f2 = m2 % h;
    assert(e1 <= e2);
    if e1 == e2 {
        if e1 != 0 {
            let p = pow2((e1 - 1) as nat);
            lemma_pow2_pos((e1 - 1) as nat);
            assert((h + f1) * p < (h + f2) * p) by (nonlinear_arith)
                requires
                    f1 < f2,
                    p > 0,
            ;
        }
    } else {
        let p2 = pow2((e2 - 1) as nat);
        lemma_pow2_pos((e2 - 1) as nat);
        assert(h * p2 <= (h + f2) * p2) by (nonlinear_arith)
            requires
                p2 > 0,
        ;
        if e1 == 0 {
            assert(h <= h * p2) by (nonlinear_arith)
                requires
                    p2 > 0,
            ;
        } else {
            let p1 = pow2((e1 - 1) as nat);
            lemma_pow2_pos((e1 - 1) as nat);
            lemma_pow2_unfold(e1);
            assert(pow2(e1) == 2 * p1);
            if e1 < e2 - 1 {
                lemma_pow2_strictly_increases(e1, (e2 - 1) as nat);
            }
            assert(2 * p1 <= p2);
            assert((h + f1) * p1 < h * p2) by (nonlinear_arith)
                requires
                    f1 < h,
                    p1 > 0,
                    2 * p1 <= p2,
            ;
        }
    }
}

/// Only the all-zero magnitude denotes zero.
pub proof fn lemma_magnitude_units_zero(m: nat)
    ensures
        magnitude_units(m) == 0 <==> m == 0,
{
    lemma_small_magnitude_units(0);
    if m > 0 {
        lemma_magnitude_units_increase(0, m);
    }
}

impl Scalar {
    /// Whether the sign bit is set.
    pub open spec fn negative(self) -> bool {
        self.bits >= SIGN_BIT
    }

    /// The bits without the sign bit.
    pub open spec fn magnitude(self) -> nat {
        if self.bits >= SIGN_BIT {
            (self.bits - SIGN_BIT) as nat
        } else {
            self.bits as nat
        }
    }

    /// Whether the bits denote no number at all.
    pub open spec fn is_nan(self) -> bool {
        self.magnitude() > INFINITY_BITS
    }

    /// Whether the bits denote a finite number.
    pub open spec fn is_finite(self) -> bool {
        self.magnitude() < INFINITY_BITS
    }

    /// Whether the bits denote a finite number above zero.
    pub open spec fn is_positive(self) -> bool {
        0 < self.bits < INFINITY_BITS
    }

    /// The number as a multiple of 2^-149. Exact for every finite scalar; an
    /// infinity is given as plus or minus 2^277; meaningless for a NaN.
    pub open spec fn units(self) -> int {
        if self.negative() {
            -(magnitude_units(self.magnitude()) as int)
        } else {
            magnitude_units(self.magnitude()) as int
        }
    }

    /// The scalar with the opposite sign bit and the same magnitude.
    pub open spec fn negated(self) -> Scalar {
        if self.bits >= SIGN_BIT {
            Scalar { bits: (self.bits - SIGN_BIT) as u32 }
        } else {
            Scalar { bits: (self.bits + SIGN_BIT) as u32 }
        }
    }

    /// The scalar with the same sign bit and the halved magnitude.
    pub open spec fn halved(self) -> Scalar {
        if self.bits >= SIGN_BIT {
            Scalar { bits: (halved_magnitude(self.magnitude()) + SIGN_BIT) as u32 }
        } else {
            Scalar { bits: halved_magnitude(self.magnitude()) as u32 }
        }
    }

    /// Negation changes the sign of the number and nothing else.
    pub proof fn lemma_negated(self)
        ensures
            self.negated().negative() != self.negative(),
            self.negated().magnitude() == self.magnitude(),
            self.negated().units() == -self.units(),
            self.negated().negated() == self,
    {
    }

    /// Halving a finite number gives the finite number nearest to its half,
    /// of the same sign; it is the exact half wherever the number is an even
    /// count of units, as every number of magnitude 2^-125 or more is.
    pub proof fn lemma_halved(self)
        requires
            self.is_finite(),
        ensures
            self.halved().is_finite(),
            self.halved().negative() == self.negative(),
            magnitude_units(self.halved().magnitude()) == half_to_even(
                magnitude_units(self.magnitude()),
            ),
            self.units() % 2 == 0 ==> 2 * self.halved().units() == self.units(),
            self.magnitude() >= 2 * HIDDEN_BIT ==> self.units() % 2 == 0,
    {
        let m = self.magnitude();
        if m >= 2 * HIDDEN_BIT {
            lemma_exponent_step_halves(m);
        } else {
            lemma_small_magnitude_units(m);
            lemma_small_magnitude_units(half_to_even(m));
        }
    }

    /// The scalar with the given bits.
    pub fn from_bits(bits: u32) -> (r: Scalar)
        ensures
            r.bits == bits,
    {
        Scalar { bits }
    }

    /// The bits of the scalar.
    pub fn to_bits(self) -> (bits: u32)
        ensures
            bits == self.bits,
    {
        self.bits
    }

    /// Positive zero.
    pub fn zero() -> (r: Scalar)
        ensures
            r.bits == 0,
            r.units() == 0,
    {
        proof {
            lemma_small_magnitude_units(0);
        }
        Scalar { bits: 0 }
    }

    /// Tells whether the scalar is a finite number above zero.
    pub fn check_positive(self) -> (r: bool)
        ensures
            r == self.is_positive(),
            r == (self.is_finite() && self.units() > 0),
    {
        proof {
            lemma_magnitude_units_zero(self.magnitude());
        }
        0 < self.bits && self.bits < INFINITY_BITS
    }

    /// Tells whether the scalar is a finite number.
    pub fn check_finite(self) -> (r: bool)
        ensures
            r == self.is_finite(),
    {
        let magnitude: u32 = if self.bits >= SIGN_BIT {
            self.bits - SIGN_BIT
        } else {
            self.bits
        };
        magnitude < INFINITY_BITS
    }

    /// The number with the opposite sign. Exact: only the sign bit changes.
    pub fn neg(self) -> (r: Scalar)
        ensures
            r == self.negated(),
            r.negative() != self.negative(),
            r.magnitude() == self.magnitude(),
            r.units() == -self.units(),
    {
        if self.bits >= SIGN_BIT {
            Scalar { bits: self.bits - SIGN_BIT }
        } else {
            Scalar { bits: self.bits + SIGN_BIT }
        }
    }

    /// Half the number, rounded as the hardware rounds a multiplication by
    /// one half: to the nearest representable number, ties to even. The
    /// result is exact unless it is subnormal. An infinity or a NaN is
    /// returned unchanged.
    pub fn half(self) -> (r: Scalar)
        ensures
            r == self.halved(),
            !self.is_finite() ==> r == self,
            self.is_finite() ==> r.is_finite() && r.negative() == self.negative(),
            self.is_finite() ==> magnitude_units(r.magnitude()) == half_to_even(
                magnitude_units(self.magnitude()),
            ),
            self.is_finite() && self.units() % 2 == 0 ==> 2 * r.units() == self.units(),
    {
        let negative = self.bits >= SIGN_BIT;
        let magnitude: u32 = if negative {
            self.bits - SIGN_BIT
        } else {
            self.bits
        };
        proof {
            if self.is_finite() {
                self.lemma_halved();
            }
        }
        if magnitude >= INFINITY_BITS {
            return self;
        }
        let halved: u32 = if magnitude >= 2 * HIDDEN_BIT {
            magnitude - HIDDEN_BIT
        } else {
            let quotient: u32 = magnitude / 2;
            if magnitude % 2 == 1 && quotient % 2 == 1 {
                quotient + 1
            } else {
                quotient
            }
        };
        if negative {
            Scalar { bits: halved + SIGN_BIT }
        } else {
            Scalar { bits: halved }
        }
    }

    /// The order of the numbers: `true` exactly when neither is a NaN and
    /// `self` denotes a smaller number than `other`. The two zeros denote the
    /// same number.
    pub fn lt(self, other: Scalar) -> (r: bool)
        ensures
            r == (!self.is_nan() && !other.is_nan() && self.units() < other.units()),
    {
        let a_negative = self.bits >= SIGN_BIT;
        let b_negative = other.bits >= SIGN_BIT;
        let a: u32 = if a_negative {
            self.bits - SIGN_BIT
        } else {
            self.bits
        };
        let b: u32 = if b_negative {
            other.bits - SIGN_BIT
        } else {
            other.bits
        };
        if a > INFINITY_BITS || b > INFINITY_BITS {
            return false;
        }
        proof {
            lemma_magnitude_units_zero(a as nat);
            lemma_magnitude_units_zero(b as nat);
            if a < b {
                lemma_magnitude_units_increase(a as nat, b as nat);
            }
            if b < a {
                lemma_magnitude_units_increase(b as nat, a as nat);
            }
        }
        if a_negative {
            if b_negative {
                b < a
            } else {
                a != 0 || b != 0
            }
        } else {
            if b_negative {
                false
            } else {
                a < b
            }
        }
    }
}

/// Lowering the exponent field of a magnitude in the second binade or above
/// by one halves the number exactly.
pub proof fn lemma_exponent_step_halves(m: nat)
    requires
        m >= 2 * HIDDEN_BIT,
    ensures
        magnitude_units((m - HIDDEN_BIT) as nat) == half_to_even(magnitude_units(m)),
        2 * magnitude_units((m - HIDDEN_BIT) as nat) == magnitude_units(m),
{
    let h = HIDDEN_BIT as nat;
    let e = m / h;
    let f = m % h;
    let lower = (m - h) as nat;
    assert(lower / h == e - 1);
    assert(lower % h == f);
    let p = pow2((e - 2) as nat);
    lemma_pow2_unfold((e - 1) as nat);
    assert(pow2((e - 1) as nat) == 2 * p);
    assert((h + f) * (2 * p) == 2 * ((h + f) * p)) by (nonlinear_arith);
}

} // verus!
