//! Scalars and the constants shared by the whole data model.
use vstd::prelude::*;
use vstd::arithmetic::power2::{lemma_pow2_pos, lemma_pow2_strictly_increases, lemma_pow2_unfold, pow2};
use vstd::std_specs::cmp::PartialEqSpecImpl;
use vstd::std_specs::ops::NegSpecImpl;

pub mod algebra;
pub mod bsdf;
pub mod physics;
pub mod optics;
pub mod geometry;
pub mod light;
pub mod material;
pub mod object;
pub mod surface;

verus! {

/// The bit that carries the sign of a binary64 number.
pub const SIGN_BIT: u64 = 0x8000_0000_0000_0000;

/// The bit pattern of positive infinity; every larger magnitude is a NaN.
pub const INFINITY_BITS: u64 = 0x7FF0_0000_0000_0000;

/// The weight of the lowest bit of the exponent, 2^52: what stands below it
/// is the fraction.
pub const HIDDEN_BIT: u64 = 0x0010_0000_0000_0000;

/// The bit pattern of the number one.
pub const ONE_BITS: u64 = 0x3FF0_0000_0000_0000;

/// The bit pattern of the number two.
pub const TWO_BITS: u64 = 0x4000_0000_0000_0000;

/// The bit pattern of one third, as the division of 1 by 3 gives it.
pub const ONE_THIRD_BITS: u64 = 0x3FD5_5555_5555_5555;

/// The bit pattern of 0.0001, the distance below which two points count as
/// the same point (100 micrometres).
pub const NEARLY0_BITS: u64 = 0x3F1A_36E2_EB1C_432D;

/// A real quantity, held as the bit pattern of an IEEE-754 binary64 number.
///
/// The sign bit and the remaining 63 bits (the magnitude) order the numbers
/// exactly as their values do: among numbers of one sign a larger magnitude
/// is further from zero.  `key` puts that into one integer, `scaled` says
/// which number a finite pattern stands for, and
/// `lemma_order_is_the_order_of_values` that the two agree.
#[derive(Clone, Copy, Debug)]
pub struct Flt {
    pub bits: u64,
}

impl Flt {
    /// The bits without the sign bit.
    pub open spec fn magnitude(self) -> int {
        if self.bits >= SIGN_BIT {
            self.bits - SIGN_BIT
        } else {
            self.bits as int
        }
    }

    /// The sign bit is set (this may hold of a zero and of a NaN).
    pub open spec fn negative(self) -> bool {
        self.bits >= SIGN_BIT
    }

    /// The pattern is no number.
    pub open spec fn nan(self) -> bool {
        self.magnitude() > INFINITY_BITS
    }

    /// An integer that grows strictly with the value of the number.  Both
    /// zeros have key 0.
    pub open spec fn key(self) -> int {
        if self.negative() {
            -self.magnitude()
        } else {
            self.magnitude()
        }
    }

    /// `self < other` as IEEE-754 defines it: false when either is a NaN.
    pub open spec fn less(self, other: Flt) -> bool {
        !self.nan() && !other.nan() && self.key() < other.key()
    }

    /// `self <= other` as IEEE-754 defines it: false when either is a NaN.
    pub open spec fn at_most(self, other: Flt) -> bool {
        self.less(other) || self.same(other)
    }

    /// `self == other` as IEEE-754 defines it: false when either is a NaN,
    /// true of the two zeros.
    pub open spec fn same(self, other: Flt) -> bool {
        !self.nan() && !other.nan() && self.key() == other.key()
    }

    /// The number with the opposite sign.
    pub open spec fn negated(self) -> Flt {
        if self.bits >= SIGN_BIT {
            Flt { bits: (self.bits - SIGN_BIT) as u64 }
        } else {
            Flt { bits: (self.bits + SIGN_BIT) as u64 }
        }
    }

    pub open spec fn spec_zero() -> Flt {
        Flt { bits: 0 }
    }

    pub open spec fn spec_one() -> Flt {
        Flt { bits: ONE_BITS }
    }

    pub open spec fn spec_nearly0() -> Flt {
        Flt { bits: NEARLY0_BITS }
    }

    /// The number zero (with the sign bit clear).
    #[verifier::when_used_as_spec(spec_zero)]
    pub fn zero() -> (r: Flt)
        ensures
            r == Flt::spec_zero(),
    {
        Flt { bits: 0 }
    }

    /// The number one.
    #[verifier::when_used_as_spec(spec_one)]
    pub fn one() -> (r: Flt)
        ensures
            r == Flt::spec_one(),
    {
        Flt { bits: ONE_BITS }
    }

    /// The distance 0.0001.
    #[verifier::when_used_as_spec(spec_nearly0)]
    pub fn nearly0() -> (r: Flt)
        ensures
            r == Flt::spec_nearly0(),
    {
        Flt { bits: NEARLY0_BITS }
    }

    pub fn from_bits(bits: u64) -> (r: Flt)
        ensures
            r.bits == bits,
    {
        Flt { bits }
    }

    pub fn to_bits(&self) -> (r: u64)
        ensures
            r == self.bits,
    {
        self.bits
    }

    fn abs_bits(&self) -> (r: u64)
        ensures
            r == self.magnitude(),
    {
        if self.bits >= SIGN_BIT {
            self.bits - SIGN_BIT
        } else {
            self.bits
        }
    }

    pub fn is_nan(&self) -> (r: bool)
        ensures
            r == self.nan(),
    {
        self.abs_bits() > INFINITY_BITS
    }

    /// `self < other`.
    pub fn lt(&self, other: &Flt) -> (r: bool)
        ensures
            r == self.less(*other),
    {
        if self.is_nan() || other.is_nan() {
            return false;
        }
        let a: u64 = self.abs_bits();
        let b: u64 = other.abs_bits();
        if self.bits >= SIGN_BIT {
            if other.bits >= SIGN_BIT {
                b < a
            } else {
                a != 0 || b != 0
            }
        } else {
            if other.bits >= SIGN_BIT {
                false
            } else {
                a < b
            }
        }
    }

    /// `self <= other`.
    pub fn le(&self, other: &Flt) -> (r: bool)
        ensures
            r == self.at_most(*other),
    {
        self.lt(other) || *self == *other
    }

    /// `self > other`.
    pub fn gt(&self, other: &Flt) -> (r: bool)
        ensures
            r == other.less(*self),
    {
        other.lt(self)
    }

    /// `self == 0.0`: true of both zeros.
    pub fn is_zero(&self) -> (r: bool)
        ensures
            r == self.same(Flt::zero()),
    {
        self.abs_bits() == 0
    }

    /// `self == 1.0`.
    pub fn is_one(&self) -> (r: bool)
        ensures
            r == self.same(Flt::one()),
    {
        self.bits == ONE_BITS
    }

}

/// `-x`: the sign bit flipped, whatever the pattern is.
impl core::ops::Neg for Flt {
    type Output = Flt;

    fn neg(self) -> (r: Flt) {
        if self.bits >= SIGN_BIT {
            Flt { bits: self.bits - SIGN_BIT }
        } else {
            Flt { bits: self.bits + SIGN_BIT }
        }
    }
}

impl NegSpecImpl for Flt {
    open spec fn obeys_neg_spec() -> bool {
        true
    }

    open spec fn neg_req(self) -> bool {
        true
    }

    open spec fn neg_spec(self) -> Flt {
        self.negated()
    }
}

impl PartialEq for Flt {
    fn eq(&self, other: &Flt) -> (r: bool) {
        if self.is_nan() || other.is_nan() {
            false
        } else {
            let a: u64 = self.abs_bits();
            let b: u64 = other.abs_bits();
            a == b && (a == 0 || (self.bits >= SIGN_BIT) == (other.bits >= SIGN_BIT))
        }
    }
}

impl PartialEqSpecImpl for Flt {
    open spec fn obeys_eq_spec() -> bool {
        true
    }

    open spec fn eq_spec(&self, other: &Flt) -> bool {
        self.same(*other)
    }
}

/// Negating twice gives the number back, bit for bit.
pub proof fn lemma_neg_involution(x: Flt)
    ensures
        x.negated().negated() == x,
{
}

/// Negation turns the order round: `-b < -a` exactly when `a < b`.
pub proof fn lemma_neg_reverses_order(a: Flt, b: Flt)
    ensures
        b.negated().less(a.negated()) == a.less(b),
        a.negated().same(b.negated()) == a.same(b),
{
}

/// `<` is irreflexive and transitive, and of two numbers (no NaN) exactly
/// one of `a < b`, `a == b`, `b < a` holds.
pub proof fn lemma_order(a: Flt, b: Flt, c: Flt)
    ensures
        !a.less(a),
        a.less(b) && b.less(c) ==> a.less(c),
        !a.nan() && !b.nan() ==> (a.less(b) || a.same(b) || b.less(a)),
        !(a.less(b) && b.less(a)),
        !(a.less(b) && a.same(b)),
{
}

impl Flt {
    /// The pattern stands for a number that is not infinite.
    pub open spec fn finite(self) -> bool {
        self.magnitude() < INFINITY_BITS
    }

    /// The exponent field: the eleven bits below the sign bit.
    pub open spec fn exponent(self) -> int {
        self.magnitude() / (HIDDEN_BIT as int)
    }

    /// The fraction field: the lowest 52 bits.
    pub open spec fn fraction(self) -> int {
        self.magnitude() % (HIDDEN_BIT as int)
    }

    /// The distance from zero of the number that a finite pattern stands
    /// for, counted in units of 2^-1074, the smallest number above zero.
    /// With the exponent field zero it is the fraction (a subnormal number);
    /// otherwise the fraction below a leading one, times two for each step
    /// of the exponent field above one.
    pub open spec fn scaled_magnitude(self) -> int {
        if self.exponent() == 0 {
            self.fraction()
        } else {
            (HIDDEN_BIT + self.fraction()) * pow2((self.exponent() - 1) as nat)
        }
    }

    /// The number that a finite pattern stands for, in units of 2^-1074.
    pub open spec fn scaled(self) -> int {
        if self.negative() {
            -self.scaled_magnitude()
        } else {
            self.scaled_magnitude()
        }
    }
}

/// Of two patterns the one with the larger magnitude stands for the number
/// further from zero.
pub proof fn lemma_scaled_magnitude_grows(a: Flt, b: Flt)
    requires
        a.magnitude() < b.magnitude(),
    ensures
        0 <= a.scaled_magnitude() < b.scaled_magnitude(),
{
    let h = HIDDEN_BIT as int;
    let (ma, mb) = (a.magnitude(), b.magnitude());
    let (ea, eb) = (a.exponent(), b.exponent());
    let (fa, fb) = (a.fraction(), b.fraction());
    assert(ma == ea * h + fa && 0 <= fa < h && 0 <= ea) by (nonlinear_arith)
        requires
            ea == ma / h,
            fa == ma % h,
            h > 0,
            ma >= 0,
    ;
    assert(mb == eb * h + fb && 0 <= fb < h && 0 <= eb) by (nonlinear_arith)
        requires
            eb == mb / h,
            fb == mb % h,
            h > 0,
            mb >= 0,
    ;
    assert(ea <= eb) by (nonlinear_arith)
        requires
            ma < mb,
            ma == ea * h + fa,
            mb == eb * h + fb,
            0 <= fa,
            fb < h,
            h > 0,
    ;
    if ea > 0 {
        lemma_pow2_pos((ea - 1) as nat);
    }
    lemma_pow2_pos((eb - 1) as nat);
    let pa = pow2((ea - 1) as nat) as int;
    let pb = pow2((eb - 1) as nat) as int;
    if ea == eb {
        assert(fa < fb);
        if ea > 0 {
            assert((h + fa) * pa < (h + fb) * pa) by (nonlinear_arith)
                requires
                    fa < fb,
                    pa > 0,
            ;
            assert(0 <= (h + fa) * pa) by (nonlinear_arith)
                requires
                    0 <= fa,
                    h > 0,
                    pa > 0,
            ;
        }
    } else {
        assert(h * 1 <= (h + fb) * pb) by (nonlinear_arith)
            requires
                0 <= fb,
                h > 0,
                pb >= 1,
        ;
        if ea > 0 {
            let pa2 = pow2(ea as nat) as int;
            lemma_pow2_unfold(ea as nat);
            if ea < eb - 1 {
                lemma_pow2_strictly_increases(ea as nat, (eb - 1) as nat);
            }
            assert(pa2 <= pb);
            assert((h + fa) * pa < h * pa2) by (nonlinear_arith)
                requires
                    fa < h,
                    pa > 0,
                    pa2 == 2 * pa,
            ;
            assert(h * pa2 <= (h + fb) * pb) by (nonlinear_arith)
                requires
                    0 <= fb,
                    h > 0,
                    0 < pa2 <= pb,
            ;
            assert(0 <= (h + fa) * pa) by (nonlinear_arith)
                requires
                    0 <= fa,
                    h > 0,
                    pa > 0,
            ;
        }
    }
}

/// The order of the patterns is the order of the numbers: of two finite
/// patterns, `a < b` holds exactly where the number of `a` is below that of
/// `b`, and `a == b` exactly where the two numbers are one.
pub proof fn lemma_order_is_the_order_of_values(a: Flt, b: Flt)
    requires
        a.finite(),
        b.finite(),
    ensures
        a.less(b) == (a.scaled() < b.scaled()),
        a.same(b) == (a.scaled() == b.scaled()),
        a.at_most(b) == (a.scaled() <= b.scaled()),
{
    if a.magnitude() < b.magnitude() {
        lemma_scaled_magnitude_grows(a, b);
    } else if b.magnitude() < a.magnitude() {
        lemma_scaled_magnitude_grows(b, a);
    }
    let zero = Flt { bits: 0 };
    if 0 < a.magnitude() {
        lemma_scaled_magnitude_grows(zero, a);
    }
    if 0 < b.magnitude() {
        lemma_scaled_magnitude_grows(zero, b);
    }
    assert(zero.scaled_magnitude() == 0);
}

/// Negation is negation of the number: the negated pattern stands for the
/// number with the opposite sign.
pub proof fn lemma_negated_value(a: Flt)
    ensures
        a.negated().magnitude() == a.magnitude(),
        a.negated().scaled() == -a.scaled(),
{
}

/// The patterns of zero, of one and of the nearly-zero distance stand for
/// 0, for 2^1074 units and for a number between them.
pub proof fn lemma_constants()
    ensures
        Flt::zero().scaled() == 0,
        Flt::one().scaled() == HIDDEN_BIT * pow2(1022),
        Flt::one().finite(),
        Flt::nearly0().finite(),
        Flt::zero().less(Flt::nearly0()),
        Flt::nearly0().less(Flt::one()),
{
    assert(Flt::one().exponent() == 1023 && Flt::one().fraction() == 0);
}

} // verus!
