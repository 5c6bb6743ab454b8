//! Binary64 numbers by their bit pattern: classification and ordering.

use vstd::prelude::*;
use vstd::arithmetic::power2::{
    lemma2_to64, lemma_pow2_pos, lemma_pow2_strictly_increases, lemma_pow2_unfold, pow2,
};

verus! {

/// The sign bit of a binary64 encoding.
pub const SIGN_BIT: u64 = 0x8000_0000_0000_0000;

/// The encoding of positive infinity; every larger magnitude is a NaN.
pub const INFINITY_BITS: u64 = 0x7ff0_0000_0000_0000;

/// The encoding of the number one.
pub const ONE_BITS: u64 = 0x3ff0_0000_0000_0000;

/// Two to the fifty-second: the number of fractions under one exponent.
pub const FRACTION_SPAN: u64 = 0x10_0000_0000_0000;

/// A binary64 number, held as the 64 bits of its encoding: one sign bit,
/// eleven exponent bits, fifty-two fraction bits.
///
/// `==` on amounts compares encodings, so it tells the two zeros apart and
/// finds a NaN equal to itself. The numeric comparisons are the methods
/// below.
#[derive(Clone, Copy, Debug, PartialEq, Eq, Structural)]
pub struct Amount {
    pub bits: u64,
}

impl Amount {
    /// The encoding with the sign bit cleared.
    pub open spec fn magnitude(self) -> u64 {
        if self.bits >= SIGN_BIT {
            (self.bits - SIGN_BIT) as u64
        } else {
            self.bits
        }
    }

    /// The sign bit is set. This holds of negative zero and of some NaNs too.
    pub open spec fn sign_negative(self) -> bool {
        self.bits >= SIGN_BIT
    }

    pub open spec fn nan(self) -> bool {
        self.magnitude() > INFINITY_BITS
    }

    /// Neither a NaN nor an infinity.
    pub open spec fn finite(self) -> bool {
        self.magnitude() < INFINITY_BITS
    }

    /// Positive or negative zero.
    pub open spec fn zero_valued(self) -> bool {
        self.magnitude() == 0
    }

    /// Where the amount stands on the number line, for amounts that are not
    /// NaN: binary64 encodings of one sign grow with the number they encode,
    /// so the signed magnitude orders them, and it gives both zeros the same
    /// place.
    pub open spec fn rank(self) -> int {
        if self.sign_negative() {
            -(self.magnitude() as int)
        } else {
            self.magnitude() as int
        }
    }

    /// The binary64 comparison `self > other`: false when either is a NaN.
    pub open spec fn greater_than(self, other: Amount) -> bool {
        !self.nan() && !other.nan() && self.rank() > other.rank()
    }

    /// The binary64 comparison `self == 1.0`.
    pub open spec fn equals_one(self) -> bool {
        self.bits == ONE_BITS
    }

    /// The binary64 comparison `self > 0.0`; positive infinity passes it.
    pub open spec fn positive(self) -> bool {
        !self.nan() && self.rank() > 0
    }

    /// A usable conversion rate or investment: finite and above zero.
    pub open spec fn positive_finite(self) -> bool {
        self.finite() && self.rank() > 0
    }

    pub fn from_bits(bits: u64) -> (r: Amount)
        ensures
            r.bits == bits,
    {
        Amount { bits }
    }

    pub fn to_bits(self) -> (r: u64)
        ensures
            r == self.bits,
    {
        self.bits
    }

    /// Positive zero.
    pub fn zero() -> (r: Amount)
        ensures
            r.bits == 0,
    {
        Amount { bits: 0 }
    }

    pub fn one() -> (r: Amount)
        ensures
            r.bits == ONE_BITS,
    {
        Amount { bits: ONE_BITS }
    }

    fn magnitude_bits(self) -> (r: u64)
        ensures
            r == self.magnitude(),
    {
        if self.bits >= SIGN_BIT {
            self.bits - SIGN_BIT
        } else {
            self.bits
        }
    }

    pub fn is_nan(self) -> (r: bool)
        ensures
            r == self.nan(),
    {
        self.magnitude_bits() > INFINITY_BITS
    }

    pub fn is_finite(self) -> (r: bool)
        ensures
            r == self.finite(),
    {
        self.magnitude_bits() < INFINITY_BITS
    }

    pub fn is_one(self) -> (r: bool)
        ensures
            r == self.equals_one(),
    {
        self.bits == ONE_BITS
    }

    pub fn is_positive(self) -> (r: bool)
        ensures
            r == self.positive(),
    {
        0 < self.bits && self.bits <= INFINITY_BITS
    }

    pub fn is_positive_finite(self) -> (r: bool)
        ensures
            r == self.positive_finite(),
    {
        0 < self.bits && self.bits < INFINITY_BITS
    }

    /// Whether `self > other` as binary64 numbers.
    pub fn exceeds(self, other: Amount) -> (r: bool)
        ensures
            r == self.greater_than(other),
    {
        if self.is_nan() || other.is_nan() {
            return false;
        }
        let mine = self.magnitude_bits();
        let theirs = other.magnitude_bits();
        if self.bits >= SIGN_BIT {
            other.bits >= SIGN_BIT && mine < theirs
        } else if other.bits >= SIGN_BIT {
            mine > 0 || theirs > 0
        } else {
            mine > theirs
        }
    }
}

/// What an encoding stands for. Every finite binary64 number is a whole
/// multiple of two to the minus 1074, the smallest positive one, so a finite
/// amount is given here as a whole number of such units.
impl Amount {
    /// The eleven exponent bits.
    pub open spec fn exponent_field(self) -> nat {
        (self.magnitude() / FRACTION_SPAN) as nat
    }

    /// The fifty-two fraction bits.
    pub open spec fn fraction(self) -> nat {
        (self.magnitude() % FRACTION_SPAN) as nat
    }

    /// The fraction, with the leading one that every exponent but the
    /// lowest implies.
    pub open spec fn significand(self) -> nat {
        if self.exponent_field() == 0 {
            self.fraction()
        } else {
            FRACTION_SPAN as nat + self.fraction()
        }
    }

    /// The power of two, in units, that the significand is multiplied by.
    pub open spec fn scale(self) -> nat {
        if self.exponent_field() == 0 {
            0
        } else {
            (self.exponent_field() - 1) as nat
        }
    }

    /// The absolute value of a finite amount, in units.
    pub open spec fn size(self) -> nat {
        self.significand() * pow2(self.scale())
    }

    /// The number that a finite amount encodes, in units.
    pub open spec fn units(self) -> int {
        if self.sign_negative() {
            -(self.size() as int)
        } else {
            self.size() as int
        }
    }

    /// `self > other` as numbers: never with a NaN; an infinity is above
    /// or below everything but itself; finite amounts go by their units.
    pub open spec fn numerically_above(self, other: Amount) -> bool {
        if self.nan() || other.nan() {
            false
        } else if !self.finite() {
            !self.sign_negative() && (other.finite() || other.sign_negative())
        } else if !other.finite() {
            other.sign_negative()
        } else {
            self.units() > other.units()
        }
    }
}

/// Among finite amounts, a larger magnitude encodes a larger absolute value.
pub proof fn size_grows_with_magnitude(a: Amount, b: Amount)
    requires
        a.magnitude() < b.magnitude(),
        b.finite(),
    ensures
        a.size() < b.size(),
{
    let span = FRACTION_SPAN as int;
    let ea = a.exponent_field();
    let eb = b.exponent_field();
    let fa = a.fraction() as int;
    let fb = b.fraction() as int;
    let pa = pow2(a.scale()) as int;
    let pb = pow2(b.scale()) as int;
    lemma_pow2_pos(a.scale());
    lemma_pow2_pos(b.scale());
    lemma2_to64();
    assert(a.magnitude() == ea * span + fa);
    assert(b.magnitude() == eb * span + fb);
    if ea == eb {
        assert(a.significand() < b.significand());
        assert(a.significand() * pa < b.significand() * pa) by (nonlinear_arith)
            requires
                a.significand() < b.significand(),
                pa > 0,
        ;
    } else {
        assert(ea < eb) by (nonlinear_arith)
            requires
                ea * span + fa < eb * span + fb,
                0 <= fa < span,
                0 <= fb < span,
                ea != eb,
        ;
        assert(span * pb <= b.significand() * pb) by (nonlinear_arith)
            requires
                span <= b.significand(),
                pb > 0,
        ;
        if ea == 0 {
            assert(a.size() == fa);
            assert(span <= span * pb) by (nonlinear_arith)
                requires
                    pb >= 1,
                    span > 0,
            ;
        } else {
            lemma_pow2_unfold(ea);
            assert(pow2(ea) == 2 * pa);
            if ea < b.scale() {
                lemma_pow2_strictly_increases(ea, b.scale());
            }
            assert(pow2(ea) <= pb);
            assert(a.significand() * pa < span * (2 * pa)) by (nonlinear_arith)
                requires
                    a.significand() < 2 * span,
                    pa > 0,
            ;
            assert(span * (2 * pa) <= span * pb) by (nonlinear_arith)
                requires
                    2 * pa <= pb,
                    span > 0,
            ;
        }
    }
}

/// Positive zero encodes the number zero.
proof fn zero_has_no_size()
    ensures
        (Amount { bits: 0 }).size() == 0,
{
    let zero = Amount { bits: 0 };
    assert(zero.significand() == 0);
    assert(zero.size() == 0) by (nonlinear_arith)
        requires
            zero.size() == zero.significand() * pow2(zero.scale()),
            zero.significand() == 0,
    ;
}

/// Only the two zeros encode the number zero.
pub proof fn size_zero_is_zero(a: Amount)
    requires
        a.finite(),
    ensures
        a.size() == 0 <==> a.zero_valued(),
{
    zero_has_no_size();
    if a.magnitude() > 0 {
        size_grows_with_magnitude(Amount { bits: 0 }, a);
    } else {
        assert(a.significand() == 0);
        assert(a.size() == 0) by (nonlinear_arith)
            requires
                a.size() == a.significand() * pow2(a.scale()),
                a.significand() == 0,
        ;
    }
}

/// Finite amounts stand on the number line in the order of their ranks.
pub proof fn rank_follows_units(a: Amount, b: Amount)
    requires
        a.finite(),
        b.finite(),
    ensures
        a.rank() < b.rank() <==> a.units() < b.units(),
        a.rank() == b.rank() <==> a.units() == b.units(),
{
    size_zero_is_zero(a);
    size_zero_is_zero(b);
    if a.magnitude() < b.magnitude() {
        size_grows_with_magnitude(a, b);
    } else if b.magnitude() < a.magnitude() {
        size_grows_with_magnitude(b, a);
    } else {
        assert(a.size() == b.size());
    }
}

/// The comparison by rank is the comparison of the numbers encoded.
pub proof fn greater_than_is_numeric(a: Amount, b: Amount)
    ensures
        a.greater_than(b) == a.numerically_above(b),
{
    if a.finite() && b.finite() {
        rank_follows_units(b, a);
    }
}

/// The one encoding that passes for one encodes the number one: two to the
/// 1074th units.
pub proof fn equals_one_is_numeric(a: Amount)
    ensures
        a.equals_one() <==> a.finite() && a.units() == pow2(1074),
{
    let one = Amount { bits: ONE_BITS };
    lemma2_to64();
    assert(one.exponent_field() == 1023 && one.fraction() == 0);
    assert(one.size() == FRACTION_SPAN * pow2(1022));
    lemma_pow2_adds_fraction_span();
    assert(one.units() == pow2(1074));
    if a.finite() {
        rank_follows_units(a, one);
    }
}

/// Two to the 1074th is two to the fifty-second times two to the 1022nd.
proof fn lemma_pow2_adds_fraction_span()
    ensures
        FRACTION_SPAN * pow2(1022) == pow2(1074),
{
    vstd::arithmetic::power2::lemma2_to64_rest();
    vstd::arithmetic::power2::lemma_pow2_adds(52, 1022);
}

/// A usable rate is a finite number above zero.
pub proof fn positive_finite_is_numeric(a: Amount)
    ensures
        a.positive_finite() <==> a.finite() && a.units() > 0,
        a.positive() <==> a.numerically_above(Amount { bits: 0 }),
{
    let zero = Amount { bits: 0 };
    zero_has_no_size();
    if a.finite() {
        rank_follows_units(a, zero);
    }
    greater_than_is_numeric(a, zero);
}

} // verus!
