//! IEEE-754 binary64 values, held by their encoding.
//!
//! A value is modelled by the integer [`Binary64::scaled`]: the number it
//! denotes, counted in units of 2^-1074 (the smallest subnormal). Every
//! finite binary64 value is a whole number of such units, so the model is
//! exact. The two infinities sit one binade beyond the largest finite value.

use vstd::prelude::*;
use vstd::arithmetic::power2::pow2;
use vstd::arithmetic::power2::lemma_pow2_pos;
use vstd::arithmetic::power2::lemma_pow2_unfold;
use vstd::arithmetic::power2::lemma_pow2_strictly_increases;
use vstd::arithmetic::power2::lemma_pow2_adds;
use vstd::arithmetic::power2::lemma2_to64;
use vstd::arithmetic::power2::lemma2_to64_rest;

verus! {

/// Weight of the sign bit in an encoding.
pub const SIGN_BIT: u64 = 0x8000_0000_0000_0000;

/// Weight of the lowest exponent bit, and the value of the implicit leading
/// bit of a normal significand.
pub const HIDDEN_BIT: u64 = 0x0010_0000_0000_0000;

/// Encoding of positive infinity: exponent field all ones, fraction zero.
pub const INFINITY_BITS: u64 = 0x7FF0_0000_0000_0000;

/// Encoding of negative infinity.
pub const NEG_INFINITY_BITS: u64 = 0xFFF0_0000_0000_0000;

/// Encoding of -1.0: sign set, exponent field 1023, fraction zero.
pub const MINUS_ONE_BITS: u64 = 0xBFF0_0000_0000_0000;

/// A binary64 value, identified by its 64-bit encoding.
///
/// `==` on this type compares encodings. Numerical comparison, under which
/// the two zeros are equal and a NaN equals nothing, is [`Binary64::eq_value`].
#[derive(Debug, Clone, Copy, PartialEq, Eq, Structural)]
pub struct Binary64 {
    pub bits: u64,
}

impl Binary64 {
    /// The sign bit is set.
    pub open spec fn sign(self) -> bool {
        self.bits >= SIGN_BIT
    }

    /// The encoding without its sign bit.
    pub open spec fn magnitude_bits(self) -> nat {
        (self.bits % SIGN_BIT) as nat
    }

    /// The biased exponent field, 0 to 2047.
    pub open spec fn exponent(self) -> nat {
        (self.magnitude_bits() / (HIDDEN_BIT as nat)) as nat
    }

    /// The 52-bit fraction field.
    pub open spec fn fraction(self) -> nat {
        (self.magnitude_bits() % (HIDDEN_BIT as nat)) as nat
    }

    /// The encoding is a NaN: exponent field all ones, fraction not zero.
    pub open spec fn is_nan_spec(self) -> bool {
        self.exponent() == 2047 && self.fraction() != 0
    }

    /// The encoding is an infinity: exponent field all ones, fraction zero.
    pub open spec fn is_infinite_spec(self) -> bool {
        self.exponent() == 2047 && self.fraction() == 0
    }

    /// The encoding is a finite number: zero, subnormal or normal.
    pub open spec fn is_finite_spec(self) -> bool {
        self.exponent() < 2047
    }

    /// The absolute value in units of 2^-1074.
    ///
    /// Subnormals (exponent field 0) carry no implicit bit; a normal value
    /// with exponent field `e` is `(2^52 + fraction) * 2^(e - 1)` units. The
    /// same expression places an infinity at 2^2098 units, above every finite
    /// value. It is meaningless for a NaN.
    pub open spec fn magnitude(self) -> nat {
        if self.exponent() == 0 {
            self.fraction()
        } else {
            (HIDDEN_BIT as nat + self.fraction()) * pow2((self.exponent() - 1) as nat)
        }
    }

    /// The value in units of 2^-1074, for every encoding but a NaN.
    pub open spec fn scaled(self) -> int {
        if self.sign() {
            -(self.magnitude() as int)
        } else {
            self.magnitude() as int
        }
    }

    /// One unit in the last place of a finite value, in units of 2^-1074: the
    /// distance between neighbouring values of its binade.
    pub open spec fn ulp(self) -> nat {
        if self.exponent() == 0 {
            1
        } else {
            pow2((self.exponent() - 1) as nat)
        }
    }

    /// The value is finite and lies within half a unit in its last place of
    /// the rational number `num / den`.
    pub open spec fn approximates(self, num: int, den: int) -> bool {
        &&& self.is_finite()
        &&& den > 0
        &&& 2 * (self.scaled() * den - num * pow2(1074)) <= self.ulp() * den
        &&& 2 * (num * pow2(1074) - self.scaled() * den) <= self.ulp() * den
    }

    /// `self < other` as IEEE-754 defines it: false as soon as a NaN is involved.
    pub open spec fn lt_spec(self, other: Binary64) -> bool {
        !self.is_nan() && !other.is_nan() && self.scaled() < other.scaled()
    }

    /// `self <= other` as IEEE-754 defines it.
    pub open spec fn le_spec(self, other: Binary64) -> bool {
        !self.is_nan() && !other.is_nan() && self.scaled() <= other.scaled()
    }

    /// `self == other` as IEEE-754 defines it.
    pub open spec fn eq_value_spec(self, other: Binary64) -> bool {
        !self.is_nan() && !other.is_nan() && self.scaled() == other.scaled()
    }

    /// The encoding of the absolute value.
    pub open spec fn abs_spec(self) -> Binary64 {
        Binary64 { bits: self.magnitude_bits() as u64 }
    }

    /// The encoding of the negation.
    pub open spec fn neg_spec(self) -> Binary64 {
        if self.sign() {
            Binary64 { bits: self.magnitude_bits() as u64 }
        } else {
            Binary64 { bits: (self.magnitude_bits() + SIGN_BIT) as u64 }
        }
    }

    /// The signed encoding: the magnitude bits, negated when the sign bit is
    /// set. Non-NaN values are ordered as their signed encodings are.
    pub open spec fn ordinal(self) -> int {
        if self.sign() {
            -(self.magnitude_bits() as int)
        } else {
            self.magnitude_bits() as int
        }
    }

    /// The value with the given encoding.
    pub fn from_bits(bits: u64) -> (value: Binary64)
        ensures
            value.bits == bits,
    {
        Binary64 { bits }
    }

    /// The encoding of the value.
    pub fn to_bits(self) -> (bits: u64)
        ensures
            bits == self.bits,
    {
        self.bits
    }

    /// Positive zero.
    pub open spec fn zero_spec() -> Binary64 {
        Binary64 { bits: 0 }
    }

    /// The number -1.
    pub open spec fn minus_one_spec() -> Binary64 {
        Binary64 { bits: MINUS_ONE_BITS }
    }

    /// Positive infinity.
    pub open spec fn infinity_spec() -> Binary64 {
        Binary64 { bits: INFINITY_BITS }
    }

    /// Negative infinity.
    pub open spec fn neg_infinity_spec() -> Binary64 {
        Binary64 { bits: NEG_INFINITY_BITS }
    }

    /// Positive zero.
    #[verifier::when_used_as_spec(zero_spec)]
    pub fn zero() -> (value: Binary64)
        ensures
            value == Binary64::zero(),
            value.is_finite(),
            value.scaled() == 0,
    {
        Binary64 { bits: 0 }
    }

    /// The number -1.
    #[verifier::when_used_as_spec(minus_one_spec)]
    pub fn minus_one() -> (value: Binary64)
        ensures
            value == Binary64::minus_one(),
            value.is_finite(),
            value.scaled() == -pow2(1074),
    {
        proof {
            lemma_minus_one();
        }
        Binary64 { bits: MINUS_ONE_BITS }
    }

    /// Positive infinity.
    #[verifier::when_used_as_spec(infinity_spec)]
    pub fn infinity() -> (value: Binary64)
        ensures
            value == Binary64::infinity(),
            value.is_infinite(),
            !value.sign(),
    {
        Binary64 { bits: INFINITY_BITS }
    }

    /// Negative infinity.
    #[verifier::when_used_as_spec(neg_infinity_spec)]
    pub fn neg_infinity() -> (value: Binary64)
        ensures
            value == Binary64::neg_infinity(),
            value.is_infinite(),
            value.sign(),
    {
        Binary64 { bits: NEG_INFINITY_BITS }
    }

    /// The value of an unsigned 32-bit integer, which binary64 holds exactly.
    pub fn from_u32(n: u32) -> (value: Binary64)
        ensures
            value.is_finite(),
            !value.sign(),
            value.scaled() == n * pow2(1074),
    {
        if n == 0 {
            return Binary64 { bits: 0 };
        }
        // Shift the integer up until its leading bit is the implicit bit of a
        // normal significand, lowering the exponent field in step.
        let mut significand: u64 = n as u64;
        let mut exponent: u64 = 1075;
        proof {
            lemma2_to64();
            let one = pow2(0) as int;
            assert(n * one == n) by (nonlinear_arith)
                requires
                    one == 1,
            ;
        }
        while significand < HIDDEN_BIT
            invariant
                0 < significand < 2 * HIDDEN_BIT,
                1023 <= exponent <= 1075,
                significand == n * pow2((1075 - exponent) as nat),
                significand * pow2((exponent - 1) as nat) == n * pow2(1074),
            decreases exponent,
        {
            proof {
                let s = significand as int;
                let shift = (1075 - exponent) as nat;
                let up = pow2(shift) as int;
                let down = pow2((exponent - 2) as nat) as int;
                lemma_pow2_unfold(shift + 1);
                lemma_pow2_unfold((exponent - 1) as nat);
                assert(s >= up) by (nonlinear_arith)
                    requires
                        s == n * up,
                        n >= 1,
                        up >= 0,
                ;
                if exponent == 1023 {
                    lemma2_to64();
                    lemma_pow2_adds(32, 20);
                    assert(up == HIDDEN_BIT);
                }
                assert((2 * s) * down == s * (2 * down)) by (nonlinear_arith);
                assert(2 * s == n * (2 * up)) by (nonlinear_arith)
                    requires
                        s == n * up,
                ;
            }
            significand = significand * 2;
            exponent = exponent - 1;
        }
        let value = Binary64 { bits: exponent * HIDDEN_BIT + (significand - HIDDEN_BIT) };
        assert(value.exponent() == exponent);
        assert(value.fraction() == significand - HIDDEN_BIT);
        value
    }

    /// The encoding with the sign bit cleared, as an executable value.
    fn magnitude_of(self) -> (m: u64)
        ensures
            m == self.magnitude_bits(),
            m < SIGN_BIT,
    {
        let bits = self.bits;
        assert(bits & 0x7FFF_FFFF_FFFF_FFFF == bits % 0x8000_0000_0000_0000) by (bit_vector);
        bits & 0x7FFF_FFFF_FFFF_FFFF
    }

    /// Whether the sign bit is set (true for -0.0 and for a NaN with the bit set).
    pub fn is_sign_negative(self) -> (negative: bool)
        ensures
            negative == self.sign(),
    {
        self.bits >= SIGN_BIT
    }

    /// Whether the value is a NaN.
    #[verifier::when_used_as_spec(is_nan_spec)]
    pub fn is_nan(self) -> (nan: bool)
        ensures
            nan == self.is_nan(),
    {
        self.magnitude_of() > INFINITY_BITS
    }

    /// Whether the value is positive or negative infinity.
    #[verifier::when_used_as_spec(is_infinite_spec)]
    pub fn is_infinite(self) -> (infinite: bool)
        ensures
            infinite == self.is_infinite(),
    {
        self.magnitude_of() == INFINITY_BITS
    }

    /// Whether the value is neither infinite nor a NaN.
    #[verifier::when_used_as_spec(is_finite_spec)]
    pub fn is_finite(self) -> (finite: bool)
        ensures
            finite == self.is_finite(),
    {
        self.magnitude_of() < INFINITY_BITS
    }

    /// The signed encoding, by which non-NaN values are ordered.
    fn ordinal_of(self) -> (key: i64)
        ensures
            key == self.ordinal(),
    {
        let m = self.magnitude_of();
        if self.bits >= SIGN_BIT {
            -(m as i64)
        } else {
            m as i64
        }
    }

    /// Numerical `self < other`.
    #[verifier::when_used_as_spec(lt_spec)]
    pub fn lt(self, other: Binary64) -> (less: bool)
        ensures
            less == self.lt_spec(other),
    {
        proof {
            lemma_order_by_encoding(self, other);
        }
        !self.is_nan() && !other.is_nan() && self.ordinal_of() < other.ordinal_of()
    }

    /// Numerical `self <= other`.
    #[verifier::when_used_as_spec(le_spec)]
    pub fn le(self, other: Binary64) -> (at_most: bool)
        ensures
            at_most == self.le_spec(other),
    {
        proof {
            lemma_order_by_encoding(self, other);
        }
        !self.is_nan() && !other.is_nan() && self.ordinal_of() <= other.ordinal_of()
    }

    /// Numerical `self > other`.
    pub fn gt(self, other: Binary64) -> (greater: bool)
        ensures
            greater == other.lt_spec(self),
    {
        other.lt(self)
    }

    /// Numerical `self >= other`.
    pub fn ge(self, other: Binary64) -> (at_least: bool)
        ensures
            at_least == other.le_spec(self),
    {
        other.le(self)
    }

    /// Numerical `self == other`: the two zeros are equal, a NaN equals nothing.
    #[verifier::when_used_as_spec(eq_value_spec)]
    pub fn eq_value(self, other: Binary64) -> (equal: bool)
        ensures
            equal == self.eq_value_spec(other),
    {
        proof {
            lemma_order_by_encoding(self, other);
        }
        !self.is_nan() && !other.is_nan() && self.ordinal_of() == other.ordinal_of()
    }

    /// The absolute value: the same encoding with the sign bit cleared.
    #[verifier::when_used_as_spec(abs_spec)]
    pub fn abs(self) -> (value: Binary64)
        ensures
            value == self.abs_spec(),
    {
        Binary64 { bits: self.magnitude_of() }
    }

    /// The negation: the same encoding with the sign bit flipped.
    #[verifier::when_used_as_spec(neg_spec)]
    pub fn neg(self) -> (value: Binary64)
        ensures
            value == self.neg_spec(),
    {
        let m = self.magnitude_of();
        if self.bits >= SIGN_BIT {
            Binary64 { bits: m }
        } else {
            Binary64 { bits: m + SIGN_BIT }
        }
    }
}

/// A larger encoding (sign aside) denotes a larger absolute value.
pub proof fn lemma_magnitude_increases(a: Binary64, b: Binary64)
    requires
        a.magnitude_bits() < b.magnitude_bits(),
    ensures
        a.magnitude() < b.magnitude(),
{
    let h = HIDDEN_BIT as nat;
    let ea = a.exponent();
    let eb = b.exponent();
    let fa = a.fraction();
    let fb = b.fraction();
    assert(a.magnitude_bits() == ea * h + fa);
    assert(b.magnitude_bits() == eb * h + fb);
    assert(ea <= eb);
    assert(eb >= 1 || ea == eb);
    if ea == eb {
        if eb >= 1 {
            let p = pow2((eb - 1) as nat);
            lemma_pow2_pos((eb - 1) as nat);
            assert((h + fa) * p < (h + fb) * p) by (nonlinear_arith)
                requires
                    fa < fb,
                    p > 0,
            ;
        }
    } else {
        let pb = pow2((eb - 1) as nat);
        lemma_pow2_pos((eb - 1) as nat);
        assert(h * pb <= (h + fb) * pb) by (nonlinear_arith)
            requires
                pb > 0,
        ;
        assert(h <= h * pb) by (nonlinear_arith)
            requires
                pb > 0,
        ;
        if ea >= 1 {
            let pa = pow2((ea - 1) as nat);
            lemma_pow2_pos((ea - 1) as nat);
            lemma_pow2_unfold(ea);
            assert(pow2(ea) == 2 * pa);
            if ea < eb - 1 {
                lemma_pow2_strictly_increases(ea, (eb - 1) as nat);
            }
            assert(pow2(ea) <= pb);
            assert((h + fa) * pa < h * pb) by (nonlinear_arith)
                requires
                    fa < h,
                    pa > 0,
                    2 * pa <= pb,
            ;
        }
    }
}

/// Only the two zeros have absolute value zero.
pub proof fn lemma_magnitude_zero(a: Binary64)
    ensures
        a.magnitude() == 0 <==> a.magnitude_bits() == 0,
{
    let zero = Binary64 { bits: 0 };
    assert(zero.magnitude() == 0);
    if a.magnitude_bits() != 0 {
        lemma_magnitude_increases(zero, a);
    }
}

/// Values are ordered as their signed encodings are, and two values are
/// numerically equal exactly when their signed encodings are equal.
pub proof fn lemma_order_by_encoding(a: Binary64, b: Binary64)
    ensures
        a.scaled() < b.scaled() <==> a.ordinal() < b.ordinal(),
        a.scaled() == b.scaled() <==> a.ordinal() == b.ordinal(),
{
    lemma_magnitude_zero(a);
    lemma_magnitude_zero(b);
    if a.magnitude_bits() < b.magnitude_bits() {
        lemma_magnitude_increases(a, b);
    }
    if b.magnitude_bits() < a.magnitude_bits() {
        lemma_magnitude_increases(b, a);
    }
}

/// Negation keeps the class of a value and flips the sign of the number it
/// denotes; negating twice gives the encoding back.
pub proof fn lemma_neg(a: Binary64)
    ensures
        a.neg().is_nan() == a.is_nan(),
        a.neg().is_finite() == a.is_finite(),
        a.neg().sign() == !a.sign(),
        a.neg().scaled() == -a.scaled(),
        a.neg().neg() == a,
{
}

/// The absolute value keeps the class of a value, denotes the magnitude of
/// the number, and is the same for a value and its negation.
pub proof fn lemma_abs(a: Binary64)
    ensures
        a.abs().is_nan() == a.is_nan(),
        a.abs().is_finite() == a.is_finite(),
        !a.abs().sign(),
        a.abs().scaled() == a.magnitude(),
        a.abs().scaled() >= 0,
        a.neg().abs() == a.abs(),
{
}

/// Negation reverses the numerical order.
pub proof fn lemma_neg_reverses_order(a: Binary64, b: Binary64)
    ensures
        a.neg().lt(b.neg()) == b.lt(a),
        a.neg().le(b.neg()) == b.le(a),
        a.neg().eq_value(b.neg()) == a.eq_value(b),
{
    lemma_neg(a);
    lemma_neg(b);
}

/// Of two values that are not NaN, exactly one of less, equal and greater holds;
/// with a NaN, none does.
pub proof fn lemma_trichotomy(a: Binary64, b: Binary64)
    ensures
        !a.is_nan() && !b.is_nan() ==> (a.lt(b) || a.eq_value(b) || b.lt(a)),
        !(a.lt(b) && a.eq_value(b)),
        !(a.lt(b) && b.lt(a)),
        !(a.eq_value(b) && b.lt(a)),
        a.le(b) == (a.lt(b) || a.eq_value(b)),
        a.is_nan() || b.is_nan() ==> !a.lt(b) && !a.le(b) && !a.eq_value(b),
{
}

/// The numerical order is transitive.
pub proof fn lemma_order_transitive(a: Binary64, b: Binary64, c: Binary64)
    ensures
        a.lt(b) && b.lt(c) ==> a.lt(c),
        a.le(b) && b.le(c) ==> a.le(c),
        a.lt(b) && b.le(c) ==> a.lt(c),
        a.le(b) && b.lt(c) ==> a.lt(c),
{
}

/// The encoding of -1 denotes minus one: 2^1074 units of 2^-1074, negated.
pub proof fn lemma_minus_one()
    ensures
        Binary64::minus_one().is_finite(),
        Binary64::minus_one().scaled() == -pow2(1074),
{
    let v = Binary64::minus_one();
    assert(v.exponent() == 1023);
    assert(v.fraction() == 0);
    lemma_pow2_adds(52, 1022);
    lemma2_to64_rest();
    assert(v.magnitude() == HIDDEN_BIT * pow2(1022));
}

/// Two encodings that denote the same number are the same encoding, unless
/// they are the two zeros; so a number has one encoding per sign of zero.
pub proof fn lemma_encoding_unique(a: Binary64, b: Binary64)
    requires
        a.scaled() == b.scaled(),
    ensures
        a == b || (a.scaled() == 0 && a.magnitude_bits() == 0 && b.magnitude_bits() == 0),
{
    lemma_order_by_encoding(a, b);
    lemma_magnitude_zero(a);
    lemma_magnitude_zero(b);
    if a.sign() == b.sign() {
        assert(a.bits == b.bits);
    }
}

/// A normal value of magnitude below 2^53 is within half a unit in its last
/// place of `num / den` as soon as its signed significand `m` and the
/// exponent's distance `shift` from 1075 satisfy
/// `2 |m * den - num * 2^shift| <= den`: the same inequality, scaled down by
/// the weight of the last place.
pub proof fn lemma_approximates_normal(x: Binary64, num: int, den: int, m: int, shift: nat)
    requires
        1 <= x.exponent() <= 1075,
        shift == 1075 - x.exponent(),
        m == if x.sign() {
            -(HIDDEN_BIT + x.fraction())
        } else {
            HIDDEN_BIT + x.fraction()
        },
        den > 0,
        2 * (m * den - num * pow2(shift)) <= den,
        2 * (num * pow2(shift) - m * den) <= den,
    ensures
        x.approximates(num, den),
{
    let weight = pow2((x.exponent() - 1) as nat) as int;
    let up = pow2(shift) as int;
    let whole = pow2(1074) as int;
    let scaled = x.scaled();
    lemma_pow2_pos((x.exponent() - 1) as nat);
    lemma_pow2_adds(shift, (x.exponent() - 1) as nat);
    assert(whole == up * weight);
    assert(scaled == m * weight) by (nonlinear_arith)
        requires
            scaled == if x.sign() {
                -((HIDDEN_BIT + x.fraction()) * weight)
            } else {
                (HIDDEN_BIT + x.fraction()) * weight
            },
            m == if x.sign() {
                -(HIDDEN_BIT + x.fraction())
            } else {
                HIDDEN_BIT + x.fraction()
            },
    ;
    assert(2 * (scaled * den - num * whole) <= weight * den && 2 * (num * whole - scaled * den)
        <= weight * den) by (nonlinear_arith)
        requires
            scaled == m * weight,
            whole == up * weight,
            weight > 0,
            2 * (m * den - num * up) <= den,
            2 * (num * up - m * den) <= den,
    ;
}

/// Every finite value lies strictly between the two infinities.
pub proof fn lemma_infinities_bound(a: Binary64)
    requires
        a.is_finite(),
    ensures
        Binary64::neg_infinity().lt(a),
        a.lt(Binary64::infinity()),
{
    let inf = Binary64::infinity();
    let ninf = Binary64::neg_infinity();
    lemma_abs(a);
    lemma_magnitude_increases(a.abs(), inf);
    assert(ninf.magnitude() == inf.magnitude());
}

} // verus!
