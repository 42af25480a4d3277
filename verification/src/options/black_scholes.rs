//! Black-Scholes-Merton model for European options without dividends.
//!
//! The model's closed formulas are
//!
//! ```text
//! C  = S0 N(d1) - K e^(-rT) N(d2)
//! P  = K e^(-rT) N(-d2) - S0 N(-d1)
//! d1 = [ln(S0/K) + (r + sigma^2/2) T] / (sigma sqrt(T))
//! d2 = d1 - sigma sqrt(T)
//! ```
//!
//! This module decides everything around them: which inputs are refused and
//! why, which of the three computation regimes applies, what the degenerate
//! limits are, and which tail of the normal distribution is evaluated. Each
//! function answers with the value itself where it is known without
//! arithmetic, and otherwise names the formula that the caller evaluates.

use vstd::prelude::*;
use vstd::arithmetic::power2::pow2;
use vstd::arithmetic::power2::lemma_pow2_pos;
use vstd::arithmetic::power2::lemma_pow2_adds;
use vstd::arithmetic::power2::lemma2_to64;
use vstd::arithmetic::power2::lemma2_to64_rest;
use crate::binary64::Binary64;
use crate::binary64::lemma_approximates_normal;
use crate::common::types::FinanceError;
use crate::common::types::OptionType;

verus! {

/// Encoding of 1e-12, rounded to binary64: below this time to maturity an
/// option is treated as expired.
pub const EPS_TIME_BITS: u64 = 0x3D71_9799_812D_EA11;

/// Encoding of 1e-12, rounded to binary64: below this volatility the
/// terminal price is treated as deterministic.
pub const EPS_VOL_BITS: u64 = 0x3D71_9799_812D_EA11;

/// The expiry threshold as a value.
pub open spec fn eps_time() -> Binary64 {
    Binary64 { bits: EPS_TIME_BITS }
}

/// The zero-volatility threshold as a value.
pub open spec fn eps_vol() -> Binary64 {
    Binary64 { bits: EPS_VOL_BITS }
}

/// The error, if any, with which the five model inputs are refused.
///
/// The checks are ordered: a non-finite input or a non-positive price hides
/// a negative time, which in turn hides a negative volatility.
pub open spec fn rejection(
    s0: Binary64,
    k: Binary64,
    t: Binary64,
    r: Binary64,
    sigma: Binary64,
) -> Option<FinanceError> {
    if !s0.is_finite() || !k.is_finite() || !t.is_finite() || !r.is_finite()
        || !sigma.is_finite() {
        Some(FinanceError::InvalidMonetaryValue)
    } else if s0.scaled() <= 0 || k.scaled() <= 0 {
        Some(FinanceError::InvalidMonetaryValue)
    } else if t.scaled() < 0 {
        Some(FinanceError::InvalidPeriods)
    } else if sigma.scaled() < 0 {
        Some(FinanceError::InvalidInterestRate)
    } else {
        None
    }
}

/// The model's domain: every input finite, both prices positive, time and
/// volatility not negative.
pub open spec fn valid_inputs(
    s0: Binary64,
    k: Binary64,
    t: Binary64,
    r: Binary64,
    sigma: Binary64,
) -> bool {
    &&& s0.is_finite() && k.is_finite() && t.is_finite() && r.is_finite() && sigma.is_finite()
    &&& s0.scaled() > 0
    &&& k.scaled() > 0
    &&& t.scaled() >= 0
    &&& sigma.scaled() >= 0
}

/// Checks the five model inputs; the single gate in front of every entry point.
pub fn validate_inputs(
    s0: Binary64,
    k: Binary64,
    t: Binary64,
    r: Binary64,
    sigma: Binary64,
) -> (res: Result<(), FinanceError>)
    ensures
        res is Ok <==> valid_inputs(s0, k, t, r, sigma),
        res == match rejection(s0, k, t, r, sigma) {
            Some(e) => Err::<(), FinanceError>(e),
            None => Ok(()),
        },
{
    if !s0.is_finite() || !k.is_finite() || !t.is_finite() || !r.is_finite()
        || !sigma.is_finite() {
        return Err(FinanceError::InvalidMonetaryValue);
    }
    let z = Binary64::zero();
    if s0.le(z) || k.le(z) {
        return Err(FinanceError::InvalidMonetaryValue);
    }
    if t.lt(z) {
        return Err(FinanceError::InvalidPeriods);
    }
    if sigma.lt(z) {
        return Err(FinanceError::InvalidInterestRate);
    }
    Ok(())
}

/// The three computation regimes. Exactly one applies to any pair of time
/// and volatility.
#[derive(Debug, Clone, Copy, PartialEq, Eq, Structural)]
pub enum Regime {
    /// Time to maturity below the threshold: the option is at expiry.
    Expiry,
    /// Volatility below the threshold (and time not): the terminal price is
    /// deterministic.
    ZeroVolatility,
    /// Neither: the closed formulas apply as they stand.
    Regular,
}

/// The regime of a time to maturity and a volatility: the time threshold is
/// tested first.
pub open spec fn regime_spec(t: Binary64, sigma: Binary64) -> Regime {
    if t.lt(eps_time()) {
        Regime::Expiry
    } else if sigma.lt(eps_vol()) {
        Regime::ZeroVolatility
    } else {
        Regime::Regular
    }
}

/// Selects the computation regime by comparing against the two thresholds.
#[verifier::when_used_as_spec(regime_spec)]
pub fn regime(t: Binary64, sigma: Binary64) -> (selected: Regime)
    ensures
        selected == regime_spec(t, sigma),
{
    if t.lt(Binary64::from_bits(EPS_TIME_BITS)) {
        Regime::Expiry
    } else if sigma.lt(Binary64::from_bits(EPS_VOL_BITS)) {
        Regime::ZeroVolatility
    } else {
        Regime::Regular
    }
}

/// The degenerate value that stands for the sign of `x`: positive infinity
/// for a positive `x`, negative infinity for a negative one, and positive
/// zero otherwise (either zero, or a NaN).
pub open spec fn sign_limit_spec(x: Binary64) -> Binary64 {
    if Binary64::zero().lt(x) {
        Binary64::infinity()
    } else if x.lt(Binary64::zero()) {
        Binary64::neg_infinity()
    } else {
        Binary64::zero()
    }
}

/// The common value of d1 and d2 in the zero-volatility regime, given the
/// forward log-moneyness `ln(S0/K) + rT` as the caller evaluated it.
#[verifier::when_used_as_spec(sign_limit_spec)]
pub fn sign_limit(x: Binary64) -> (limit: Binary64)
    ensures
        limit == sign_limit_spec(x),
{
    let z = Binary64::zero();
    if z.lt(x) {
        Binary64::infinity()
    } else if x.lt(z) {
        Binary64::neg_infinity()
    } else {
        z
    }
}

/// The common value of d1 and d2 at expiry, by moneyness: positive infinity
/// if the spot is above the strike, negative infinity if it is below, zero
/// if they are equal.
pub open spec fn moneyness_limit_spec(s0: Binary64, k: Binary64) -> Binary64 {
    if k.lt(s0) {
        Binary64::infinity()
    } else if s0.lt(k) {
        Binary64::neg_infinity()
    } else {
        Binary64::zero()
    }
}

/// The common value of d1 and d2 at expiry.
#[verifier::when_used_as_spec(moneyness_limit_spec)]
pub fn moneyness_limit(s0: Binary64, k: Binary64) -> (limit: Binary64)
    ensures
        limit == moneyness_limit_spec(s0, k),
{
    if k.lt(s0) {
        Binary64::infinity()
    } else if s0.lt(k) {
        Binary64::neg_infinity()
    } else {
        Binary64::zero()
    }
}

/// How the pair (d1, d2) is obtained.
#[derive(Debug, Clone, Copy, PartialEq, Eq, Structural)]
pub enum D1D2 {
    /// Expiry: d1 and d2 both equal the value carried here.
    Both(Binary64),
    /// Zero volatility: d1 and d2 both equal [`sign_limit`] of the forward
    /// log-moneyness `ln(S0/K) + rT`.
    ForwardSign,
    /// Regular: `d1 = [ln(S0/K) + (r + sigma^2/2) T] / (sigma sqrt(T))` and
    /// `d2 = d1 - sigma sqrt(T)`.
    ClosedForm,
}

/// What [`d1_d2`] answers.
pub open spec fn d1_d2_spec(
    s0: Binary64,
    k: Binary64,
    t: Binary64,
    r: Binary64,
    sigma: Binary64,
) -> Result<D1D2, FinanceError> {
    match rejection(s0, k, t, r, sigma) {
        Some(e) => Err(e),
        None => Ok(
            match regime(t, sigma) {
                Regime::Expiry => D1D2::Both(moneyness_limit(s0, k)),
                Regime::ZeroVolatility => D1D2::ForwardSign,
                Regime::Regular => D1D2::ClosedForm,
            },
        ),
    }
}

/// Validates the inputs and determines d1 and d2 as far as that takes no
/// arithmetic.
#[verifier::when_used_as_spec(d1_d2_spec)]
pub fn d1_d2(s0: Binary64, k: Binary64, t: Binary64, r: Binary64, sigma: Binary64) -> (res:
    Result<D1D2, FinanceError>)
    ensures
        res == d1_d2_spec(s0, k, t, r, sigma),
        res is Ok <==> valid_inputs(s0, k, t, r, sigma),
{
    match validate_inputs(s0, k, t, r, sigma) {
        Err(e) => Err(e),
        Ok(()) => {
            match regime(t, sigma) {
                Regime::Expiry => Ok(D1D2::Both(moneyness_limit(s0, k))),
                Regime::ZeroVolatility => Ok(D1D2::ForwardSign),
                Regime::Regular => Ok(D1D2::ClosedForm),
            }
        },
    }
}

/// How an option price is obtained.
#[derive(Debug, Clone, Copy, PartialEq, Eq, Structural)]
pub enum Pricing {
    /// At expiry, at or out of the money: the price is zero.
    Worthless,
    /// A call at expiry, in the money: the price is the intrinsic value
    /// `S0 - K`.
    SpotLessStrike,
    /// A put at expiry, in the money: the price is the intrinsic value
    /// `K - S0`.
    StrikeLessSpot,
    /// A call before expiry: `S0 N(d1) - K e^(-rT) N(d2)`, on the d1 and d2
    /// that [`d1_d2`] determines.
    CallFormula,
    /// A put before expiry: `K e^(-rT) N(-d2) - S0 N(-d1)`, on the d1 and d2
    /// that [`d1_d2`] determines.
    PutFormula,
}

/// What [`call_price`] answers: at expiry the intrinsic value
/// `max(S0 - K, 0)`, told apart by which side the spot is on; before expiry
/// the closed formula.
pub open spec fn call_price_spec(
    s0: Binary64,
    k: Binary64,
    t: Binary64,
    r: Binary64,
    sigma: Binary64,
) -> Result<Pricing, FinanceError> {
    match rejection(s0, k, t, r, sigma) {
        Some(e) => Err(e),
        None => Ok(
            if !t.lt(eps_time()) {
                Pricing::CallFormula
            } else if k.lt(s0) {
                Pricing::SpotLessStrike
            } else {
                Pricing::Worthless
            },
        ),
    }
}

/// What [`put_price`] answers: at expiry the intrinsic value
/// `max(K - S0, 0)`, told apart by which side the spot is on; before expiry
/// the closed formula.
pub open spec fn put_price_spec(
    s0: Binary64,
    k: Binary64,
    t: Binary64,
    r: Binary64,
    sigma: Binary64,
) -> Result<Pricing, FinanceError> {
    match rejection(s0, k, t, r, sigma) {
        Some(e) => Err(e),
        None => Ok(
            if !t.lt(eps_time()) {
                Pricing::PutFormula
            } else if s0.lt(k) {
                Pricing::StrikeLessSpot
            } else {
                Pricing::Worthless
            },
        ),
    }
}

/// Validates the inputs and decides how a European call is priced.
#[verifier::when_used_as_spec(call_price_spec)]
pub fn call_price(s0: Binary64, k: Binary64, t: Binary64, r: Binary64, sigma: Binary64) -> (res:
    Result<Pricing, FinanceError>)
    ensures
        res == call_price_spec(s0, k, t, r, sigma),
        res is Ok <==> valid_inputs(s0, k, t, r, sigma),
{
    match validate_inputs(s0, k, t, r, sigma) {
        Err(e) => Err(e),
        Ok(()) => {
            if !t.lt(Binary64::from_bits(EPS_TIME_BITS)) {
                Ok(Pricing::CallFormula)
            } else if k.lt(s0) {
                Ok(Pricing::SpotLessStrike)
            } else {
                Ok(Pricing::Worthless)
            }
        },
    }
}

/// Validates the inputs and decides how a European put is priced.
#[verifier::when_used_as_spec(put_price_spec)]
pub fn put_price(s0: Binary64, k: Binary64, t: Binary64, r: Binary64, sigma: Binary64) -> (res:
    Result<Pricing, FinanceError>)
    ensures
        res == put_price_spec(s0, k, t, r, sigma),
        res is Ok <==> valid_inputs(s0, k, t, r, sigma),
{
    match validate_inputs(s0, k, t, r, sigma) {
        Err(e) => Err(e),
        Ok(()) => {
            if !t.lt(Binary64::from_bits(EPS_TIME_BITS)) {
                Ok(Pricing::PutFormula)
            } else if s0.lt(k) {
                Ok(Pricing::StrikeLessSpot)
            } else {
                Ok(Pricing::Worthless)
            }
        },
    }
}

/// Decides how an option of the given kind is priced: exactly what
/// [`call_price`] or [`put_price`] answers on the same inputs.
pub fn option_price(
    s0: Binary64,
    k: Binary64,
    t: Binary64,
    r: Binary64,
    sigma: Binary64,
    kind: OptionType,
) -> (res: Result<Pricing, FinanceError>)
    ensures
        res == match kind {
            OptionType::Call => call_price(s0, k, t, r, sigma),
            OptionType::Put => put_price(s0, k, t, r, sigma),
        },
        res is Ok <==> valid_inputs(s0, k, t, r, sigma),
{
    match kind {
        OptionType::Call => call_price(s0, k, t, r, sigma),
        OptionType::Put => put_price(s0, k, t, r, sigma),
    }
}

/// The parameters of the rational approximation of the standard normal
/// distribution function (Abramowitz and Stegun 26.2.17): for `x >= 0`,
/// `N(x) = 1 - phi(x) (b1 t + b2 t^2 + b3 t^3 + b4 t^4 + b5 t^5)` with
/// `t = 1 / (1 + p x)`, to an absolute error of about 1e-7.
#[derive(Debug, Clone, Copy, PartialEq, Eq, Structural)]
pub struct CdfCoefficients {
    pub p: Binary64,
    pub b1: Binary64,
    pub b2: Binary64,
    pub b3: Binary64,
    pub b4: Binary64,
    pub b5: Binary64,
}

/// Encoding of 0.2316419, rounded to binary64.
pub const CDF_P_BITS: u64 = 0x3FCD_A671_1871_100E;

/// Encoding of 0.319381530, rounded to binary64.
pub const CDF_B1_BITS: u64 = 0x3FD4_70BF_3A92_F8EC;

/// Encoding of -0.356563782, rounded to binary64.
pub const CDF_B2_BITS: u64 = 0xBFD6_D1F0_E5A8_325B;

/// Encoding of 1.781477937, rounded to binary64.
pub const CDF_B3_BITS: u64 = 0x3FFC_80EF_025F_5E68;

/// Encoding of -1.821255978, rounded to binary64.
pub const CDF_B4_BITS: u64 = 0xBFFD_23DD_4EF2_78D0;

/// Encoding of 1.330274429, rounded to binary64.
pub const CDF_B5_BITS: u64 = 0x3FF5_48CD_D6F4_2943;

/// The parameters of the approximation, as values.
pub open spec fn cdf_coefficients_spec() -> CdfCoefficients {
    CdfCoefficients {
        p: Binary64 { bits: CDF_P_BITS },
        b1: Binary64 { bits: CDF_B1_BITS },
        b2: Binary64 { bits: CDF_B2_BITS },
        b3: Binary64 { bits: CDF_B3_BITS },
        b4: Binary64 { bits: CDF_B4_BITS },
        b5: Binary64 { bits: CDF_B5_BITS },
    }
}

/// The parameters of the approximation of the distribution function.
#[verifier::when_used_as_spec(cdf_coefficients_spec)]
pub fn cdf_coefficients() -> (c: CdfCoefficients)
    ensures
        c == cdf_coefficients_spec(),
{
    CdfCoefficients {
        p: Binary64::from_bits(CDF_P_BITS),
        b1: Binary64::from_bits(CDF_B1_BITS),
        b2: Binary64::from_bits(CDF_B2_BITS),
        b3: Binary64::from_bits(CDF_B3_BITS),
        b4: Binary64::from_bits(CDF_B4_BITS),
        b5: Binary64::from_bits(CDF_B5_BITS),
    }
}

/// How the approximation of the standard normal distribution function is
/// evaluated at a point.
#[derive(Debug, Clone, Copy, PartialEq, Eq, Structural)]
pub struct CdfEvaluation {
    /// The point at which the polynomial and the density are evaluated: the
    /// absolute value of the argument.
    pub at: Binary64,
    /// Whether the result `N(|x|)` is then reflected to `1 - N(|x|)`.
    pub reflected: bool,
}

/// What [`normal_cdf`] answers: the polynomial is never given a negative
/// argument, and every argument that is not at least zero (a NaN too) takes
/// the reflection.
pub open spec fn normal_cdf_spec(x: Binary64) -> CdfEvaluation {
    CdfEvaluation { at: x.abs(), reflected: !Binary64::zero().le(x) }
}

/// Decides how N(x) is evaluated: at `|x|`, directly for `x >= 0` and through
/// the symmetry `N(x) = 1 - N(-x)` otherwise.
#[verifier::when_used_as_spec(normal_cdf_spec)]
pub fn normal_cdf(x: Binary64) -> (plan: CdfEvaluation)
    ensures
        plan == normal_cdf_spec(x),
{
    CdfEvaluation { at: x.abs(), reflected: !Binary64::zero().le(x) }
}

/// The inputs are accepted exactly on the model's domain.
pub proof fn lemma_rejection_none_iff_valid(
    s0: Binary64,
    k: Binary64,
    t: Binary64,
    r: Binary64,
    sigma: Binary64,
)
    ensures
        rejection(s0, k, t, r, sigma) is None <==> valid_inputs(s0, k, t, r, sigma),
{
}

/// Each threshold is a positive value within half a unit in its last place
/// of 10^-12.
pub proof fn lemma_thresholds_approximate_1e_minus_12()
    ensures
        eps_time() == eps_vol(),
        eps_time().approximates(1, 1_000_000_000_000),
        eps_time().scaled() > 0,
{
    let e = eps_time();
    assert(e.exponent() == 983);
    assert(e.fraction() == 0x1_9799_812D_EA11);
    lemma_pow2_adds(64, 28);
    lemma2_to64();
    lemma2_to64_rest();
    let q: int = 0x1000_0000_0000_0000_0000_0000;
    assert(pow2(92) == q) by (nonlinear_arith)
        requires
            pow2(92) == pow2(64) * pow2(28),
            pow2(64) == 0x1_0000_0000_0000_0000,
            pow2(28) == 0x1000_0000,
            q == 0x1000_0000_0000_0000_0000_0000,
    ;
    lemma_approximates_normal(e, 1, 1_000_000_000_000, 0x11_9799_812D_EA11, 92);
    lemma_pow2_pos(982);
    let weight = pow2(982) as int;
    assert(0x11_9799_812D_EA11 * weight > 0) by (nonlinear_arith)
        requires
            weight > 0,
    ;
}

/// Each parameter of the approximation of the distribution function is
/// within half a unit in its last place of its decimal value.
pub proof fn lemma_cdf_coefficients_approximate_decimals()
    ensures
        cdf_coefficients().p.approximates(2_316_419, 10_000_000),
        cdf_coefficients().b1.approximates(319_381_530, 1_000_000_000),
        cdf_coefficients().b2.approximates(-356_563_782, 1_000_000_000),
        cdf_coefficients().b3.approximates(1_781_477_937, 1_000_000_000),
        cdf_coefficients().b4.approximates(-1_821_255_978, 1_000_000_000),
        cdf_coefficients().b5.approximates(1_330_274_429, 1_000_000_000),
{
    let c = cdf_coefficients();
    lemma2_to64_rest();
    assert(c.p.exponent() == 1020 && c.p.fraction() == 0xD_A671_1871_100E);
    lemma_approximates_normal(c.p, 2_316_419, 10_000_000, 0x1D_A671_1871_100E, 55);
    assert(c.b1.exponent() == 1021 && c.b1.fraction() == 0x4_70BF_3A92_F8EC);
    lemma_approximates_normal(c.b1, 319_381_530, 1_000_000_000, 0x14_70BF_3A92_F8EC, 54);
    assert(c.b2.exponent() == 1021 && c.b2.fraction() == 0x6_D1F0_E5A8_325B);
    lemma_approximates_normal(c.b2, -356_563_782, 1_000_000_000, -0x16_D1F0_E5A8_325B, 54);
    assert(c.b3.exponent() == 1023 && c.b3.fraction() == 0xC_80EF_025F_5E68);
    lemma_approximates_normal(c.b3, 1_781_477_937, 1_000_000_000, 0x1C_80EF_025F_5E68, 52);
    assert(c.b4.exponent() == 1023 && c.b4.fraction() == 0xD_23DD_4EF2_78D0);
    lemma_approximates_normal(c.b4, -1_821_255_978, 1_000_000_000, -0x1D_23DD_4EF2_78D0, 52);
    assert(c.b5.exponent() == 1023 && c.b5.fraction() == 0x5_48CD_D6F4_2943);
    lemma_approximates_normal(c.b5, 1_330_274_429, 1_000_000_000, 0x15_48CD_D6F4_2943, 52);
}

/// The regimes are mutually exclusive and cover every input: each is
/// characterised by its own side of the two thresholds.
pub proof fn lemma_regimes_exclusive(t: Binary64, sigma: Binary64)
    ensures
        regime(t, sigma) == Regime::Expiry <==> t.lt(eps_time()),
        regime(t, sigma) == Regime::ZeroVolatility <==> !t.lt(eps_time()) && sigma.lt(eps_vol()),
        regime(t, sigma) == Regime::Regular <==> !t.lt(eps_time()) && !sigma.lt(eps_vol()),
        t.is_finite() && sigma.is_finite() ==> (regime(t, sigma) == Regime::Regular <==> t.scaled()
            >= eps_time().scaled() && sigma.scaled() >= eps_vol().scaled()),
{
}

/// A call and a put on the same inputs are refused together, with the same
/// error, and take their closed formulas together.
pub proof fn lemma_call_put_same_regime(
    s0: Binary64,
    k: Binary64,
    t: Binary64,
    r: Binary64,
    sigma: Binary64,
)
    ensures
        call_price(s0, k, t, r, sigma) is Err <==> put_price(s0, k, t, r, sigma) is Err,
        call_price(s0, k, t, r, sigma) matches Err(e) ==> put_price(s0, k, t, r, sigma) == Err::<
            Pricing,
            FinanceError,
        >(e),
        call_price(s0, k, t, r, sigma) == Ok::<Pricing, FinanceError>(Pricing::CallFormula)
            <==> put_price(s0, k, t, r, sigma) == Ok::<Pricing, FinanceError>(Pricing::PutFormula),
{
}

/// At expiry at most one of call and put is in the money, and exactly one
/// unless spot and strike are equal; so the difference of the two prices is
/// `S0 - K` whichever side the spot is on.
pub proof fn lemma_expiry_one_side_in_the_money(
    s0: Binary64,
    k: Binary64,
    t: Binary64,
    r: Binary64,
    sigma: Binary64,
)
    requires
        valid_inputs(s0, k, t, r, sigma),
        t.lt(eps_time()),
    ensures
        call_price(s0, k, t, r, sigma) == Ok::<Pricing, FinanceError>(
            if s0.scaled() > k.scaled() {
                Pricing::SpotLessStrike
            } else {
                Pricing::Worthless
            },
        ),
        put_price(s0, k, t, r, sigma) == Ok::<Pricing, FinanceError>(
            if s0.scaled() < k.scaled() {
                Pricing::StrikeLessSpot
            } else {
                Pricing::Worthless
            },
        ),
{
}

/// Whenever a price takes its closed formula, d1 and d2 are those of the
/// zero-volatility or of the regular regime, never the expiry limit.
pub proof fn lemma_closed_form_is_before_expiry(
    s0: Binary64,
    k: Binary64,
    t: Binary64,
    r: Binary64,
    sigma: Binary64,
)
    requires
        call_price(s0, k, t, r, sigma) == Ok::<Pricing, FinanceError>(Pricing::CallFormula)
            || put_price(s0, k, t, r, sigma) == Ok::<Pricing, FinanceError>(Pricing::PutFormula),
    ensures
        valid_inputs(s0, k, t, r, sigma),
        regime(t, sigma) != Regime::Expiry,
        d1_d2(s0, k, t, r, sigma) == Ok::<D1D2, FinanceError>(
            if sigma.scaled() < eps_vol().scaled() {
                D1D2::ForwardSign
            } else {
                D1D2::ClosedForm
            },
        ),
{
}

/// A kind of option is never answered with the other kind's formula or
/// intrinsic value.
pub proof fn lemma_pricing_matches_kind(
    s0: Binary64,
    k: Binary64,
    t: Binary64,
    r: Binary64,
    sigma: Binary64,
)
    ensures
        call_price(s0, k, t, r, sigma) matches Ok(plan) ==> plan != Pricing::PutFormula && plan
            != Pricing::StrikeLessSpot,
        put_price(s0, k, t, r, sigma) matches Ok(plan) ==> plan != Pricing::CallFormula && plan
            != Pricing::SpotLessStrike,
{
}

/// Symmetry of the distribution function: for a nonzero argument that is not
/// a NaN, `x` and `-x` are evaluated at the same point and exactly one of
/// them is reflected, so that the two results are some `a` and `1 - a`.
pub proof fn lemma_normal_cdf_symmetry(x: Binary64)
    requires
        !x.is_nan(),
        x.scaled() != 0,
    ensures
        normal_cdf(x.neg()).at == normal_cdf(x).at,
        normal_cdf(x.neg()).reflected == !normal_cdf(x).reflected,
        normal_cdf(x).reflected <==> x.scaled() < 0,
{
    crate::binary64::lemma_neg(x);
    crate::binary64::lemma_abs(x);
}

/// The degenerate limits are symmetric: exchanging spot and strike, or
/// negating the forward log-moneyness, negates an infinite limit.
pub proof fn lemma_limits_antisymmetric(s0: Binary64, k: Binary64, x: Binary64)
    ensures
        moneyness_limit(s0, k).is_infinite() ==> moneyness_limit(k, s0) == moneyness_limit(
            s0,
            k,
        ).neg(),
        sign_limit(x).is_infinite() ==> sign_limit(x.neg()) == sign_limit(x).neg(),
        !moneyness_limit(s0, k).is_nan(),
        !sign_limit(x).is_nan(),
{
    crate::binary64::lemma_neg(x);
}

} // verus!
