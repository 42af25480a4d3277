//! Capital Asset Pricing Model: `E(Ri) = Rf + beta_i * [E(Rm) - Rf]`.

use vstd::prelude::*;
use crate::binary64::Binary64;
use crate::common::types::FinanceError;

verus! {

/// The model's domain: every input finite and the risk-free rate not
/// negative. The beta may be negative.
pub open spec fn valid_capm_inputs(
    risk_free_rate: Binary64,
    beta: Binary64,
    market_risk_premium: Binary64,
) -> bool {
    &&& risk_free_rate.is_finite() && beta.is_finite() && market_risk_premium.is_finite()
    &&& risk_free_rate.scaled() >= 0
}

/// Checks the inputs of the expected return; every fault is reported as an
/// invalid rate.
pub fn validate_capm_inputs(
    risk_free_rate: Binary64,
    beta: Binary64,
    market_risk_premium: Binary64,
) -> (res: Result<(), FinanceError>)
    ensures
        res == if valid_capm_inputs(risk_free_rate, beta, market_risk_premium) {
            Ok::<(), FinanceError>(())
        } else {
            Err(FinanceError::InvalidInterestRate)
        },
{
    if !risk_free_rate.is_finite() || !beta.is_finite() || !market_risk_premium.is_finite() {
        return Err(FinanceError::InvalidInterestRate);
    }
    if risk_free_rate.lt(Binary64::zero()) {
        return Err(FinanceError::InvalidInterestRate);
    }
    Ok(())
}

/// Checks that two returns, whose difference is to be taken, are both finite.
pub fn validate_returns(first: Binary64, second: Binary64) -> (res: Result<(), FinanceError>)
    ensures
        res == if first.is_finite() && second.is_finite() {
            Ok::<(), FinanceError>(())
        } else {
            Err(FinanceError::InvalidInterestRate)
        },
{
    if !first.is_finite() || !second.is_finite() {
        return Err(FinanceError::InvalidInterestRate);
    }
    Ok(())
}

} // verus!
