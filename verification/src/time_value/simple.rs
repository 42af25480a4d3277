//! Simple interest, earned on the initial principal only: `I = P * r * t`.

use vstd::prelude::*;
use crate::binary64::Binary64;
use crate::common::types::FinanceError;

verus! {

/// The error, if any, with which a principal, an annual rate and a time in
/// years are refused: each must not be negative, and they are tested in that
/// order. A NaN is refused by none of the checks.
pub open spec fn simple_interest_rejection(
    principal: Binary64,
    interest_rate: Binary64,
    time_years: Binary64,
) -> Option<FinanceError> {
    let z = Binary64::zero();
    if principal.lt(z) {
        Some(FinanceError::InvalidMonetaryValue)
    } else if interest_rate.lt(z) {
        Some(FinanceError::InvalidInterestRate)
    } else if time_years.lt(z) {
        Some(FinanceError::InvalidPeriods)
    } else {
        None
    }
}

/// Checks the inputs of the simple-interest formulas.
pub fn validate_simple_interest_inputs(
    principal: Binary64,
    interest_rate: Binary64,
    time_years: Binary64,
) -> (res: Result<(), FinanceError>)
    ensures
        res == match simple_interest_rejection(principal, interest_rate, time_years) {
            Some(e) => Err::<(), FinanceError>(e),
            None => Ok(()),
        },
{
    let z = Binary64::zero();
    if principal.lt(z) {
        return Err(FinanceError::InvalidMonetaryValue);
    }
    if interest_rate.lt(z) {
        return Err(FinanceError::InvalidInterestRate);
    }
    if time_years.lt(z) {
        return Err(FinanceError::InvalidPeriods);
    }
    Ok(())
}

/// The error, if any, with which the inputs of the implied rate
/// `r = (A / P - 1) / t` are refused: the principal must be positive and the
/// target amount not negative, then the time must be positive.
pub open spec fn implied_rate_rejection(
    principal: Binary64,
    target_amount: Binary64,
    time_years: Binary64,
) -> Option<FinanceError> {
    let z = Binary64::zero();
    if principal.le(z) || target_amount.lt(z) {
        Some(FinanceError::InvalidMonetaryValue)
    } else if time_years.le(z) {
        Some(FinanceError::InvalidPeriods)
    } else {
        None
    }
}

/// Checks the inputs from which a simple interest rate is implied.
pub fn validate_implied_rate_inputs(
    principal: Binary64,
    target_amount: Binary64,
    time_years: Binary64,
) -> (res: Result<(), FinanceError>)
    ensures
        res == match implied_rate_rejection(principal, target_amount, time_years) {
            Some(e) => Err::<(), FinanceError>(e),
            None => Ok(()),
        },
{
    let z = Binary64::zero();
    if principal.le(z) || target_amount.lt(z) {
        return Err(FinanceError::InvalidMonetaryValue);
    }
    if time_years.le(z) {
        return Err(FinanceError::InvalidPeriods);
    }
    Ok(())
}

} // verus!
