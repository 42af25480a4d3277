//! Compound interest with a compounding frequency:
//! `A = P * (1 + r/m)^(m t)`.

use vstd::prelude::*;
use crate::binary64::Binary64;
use crate::common::types::CompoundingFrequency;
use crate::common::types::FinanceError;

verus! {

/// The error, if any, with which a rate, a compounding frequency and a time
/// are refused: a negative rate first, then a frequency of zero, then a
/// negative time.
pub open spec fn compound_params_rejection(
    annual_rate: Binary64,
    compounding_frequency: CompoundingFrequency,
    time_years: Binary64,
) -> Option<FinanceError> {
    let z = Binary64::zero();
    if annual_rate.lt(z) {
        Some(FinanceError::InvalidInterestRate)
    } else if compounding_frequency == 0 || time_years.lt(z) {
        Some(FinanceError::InvalidPeriods)
    } else {
        None
    }
}

/// Checks rate, frequency and time of a compounding.
pub fn validate_compound_params(
    annual_rate: Binary64,
    compounding_frequency: CompoundingFrequency,
    time_years: Binary64,
) -> (res: Result<(), FinanceError>)
    ensures
        res == match compound_params_rejection(annual_rate, compounding_frequency, time_years) {
            Some(e) => Err::<(), FinanceError>(e),
            None => Ok(()),
        },
{
    let z = Binary64::zero();
    if annual_rate.lt(z) {
        return Err(FinanceError::InvalidInterestRate);
    }
    if compounding_frequency == 0 {
        return Err(FinanceError::InvalidPeriods);
    }
    if time_years.lt(z) {
        return Err(FinanceError::InvalidPeriods);
    }
    Ok(())
}

/// The error, if any, with which an amount and the parameters of its
/// compounding are refused: a negative amount hides every other fault.
pub open spec fn compound_rejection(
    amount: Binary64,
    annual_rate: Binary64,
    compounding_frequency: CompoundingFrequency,
    time_years: Binary64,
) -> Option<FinanceError> {
    if amount.lt(Binary64::zero()) {
        Some(FinanceError::InvalidMonetaryValue)
    } else {
        compound_params_rejection(annual_rate, compounding_frequency, time_years)
    }
}

/// Checks an amount (the principal, or the target that a principal is sought
/// for) together with rate, frequency and time.
pub fn validate_compound_inputs(
    amount: Binary64,
    annual_rate: Binary64,
    compounding_frequency: CompoundingFrequency,
    time_years: Binary64,
) -> (res: Result<(), FinanceError>)
    ensures
        res == match compound_rejection(amount, annual_rate, compounding_frequency, time_years) {
            Some(e) => Err::<(), FinanceError>(e),
            None => Ok(()),
        },
{
    if amount.lt(Binary64::zero()) {
        return Err(FinanceError::InvalidMonetaryValue);
    }
    validate_compound_params(annual_rate, compounding_frequency, time_years)
}

/// The error, if any, with which the inputs of the effective annual rate
/// `(1 + r/m)^m - 1` are refused.
pub open spec fn effective_rate_rejection(
    nominal_rate: Binary64,
    compounding_frequency: CompoundingFrequency,
) -> Option<FinanceError> {
    if nominal_rate.lt(Binary64::zero()) {
        Some(FinanceError::InvalidInterestRate)
    } else if compounding_frequency == 0 {
        Some(FinanceError::InvalidPeriods)
    } else {
        None
    }
}

/// Checks a nominal rate and its compounding frequency.
pub fn validate_effective_rate_inputs(
    nominal_rate: Binary64,
    compounding_frequency: CompoundingFrequency,
) -> (res: Result<(), FinanceError>)
    ensures
        res == match effective_rate_rejection(nominal_rate, compounding_frequency) {
            Some(e) => Err::<(), FinanceError>(e),
            None => Ok(()),
        },
{
    if nominal_rate.lt(Binary64::zero()) {
        return Err(FinanceError::InvalidInterestRate);
    }
    if compounding_frequency == 0 {
        return Err(FinanceError::InvalidPeriods);
    }
    Ok(())
}

} // verus!
