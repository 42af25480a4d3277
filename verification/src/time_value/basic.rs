//! Future and present value under compound interest per period:
//! `FV = PV * (1 + r)^n` and `PV = FV / (1 + r)^n`.

use vstd::prelude::*;
use crate::binary64::Binary64;
use crate::common::types::FinanceError;

verus! {

/// The error, if any, with which an amount and a rate per period are refused:
/// a negative amount first, then a rate of -100% or less, under which
/// `1 + r` would not be positive. A NaN is refused by neither check.
pub open spec fn discounting_rejection(value: Binary64, interest_rate: Binary64) -> Option<
    FinanceError,
> {
    if value.lt(Binary64::zero()) {
        Some(FinanceError::InvalidMonetaryValue)
    } else if interest_rate.le(Binary64::minus_one()) {
        Some(FinanceError::InvalidInterestRate)
    } else {
        None
    }
}

/// Checks the amount to be compounded or discounted and the rate per period.
pub fn validate_discounting_inputs(value: Binary64, interest_rate: Binary64) -> (res: Result<
    (),
    FinanceError,
>)
    ensures
        res == match discounting_rejection(value, interest_rate) {
            Some(e) => Err::<(), FinanceError>(e),
            None => Ok(()),
        },
{
    if value.lt(Binary64::zero()) {
        return Err(FinanceError::InvalidMonetaryValue);
    }
    if interest_rate.le(Binary64::minus_one()) {
        return Err(FinanceError::InvalidInterestRate);
    }
    Ok(())
}

} // verus!
