//! Checks shared by the formula modules.

use vstd::prelude::*;
use crate::binary64::Binary64;
use crate::common::types::FinanceError;

verus! {

/// Refuses a denominator that is numerically zero (either zero); a NaN is
/// let through, as every comparison with it is false.
pub fn nonzero_denominator(denominator: Binary64) -> (res: Result<(), FinanceError>)
    ensures
        res == if denominator.eq_value(Binary64::zero()) {
            Err::<(), FinanceError>(FinanceError::DivisionByZero)
        } else {
            Ok(())
        },
        res is Err <==> !denominator.is_nan() && denominator.scaled() == 0,
{
    if denominator.eq_value(Binary64::zero()) {
        Err(FinanceError::DivisionByZero)
    } else {
        Ok(())
    }
}

} // verus!
