//! Coupon bonds: cash-flow schedules and the admission checks of price,
//! duration and convexity.

use vstd::prelude::*;
use vstd::arithmetic::power2::pow2;
use crate::binary64::Binary64;
use crate::common::types::FinanceError;
use crate::common::types::Periods;

verus! {

/// One payment of a bond.
#[derive(Debug, Clone, Copy, PartialEq, Eq, Structural)]
pub struct BondCashFlow {
    /// The period at whose end the payment falls, counted from 1.
    pub period: Binary64,
    /// The amount paid.
    pub amount: Binary64,
}

/// A bond: its payments in the order of their periods, and its yield to
/// maturity per period.
#[derive(Debug, Clone)]
pub struct Bond {
    pub cash_flows: Vec<BondCashFlow>,
    pub ytm: Binary64,
}

/// The error, if any, with which the terms of a coupon bond are refused: the
/// face value must be positive; then the coupon rate must not be negative and
/// the yield must be above -100%.
pub open spec fn bond_terms_rejection(
    face_value: Binary64,
    coupon_rate: Binary64,
    ytm: Binary64,
) -> Option<FinanceError> {
    if face_value.le(Binary64::zero()) {
        Some(FinanceError::InvalidMonetaryValue)
    } else if coupon_rate.lt(Binary64::zero()) || ytm.le(Binary64::minus_one()) {
        Some(FinanceError::InvalidInterestRate)
    } else {
        None
    }
}

impl Bond {
    /// A level-coupon schedule: one payment at the end of each of the periods
    /// 1 to `periods`, every one of `coupon_payment` but the last, which is
    /// `final_payment`.
    pub open spec fn is_level_schedule(
        self,
        periods: Periods,
        coupon_payment: Binary64,
        final_payment: Binary64,
    ) -> bool {
        &&& self.cash_flows@.len() == periods
        &&& forall|i: int|
            0 <= i < periods ==> {
                let flow = #[trigger] self.cash_flows@[i];
                &&& flow.period.is_finite()
                &&& !flow.period.sign()
                &&& flow.period.scaled() == (i + 1) * pow2(1074)
                &&& flow.amount == if i == periods - 1 {
                    final_payment
                } else {
                    coupon_payment
                }
            }
    }

    /// Checks the terms of a coupon bond.
    pub fn validate_terms(face_value: Binary64, coupon_rate: Binary64, ytm: Binary64) -> (res:
        Result<(), FinanceError>)
        ensures
            res == match bond_terms_rejection(face_value, coupon_rate, ytm) {
                Some(e) => Err::<(), FinanceError>(e),
                None => Ok(()),
            },
    {
        if face_value.le(Binary64::zero()) {
            return Err(FinanceError::InvalidMonetaryValue);
        }
        if coupon_rate.lt(Binary64::zero()) || ytm.le(Binary64::minus_one()) {
            return Err(FinanceError::InvalidInterestRate);
        }
        Ok(())
    }

    /// A coupon bond of the given terms, or the error with which the terms
    /// are refused. The two amounts are the caller's: the coupon
    /// `face_value * coupon_rate`, and the last payment, coupon plus face
    /// value.
    pub fn new_coupon_bond(
        face_value: Binary64,
        coupon_rate: Binary64,
        periods: Periods,
        ytm: Binary64,
        coupon_payment: Binary64,
        final_payment: Binary64,
    ) -> (res: Result<Bond, FinanceError>)
        ensures
            match bond_terms_rejection(face_value, coupon_rate, ytm) {
                Some(e) => res == Err::<Bond, FinanceError>(e),
                None => res matches Ok(bond) && bond.ytm == ytm && bond.is_level_schedule(
                    periods,
                    coupon_payment,
                    final_payment,
                ),
            },
    {
        match Bond::validate_terms(face_value, coupon_rate, ytm) {
            Err(e) => Err(e),
            Ok(()) => Ok(Bond::from_payments(periods, coupon_payment, final_payment, ytm)),
        }
    }

    /// The bond that pays `coupon_payment` at the end of every period and
    /// `final_payment` (coupon and principal together) at the end of the
    /// last. With no periods the bond pays nothing.
    pub fn from_payments(
        periods: Periods,
        coupon_payment: Binary64,
        final_payment: Binary64,
        ytm: Binary64,
    ) -> (bond: Bond)
        ensures
            bond.ytm == ytm,
            bond.is_level_schedule(periods, coupon_payment, final_payment),
    {
        let mut cash_flows: Vec<BondCashFlow> = Vec::new();
        let mut t: u32 = 0;
        while t < periods
            invariant
                t <= periods,
                cash_flows@.len() == t,
                forall|i: int|
                    0 <= i < t ==> {
                        let flow = #[trigger] cash_flows@[i];
                        &&& flow.period.is_finite()
                        &&& !flow.period.sign()
                        &&& flow.period.scaled() == (i + 1) * pow2(1074)
                        &&& flow.amount == if i == periods - 1 {
                            final_payment
                        } else {
                            coupon_payment
                        }
                    },
            decreases periods - t,
        {
            t = t + 1;
            let amount = if t == periods {
                final_payment
            } else {
                coupon_payment
            };
            cash_flows.push(BondCashFlow { period: Binary64::from_u32(t), amount });
        }
        Bond { cash_flows, ytm }
    }
}

/// Checks the yield at which cash flows are discounted: `1 + y` must be
/// positive.
pub fn validate_yield(ytm: Binary64) -> (res: Result<(), FinanceError>)
    ensures
        res == if ytm.le(Binary64::minus_one()) {
            Err::<(), FinanceError>(FinanceError::InvalidInterestRate)
        } else {
            Ok(())
        },
{
    if ytm.le(Binary64::minus_one()) {
        Err(FinanceError::InvalidInterestRate)
    } else {
        Ok(())
    }
}

/// Checks the convexity from which a price adjustment is derived: it must
/// not be negative.
pub fn validate_convexity(convexity: Binary64) -> (res: Result<(), FinanceError>)
    ensures
        res == if convexity.lt(Binary64::zero()) {
            Err::<(), FinanceError>(FinanceError::InvalidInput)
        } else {
            Ok(())
        },
{
    if convexity.lt(Binary64::zero()) {
        Err(FinanceError::InvalidInput)
    } else {
        Ok(())
    }
}

/// The payments of a level schedule fall in strictly increasing periods.
pub proof fn lemma_schedule_periods_increase(
    bond: Bond,
    periods: Periods,
    coupon_payment: Binary64,
    final_payment: Binary64,
    i: int,
    j: int,
)
    requires
        bond.is_level_schedule(periods, coupon_payment, final_payment),
        0 <= i < j < periods,
    ensures
        bond.cash_flows@[i].period.lt(bond.cash_flows@[j].period),
{
    let unit = pow2(1074) as int;
    vstd::arithmetic::power2::lemma_pow2_pos(1074);
    assert((i + 1) * unit < (j + 1) * unit) by (nonlinear_arith)
        requires
            i < j,
            unit > 0,
    ;
}

} // verus!
