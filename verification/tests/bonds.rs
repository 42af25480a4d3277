//! Bond schedules and the admission checks of price, duration and convexity,
//! driven end to end with hardware arithmetic.

use quant_finance::binary64::Binary64;
use quant_finance::common::checks::nonzero_denominator;
use quant_finance::common::types::FinanceError;
use quant_finance::time_value::bonds::validate_convexity;
use quant_finance::time_value::bonds::validate_yield;
use quant_finance::time_value::bonds::Bond;

fn enc(x: f64) -> Binary64 {
    Binary64::from_bits(x.to_bits())
}

fn dec(x: Binary64) -> f64 {
    f64::from_bits(x.to_bits())
}

fn new_coupon_bond(face_value: f64, coupon_rate: f64, periods: u32, ytm: f64) -> Result<Bond, FinanceError> {
    let coupon_payment = face_value * coupon_rate;
    let final_payment = coupon_payment + face_value;
    Bond::new_coupon_bond(
        enc(face_value),
        enc(coupon_rate),
        periods,
        enc(ytm),
        enc(coupon_payment),
        enc(final_payment),
    )
}

fn bond_price(bond: &Bond) -> Result<f64, FinanceError> {
    validate_yield(bond.ytm)?;
    let ytm = dec(bond.ytm);
    let mut price = 0.0;
    for cash_flow in &bond.cash_flows {
        let discount_factor = (1.0 + ytm).powf(-dec(cash_flow.period));
        price += dec(cash_flow.amount) * discount_factor;
    }
    Ok(price)
}

fn macaulay_duration(bond: &Bond) -> Result<f64, FinanceError> {
    let market_price = bond_price(bond)?;
    nonzero_denominator(enc(market_price))?;
    let ytm = dec(bond.ytm);
    let mut weighted_time_pv = 0.0;
    for cash_flow in &bond.cash_flows {
        let discount_factor = (1.0 + ytm).powf(-dec(cash_flow.period));
        let present_value = dec(cash_flow.amount) * discount_factor;
        weighted_time_pv += present_value * dec(cash_flow.period);
    }
    Ok(weighted_time_pv / market_price)
}

fn bond_convexity(bond: &Bond) -> Result<f64, FinanceError> {
    let market_price = bond_price(bond)?;
    nonzero_denominator(enc(market_price))?;
    let mut convexity_sum = 0.0;
    let yield_factor = 1.0 + dec(bond.ytm);
    for cash_flow in &bond.cash_flows {
        let period = dec(cash_flow.period);
        let discount_factor = yield_factor.powf(-period);
        let time_factor = period * period + period;
        convexity_sum += dec(cash_flow.amount) * discount_factor * time_factor;
    }
    Ok(convexity_sum / (market_price * yield_factor * yield_factor))
}

fn convexity_adjustment(convexity: f64, yield_change: f64) -> Result<f64, FinanceError> {
    validate_convexity(enc(convexity))?;
    Ok(convexity * yield_change * yield_change)
}

fn modified_duration(bond: &Bond) -> Result<f64, FinanceError> {
    let mac_duration = macaulay_duration(bond)?;
    Ok(mac_duration / (1.0 + dec(bond.ytm)))
}

fn create_test_bond() -> Bond {
    new_coupon_bond(1000.0, 0.05, 5, 0.04).unwrap()
}

#[test]
fn test_bond_creation() {
    let bond = create_test_bond();

    assert_eq!(bond.cash_flows.len(), 5);
    assert_eq!(dec(bond.ytm), 0.04);

    for i in 0..4 {
        assert_eq!(dec(bond.cash_flows[i].amount), 50.0);
        assert_eq!(dec(bond.cash_flows[i].period), (i + 1) as f64);
    }

    assert_eq!(dec(bond.cash_flows[4].amount), 1050.0);
}

#[test]
fn test_bond_price() {
    let bond = create_test_bond();
    let price = bond_price(&bond).unwrap();

    assert!(price > 1000.0);
    assert!((price - 1044.52).abs() < 0.1);
}

#[test]
fn test_macaulay_duration() {
    let bond = create_test_bond();
    let duration = macaulay_duration(&bond).unwrap();

    assert!(duration > 0.0);
    assert!(duration < 5.0);
    assert!((duration - 4.557).abs() < 0.01);
}

#[test]
fn test_bond_convexity() {
    let bond = create_test_bond();
    let convexity = bond_convexity(&bond).unwrap();

    assert!(convexity > 0.0);
    assert!((convexity - 24.48).abs() < 0.1);
}

#[test]
fn test_modified_duration() {
    let bond = create_test_bond();
    let mac_duration = macaulay_duration(&bond).unwrap();
    let mod_duration = modified_duration(&bond).unwrap();

    let expected = mac_duration / (1.0 + dec(bond.ytm));
    assert!((mod_duration - expected).abs() < 1e-10);
}

#[test]
fn test_convexity_adjustment() {
    let adjustment = convexity_adjustment(20.0, 0.01).unwrap();
    assert!((adjustment - 0.002).abs() < 1e-6);
}

#[test]
fn test_zero_coupon_bond() {
    let bond = new_coupon_bond(1000.0, 0.0, 10, 0.05).unwrap();

    let duration = macaulay_duration(&bond).unwrap();
    assert!((duration - 10.0).abs() < 1e-10);
}

#[test]
fn bonds_test_invalid_inputs() {
    assert!(new_coupon_bond(-1000.0, 0.05, 5, 0.04).is_err());
    assert!(new_coupon_bond(1000.0, -0.05, 5, 0.04).is_err());
    assert!(new_coupon_bond(1000.0, 0.05, 5, -2.0).is_err());
}

#[test]
fn test_convexity_with_different_bond() {
    let bond = new_coupon_bond(1000.0, 0.08, 3, 0.06).unwrap();
    let convexity = bond_convexity(&bond).unwrap();

    assert!(convexity > 0.0);
    assert!(convexity < 15.0);
}

#[test]
fn bond_terms_checks_in_order() {
    let check = |f: f64, c: f64, y: f64| Bond::validate_terms(enc(f), enc(c), enc(y));
    assert_eq!(check(1000.0, 0.05, 0.04), Ok(()));
    assert_eq!(check(1000.0, 0.0, -0.5), Ok(()));
    assert_eq!(check(0.0, 0.05, 0.04), Err(FinanceError::InvalidMonetaryValue));
    assert_eq!(check(-1000.0, -0.05, -2.0), Err(FinanceError::InvalidMonetaryValue));
    assert_eq!(check(1000.0, -0.05, 0.04), Err(FinanceError::InvalidInterestRate));
    assert_eq!(check(1000.0, 0.05, -1.0), Err(FinanceError::InvalidInterestRate));
    assert_eq!(check(1000.0, 0.05, -2.0), Err(FinanceError::InvalidInterestRate));
    assert_eq!(check(f64::NAN, f64::NAN, f64::NAN), Ok(()));
}

#[test]
fn schedule_shapes() {
    let none = Bond::from_payments(0, enc(50.0), enc(1050.0), enc(0.04));
    assert!(none.cash_flows.is_empty());
    assert_eq!(dec(none.ytm), 0.04);

    let one = Bond::from_payments(1, enc(50.0), enc(1050.0), enc(0.04));
    assert_eq!(one.cash_flows.len(), 1);
    assert_eq!(dec(one.cash_flows[0].period), 1.0);
    assert_eq!(dec(one.cash_flows[0].amount), 1050.0);

    let many = Bond::from_payments(1000, enc(2.5), enc(102.5), enc(0.01));
    assert_eq!(many.cash_flows.len(), 1000);
    for (i, flow) in many.cash_flows.iter().enumerate() {
        assert_eq!(dec(flow.period), (i + 1) as f64);
        assert_eq!(dec(flow.amount), if i == 999 { 102.5 } else { 2.5 });
    }
}

#[test]
fn yield_and_convexity_checks() {
    assert_eq!(validate_yield(enc(0.04)), Ok(()));
    assert_eq!(validate_yield(enc(-0.99)), Ok(()));
    assert_eq!(validate_yield(enc(-1.0)), Err(FinanceError::InvalidInterestRate));
    assert_eq!(validate_yield(enc(-3.0)), Err(FinanceError::InvalidInterestRate));
    assert_eq!(validate_yield(enc(f64::NAN)), Ok(()));
    assert_eq!(validate_convexity(enc(0.0)), Ok(()));
    assert_eq!(validate_convexity(enc(20.0)), Ok(()));
    assert_eq!(validate_convexity(enc(-0.0)), Ok(()));
    assert_eq!(validate_convexity(enc(-1e-9)), Err(FinanceError::InvalidInput));
    assert_eq!(convexity_adjustment(-20.0, 0.01), Err(FinanceError::InvalidInput));
}

#[test]
fn a_bond_without_payments_has_no_duration() {
    let bond = new_coupon_bond(1000.0, 0.05, 0, 0.04).unwrap();
    assert_eq!(bond_price(&bond), Ok(0.0));
    assert_eq!(macaulay_duration(&bond), Err(FinanceError::DivisionByZero));
    assert_eq!(bond_convexity(&bond), Err(FinanceError::DivisionByZero));
    assert_eq!(modified_duration(&bond), Err(FinanceError::DivisionByZero));
}
