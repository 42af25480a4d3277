//! Time value of money: which inputs the present-value, interest and bond
//! formulas accept.

pub mod basic;
pub mod bonds;
pub mod compound;
pub mod simple;

pub use bonds::Bond;
pub use bonds::BondCashFlow;
