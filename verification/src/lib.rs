//! Decision core of a quantitative-finance toolkit.
//!
//! Real numbers enter and leave this crate as IEEE-754 binary64 encodings
//! ([`binary64::Binary64`]). Everything in here is integer logic on those
//! encodings: classification, ordering, input validation, the choice of the
//! computation regime and the degenerate limits of the Black-Scholes model.
//! The transcendental arithmetic of the formulas is left to the caller, who
//! is told which formula applies.

pub mod binary64;
pub mod common;
pub mod options;
pub mod portfolio;
pub mod time_value;

pub use binary64::Binary64;
pub use common::FinanceError;
pub use common::FinanceResult;
pub use common::OptionType;
pub use options::call_price;
pub use options::d1_d2;
pub use options::option_price;
pub use options::put_price;
