//! Portfolio theory and asset pricing.

pub mod capm;
