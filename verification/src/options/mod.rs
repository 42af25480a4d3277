//! Pricing of European options.

pub mod black_scholes;

pub use black_scholes::call_price;
pub use black_scholes::d1_d2;
pub use black_scholes::option_price;
pub use black_scholes::put_price;
