//! Types and checks shared by every module of the crate.

pub mod checks;
pub mod types;

pub use types::CompoundingFrequency;
pub use types::FinanceError;
pub use types::FinanceResult;
pub use types::OptionType;
pub use types::Periods;
