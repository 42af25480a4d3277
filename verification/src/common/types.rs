//! Error and discriminator types.

use vstd::prelude::*;

verus! {

/// Number of compounding or coupon periods.
pub type Periods = u32;

/// Number of compoundings per year.
pub type CompoundingFrequency = u32;

/// Reasons for which a computation is refused.
#[derive(Debug, Clone, Copy, PartialEq, Eq, Structural)]
pub enum FinanceError {
    /// A rate (or a volatility) is negative or otherwise unusable.
    InvalidInterestRate,
    /// A number of periods or a time span is unusable.
    InvalidPeriods,
    /// A monetary amount is negative, zero or not finite where that is not allowed.
    InvalidMonetaryValue,
    /// A computed denominator is exactly zero.
    DivisionByZero,
    /// Any other unusable argument.
    InvalidInput,
}

/// Result of a computation that may be refused.
pub type FinanceResult<T> = Result<T, FinanceError>;

/// Kind of a European option.
#[derive(Debug, Clone, Copy, PartialEq, Eq, Structural)]
pub enum OptionType {
    Call,
    Put,
}

impl FinanceError {
    /// The text shown to a user for each error.
    pub open spec fn message_spec(self) -> Seq<char> {
        match self {
            FinanceError::InvalidInterestRate => "Tasa de interés inválida"@,
            FinanceError::InvalidPeriods => "Número de períodos inválido"@,
            FinanceError::InvalidMonetaryValue => "Valor monetario inválido"@,
            FinanceError::DivisionByZero => "División por cero en cálculo financiero"@,
            FinanceError::InvalidInput => "Valor inválido"@,
        }
    }

    /// Human-readable description of the error.
    pub fn message(&self) -> (text: String)
        ensures
            text@ == self.message_spec(),
    {
        match self {
            FinanceError::InvalidInterestRate => "Tasa de interés inválida".to_owned(),
            FinanceError::InvalidPeriods => "Número de períodos inválido".to_owned(),
            FinanceError::InvalidMonetaryValue => "Valor monetario inválido".to_owned(),
            FinanceError::DivisionByZero => "División por cero en cálculo financiero".to_owned(),
            FinanceError::InvalidInput => "Valor inválido".to_owned(),
        }
    }
}

} // verus!
