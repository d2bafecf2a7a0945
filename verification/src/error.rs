//! The reasons for which a transition is refused.

use vstd::prelude::*;

verus! {

/// Why a transition was refused. A refused transition leaves every record untouched.
#[derive(Clone, Copy, Debug, PartialEq, Eq, Structural)]
pub enum PortfolioError {
    /// No asset of the ledger carries the requested symbol.
    AssetNotFound,
    /// The asset holds fewer units than the transition asks for.
    InsufficientBalance,
    /// The aggregate value lies below the configured floor.
    UnderMinValue,
    /// A value that the transition would store does not fit its unsigned 64-bit field.
    ArithmeticOverflow,
    /// The token transfer service or the price oracle reported a failure.
    ExternalEffectFailed,
}

impl PortfolioError {
    /// The text shown for the error.
    pub fn message(&self) -> (text: &'static str)
        ensures
            text@ == (match *self {
                PortfolioError::AssetNotFound => "The asset was not found in the portfolio."@,
                PortfolioError::InsufficientBalance => "Insufficient balance for the transfer."@,
                PortfolioError::UnderMinValue => "Portfolio value is below the minimum threshold."@,
                PortfolioError::ArithmeticOverflow => "A ledger value left the unsigned 64-bit range."@,
                PortfolioError::ExternalEffectFailed => "An external service failed to complete the transition."@,
            }),
    {
        match self {
            PortfolioError::AssetNotFound => "The asset was not found in the portfolio.",
            PortfolioError::InsufficientBalance => "Insufficient balance for the transfer.",
            PortfolioError::UnderMinValue => "Portfolio value is below the minimum threshold.",
            PortfolioError::ArithmeticOverflow => "A ledger value left the unsigned 64-bit range.",
            PortfolioError::ExternalEffectFailed => "An external service failed to complete the transition.",
        }
    }
}

} // verus!
