//! The risk monitor: the aggregate value held against the configured thresholds.

use crate::error::PortfolioError;
use crate::model::{LedgerView, Portfolio};
use vstd::prelude::*;

verus! {

/// What a passed risk check advises.
#[derive(Clone, Copy, Debug, PartialEq, Eq, Structural)]
pub enum RiskAdvisory {
    /// The aggregate value lies within the thresholds.
    WithinBounds,
    /// The aggregate value lies above the maximum: rebalancing is recommended.
    AboveMaximum,
}

impl LedgerView {
    /// The aggregate lies below the configured floor.
    pub open spec fn is_under_minimum(self) -> bool {
        self.total_value < self.min_value_threshold
    }

    /// The aggregate lies above the configured ceiling.
    pub open spec fn is_over_maximum(self) -> bool {
        self.total_value > self.max_value_threshold
    }

    /// The verdict of the risk check: below the floor is an error, above the ceiling
    /// an advice.
    pub open spec fn check_risk(self) -> Result<RiskAdvisory, PortfolioError> {
        if self.is_under_minimum() {
            Err(PortfolioError::UnderMinValue)
        } else if self.is_over_maximum() {
            Ok(RiskAdvisory::AboveMaximum)
        } else {
            Ok(RiskAdvisory::WithinBounds)
        }
    }
}

/// Holds the aggregate value against the thresholds. A value below the minimum fails
/// the check. A value above the maximum passes it with the advice to rebalance.
pub fn check_risk(portfolio: &Portfolio) -> (verdict: Result<RiskAdvisory, PortfolioError>)
    ensures
        verdict == portfolio@.check_risk(),
{
    if portfolio.total_value < portfolio.min_value_threshold {
        Err(PortfolioError::UnderMinValue)
    } else if portfolio.total_value > portfolio.max_value_threshold {
        Ok(RiskAdvisory::AboveMaximum)
    } else {
        Ok(RiskAdvisory::WithinBounds)
    }
}

} // verus!
