//! The fee engine: management fee, performance fee and the bonus tier, charged to
//! the aggregate value in one step.

use crate::arith::{percent_of, percent_of_wide};
use crate::error::PortfolioError;
use crate::events::{FeesApplied, FeesAppliedView};
use crate::model::{LedgerView, Portfolio};
use vstd::prelude::*;

verus! {

/// The hundredths of the aggregate that the bonus tier of the dynamic fees takes.
pub const PERFORMANCE_BONUS_PERCENT: u64 = 5;

impl LedgerView {
    /// The management fee: `management_fee` hundredths of the aggregate, rounded down.
    pub open spec fn management_fee_amount(self) -> nat {
        percent_of(self.total_value, self.management_fee)
    }

    /// The performance fee. No performance model is in place: the fee is zero.
    pub open spec fn performance_fee_amount(self) -> nat {
        0
    }

    /// The bonus fee of the dynamic tier: due once the aggregate lies above `threshold`.
    pub open spec fn performance_bonus(self, threshold: nat) -> nat {
        if self.total_value > threshold {
            percent_of(self.total_value, PERFORMANCE_BONUS_PERCENT as nat)
        } else {
            0
        }
    }

    /// Taking both fee components from the aggregate in one step. Fees that the
    /// aggregate does not cover are refused.
    pub open spec fn charge(self, management: nat, performance: nat) -> Result<
        LedgerView,
        PortfolioError,
    > {
        if management + performance > self.total_value {
            Err(PortfolioError::ArithmeticOverflow)
        } else {
            Ok(self.with_total_value((self.total_value - (management + performance)) as nat))
        }
    }

    /// Applying management and performance fee.
    pub open spec fn apply_fees(self) -> Result<LedgerView, PortfolioError> {
        self.charge(self.management_fee_amount(), self.performance_fee_amount())
    }

    /// Applying management and performance fee, the latter raised by the bonus of the
    /// dynamic tier. Every component is computed from the aggregate before the charge.
    pub open spec fn apply_dynamic_fees(self, threshold: nat) -> Result<LedgerView, PortfolioError> {
        self.charge(
            self.management_fee_amount(),
            self.performance_fee_amount() + self.performance_bonus(threshold),
        )
    }
}

/// The performance fee due on `portfolio`.
pub fn calculate_performance_fee(portfolio: &Portfolio) -> (fee: Result<u64, PortfolioError>)
    ensures
        fee matches Ok(amount) && amount == portfolio@.performance_fee_amount(),
{
    Ok(0)
}

/// Takes `management` and `performance` from the aggregate in one step and returns the
/// notice of it.
fn charge_fees(portfolio: &mut Portfolio, management: u128, performance: u128) -> (outcome: Result<
    FeesApplied,
    PortfolioError,
>)
    requires
        management + performance <= u128::MAX,
    ensures
        match old(portfolio)@.charge(management as nat, performance as nat) {
            Ok(next) => {
                &&& final(portfolio)@ == next
                &&& outcome matches Ok(notice)
                &&& notice@ == (FeesAppliedView {
                    owner: next.owner,
                    management_fee: management as nat,
                    performance_fee: performance as nat,
                })
            },
            Err(e) => final(portfolio)@ == old(portfolio)@ && outcome == Err::<
                FeesApplied,
                PortfolioError,
            >(e),
        },
{
    let total = management + performance;
    if total > portfolio.total_value as u128 {
        return Err(PortfolioError::ArithmeticOverflow);
    }
    portfolio.total_value = portfolio.total_value - (total as u64);
    Ok(
        FeesApplied {
            owner: portfolio.owner,
            management_fee: management as u64,
            performance_fee: performance as u64,
        },
    )
}

/// Takes the management fee and the performance fee from the aggregate value. Both
/// are computed first and deducted together. On success the notice carries the two
/// amounts.
pub fn apply_fees(portfolio: &mut Portfolio) -> (outcome: Result<FeesApplied, PortfolioError>)
    ensures
        match old(portfolio)@.apply_fees() {
            Ok(next) => {
                &&& final(portfolio)@ == next
                &&& outcome matches Ok(notice)
                &&& notice@ == (FeesAppliedView {
                    owner: next.owner,
                    management_fee: old(portfolio)@.management_fee_amount(),
                    performance_fee: old(portfolio)@.performance_fee_amount(),
                })
            },
            Err(e) => final(portfolio)@ == old(portfolio)@ && outcome == Err::<
                FeesApplied,
                PortfolioError,
            >(e),
        },
{
    let management = percent_of_wide(portfolio.total_value, portfolio.management_fee);
    let performance = match calculate_performance_fee(portfolio) {
        Ok(amount) => amount,
        Err(e) => { return Err(e); },
    };
    charge_fees(portfolio, management, performance as u128)
}

/// Takes the fees as [`apply_fees`] does, with a bonus of five hundredths of the
/// aggregate added to the performance fee when the aggregate lies above
/// `performance_bonus_threshold`. Comparison and amounts use the aggregate as it is
/// before the deduction.
pub fn apply_dynamic_fees(portfolio: &mut Portfolio, performance_bonus_threshold: u64) -> (outcome:
    Result<FeesApplied, PortfolioError>)
    ensures
        match old(portfolio)@.apply_dynamic_fees(performance_bonus_threshold as nat) {
            Ok(next) => {
                &&& final(portfolio)@ == next
                &&& outcome matches Ok(notice)
                &&& notice@ == (FeesAppliedView {
                    owner: next.owner,
                    management_fee: old(portfolio)@.management_fee_amount(),
                    performance_fee: old(portfolio)@.performance_fee_amount() + old(
                        portfolio,
                    )@.performance_bonus(performance_bonus_threshold as nat),
                })
            },
            Err(e) => final(portfolio)@ == old(portfolio)@ && outcome == Err::<
                FeesApplied,
                PortfolioError,
            >(e),
        },
{
    let base_management = percent_of_wide(portfolio.total_value, portfolio.management_fee);
    let base_performance = match calculate_performance_fee(portfolio) {
        Ok(amount) => amount,
        Err(e) => { return Err(e); },
    };
    let bonus: u128 = if portfolio.total_value > performance_bonus_threshold {
        percent_of_wide(portfolio.total_value, PERFORMANCE_BONUS_PERCENT)
    } else {
        0
    };
    charge_fees(portfolio, base_management, base_performance as u128 + bonus)
}

} // verus!
