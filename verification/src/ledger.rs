//! Creation of a ledger record, its value history, and the check that aggregate and
//! assets agree.

use crate::model::{asset_values_sum, LedgerView, Portfolio};
use solana_program::pubkey::Pubkey;
use vstd::prelude::*;

verus! {

/// The ownership units that every ledger is created with.
pub const INITIAL_SHARES: u64 = 1_000_000;

impl LedgerView {
    /// The ledger of a new owner: nothing held, nothing recorded, no fees, and
    /// thresholds that admit every aggregate value.
    pub open spec fn initial(owner: Pubkey, now: int) -> LedgerView {
        LedgerView {
            owner,
            total_value: 0,
            total_shares: INITIAL_SHARES as nat,
            assets: Seq::empty(),
            historical_values: Seq::empty(),
            last_update_timestamp: now,
            min_value_threshold: 0,
            max_value_threshold: u64::MAX as nat,
            management_fee: 0,
            performance_fee: 0,
        }
    }

    /// Recording a snapshot: the value joins the history and the time of the last
    /// update moves to `now`.
    pub open spec fn record_performance(self, current_value: nat, now: int) -> LedgerView {
        LedgerView {
            historical_values: self.historical_values.push(current_value),
            last_update_timestamp: now,
            ..self
        }
    }
}

/// Creates the ledger record of `owner` at time `now`.
pub fn initialize_portfolio(owner: Pubkey, now: i64) -> (portfolio: Portfolio)
    ensures
        portfolio@ == LedgerView::initial(owner, now as int),
        portfolio@.is_consistent(),
{
    Portfolio {
        owner,
        total_value: 0,
        total_shares: INITIAL_SHARES,
        assets: Vec::new(),
        historical_values: Vec::new(),
        last_update_timestamp: now,
        min_value_threshold: 0,
        max_value_threshold: u64::MAX,
        management_fee: 0,
        performance_fee: 0,
    }
}

/// Appends `current_value` to the value history and sets the time of the last update
/// to `now`. Holdings and aggregate are not touched.
pub fn record_performance(portfolio: &mut Portfolio, current_value: u64, now: i64)
    ensures
        final(portfolio)@ == old(portfolio)@.record_performance(current_value as nat, now as int),
        old(portfolio)@.is_consistent() ==> final(portfolio)@.is_consistent(),
{
    portfolio.historical_values.push(current_value);
    portfolio.last_update_timestamp = now;
}

/// Tells whether the aggregate value equals the sum of the values of the assets.
pub fn is_consistent(portfolio: &Portfolio) -> (consistent: bool)
    ensures
        consistent == portfolio@.is_consistent(),
{
    let mut sum: u128 = 0;
    let mut i: usize = 0;
    while i < portfolio.assets.len()
        invariant
            i <= portfolio.assets.len(),
            sum == asset_values_sum(portfolio@.assets.take(i as int)),
            sum <= i * 0xffff_ffff_ffff_ffff,
        decreases portfolio.assets.len() - i,
    {
        assert(portfolio@.assets.take(i + 1).drop_last() =~= portfolio@.assets.take(i as int));
        sum = sum + portfolio.assets[i].value as u128;
        i += 1;
    }
    assert(portfolio@.assets.take(i as int) =~= portfolio@.assets);
    sum == portfolio.total_value as u128
}

} // verus!
