//! The valuation engine: revaluing an asset and moving the aggregate with it.

use crate::error::PortfolioError;
use crate::events::{AssetUpdated, AssetUpdatedView};
use crate::model::{lemma_sum_update, LedgerView, Portfolio};
use crate::registry::find_asset;
use vstd::prelude::*;

verus! {

impl LedgerView {
    /// The aggregate after the asset at position `i` is revalued: the old contribution
    /// is taken out and the new one put in.
    pub open spec fn revalued_total(self, i: int, new_value: nat) -> int {
        self.total_value - self.assets[i].value + new_value
    }

    /// Revaluing the first asset named `symbol`: asset and aggregate change together.
    pub open spec fn update_asset_value(self, symbol: Seq<char>, new_value: nat) -> Result<
        LedgerView,
        PortfolioError,
    > {
        match self.find(symbol) {
            None => Err(PortfolioError::AssetNotFound),
            Some(i) => if 0 <= self.revalued_total(i, new_value) <= u64::MAX {
                Ok(
                    self.with_asset(i, self.assets[i].with_value(new_value)).with_total_value(
                        self.revalued_total(i, new_value) as nat,
                    ),
                )
            } else {
                Err(PortfolioError::ArithmeticOverflow)
            },
        }
    }

    /// Revaluing the first asset named `symbol` at what the price oracle reported. The
    /// oracle is asked only for an asset that the ledger holds; `None` stands for an
    /// oracle that failed.
    pub open spec fn update_asset_value_with_oracle(
        self,
        symbol: Seq<char>,
        reading: Option<nat>,
    ) -> Result<LedgerView, PortfolioError> {
        match self.find(symbol) {
            None => Err(PortfolioError::AssetNotFound),
            Some(_) => match reading {
                None => Err(PortfolioError::ExternalEffectFailed),
                Some(price) => self.update_asset_value(symbol, price),
            },
        }
    }

    /// The notice of a revaluation of the first asset named `symbol`.
    pub open spec fn revaluation_notice(self, symbol: Seq<char>, new_value: nat) -> AssetUpdatedView {
        AssetUpdatedView {
            owner: self.owner,
            asset_symbol: symbol,
            old_value: self.assets[self.find(symbol).unwrap()].value,
            new_value,
        }
    }
}

/// Sets the value of the asset at position `i`, which a lookup of `asset_symbol` yields,
/// to `new_value` and moves the aggregate by the difference.
fn revalue(portfolio: &mut Portfolio, i: usize, asset_symbol: String, new_value: u64) -> (outcome:
    Result<AssetUpdated, PortfolioError>)
    requires
        old(portfolio)@.find(asset_symbol@) == Some(i as int),
    ensures
        match old(portfolio)@.update_asset_value(asset_symbol@, new_value as nat) {
            Ok(next) => {
                &&& final(portfolio)@ == next
                &&& outcome matches Ok(notice)
                &&& notice@ == old(portfolio)@.revaluation_notice(asset_symbol@, new_value as nat)
            },
            Err(e) => final(portfolio)@ == old(portfolio)@ && outcome == Err::<
                AssetUpdated,
                PortfolioError,
            >(e),
        },
        old(portfolio)@.is_consistent() ==> final(portfolio)@.is_consistent(),
{
    let old_value = portfolio.assets[i].value;
    let raised: u128 = portfolio.total_value as u128 + new_value as u128;
    if raised < old_value as u128 || raised - old_value as u128 > u64::MAX as u128 {
        return Err(PortfolioError::ArithmeticOverflow);
    }
    let new_total_value = (raised - old_value as u128) as u64;
    portfolio.assets[i].value = new_value;
    portfolio.total_value = new_total_value;
    proof {
        let before = old(portfolio)@;
        let next = before.update_asset_value(asset_symbol@, new_value as nat).unwrap();
        lemma_sum_update(before.assets, i as int, next.assets[i as int]);
    }
    Ok(AssetUpdated { owner: portfolio.owner, asset_symbol, old_value, new_value })
}

/// Sets the value of the first asset named `asset_symbol` to `new_value` and moves the
/// aggregate by the difference. On success the notice of the change is returned.
pub fn update_asset_value(portfolio: &mut Portfolio, asset_symbol: String, new_value: u64) -> (outcome:
    Result<AssetUpdated, PortfolioError>)
    ensures
        match old(portfolio)@.update_asset_value(asset_symbol@, new_value as nat) {
            Ok(next) => {
                &&& final(portfolio)@ == next
                &&& outcome matches Ok(notice)
                &&& notice@ == old(portfolio)@.revaluation_notice(asset_symbol@, new_value as nat)
            },
            Err(e) => final(portfolio)@ == old(portfolio)@ && outcome == Err::<
                AssetUpdated,
                PortfolioError,
            >(e),
        },
        old(portfolio)@.is_consistent() ==> final(portfolio)@.is_consistent(),
{
    match find_asset(portfolio, &asset_symbol) {
        Err(e) => Err(e),
        Ok(i) => revalue(portfolio, i, asset_symbol, new_value),
    }
}

/// Sets the value of the first asset named `asset_symbol` to the price that the oracle
/// reported for it, as [`update_asset_value`] does. `None` is a failed oracle: nothing
/// changes then.
pub fn update_asset_value_with_oracle(
    portfolio: &mut Portfolio,
    asset_symbol: String,
    oracle_price: Option<u64>,
) -> (outcome: Result<AssetUpdated, PortfolioError>)
    ensures
        match old(portfolio)@.update_asset_value_with_oracle(
            asset_symbol@,
            match oracle_price {
                Some(price) => Some(price as nat),
                None => None,
            },
        ) {
            Ok(next) => {
                &&& final(portfolio)@ == next
                &&& outcome matches Ok(notice)
                &&& oracle_price matches Some(price)
                &&& notice@ == old(portfolio)@.revaluation_notice(asset_symbol@, price as nat)
            },
            Err(e) => final(portfolio)@ == old(portfolio)@ && outcome == Err::<
                AssetUpdated,
                PortfolioError,
            >(e),
        },
        old(portfolio)@.is_consistent() ==> final(portfolio)@.is_consistent(),
{
    match find_asset(portfolio, &asset_symbol) {
        Err(e) => Err(e),
        Ok(i) => match oracle_price {
            None => Err(PortfolioError::ExternalEffectFailed),
            Some(price) => revalue(portfolio, i, asset_symbol, price),
        },
    }
}

} // verus!
