//! The asset registry: adding an asset and finding the asset that a symbol names.

use crate::error::PortfolioError;
use crate::events::{AssetUpdated, AssetUpdatedView};
use crate::model::{
    lemma_find_is_first_match, lemma_sum_push, Asset, AssetView, LedgerView, Portfolio,
};
use vstd::prelude::*;

verus! {

impl AssetView {
    /// Taking `amount` units from the asset, which has to hold that many. The value of
    /// the asset is not touched.
    pub open spec fn decrement_amount(self, amount: nat) -> Result<AssetView, PortfolioError> {
        if self.amount < amount {
            Err(PortfolioError::InsufficientBalance)
        } else {
            Ok(self.with_amount((self.amount - amount) as nat))
        }
    }
}

impl LedgerView {
    /// Appending an asset: the aggregate grows by the asset's value. Symbols already in
    /// the ledger are not looked at, so the new asset may be shadowed from the start.
    pub open spec fn add_asset(self, symbol: Seq<char>, amount: nat, value: nat) -> Result<
        LedgerView,
        PortfolioError,
    > {
        if self.total_value + value > u64::MAX {
            Err(PortfolioError::ArithmeticOverflow)
        } else {
            Ok(
                LedgerView {
                    total_value: self.total_value + value,
                    assets: self.assets.push(AssetView { symbol, amount, value }),
                    ..self
                },
            )
        }
    }

    /// The asset that a transition on `amount` units of `symbol` acts on: the first one
    /// with that symbol, provided `amount` units can be taken from it.
    pub open spec fn debit_position(self, symbol: Seq<char>, amount: nat) -> Result<
        int,
        PortfolioError,
    > {
        match self.find(symbol) {
            None => Err(PortfolioError::AssetNotFound),
            Some(i) => match self.assets[i].decrement_amount(amount) {
                Err(e) => Err(e),
                Ok(_) => Ok(i),
            },
        }
    }
}

/// Looks `symbol` up: the position of the first asset that carries it.
pub fn find_asset(portfolio: &Portfolio, symbol: &String) -> (found: Result<usize, PortfolioError>)
    ensures
        match portfolio@.find(symbol@) {
            Some(i) => found matches Ok(k) && k == i,
            None => found == Err::<usize, PortfolioError>(PortfolioError::AssetNotFound),
        },
{
    let mut i: usize = 0;
    while i < portfolio.assets.len()
        invariant
            i <= portfolio.assets.len(),
            forall|j: int| 0 <= j < i ==> (#[trigger] portfolio@.assets[j]).symbol != symbol@,
        decreases portfolio.assets.len() - i,
    {
        if portfolio.assets[i].symbol == *symbol {
            proof {
                lemma_find_is_first_match(portfolio@, symbol@, i as int);
            }
            return Ok(i);
        }
        i += 1;
    }
    Err(PortfolioError::AssetNotFound)
}

/// Takes `amount` units from `asset`. An asset that holds fewer is left as it is.
pub fn decrement_amount(asset: &mut Asset, amount: u64) -> (outcome: Result<(), PortfolioError>)
    ensures
        match old(asset)@.decrement_amount(amount as nat) {
            Ok(next) => final(asset)@ == next && outcome is Ok,
            Err(e) => final(asset)@ == old(asset)@ && outcome == Err::<(), PortfolioError>(e),
        },
{
    if asset.amount < amount {
        return Err(PortfolioError::InsufficientBalance);
    }
    asset.amount = asset.amount - amount;
    Ok(())
}

/// Looks `symbol` up and checks that the asset found holds at least `amount` units.
/// Nothing is changed.
pub fn find_debit_position(portfolio: &Portfolio, symbol: &String, amount: u64) -> (found: Result<
    usize,
    PortfolioError,
>)
    ensures
        match portfolio@.debit_position(symbol@, amount as nat) {
            Ok(i) => found matches Ok(k) && k == i,
            Err(e) => found == Err::<usize, PortfolioError>(e),
        },
{
    match find_asset(portfolio, symbol) {
        Err(e) => Err(e),
        Ok(i) => {
            proof {
                lemma_find_is_first_match(portfolio@, symbol@, i as int);
            }
            if portfolio.assets[i].amount < amount {
                Err(PortfolioError::InsufficientBalance)
            } else {
                Ok(i)
            }
        },
    }
}

/// Appends an asset and adds its value to the aggregate. On success the notice of
/// the change is returned: the asset's value went from zero to `asset_value`.
pub fn add_asset(
    portfolio: &mut Portfolio,
    asset_symbol: String,
    asset_amount: u64,
    asset_value: u64,
) -> (outcome: Result<AssetUpdated, PortfolioError>)
    ensures
        match old(portfolio)@.add_asset(asset_symbol@, asset_amount as nat, asset_value as nat) {
            Ok(next) => {
                &&& final(portfolio)@ == next
                &&& outcome is Ok
                &&& outcome.unwrap()@ == (AssetUpdatedView {
                    owner: next.owner,
                    asset_symbol: asset_symbol@,
                    old_value: 0,
                    new_value: asset_value as nat,
                })
            },
            Err(e) => final(portfolio)@ == old(portfolio)@ && outcome == Err::<
                AssetUpdated,
                PortfolioError,
            >(e),
        },
        old(portfolio)@.is_consistent() ==> final(portfolio)@.is_consistent(),
{
    if asset_value > u64::MAX - portfolio.total_value {
        return Err(PortfolioError::ArithmeticOverflow);
    }
    portfolio.total_value = portfolio.total_value + asset_value;
    let asset = Asset { symbol: asset_symbol.clone(), amount: asset_amount, value: asset_value };
    portfolio.assets.push(asset);
    proof {
        lemma_sum_push(old(portfolio)@.assets, asset@);
    }
    Ok(AssetUpdated { owner: portfolio.owner, asset_symbol, old_value: 0, new_value: asset_value })
}

} // verus!
