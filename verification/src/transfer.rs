//! Debits that leave the ledger through the token transfer service: transfer,
//! withdrawal and liquidity provision, each settled once the service has reported.

use crate::error::PortfolioError;
use crate::model::{lemma_sum_update, LedgerView, Portfolio};
use crate::registry::{decrement_amount, find_asset, find_debit_position};
use vstd::prelude::*;

verus! {

/// A debit that awaits the token transfer service: the quantity that the service has
/// to move, and what the ledger held before the debit, so that the debit can be taken
/// back if the service fails.
#[derive(Clone, Copy, Debug, PartialEq, Eq, Structural)]
pub struct PendingTransfer {
    /// The quantity that the token transfer service has to move.
    pub amount: u64,
    /// The position of the debited asset.
    pub asset_index: usize,
    /// The quantity that the asset held before the debit.
    pub prior_amount: u64,
    /// The aggregate value before the debit.
    pub prior_total_value: u64,
}

impl PendingTransfer {
    /// The record describes a debit of `amount` units at position `i` of `before`.
    pub open spec fn records(self, before: LedgerView, i: int, amount: nat) -> bool {
        &&& self.amount == amount
        &&& self.asset_index == i
        &&& self.prior_amount == before.assets[i].amount
        &&& self.prior_total_value == before.total_value
    }
}

impl LedgerView {
    /// Moving `amount` units of `symbol` out: the quantity shrinks, no valuation changes.
    pub open spec fn transfer_asset(self, symbol: Seq<char>, amount: nat) -> Result<
        LedgerView,
        PortfolioError,
    > {
        match self.debit_position(symbol, amount) {
            Err(e) => Err(e),
            Ok(i) => Ok(self.with_asset(i, self.assets[i].decrement_amount(amount).unwrap())),
        }
    }

    /// What a withdrawal of `amount` units takes from the aggregate: `amount` times the
    /// value recorded for the asset at position `i`.
    pub open spec fn withdrawal_reduction(self, i: int, amount: nat) -> nat {
        amount * self.assets[i].value
    }

    /// Withdrawing `amount` units of `symbol`: the quantity shrinks and the aggregate
    /// shrinks by the withdrawal's reduction, which it has to cover.
    pub open spec fn withdraw_asset(self, symbol: Seq<char>, amount: nat) -> Result<
        LedgerView,
        PortfolioError,
    > {
        match self.debit_position(symbol, amount) {
            Err(e) => Err(e),
            Ok(i) => if self.withdrawal_reduction(i, amount) > self.total_value {
                Err(PortfolioError::ArithmeticOverflow)
            } else {
                Ok(
                    self.with_asset(
                        i,
                        self.assets[i].decrement_amount(amount).unwrap(),
                    ).with_total_value(
                        (self.total_value - self.withdrawal_reduction(i, amount)) as nat,
                    ),
                )
            },
        }
    }

    /// Providing `amount` units of `symbol` as liquidity: the balance is checked, the
    /// ledger stays as it is.
    pub open spec fn provide_liquidity(self, symbol: Seq<char>, amount: nat) -> Result<
        LedgerView,
        PortfolioError,
    > {
        match self.debit_position(symbol, amount) {
            Err(e) => Err(e),
            Ok(_) => Ok(self),
        }
    }

    /// The ledger with a debit taken back: the debited asset holds its prior quantity
    /// and the aggregate its prior value. A record that points outside the assets
    /// changes nothing.
    pub open spec fn rolled_back(self, pending: PendingTransfer) -> LedgerView {
        if pending.asset_index < self.assets.len() {
            self.with_asset(
                pending.asset_index as int,
                self.assets[pending.asset_index as int].with_amount(pending.prior_amount as nat),
            ).with_total_value(pending.prior_total_value as nat)
        } else {
            self
        }
    }
}

/// Debits `amount` units of the first asset named `asset_symbol` for a transfer to
/// another token account. The valuation is left alone. The returned record is what the
/// token transfer service has to carry out; its outcome goes to [`settle_transfer`].
pub fn transfer_asset(portfolio: &mut Portfolio, asset_symbol: String, amount: u64) -> (outcome:
    Result<PendingTransfer, PortfolioError>)
    ensures
        match old(portfolio)@.transfer_asset(asset_symbol@, amount as nat) {
            Ok(next) => {
                &&& final(portfolio)@ == next
                &&& outcome matches Ok(pending)
                &&& old(portfolio)@.debit_position(asset_symbol@, amount as nat) matches Ok(i)
                &&& pending.records(old(portfolio)@, i, amount as nat)
                &&& next.rolled_back(pending) == old(portfolio)@
            },
            Err(e) => final(portfolio)@ == old(portfolio)@ && outcome == Err::<
                PendingTransfer,
                PortfolioError,
            >(e),
        },
        old(portfolio)@.is_consistent() ==> final(portfolio)@.is_consistent(),
{
    let i = match find_asset(portfolio, &asset_symbol) {
        Ok(i) => i,
        Err(e) => { return Err(e); },
    };
    let pending = PendingTransfer {
        amount,
        asset_index: i,
        prior_amount: portfolio.assets[i].amount,
        prior_total_value: portfolio.total_value,
    };
    match decrement_amount(&mut portfolio.assets[i], amount) {
        Err(e) => {
            assert(final(portfolio)@.assets =~= old(portfolio)@.assets);
            Err(e)
        },
        Ok(()) => {
            proof {
                let before = old(portfolio)@;
                let next = before.transfer_asset(asset_symbol@, amount as nat).unwrap();
                assert(final(portfolio)@.assets =~= next.assets);
                lemma_sum_update(before.assets, i as int, next.assets[i as int]);
            }
            Ok(pending)
        },
    }
}

/// Withdraws `amount` units of the first asset named `asset_symbol`: the quantity is
/// debited and the aggregate is reduced by `amount` times the asset's recorded value.
/// A reduction that the aggregate does not cover is refused. The returned record is
/// what the token transfer service has to carry out; its outcome goes to
/// [`settle_transfer`].
pub fn withdraw_asset(portfolio: &mut Portfolio, asset_symbol: String, amount: u64) -> (outcome:
    Result<PendingTransfer, PortfolioError>)
    ensures
        match old(portfolio)@.withdraw_asset(asset_symbol@, amount as nat) {
            Ok(next) => {
                &&& final(portfolio)@ == next
                &&& outcome matches Ok(pending)
                &&& old(portfolio)@.debit_position(asset_symbol@, amount as nat) matches Ok(i)
                &&& pending.records(old(portfolio)@, i, amount as nat)
                &&& next.rolled_back(pending) == old(portfolio)@
            },
            Err(e) => final(portfolio)@ == old(portfolio)@ && outcome == Err::<
                PendingTransfer,
                PortfolioError,
            >(e),
        },
{
    let i = match find_debit_position(portfolio, &asset_symbol, amount) {
        Ok(i) => i,
        Err(e) => { return Err(e); },
    };
    let value = portfolio.assets[i].value;
    assert(amount * value <= 0xffff_ffff_ffff_ffff * 0xffff_ffff_ffff_ffff) by (nonlinear_arith)
        requires
            amount <= 0xffff_ffff_ffff_ffff,
            value <= 0xffff_ffff_ffff_ffff,
    ;
    let reduction: u128 = (amount as u128) * (value as u128);
    if reduction > portfolio.total_value as u128 {
        return Err(PortfolioError::ArithmeticOverflow);
    }
    let pending = PendingTransfer {
        amount,
        asset_index: i,
        prior_amount: portfolio.assets[i].amount,
        prior_total_value: portfolio.total_value,
    };
    portfolio.assets[i].amount = portfolio.assets[i].amount - amount;
    portfolio.total_value = portfolio.total_value - (reduction as u64);
    proof {
        let before = old(portfolio)@;
        let next = before.withdraw_asset(asset_symbol@, amount as nat).unwrap();
        assert(final(portfolio)@.assets =~= next.assets);
    }
    Ok(pending)
}

/// Checks that the first asset named `asset_symbol` holds `amount` units to provide to
/// a liquidity pool. The ledger is not changed. The returned record is what the token
/// transfer service has to carry out; its outcome goes to [`settle_transfer`].
pub fn provide_liquidity(portfolio: &Portfolio, asset_symbol: String, amount: u64) -> (outcome:
    Result<PendingTransfer, PortfolioError>)
    ensures
        match portfolio@.provide_liquidity(asset_symbol@, amount as nat) {
            Ok(next) => {
                &&& outcome matches Ok(pending)
                &&& portfolio@.debit_position(asset_symbol@, amount as nat) matches Ok(i)
                &&& pending.records(portfolio@, i, amount as nat)
                &&& next.rolled_back(pending) == portfolio@
            },
            Err(e) => outcome == Err::<PendingTransfer, PortfolioError>(e),
        },
{
    let i = match find_debit_position(portfolio, &asset_symbol, amount) {
        Ok(i) => i,
        Err(e) => { return Err(e); },
    };
    let pending = PendingTransfer {
        amount,
        asset_index: i,
        prior_amount: portfolio.assets[i].amount,
        prior_total_value: portfolio.total_value,
    };
    Ok(pending)
}

/// Closes a pending debit with what the token transfer service reported. A delivered
/// transfer leaves the ledger as the debit left it. A failed one takes the debit back
/// and is reported as [`PortfolioError::ExternalEffectFailed`].
pub fn settle_transfer(portfolio: &mut Portfolio, pending: PendingTransfer, delivered: bool) -> (outcome:
    Result<(), PortfolioError>)
    ensures
        delivered ==> outcome is Ok && final(portfolio)@ == old(portfolio)@,
        !delivered ==> outcome == Err::<(), PortfolioError>(PortfolioError::ExternalEffectFailed)
            && final(portfolio)@ == old(portfolio)@.rolled_back(pending),
{
    if delivered {
        return Ok(());
    }
    if pending.asset_index < portfolio.assets.len() {
        portfolio.assets[pending.asset_index].amount = pending.prior_amount;
        portfolio.total_value = pending.prior_total_value;
    }
    Err(PortfolioError::ExternalEffectFailed)
}

} // verus!
