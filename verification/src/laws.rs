//! The ledger as a state machine, and the laws of its transitions.

use crate::error::PortfolioError;
use crate::model::{
    asset_values_sum, lemma_find_depends_on_symbols, lemma_sum_push, lemma_sum_update, AssetView,
    LedgerView,
};
use crate::rebalance::target_ratio;
use crate::transfer::PendingTransfer;
use vstd::prelude::*;

verus! {

/// A transition of the ledger with its arguments.
pub enum Transition {
    /// An asset is appended.
    AddAsset { symbol: Seq<char>, amount: nat, value: nat },
    /// Units of an asset are debited for a transfer.
    TransferAsset { symbol: Seq<char>, amount: nat },
    /// Units of an asset are withdrawn and their worth is taken from the aggregate.
    WithdrawAsset { symbol: Seq<char>, amount: nat },
    /// Units of an asset are checked to be there for a liquidity pool.
    ProvideLiquidity { symbol: Seq<char>, amount: nat },
    /// An asset is revalued at a given value.
    UpdateAssetValue { symbol: Seq<char>, new_value: nat },
    /// An asset is revalued at what the price oracle reported, if it reported.
    UpdateAssetValueWithOracle { symbol: Seq<char>, reading: Option<nat> },
    /// A snapshot joins the value history.
    RecordPerformance { current_value: nat, now: int },
    /// Asset values are rewritten as shares of the aggregate.
    RebalancePortfolio { ratios: Seq<(Seq<char>, nat)> },
    /// Asset values are rewritten if the aggregate lies outside the thresholds.
    RebalanceAutomatically { ratios: Seq<(Seq<char>, nat)> },
    /// The aggregate is held against the thresholds.
    CheckRisk,
    /// Management and performance fee are charged.
    ApplyFees,
    /// Management and performance fee are charged, with the bonus above `threshold`.
    ApplyDynamicFees { threshold: nat },
}

impl Transition {
    /// What the transition takes from the aggregate of `ledger` without taking it from
    /// the value of any asset: the reduction of a withdrawal, the charge of the fees.
    pub open spec fn deduction(self, ledger: LedgerView) -> nat {
        match self {
            Transition::WithdrawAsset { symbol, amount } => match ledger.debit_position(
                symbol,
                amount,
            ) {
                Ok(i) => ledger.withdrawal_reduction(i, amount),
                Err(_) => 0,
            },
            Transition::ApplyFees => ledger.management_fee_amount()
                + ledger.performance_fee_amount(),
            Transition::ApplyDynamicFees { threshold } => ledger.management_fee_amount()
                + ledger.performance_fee_amount() + ledger.performance_bonus(threshold),
            _ => 0,
        }
    }

    /// The transition rewrites asset values on `ledger` by the rebalancing rule, which
    /// leaves the aggregate out of account.
    pub open spec fn rebalances(self, ledger: LedgerView) -> bool {
        match self {
            Transition::RebalancePortfolio { .. } => true,
            Transition::RebalanceAutomatically { .. } => ledger.is_out_of_bounds(),
            _ => false,
        }
    }
}

impl LedgerView {
    /// The ledger after a transition, or the reason why the transition is refused.
    pub open spec fn step(self, transition: Transition) -> Result<LedgerView, PortfolioError> {
        match transition {
            Transition::AddAsset { symbol, amount, value } => self.add_asset(symbol, amount, value),
            Transition::TransferAsset { symbol, amount } => self.transfer_asset(symbol, amount),
            Transition::WithdrawAsset { symbol, amount } => self.withdraw_asset(symbol, amount),
            Transition::ProvideLiquidity { symbol, amount } => self.provide_liquidity(symbol, amount),
            Transition::UpdateAssetValue { symbol, new_value } => self.update_asset_value(
                symbol,
                new_value,
            ),
            Transition::UpdateAssetValueWithOracle {
                symbol,
                reading,
            } => self.update_asset_value_with_oracle(symbol, reading),
            Transition::RecordPerformance { current_value, now } => Ok(
                self.record_performance(current_value, now),
            ),
            Transition::RebalancePortfolio { ratios } => self.rebalance_portfolio(ratios),
            Transition::RebalanceAutomatically { ratios } => self.rebalance_automatically(ratios),
            Transition::CheckRisk => match self.check_risk() {
                Ok(_) => Ok(self),
                Err(e) => Err(e),
            },
            Transition::ApplyFees => self.apply_fees(),
            Transition::ApplyDynamicFees { threshold } => self.apply_dynamic_fees(threshold),
        }
    }
}

/// A successful transition that does not rebalance takes a consistent ledger to one
/// whose aggregate is the sum of the asset values less what the transition deducted.
/// So every such transition that deducts nothing leaves the ledger consistent, and a
/// withdrawal or fees that deduct a positive amount leave the aggregate below the sum.
pub proof fn lemma_transition_keeps_consistency(ledger: LedgerView, transition: Transition)
    requires
        ledger.is_consistent(),
        ledger.step(transition) is Ok,
        !transition.rebalances(ledger),
    ensures
        ledger.step(transition).unwrap().total_value + transition.deduction(ledger)
            == asset_values_sum(ledger.step(transition).unwrap().assets),
        transition.deduction(ledger) == 0 ==> ledger.step(transition).unwrap().is_consistent(),
        transition.deduction(ledger) > 0 ==> !ledger.step(transition).unwrap().is_consistent(),
{
    let next = ledger.step(transition).unwrap();
    match transition {
        Transition::AddAsset { symbol, amount, value } => {
            lemma_sum_push(ledger.assets, AssetView { symbol, amount, value });
        },
        Transition::TransferAsset { symbol, amount } => {
            let i = ledger.debit_position(symbol, amount).unwrap();
            lemma_sum_update(ledger.assets, i, next.assets[i]);
        },
        Transition::WithdrawAsset { symbol, amount } => {
            let i = ledger.debit_position(symbol, amount).unwrap();
            lemma_sum_update(ledger.assets, i, next.assets[i]);
        },
        Transition::UpdateAssetValue { symbol, new_value } => {
            let i = ledger.find(symbol).unwrap();
            lemma_sum_update(ledger.assets, i, next.assets[i]);
        },
        Transition::UpdateAssetValueWithOracle { symbol, reading } => {
            let i = ledger.find(symbol).unwrap();
            lemma_sum_update(ledger.assets, i, next.assets[i]);
        },
        _ => {},
    }
}

/// No transition changes the owner, the ownership units, the thresholds or the fee
/// rates. None removes or renames an asset, and none rewrites the recorded history:
/// snapshots are only appended.
pub proof fn lemma_transition_keeps_record_frame(ledger: LedgerView, transition: Transition)
    requires
        ledger.step(transition) is Ok,
    ensures
        ({
            let next = ledger.step(transition).unwrap();
            &&& next.owner == ledger.owner
            &&& next.total_shares == ledger.total_shares
            &&& next.min_value_threshold == ledger.min_value_threshold
            &&& next.max_value_threshold == ledger.max_value_threshold
            &&& next.management_fee == ledger.management_fee
            &&& next.performance_fee == ledger.performance_fee
            &&& ledger.historical_values.is_prefix_of(next.historical_values)
            &&& ledger.assets.len() <= next.assets.len()
            &&& forall|j: int|
                0 <= j < ledger.assets.len() ==> (#[trigger] next.assets[j]).symbol
                    == ledger.assets[j].symbol
        }),
{
}

/// Revaluing an asset twice at the same value: the second call succeeds and changes
/// nothing, the aggregate included.
pub proof fn lemma_update_asset_value_is_idempotent(
    ledger: LedgerView,
    symbol: Seq<char>,
    value: nat,
)
    requires
        ledger.update_asset_value(symbol, value) is Ok,
    ensures
        ledger.update_asset_value(symbol, value).unwrap().update_asset_value(symbol, value)
            == ledger.update_asset_value(symbol, value),
{
    let once = ledger.update_asset_value(symbol, value).unwrap();
    lemma_find_depends_on_symbols(ledger, once, symbol);
    let twice = once.update_asset_value(symbol, value).unwrap();
    assert(twice.assets =~= once.assets);
}

/// A withdrawal of all that an asset holds empties the asset, provided the aggregate
/// covers the reduction that the withdrawal takes from it.
pub proof fn lemma_withdraw_whole_balance(ledger: LedgerView, symbol: Seq<char>, position: int)
    requires
        ledger.find(symbol) == Some(position),
        ledger.withdrawal_reduction(position, ledger.assets[position].amount)
            <= ledger.total_value,
    ensures
        ledger.withdraw_asset(symbol, ledger.assets[position].amount) matches Ok(next)
            && next.assets[position].amount == 0,
{
}

/// A withdrawal of one unit more than an asset holds is refused for want of balance.
pub proof fn lemma_withdraw_beyond_balance(ledger: LedgerView, symbol: Seq<char>, position: int)
    requires
        ledger.find(symbol) == Some(position),
    ensures
        ledger.withdraw_asset(symbol, ledger.assets[position].amount + 1) == Err::<
            LedgerView,
            PortfolioError,
        >(PortfolioError::InsufficientBalance),
{
}

/// Taking back a debit restores the ledger that the debit was made on.
pub proof fn lemma_rollback_restores(
    ledger: LedgerView,
    symbol: Seq<char>,
    amount: nat,
    pending: PendingTransfer,
)
    requires
        ledger.debit_position(symbol, amount) matches Ok(i) && pending.records(ledger, i, amount),
    ensures
        ledger.transfer_asset(symbol, amount) matches Ok(next) && next.rolled_back(pending)
            == ledger,
        ledger.withdraw_asset(symbol, amount) matches Ok(next) ==> next.rolled_back(pending)
            == ledger,
        ledger.provide_liquidity(symbol, amount) matches Ok(next) && next.rolled_back(pending)
            == ledger,
{
}

/// The percentage that `ratios` assign to a symbol is that of one of its pairs, and
/// they assign none exactly when no pair names the symbol.
pub proof fn lemma_target_ratio_names_a_pair(ratios: Seq<(Seq<char>, nat)>, symbol: Seq<char>)
    ensures
        match target_ratio(ratios, symbol) {
            Some(percent) => exists|k: int|
                0 <= k < ratios.len() && #[trigger] ratios[k] == (symbol, percent),
            None => forall|k: int| 0 <= k < ratios.len() ==> (#[trigger] ratios[k]).0 != symbol,
        },
    decreases ratios.len(),
{
    if ratios.len() > 0 && ratios.last().0 != symbol {
        lemma_target_ratio_names_a_pair(ratios.drop_last(), symbol);
        match target_ratio(ratios.drop_last(), symbol) {
            Some(percent) => {
                let k = choose|k: int|
                    0 <= k < ratios.drop_last().len() && #[trigger] ratios.drop_last()[k] == (
                        symbol,
                        percent,
                    );
                assert(ratios[k] == (symbol, percent));
            },
            None => {
                assert forall|k: int| 0 <= k < ratios.len() implies (#[trigger] ratios[k]).0
                    != symbol by {
                    if k < ratios.len() - 1 {
                        assert(ratios.drop_last()[k].0 != symbol);
                    }
                }
            },
        }
    }
}

/// Ratios that name no asset of the ledger are passed over: the rebalance succeeds and
/// changes nothing.
pub proof fn lemma_rebalance_passes_over_unknown_symbols(
    ledger: LedgerView,
    ratios: Seq<(Seq<char>, nat)>,
)
    requires
        forall|k: int| 0 <= k < ratios.len() ==> ledger.find((#[trigger] ratios[k]).0) is None,
    ensures
        ledger.rebalance_portfolio(ratios) == Ok::<LedgerView, PortfolioError>(ledger),
{
    let next = ledger.rebalance_portfolio(ratios).unwrap();
    assert forall|j: int| 0 <= j < ledger.assets.len() implies next.assets[j]
        == ledger.assets[j] by {
        let symbol = ledger.assets[j].symbol;
        lemma_target_ratio_names_a_pair(ratios, symbol);
    }
    assert(next.assets =~= ledger.assets);
}

impl LedgerView {
    /// The sum of the percentages that `ratios` assign to the first `count` assets.
    pub open spec fn assigned_percent_sum(self, ratios: Seq<(Seq<char>, nat)>, count: int) -> nat
        decreases count,
    {
        if count <= 0 {
            0
        } else {
            self.assigned_percent_sum(ratios, count - 1) + match target_ratio(
                ratios,
                self.assets[count - 1].symbol,
            ) {
                Some(percent) => percent,
                None => 0,
            }
        }
    }

    /// `ratios` cover the ledger evenly: no asset is shadowed, each is assigned a
    /// percentage that divides the aggregate into whole hundredths, and the percentages
    /// of all assets add up to a hundred.
    pub open spec fn is_covered_evenly(self, ratios: Seq<(Seq<char>, nat)>) -> bool {
        &&& forall|j: int|
            0 <= j < self.assets.len() ==> self.is_first_match((#[trigger] self.assets[j]).symbol, j)
        &&& forall|j: int|
            0 <= j < self.assets.len() ==> match target_ratio(
                ratios,
                (#[trigger] self.assets[j]).symbol,
            ) {
                Some(percent) => (self.total_value * percent) % 100 == 0,
                None => false,
            }
        &&& self.assigned_percent_sum(ratios, self.assets.len() as int) == 100
    }
}

/// A rebalance to ratios that cover the ledger evenly leaves a consistent ledger.
/// Short of that the new values need not add up to the aggregate, which the rebalance
/// does not adjust: ratios may leave assets out, add up to another total, or lose
/// fractions to rounding.
pub proof fn lemma_rebalance_to_even_cover_is_consistent(
    ledger: LedgerView,
    ratios: Seq<(Seq<char>, nat)>,
)
    requires
        ledger.rebalance_portfolio(ratios) is Ok,
        ledger.is_covered_evenly(ratios),
    ensures
        ledger.rebalance_portfolio(ratios).unwrap().is_consistent(),
{
    let next = ledger.rebalance_portfolio(ratios).unwrap();
    lemma_rebalanced_sum(ledger, ratios, ledger.assets.len() as int);
    assert(next.assets.take(ledger.assets.len() as int) =~= next.assets);
}

/// Under an even cover a hundred times the sum of the first `count` rebalanced values
/// is the aggregate times the sum of their percentages.
proof fn lemma_rebalanced_sum(ledger: LedgerView, ratios: Seq<(Seq<char>, nat)>, count: int)
    requires
        ledger.rebalance_portfolio(ratios) is Ok,
        ledger.is_covered_evenly(ratios),
        0 <= count <= ledger.assets.len(),
    ensures
        100 * asset_values_sum(ledger.rebalance_portfolio(ratios).unwrap().assets.take(count))
            == ledger.total_value * ledger.assigned_percent_sum(ratios, count),
    decreases count,
{
    let next = ledger.rebalance_portfolio(ratios).unwrap();
    if count > 0 {
        lemma_rebalanced_sum(ledger, ratios, count - 1);
        let taken = next.assets.take(count);
        assert(taken.drop_last() =~= next.assets.take(count - 1));
        let percent = target_ratio(ratios, ledger.assets[count - 1].symbol).unwrap();
        vstd::arithmetic::mul::lemma_mul_is_distributive_add(
            ledger.total_value as int,
            ledger.assigned_percent_sum(ratios, count - 1) as int,
            percent as int,
        );
    } else {
        assert(ledger.total_value * 0 == 0);
    }
}

} // verus!
