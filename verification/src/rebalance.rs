//! The rebalancing engine: asset values rewritten as shares of the aggregate value.

use crate::arith::{percent_of, percent_of_wide};
use crate::error::PortfolioError;
use crate::model::{AssetView, LedgerView, Portfolio};
use crate::registry::find_asset;
use vstd::prelude::*;

verus! {

/// The mathematical content of a list of target ratios: pairs of a symbol and the
/// hundredths of the aggregate that the asset of that symbol is to be valued at.
pub open spec fn ratios_view(target_ratios: Seq<(String, u64)>) -> Seq<(Seq<char>, nat)> {
    target_ratios.map_values(|ratio: (String, u64)| (ratio.0@, ratio.1 as nat))
}

/// The percentage that `ratios` assign to `symbol`: that of the last pair naming it.
pub open spec fn target_ratio(ratios: Seq<(Seq<char>, nat)>, symbol: Seq<char>) -> Option<nat>
    decreases ratios.len(),
{
    if ratios.len() == 0 {
        None
    } else if ratios.last().0 == symbol {
        Some(ratios.last().1)
    } else {
        target_ratio(ratios.drop_last(), symbol)
    }
}

impl LedgerView {
    /// The asset at position `j` after a rebalance to `ratios`. An asset is revalued
    /// when a ratio names its symbol and no earlier asset carries that symbol. Its new
    /// value is the ratio's share of the aggregate as it was before the rebalance.
    pub open spec fn rebalanced_asset(self, ratios: Seq<(Seq<char>, nat)>, j: int) -> AssetView {
        let asset = self.assets[j];
        match target_ratio(ratios, asset.symbol) {
            Some(percent) => if self.is_first_match(asset.symbol, j) {
                asset.with_value(percent_of(self.total_value, percent))
            } else {
                asset
            },
            None => asset,
        }
    }

    /// Some ratio names a symbol of the ledger and asks for a value beyond the
    /// unsigned 64-bit range.
    pub open spec fn rebalance_overflows(self, ratios: Seq<(Seq<char>, nat)>) -> bool {
        exists|k: int|
            0 <= k < ratios.len() && self.find((#[trigger] ratios[k]).0) is Some && percent_of(
                self.total_value,
                ratios[k].1,
            ) > u64::MAX
    }

    /// Rebalancing to `ratios`. Ratios that name no asset are passed over. The
    /// aggregate is left as it is, whatever the new values add up to.
    pub open spec fn rebalance_portfolio(self, ratios: Seq<(Seq<char>, nat)>) -> Result<
        LedgerView,
        PortfolioError,
    > {
        if self.rebalance_overflows(ratios) {
            Err(PortfolioError::ArithmeticOverflow)
        } else {
            Ok(
                LedgerView {
                    assets: Seq::new(
                        self.assets.len(),
                        |j: int| self.rebalanced_asset(ratios, j),
                    ),
                    ..self
                },
            )
        }
    }

    /// The aggregate lies outside the range that the thresholds span.
    pub open spec fn is_out_of_bounds(self) -> bool {
        self.total_value > self.max_value_threshold || self.total_value < self.min_value_threshold
    }

    /// Rebalancing to `ratios` if the aggregate lies outside the thresholds; within
    /// them the ledger stays as it is.
    pub open spec fn rebalance_automatically(self, ratios: Seq<(Seq<char>, nat)>) -> Result<
        LedgerView,
        PortfolioError,
    > {
        if self.is_out_of_bounds() {
            self.rebalance_portfolio(ratios)
        } else {
            Ok(self)
        }
    }
}

/// A ratio appended for a symbol decides that symbol and no other.
pub proof fn lemma_target_ratio_push(
    ratios: Seq<(Seq<char>, nat)>,
    ratio: (Seq<char>, nat),
    symbol: Seq<char>,
)
    ensures
        target_ratio(ratios.push(ratio), symbol) == if ratio.0 == symbol {
            Some(ratio.1)
        } else {
            target_ratio(ratios, symbol)
        },
{
    assert(ratios.push(ratio).drop_last() =~= ratios);
}

/// `values` are the values that a rebalance of `ledger` to the first `count` of
/// `ratios` gives the assets.
spec fn planned_values(
    ledger: LedgerView,
    ratios: Seq<(Seq<char>, nat)>,
    count: int,
    values: Seq<u64>,
) -> bool {
    &&& values.len() == ledger.assets.len()
    &&& forall|j: int|
        0 <= j < values.len() ==> (#[trigger] values[j]) as nat == ledger.rebalanced_asset(
            ratios.take(count),
            j,
        ).value
}

/// Taking one more ratio into account changes the planned value of the asset that a
/// lookup of the ratio's symbol yields, and of no other.
proof fn lemma_plan_step(
    ledger: LedgerView,
    ratios: Seq<(Seq<char>, nat)>,
    count: int,
    values: Seq<u64>,
    target: u64,
)
    requires
        0 <= count < ratios.len(),
        planned_values(ledger, ratios, count, values),
        ledger.find(ratios[count].0) is Some ==> target as nat == percent_of(
            ledger.total_value,
            ratios[count].1,
        ),
    ensures
        planned_values(
            ledger,
            ratios,
            count + 1,
            match ledger.find(ratios[count].0) {
                Some(i) => values.update(i, target),
                None => values,
            },
        ),
{
    let ratio = ratios[count];
    let next = match ledger.find(ratio.0) {
        Some(i) => values.update(i, target),
        None => values,
    };
    assert(ratios.take(count + 1) =~= ratios.take(count).push(ratio));
    assert forall|j: int| 0 <= j < next.len() implies (#[trigger] next[j]) as nat
        == ledger.rebalanced_asset(ratios.take(count + 1), j).value by {
        let symbol = ledger.assets[j].symbol;
        lemma_target_ratio_push(ratios.take(count), ratio, symbol);
    }
}

/// Sets the value of each asset that `target_ratios` name to the named hundredths of
/// the aggregate value, rounded down. The aggregate is read once, before any asset is
/// written, and is not changed. Each ratio acts on the first asset of its symbol; one
/// that names no asset is passed over. If a ratio asks for a value beyond the unsigned
/// 64-bit range, nothing is changed.
pub fn rebalance_portfolio(portfolio: &mut Portfolio, target_ratios: Vec<(String, u64)>) -> (outcome:
    Result<(), PortfolioError>)
    ensures
        match old(portfolio)@.rebalance_portfolio(ratios_view(target_ratios@)) {
            Ok(next) => final(portfolio)@ == next && outcome is Ok,
            Err(e) => final(portfolio)@ == old(portfolio)@ && outcome == Err::<(), PortfolioError>(e),
        },
{
    let ghost ledger = portfolio@;
    let ghost ratios = ratios_view(target_ratios@);
    let total_value = portfolio.total_value;
    let count = portfolio.assets.len();

    let mut values: Vec<u64> = Vec::new();
    let mut j: usize = 0;
    while j < count
        invariant
            j <= count,
            count == portfolio.assets.len(),
            portfolio@ == ledger,
            values.len() == j,
            forall|m: int| 0 <= m < j ==> (#[trigger] values[m]) as nat == ledger.assets[m].value,
        decreases count - j,
    {
        values.push(portfolio.assets[j].value);
        j += 1;
    }
    assert(planned_values(ledger, ratios, 0, values@));

    let mut k: usize = 0;
    while k < target_ratios.len()
        invariant
            k <= target_ratios.len(),
            portfolio@ == ledger,
            total_value == ledger.total_value,
            ratios == ratios_view(target_ratios@),
            planned_values(ledger, ratios, k as int, values@),
            forall|m: int|
                0 <= m < k && ledger.find((#[trigger] ratios[m]).0) is Some ==> percent_of(
                    ledger.total_value,
                    ratios[m].1,
                ) <= u64::MAX,
        decreases target_ratios.len() - k,
    {
        let ghost before = values@;
        let mut target: u64 = 0;
        match find_asset(portfolio, &target_ratios[k].0) {
            Ok(i) => {
                let wide = percent_of_wide(total_value, target_ratios[k].1);
                if wide > u64::MAX as u128 {
                    assert(ledger.rebalance_overflows(ratios)) by {
                        assert(ledger.find(ratios[k as int].0) is Some);
                    }
                    return Err(PortfolioError::ArithmeticOverflow);
                }
                target = wide as u64;
                values.set(i, target);
            },
            Err(_) => {},
        }
        proof {
            lemma_plan_step(ledger, ratios, k as int, before, target);
        }
        k += 1;
    }

    let ghost next = ledger.rebalance_portfolio(ratios).unwrap();
    let mut j: usize = 0;
    while j < count
        invariant
            j <= count,
            count == portfolio.assets.len(),
            count == ledger.assets.len(),
            planned_values(ledger, ratios, ratios.len() as int, values@),
            ratios.take(ratios.len() as int) == ratios,
            next == ledger.rebalance_portfolio(ratios).unwrap(),
            !ledger.rebalance_overflows(ratios),
            portfolio@ == (LedgerView { assets: portfolio@.assets, ..ledger }),
            forall|m: int| 0 <= m < j ==> (#[trigger] portfolio@.assets[m]) == next.assets[m],
            forall|m: int|
                j <= m < count ==> (#[trigger] portfolio@.assets[m]) == ledger.assets[m],
        decreases count - j,
    {
        let ghost before = portfolio@;
        portfolio.assets[j].value = values[j];
        assert(portfolio@.assets =~= before.assets.update(
            j as int,
            before.assets[j as int].with_value(values[j as int] as nat),
        ));
        j += 1;
    }
    Ok(())
}

/// Rebalances as [`rebalance_portfolio`] does when the aggregate value lies above the
/// maximum or below the minimum threshold. Within the thresholds nothing is changed
/// and the call succeeds.
pub fn rebalance_automatically(portfolio: &mut Portfolio, target_ratios: Vec<(String, u64)>) -> (outcome:
    Result<(), PortfolioError>)
    ensures
        match old(portfolio)@.rebalance_automatically(ratios_view(target_ratios@)) {
            Ok(next) => final(portfolio)@ == next && outcome is Ok,
            Err(e) => final(portfolio)@ == old(portfolio)@ && outcome == Err::<(), PortfolioError>(e),
        },
{
    if portfolio.total_value > portfolio.max_value_threshold || portfolio.total_value
        < portfolio.min_value_threshold {
        return rebalance_portfolio(portfolio, target_ratios);
    }
    Ok(())
}

} // verus!
