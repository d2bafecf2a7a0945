//! The records and their mathematical content: assets, the ledger of an owner, the
//! stake of an owner, and the lookup of an asset by its symbol.

use solana_program::pubkey::Pubkey;
use vstd::prelude::*;

verus! {

/// The public key type of `solana_program`, carried through the records as an opaque
/// owner identity. Nothing is claimed about its contents.
#[verifier::external_type_specification]
#[verifier::external_body]
pub struct ExPubkey(solana_program::pubkey::Pubkey);

/// A named holding: how many units are held and what they contribute to the aggregate.
#[derive(Debug, PartialEq, Eq)]
pub struct Asset {
    pub symbol: String,
    pub amount: u64,
    pub value: u64,
}

/// The mathematical content of an [`Asset`].
#[verifier::ext_equal]
pub struct AssetView {
    pub symbol: Seq<char>,
    pub amount: nat,
    pub value: nat,
}

impl View for Asset {
    type V = AssetView;

    open spec fn view(&self) -> AssetView {
        AssetView { symbol: self.symbol@, amount: self.amount as nat, value: self.value as nat }
    }
}

impl Default for Asset {
    /// The asset without a symbol that holds nothing and is worth nothing.
    fn default() -> (asset: Self)
        ensures
            asset@ == (AssetView { symbol: Seq::empty(), amount: 0, value: 0 }),
    {
        Asset { symbol: String::new(), amount: 0, value: 0 }
    }
}

impl Clone for Asset {
    fn clone(&self) -> (copy: Self)
        ensures
            copy@ == self@,
    {
        Asset { symbol: self.symbol.clone(), amount: self.amount, value: self.value }
    }
}

/// The ledger record of one owner.
#[derive(Debug, PartialEq, Eq)]
pub struct Portfolio {
    pub owner: Pubkey,
    pub total_value: u64,
    pub total_shares: u64,
    pub assets: Vec<Asset>,
    pub historical_values: Vec<u64>,
    pub last_update_timestamp: i64,
    pub min_value_threshold: u64,
    pub max_value_threshold: u64,
    pub management_fee: u64,
    pub performance_fee: u64,
}

/// The mathematical content of a [`Portfolio`]: the state that the transitions of
/// the ledger are defined on.
#[verifier::ext_equal]
pub struct LedgerView {
    pub owner: Pubkey,
    pub total_value: nat,
    pub total_shares: nat,
    pub assets: Seq<AssetView>,
    pub historical_values: Seq<nat>,
    pub last_update_timestamp: int,
    pub min_value_threshold: nat,
    pub max_value_threshold: nat,
    pub management_fee: nat,
    pub performance_fee: nat,
}

impl View for Portfolio {
    type V = LedgerView;

    open spec fn view(&self) -> LedgerView {
        LedgerView {
            owner: self.owner,
            total_value: self.total_value as nat,
            total_shares: self.total_shares as nat,
            assets: self.assets@.map_values(|a: Asset| a@),
            historical_values: self.historical_values@.map_values(|v: u64| v as nat),
            last_update_timestamp: self.last_update_timestamp as int,
            min_value_threshold: self.min_value_threshold as nat,
            max_value_threshold: self.max_value_threshold as nat,
            management_fee: self.management_fee as nat,
            performance_fee: self.performance_fee as nat,
        }
    }
}

impl Clone for Portfolio {
    fn clone(&self) -> (copy: Self)
        ensures
            copy@ == self@,
    {
        let mut assets: Vec<Asset> = Vec::new();
        let mut i: usize = 0;
        while i < self.assets.len()
            invariant
                i <= self.assets.len(),
                assets@.len() == i,
                forall|j: int| 0 <= j < i ==> (#[trigger] assets@[j])@ == self.assets@[j]@,
            decreases self.assets.len() - i,
        {
            assets.push(self.assets[i].clone());
            i += 1;
        }
        let mut historical_values: Vec<u64> = Vec::new();
        let mut k: usize = 0;
        while k < self.historical_values.len()
            invariant
                k <= self.historical_values.len(),
                historical_values@ == self.historical_values@.take(k as int),
            decreases self.historical_values.len() - k,
        {
            historical_values.push(self.historical_values[k]);
            k += 1;
        }
        Portfolio {
            owner: self.owner,
            total_value: self.total_value,
            total_shares: self.total_shares,
            assets,
            historical_values,
            last_update_timestamp: self.last_update_timestamp,
            min_value_threshold: self.min_value_threshold,
            max_value_threshold: self.max_value_threshold,
            management_fee: self.management_fee,
            performance_fee: self.performance_fee,
        }
    }
}

/// The stake position of one owner, kept apart from the ledger record.
#[derive(Debug, PartialEq, Eq)]
pub struct UserStake {
    pub owner: Pubkey,
    pub amount: u64,
    pub last_reward_claim_timestamp: i64,
}

impl Clone for UserStake {
    fn clone(&self) -> (copy: Self)
        ensures
            copy@ == self@,
    {
        UserStake {
            owner: self.owner,
            amount: self.amount,
            last_reward_claim_timestamp: self.last_reward_claim_timestamp,
        }
    }
}

/// The mathematical content of a [`UserStake`].
pub struct StakeView {
    pub owner: Pubkey,
    pub amount: nat,
    pub last_reward_claim_timestamp: int,
}

impl View for UserStake {
    type V = StakeView;

    open spec fn view(&self) -> StakeView {
        StakeView {
            owner: self.owner,
            amount: self.amount as nat,
            last_reward_claim_timestamp: self.last_reward_claim_timestamp as int,
        }
    }
}

/// The sum of the values of `assets`.
pub open spec fn asset_values_sum(assets: Seq<AssetView>) -> nat
    decreases assets.len(),
{
    if assets.len() == 0 {
        0
    } else {
        asset_values_sum(assets.drop_last()) + assets.last().value
    }
}

impl AssetView {
    /// The asset with another quantity.
    pub open spec fn with_amount(self, amount: nat) -> AssetView {
        AssetView { amount, ..self }
    }

    /// The asset with another valuation.
    pub open spec fn with_value(self, value: nat) -> AssetView {
        AssetView { value, ..self }
    }
}

impl LedgerView {
    /// `i` is the first position whose asset carries `symbol`. Later assets with the
    /// same symbol are shadowed: no lookup reaches them.
    pub open spec fn is_first_match(self, symbol: Seq<char>, i: int) -> bool {
        &&& 0 <= i < self.assets.len()
        &&& self.assets[i].symbol == symbol
        &&& forall|j: int| 0 <= j < i ==> (#[trigger] self.assets[j]).symbol != symbol
    }

    /// The position that a lookup of `symbol` yields, if any asset carries it.
    pub open spec fn find(self, symbol: Seq<char>) -> Option<int> {
        if exists|i: int| self.is_first_match(symbol, i) {
            Some(choose|i: int| self.is_first_match(symbol, i))
        } else {
            None
        }
    }

    /// The aggregate equals the sum of the assets' values.
    pub open spec fn is_consistent(self) -> bool {
        self.total_value == asset_values_sum(self.assets)
    }

    /// The ledger with the asset at `i` replaced.
    pub open spec fn with_asset(self, i: int, asset: AssetView) -> LedgerView {
        LedgerView { assets: self.assets.update(i, asset), ..self }
    }

    /// The ledger with another aggregate.
    pub open spec fn with_total_value(self, total_value: nat) -> LedgerView {
        LedgerView { total_value, ..self }
    }
}

/// A lookup yields `i` exactly when `i` is the first position that carries the symbol.
pub proof fn lemma_find_is_first_match(ledger: LedgerView, symbol: Seq<char>, i: int)
    ensures
        ledger.find(symbol) == Some(i) <==> ledger.is_first_match(symbol, i),
{
}

/// A lookup yields nothing exactly when no asset carries the symbol.
pub proof fn lemma_find_none(ledger: LedgerView, symbol: Seq<char>)
    ensures
        ledger.find(symbol) is None <==> forall|j: int|
            0 <= j < ledger.assets.len() ==> (#[trigger] ledger.assets[j]).symbol != symbol,
{
    if ledger.find(symbol) is None {
        assert forall|j: int| 0 <= j < ledger.assets.len() implies (#[trigger] ledger.assets[j]).symbol
            != symbol by {
            if ledger.assets[j].symbol == symbol {
                lemma_first_match_exists(ledger, symbol, j);
            }
        }
    }
}

/// Below every position that carries the symbol lies a first one.
proof fn lemma_first_match_exists(ledger: LedgerView, symbol: Seq<char>, j: int)
    requires
        0 <= j < ledger.assets.len(),
        ledger.assets[j].symbol == symbol,
    ensures
        exists|i: int| ledger.is_first_match(symbol, i),
    decreases j,
{
    if exists|k: int| 0 <= k < j && ledger.assets[k].symbol == symbol {
        let k = choose|k: int| 0 <= k < j && ledger.assets[k].symbol == symbol;
        lemma_first_match_exists(ledger, symbol, k);
    } else {
        assert(ledger.is_first_match(symbol, j));
    }
}

/// What a lookup yields depends on the symbols alone.
pub proof fn lemma_find_depends_on_symbols(a: LedgerView, b: LedgerView, symbol: Seq<char>)
    requires
        a.assets.len() == b.assets.len(),
        forall|j: int| 0 <= j < a.assets.len() ==> a.assets[j].symbol == b.assets[j].symbol,
    ensures
        a.find(symbol) == b.find(symbol),
{
    assert forall|i: int| a.is_first_match(symbol, i) == b.is_first_match(symbol, i) by {
        if a.is_first_match(symbol, i) {
            assert forall|j: int| 0 <= j < i implies (#[trigger] b.assets[j]).symbol != symbol by {}
        }
        if b.is_first_match(symbol, i) {
            assert forall|j: int| 0 <= j < i implies (#[trigger] a.assets[j]).symbol != symbol by {}
        }
    }
}

/// Appending an asset adds its value to the sum.
pub proof fn lemma_sum_push(assets: Seq<AssetView>, asset: AssetView)
    ensures
        asset_values_sum(assets.push(asset)) == asset_values_sum(assets) + asset.value,
{
    assert(assets.push(asset).drop_last() =~= assets);
}

/// Replacing an asset changes the sum by the difference of the two values.
pub proof fn lemma_sum_update(assets: Seq<AssetView>, i: int, asset: AssetView)
    requires
        0 <= i < assets.len(),
    ensures
        asset_values_sum(assets.update(i, asset)) == asset_values_sum(assets) - assets[i].value
            + asset.value,
    decreases assets.len(),
{
    let updated = assets.update(i, asset);
    if i == assets.len() - 1 {
        assert(updated.drop_last() =~= assets.drop_last());
    } else {
        lemma_sum_update(assets.drop_last(), i, asset);
        assert(updated.drop_last() =~= assets.drop_last().update(i, asset));
    }
}

} // verus!
