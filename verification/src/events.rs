//! The notices that transitions return for the caller to publish.

use solana_program::pubkey::Pubkey;
use vstd::prelude::*;

verus! {

/// Notice that the valuation of one asset changed.
#[derive(Debug, PartialEq, Eq)]
pub struct AssetUpdated {
    pub owner: Pubkey,
    pub asset_symbol: String,
    pub old_value: u64,
    pub new_value: u64,
}

/// The mathematical content of an [`AssetUpdated`] notice.
pub struct AssetUpdatedView {
    pub owner: Pubkey,
    pub asset_symbol: Seq<char>,
    pub old_value: nat,
    pub new_value: nat,
}

impl View for AssetUpdated {
    type V = AssetUpdatedView;

    open spec fn view(&self) -> AssetUpdatedView {
        AssetUpdatedView {
            owner: self.owner,
            asset_symbol: self.asset_symbol@,
            old_value: self.old_value as nat,
            new_value: self.new_value as nat,
        }
    }
}

/// Notice that fees were taken from the aggregate value.
#[derive(Debug, PartialEq, Eq)]
pub struct FeesApplied {
    pub owner: Pubkey,
    pub management_fee: u64,
    pub performance_fee: u64,
}

/// The mathematical content of a [`FeesApplied`] notice.
pub struct FeesAppliedView {
    pub owner: Pubkey,
    pub management_fee: nat,
    pub performance_fee: nat,
}

impl View for FeesApplied {
    type V = FeesAppliedView;

    open spec fn view(&self) -> FeesAppliedView {
        FeesAppliedView {
            owner: self.owner,
            management_fee: self.management_fee as nat,
            performance_fee: self.performance_fee as nat,
        }
    }
}

} // verus!
