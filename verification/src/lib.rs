//! A per-owner portfolio ledger: named assets with quantities and valuations, an
//! aggregate value kept in step with them, fee and risk parameters, value history,
//! and a separate staking record. Every operation is one transition on a record
//! and either commits completely or leaves the record as it was.

pub mod arith;
pub mod clock;
pub mod error;
pub mod events;
pub mod fees;
pub mod laws;
pub mod ledger;
pub mod model;
pub mod rebalance;
pub mod registry;
pub mod risk;
pub mod staking;
pub mod transfer;
pub mod valuation;

pub use arith::{percent_of, percent_of_wide};
pub use clock::{current_unix_timestamp, timestamp_of_reading};
pub use error::PortfolioError;
pub use events::{AssetUpdated, AssetUpdatedView, FeesApplied, FeesAppliedView};
pub use fees::{
    apply_dynamic_fees, apply_fees, calculate_performance_fee, PERFORMANCE_BONUS_PERCENT,
};
pub use laws::Transition;
pub use ledger::{initialize_portfolio, is_consistent, record_performance, INITIAL_SHARES};
pub use model::{Asset, AssetView, LedgerView, Portfolio, StakeView, UserStake};
pub use rebalance::{
    ratios_view, rebalance_automatically, rebalance_portfolio, target_ratio,
};
pub use registry::{add_asset, decrement_amount, find_asset, find_debit_position};
pub use risk::{check_risk, RiskAdvisory};
pub use staking::{
    distribute_staking_rewards, settle_stake, stake_tokens, PendingStake, REWARD_RATE_SCALE,
};
pub use transfer::{
    provide_liquidity, settle_transfer, transfer_asset, withdraw_asset, PendingTransfer,
};
pub use valuation::{update_asset_value, update_asset_value_with_oracle};
