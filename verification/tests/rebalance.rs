use solana_program::pubkey::Pubkey;
use tokenized_portfolio::{
    add_asset, initialize_portfolio, is_consistent, rebalance_automatically, rebalance_portfolio,
    Portfolio, PortfolioError,
};

fn rebalance_ledger() -> Portfolio {
    let mut portfolio = initialize_portfolio(Pubkey::new_from_array([5u8; 32]), 10);
    add_asset(&mut portfolio, "SOL".to_string(), 100, 700).unwrap();
    add_asset(&mut portfolio, "BTC".to_string(), 2, 300).unwrap();
    portfolio
}

fn ratios(pairs: &[(&str, u64)]) -> Vec<(String, u64)> {
    pairs.iter().map(|(symbol, percent)| (symbol.to_string(), *percent)).collect()
}

fn values(portfolio: &Portfolio) -> Vec<u64> {
    portfolio.assets.iter().map(|asset| asset.value).collect()
}

#[test]
fn rebalance_to_ratios_that_cover_everything() {
    let mut portfolio = rebalance_ledger();
    assert_eq!(rebalance_portfolio(&mut portfolio, ratios(&[("SOL", 60), ("BTC", 40)])), Ok(()));
    assert_eq!(values(&portfolio), vec![600, 400]);
    assert_eq!(portfolio.total_value, 1_000);
    assert_eq!(portfolio.assets[0].amount, 100);
    assert_eq!(portfolio.assets[1].amount, 2);
    assert!(is_consistent(&portfolio));
}

#[test]
fn rebalance_to_ratios_below_a_hundred_leaves_the_aggregate_apart() {
    let mut portfolio = rebalance_ledger();
    rebalance_portfolio(&mut portfolio, ratios(&[("SOL", 50), ("BTC", 30)])).unwrap();
    assert_eq!(values(&portfolio), vec![500, 300]);
    assert_eq!(portfolio.total_value, 1_000);
    assert!(!is_consistent(&portfolio));
}

#[test]
fn rebalance_of_some_assets_only() {
    let mut portfolio = rebalance_ledger();
    rebalance_portfolio(&mut portfolio, ratios(&[("BTC", 100)])).unwrap();
    assert_eq!(values(&portfolio), vec![700, 1_000]);
    assert_eq!(portfolio.total_value, 1_000);
    assert!(!is_consistent(&portfolio));
}

#[test]
fn rebalance_rounding_can_break_the_sum() {
    let mut portfolio = initialize_portfolio(Pubkey::new_from_array([5u8; 32]), 10);
    add_asset(&mut portfolio, "A".to_string(), 1, 1).unwrap();
    add_asset(&mut portfolio, "B".to_string(), 1, 0).unwrap();
    rebalance_portfolio(&mut portfolio, ratios(&[("A", 50), ("B", 50)])).unwrap();
    assert_eq!(values(&portfolio), vec![0, 0]);
    assert_eq!(portfolio.total_value, 1);
    assert!(!is_consistent(&portfolio));
}

#[test]
fn rebalance_passes_over_unknown_symbols() {
    let mut portfolio = rebalance_ledger();
    let before = portfolio.clone();
    assert_eq!(rebalance_portfolio(&mut portfolio, ratios(&[("ETH", 100), ("DOT", 7)])), Ok(()));
    assert_eq!(portfolio, before);
    assert_eq!(rebalance_portfolio(&mut portfolio, Vec::new()), Ok(()));
    assert_eq!(portfolio, before);
}

#[test]
fn rebalance_uses_the_aggregate_read_at_the_start() {
    let mut portfolio = rebalance_ledger();
    // Every share is taken of 1_000, whatever the earlier ratios wrote.
    rebalance_portfolio(&mut portfolio, ratios(&[("SOL", 10), ("BTC", 10), ("SOL", 25)])).unwrap();
    assert_eq!(values(&portfolio), vec![250, 100]);
    assert_eq!(portfolio.total_value, 1_000);
}

#[test]
fn rebalance_lets_the_last_ratio_of_a_symbol_decide() {
    let mut portfolio = rebalance_ledger();
    rebalance_portfolio(&mut portfolio, ratios(&[("BTC", 1), ("BTC", 2), ("BTC", 3)])).unwrap();
    assert_eq!(values(&portfolio), vec![700, 30]);
}

#[test]
fn rebalance_acts_on_the_first_asset_of_a_symbol() {
    let mut portfolio = rebalance_ledger();
    add_asset(&mut portfolio, "SOL".to_string(), 5, 1_000).unwrap();
    rebalance_portfolio(&mut portfolio, ratios(&[("SOL", 10)])).unwrap();
    assert_eq!(values(&portfolio), vec![200, 300, 1_000]);
    assert_eq!(portfolio.total_value, 2_000);
}

#[test]
fn rebalance_rounds_down() {
    let mut portfolio = rebalance_ledger();
    portfolio.total_value = 999;
    rebalance_portfolio(&mut portfolio, ratios(&[("SOL", 33), ("BTC", 1)])).unwrap();
    assert_eq!(values(&portfolio), vec![329, 9]);
}

#[test]
fn rebalance_above_a_hundred_percent() {
    let mut portfolio = rebalance_ledger();
    rebalance_portfolio(&mut portfolio, ratios(&[("SOL", 250)])).unwrap();
    assert_eq!(values(&portfolio), vec![2_500, 300]);
}

#[test]
fn rebalance_to_a_value_beyond_the_range_changes_nothing() {
    let mut portfolio = rebalance_ledger();
    portfolio.total_value = u64::MAX;
    let before = portfolio.clone();
    assert_eq!(
        rebalance_portfolio(&mut portfolio, ratios(&[("SOL", 10), ("BTC", 101)])),
        Err(PortfolioError::ArithmeticOverflow)
    );
    assert_eq!(portfolio, before);
    // A ratio for a symbol that the ledger does not hold asks for nothing.
    rebalance_portfolio(&mut portfolio, ratios(&[("ETH", 101), ("BTC", 100)])).unwrap();
    assert_eq!(values(&portfolio), vec![700, u64::MAX]);
}

#[test]
fn automatic_rebalance_within_the_thresholds_does_nothing() {
    let mut portfolio = rebalance_ledger();
    portfolio.min_value_threshold = 1_000;
    portfolio.max_value_threshold = 1_000;
    let before = portfolio.clone();
    assert_eq!(
        rebalance_automatically(&mut portfolio, ratios(&[("SOL", 60), ("BTC", 40)])),
        Ok(())
    );
    assert_eq!(portfolio, before);
    // Not even a ratio that no rebalance could carry out is looked at.
    portfolio.total_value = u64::MAX;
    portfolio.min_value_threshold = 0;
    portfolio.max_value_threshold = u64::MAX;
    assert_eq!(rebalance_automatically(&mut portfolio, ratios(&[("SOL", 101)])), Ok(()));
    assert_eq!(values(&portfolio), vec![700, 300]);
}

#[test]
fn automatic_rebalance_above_the_maximum() {
    let mut portfolio = rebalance_ledger();
    portfolio.max_value_threshold = 999;
    rebalance_automatically(&mut portfolio, ratios(&[("SOL", 60), ("BTC", 40)])).unwrap();
    assert_eq!(values(&portfolio), vec![600, 400]);
}

#[test]
fn automatic_rebalance_below_the_minimum() {
    let mut portfolio = rebalance_ledger();
    portfolio.min_value_threshold = 1_001;
    rebalance_automatically(&mut portfolio, ratios(&[("SOL", 60), ("BTC", 40)])).unwrap();
    assert_eq!(values(&portfolio), vec![600, 400]);
}

#[test]
fn automatic_rebalance_hands_on_the_refusal() {
    let mut portfolio = rebalance_ledger();
    portfolio.total_value = u64::MAX;
    portfolio.max_value_threshold = 5;
    let before = portfolio.clone();
    assert_eq!(
        rebalance_automatically(&mut portfolio, ratios(&[("SOL", 101)])),
        Err(PortfolioError::ArithmeticOverflow)
    );
    assert_eq!(portfolio, before);
}
