use solana_program::pubkey::Pubkey;
use tokenized_portfolio::{
    add_asset, initialize_portfolio, is_consistent, provide_liquidity, settle_transfer,
    transfer_asset, withdraw_asset, PendingTransfer, Portfolio, PortfolioError,
};

fn transfer_ledger() -> Portfolio {
    let mut portfolio = initialize_portfolio(Pubkey::new_from_array([2u8; 32]), 10);
    add_asset(&mut portfolio, "SOL".to_string(), 100, 7).unwrap();
    add_asset(&mut portfolio, "BTC".to_string(), 2, 300).unwrap();
    add_asset(&mut portfolio, "SOL".to_string(), 900, 50).unwrap();
    add_asset(&mut portfolio, "DUST".to_string(), 40, 0).unwrap();
    portfolio
}

#[test]
fn transfer_debits_the_first_match_only() {
    let mut portfolio = transfer_ledger();
    let pending = transfer_asset(&mut portfolio, "SOL".to_string(), 30).unwrap();
    assert_eq!(
        pending,
        PendingTransfer { amount: 30, asset_index: 0, prior_amount: 100, prior_total_value: 357 }
    );
    assert_eq!(portfolio.assets[0].amount, 70);
    assert_eq!(portfolio.assets[2].amount, 900);
    assert_eq!(portfolio.total_value, 357);
    assert!(is_consistent(&portfolio));
}

#[test]
fn transfer_cannot_reach_a_shadowed_asset() {
    let mut portfolio = transfer_ledger();
    let before = portfolio.clone();
    assert_eq!(
        transfer_asset(&mut portfolio, "SOL".to_string(), 101),
        Err(PortfolioError::InsufficientBalance)
    );
    assert_eq!(portfolio, before);
}

#[test]
fn transfer_of_a_missing_asset() {
    let mut portfolio = transfer_ledger();
    let before = portfolio.clone();
    assert_eq!(
        transfer_asset(&mut portfolio, "ETH".to_string(), 0),
        Err(PortfolioError::AssetNotFound)
    );
    assert_eq!(portfolio, before);
}

#[test]
fn transfer_of_the_whole_balance_and_of_nothing() {
    let mut portfolio = transfer_ledger();
    transfer_asset(&mut portfolio, "BTC".to_string(), 2).unwrap();
    assert_eq!(portfolio.assets[1].amount, 0);
    let before = portfolio.clone();
    transfer_asset(&mut portfolio, "BTC".to_string(), 0).unwrap();
    assert_eq!(portfolio, before);
}

#[test]
fn failed_transfer_is_taken_back() {
    let mut portfolio = transfer_ledger();
    let before = portfolio.clone();
    let pending = transfer_asset(&mut portfolio, "SOL".to_string(), 30).unwrap();
    assert_ne!(portfolio, before);
    assert_eq!(
        settle_transfer(&mut portfolio, pending, false),
        Err(PortfolioError::ExternalEffectFailed)
    );
    assert_eq!(portfolio, before);
}

#[test]
fn delivered_transfer_stands() {
    let mut portfolio = transfer_ledger();
    let pending = transfer_asset(&mut portfolio, "SOL".to_string(), 30).unwrap();
    let debited = portfolio.clone();
    assert_eq!(settle_transfer(&mut portfolio, pending, true), Ok(()));
    assert_eq!(portfolio, debited);
}

#[test]
fn settling_a_record_that_points_outside_the_assets_changes_nothing() {
    let mut portfolio = transfer_ledger();
    let before = portfolio.clone();
    let stray =
        PendingTransfer { amount: 1, asset_index: 4, prior_amount: 5, prior_total_value: 6 };
    assert_eq!(
        settle_transfer(&mut portfolio, stray, false),
        Err(PortfolioError::ExternalEffectFailed)
    );
    assert_eq!(portfolio, before);
}

#[test]
fn withdraw_of_the_whole_balance_empties_the_asset() {
    let mut portfolio = transfer_ledger();
    // 2 * 300 = 600 is more than the aggregate of 357 holds: raise it first.
    portfolio.total_value = 1_000;
    let pending = withdraw_asset(&mut portfolio, "BTC".to_string(), 2).unwrap();
    assert_eq!(
        pending,
        PendingTransfer { amount: 2, asset_index: 1, prior_amount: 2, prior_total_value: 1_000 }
    );
    assert_eq!(portfolio.assets[1].amount, 0);
    assert_eq!(portfolio.assets[1].value, 300);
    assert_eq!(portfolio.total_value, 400);
}

#[test]
fn withdraw_of_one_unit_more_than_the_balance() {
    let mut portfolio = transfer_ledger();
    portfolio.total_value = 1_000;
    let before = portfolio.clone();
    assert_eq!(
        withdraw_asset(&mut portfolio, "BTC".to_string(), 3),
        Err(PortfolioError::InsufficientBalance)
    );
    assert_eq!(portfolio, before);
}

#[test]
fn withdraw_reports_the_balance_before_the_aggregate() {
    let mut portfolio = transfer_ledger();
    // Both checks would fail: 3 units exceed the balance, 3 * 300 the aggregate.
    assert_eq!(
        withdraw_asset(&mut portfolio, "BTC".to_string(), 3),
        Err(PortfolioError::InsufficientBalance)
    );
    assert_eq!(
        withdraw_asset(&mut portfolio, "ETH".to_string(), 3),
        Err(PortfolioError::AssetNotFound)
    );
}

#[test]
fn withdraw_reduction_may_use_the_whole_aggregate() {
    let mut portfolio = transfer_ledger();
    // 51 * 7 = 357 is exactly the aggregate; one unit more is refused.
    let mut other = portfolio.clone();
    withdraw_asset(&mut portfolio, "SOL".to_string(), 51).unwrap();
    assert_eq!(portfolio.total_value, 0);
    assert_eq!(portfolio.assets[0].amount, 49);
    assert_eq!(
        withdraw_asset(&mut other, "SOL".to_string(), 52),
        Err(PortfolioError::ArithmeticOverflow)
    );
}

#[test]
fn withdraw_with_a_product_beyond_the_range_is_refused() {
    let mut portfolio = initialize_portfolio(Pubkey::new_from_array([2u8; 32]), 10);
    add_asset(&mut portfolio, "BIG".to_string(), u64::MAX, u64::MAX).unwrap();
    let before = portfolio.clone();
    assert_eq!(
        withdraw_asset(&mut portfolio, "BIG".to_string(), u64::MAX),
        Err(PortfolioError::ArithmeticOverflow)
    );
    assert_eq!(portfolio, before);
    withdraw_asset(&mut portfolio, "BIG".to_string(), 1).unwrap();
    assert_eq!(portfolio.total_value, 0);
    assert_eq!(portfolio.assets[0].amount, u64::MAX - 1);
}

#[test]
fn withdraw_breaks_the_sum_unless_nothing_is_deducted() {
    let mut portfolio = transfer_ledger();
    withdraw_asset(&mut portfolio, "SOL".to_string(), 1).unwrap();
    assert_eq!(portfolio.total_value, 350);
    assert!(!is_consistent(&portfolio));

    let mut portfolio = transfer_ledger();
    withdraw_asset(&mut portfolio, "DUST".to_string(), 40).unwrap();
    withdraw_asset(&mut portfolio, "BTC".to_string(), 0).unwrap();
    assert_eq!(portfolio.assets[3].amount, 0);
    assert!(is_consistent(&portfolio));
}

#[test]
fn failed_withdrawal_is_taken_back() {
    let mut portfolio = transfer_ledger();
    let before = portfolio.clone();
    let pending = withdraw_asset(&mut portfolio, "SOL".to_string(), 10).unwrap();
    assert_eq!(portfolio.total_value, 287);
    assert_eq!(portfolio.assets[0].amount, 90);
    assert_eq!(
        settle_transfer(&mut portfolio, pending, false),
        Err(PortfolioError::ExternalEffectFailed)
    );
    assert_eq!(portfolio, before);
}

#[test]
fn provide_liquidity_checks_and_changes_nothing() {
    let portfolio = transfer_ledger();
    let pending = provide_liquidity(&portfolio, "SOL".to_string(), 100).unwrap();
    assert_eq!(
        pending,
        PendingTransfer { amount: 100, asset_index: 0, prior_amount: 100, prior_total_value: 357 }
    );
    assert_eq!(
        provide_liquidity(&portfolio, "SOL".to_string(), 101),
        Err(PortfolioError::InsufficientBalance)
    );
    assert_eq!(
        provide_liquidity(&portfolio, "ETH".to_string(), 1),
        Err(PortfolioError::AssetNotFound)
    );

    let mut settled = portfolio.clone();
    assert_eq!(
        settle_transfer(&mut settled, pending, false),
        Err(PortfolioError::ExternalEffectFailed)
    );
    assert_eq!(settled, portfolio);
    assert_eq!(settle_transfer(&mut settled, pending, true), Ok(()));
    assert_eq!(settled, portfolio);
}
