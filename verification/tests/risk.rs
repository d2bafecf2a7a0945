use solana_program::pubkey::Pubkey;
use tokenized_portfolio::{
    add_asset, check_risk, initialize_portfolio, Portfolio, PortfolioError, RiskAdvisory,
};

fn risk_ledger(total_value: u64, min: u64, max: u64) -> Portfolio {
    let mut portfolio = initialize_portfolio(Pubkey::new_from_array([6u8; 32]), 10);
    add_asset(&mut portfolio, "SOL".to_string(), 1, total_value).unwrap();
    portfolio.min_value_threshold = min;
    portfolio.max_value_threshold = max;
    portfolio
}

#[test]
fn new_ledger_passes_the_risk_check() {
    let portfolio = initialize_portfolio(Pubkey::new_from_array([6u8; 32]), 10);
    assert_eq!(check_risk(&portfolio), Ok(RiskAdvisory::WithinBounds));
    assert_eq!(check_risk(&risk_ledger(u64::MAX, 0, u64::MAX)), Ok(RiskAdvisory::WithinBounds));
}

#[test]
fn risk_check_at_the_thresholds() {
    assert_eq!(check_risk(&risk_ledger(500, 500, 900)), Ok(RiskAdvisory::WithinBounds));
    assert_eq!(check_risk(&risk_ledger(900, 500, 900)), Ok(RiskAdvisory::WithinBounds));
    assert_eq!(check_risk(&risk_ledger(499, 500, 900)), Err(PortfolioError::UnderMinValue));
    assert_eq!(check_risk(&risk_ledger(901, 500, 900)), Ok(RiskAdvisory::AboveMaximum));
}

#[test]
fn risk_check_with_crossed_thresholds_reports_the_minimum_first() {
    assert_eq!(check_risk(&risk_ledger(600, 900, 500)), Err(PortfolioError::UnderMinValue));
    assert_eq!(check_risk(&risk_ledger(950, 900, 500)), Ok(RiskAdvisory::AboveMaximum));
}

#[test]
fn risk_check_changes_nothing() {
    let portfolio = risk_ledger(901, 500, 900);
    let before = portfolio.clone();
    let _ = check_risk(&portfolio);
    assert_eq!(portfolio, before);
}
