use settlement_ledger::errors::LedgerError;
use settlement_ledger::treasury::{Provider, TreasuryAccount};

fn treasury(fast: u64, fallback: u64) -> TreasuryAccount {
    let mut t = TreasuryAccount::new(5);
    t.credit(Provider::Fast, fast);
    t.credit(Provider::Fallback, fallback);
    t
}

#[test]
fn new_treasury_is_empty() {
    let t = TreasuryAccount::new(5);
    assert_eq!(t.owner, 5);
    assert_eq!(t.fast_balance, 0);
    assert_eq!(t.fallback_balance, 0);
    assert_eq!(t.total_invoices_issued, 0);
}

#[test]
fn credit_touches_exactly_one_provider() {
    let mut t = TreasuryAccount::new(5);
    t.credit(Provider::Fast, 700);
    assert_eq!(t.fast_balance, 700);
    assert_eq!(t.fallback_balance, 0);
    t.credit(Provider::Fallback, 40);
    assert_eq!(t.fast_balance, 700);
    assert_eq!(t.fallback_balance, 40);
    assert_eq!(t.balance(Provider::Fast), 700);
    assert_eq!(t.balance(Provider::Fallback), 40);
}

#[test]
fn swap_conserves_the_combined_balance() {
    let mut t = treasury(1000, 200);
    t.swap_treasury_balance(Provider::Fast, Provider::Fallback, 300)
        .unwrap();
    assert_eq!(t.fast_balance, 700);
    assert_eq!(t.fallback_balance, 500);
    assert_eq!(t.fast_balance + t.fallback_balance, 1200);

    assert_eq!(
        t.swap_treasury_balance(Provider::Fast, Provider::Fallback, 800)
            .unwrap_err(),
        LedgerError::InsufficientBalance
    );
    assert_eq!(t.fast_balance, 700);
    assert_eq!(t.fallback_balance, 500);
}

#[test]
fn swap_back_from_fallback() {
    let mut t = treasury(100, 900);
    t.swap_treasury_balance(Provider::Fallback, Provider::Fast, 900)
        .unwrap();
    assert_eq!(t.fast_balance, 1000);
    assert_eq!(t.fallback_balance, 0);
}

#[test]
fn swap_to_the_same_provider_is_refused() {
    let mut t = treasury(100, 100);
    assert_eq!(
        t.swap_treasury_balance(Provider::Fast, Provider::Fast, 10)
            .unwrap_err(),
        LedgerError::InvalidSwap
    );
    assert_eq!(
        t.swap_treasury_balance(Provider::Fallback, Provider::Fallback, 10)
            .unwrap_err(),
        LedgerError::InvalidSwap
    );
    assert_eq!(t.fast_balance, 100);
    assert_eq!(t.fallback_balance, 100);
}

#[test]
fn swap_of_everything_is_allowed() {
    let mut t = treasury(250, 0);
    t.swap_treasury_balance(Provider::Fast, Provider::Fallback, 250)
        .unwrap();
    assert_eq!(t.fast_balance, 0);
    assert_eq!(t.fallback_balance, 250);
}

#[test]
fn record_issued_counts_up() {
    let mut t = TreasuryAccount::new(5);
    t.record_issued();
    t.record_issued();
    assert_eq!(t.total_invoices_issued, 2);
}
