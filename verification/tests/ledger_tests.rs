use bundler::auth::AuthContext;
use bundler::ledger::Ledger;

#[test]
fn untouched_accounts_hold_zero() {
    let ledger = Ledger::new();
    assert_eq!(ledger.balance_of(0), 0);
    assert_eq!(ledger.balance_of(u64::MAX), 0);
}

#[test]
fn set_balance_touches_one_account_only() {
    let mut ledger = Ledger::new();
    ledger.set_balance(1, 50);
    ledger.set_balance(2, 70);
    ledger.set_balance(1, 60);
    assert_eq!(ledger.balance_of(1), 60);
    assert_eq!(ledger.balance_of(2), 70);
    assert_eq!(ledger.balance_of(3), 0);
}

#[test]
fn transfer_moves_the_full_amount_once() {
    let mut ledger = Ledger::new();
    ledger.set_balance(1, 100);
    assert!(ledger.transfer(1, 2, 40));
    assert_eq!(ledger.balance_of(1), 60);
    assert_eq!(ledger.balance_of(2), 40);
}

#[test]
fn transfer_of_more_than_the_balance_moves_nothing() {
    let mut ledger = Ledger::new();
    ledger.set_balance(1, 100);
    assert!(!ledger.transfer(1, 2, 101));
    assert_eq!(ledger.balance_of(1), 100);
    assert_eq!(ledger.balance_of(2), 0);
}

#[test]
fn negative_transfer_moves_nothing() {
    let mut ledger = Ledger::new();
    ledger.set_balance(1, 100);
    assert!(!ledger.transfer(1, 2, -1));
    assert_eq!(ledger.balance_of(1), 100);
    assert_eq!(ledger.balance_of(2), 0);
}

#[test]
fn transfer_to_oneself_changes_nothing() {
    let mut ledger = Ledger::new();
    ledger.set_balance(1, 100);
    assert!(ledger.transfer(1, 1, 100));
    assert_eq!(ledger.balance_of(1), 100);
    assert!(!ledger.transfer(1, 1, 101));
}

#[test]
fn transfer_with_no_headroom_at_the_payee_moves_nothing() {
    let mut ledger = Ledger::new();
    ledger.set_balance(1, 100);
    ledger.set_balance(2, i128::MAX);
    assert!(!ledger.transfer(1, 2, 1));
    assert_eq!(ledger.balance_of(1), 100);
    assert_eq!(ledger.balance_of(2), i128::MAX);
    assert!(ledger.transfer(1, 2, 0));
}

#[test]
fn consent_is_per_principal() {
    let mut auth = AuthContext::new();
    assert!(!auth.is_granted(1));
    auth.grant(1);
    assert!(auth.is_granted(1));
    assert!(!auth.is_granted(2));
    auth.grant(2);
    assert!(auth.is_granted(1));
    assert!(auth.is_granted(2));
}
