use token_ledger::errors::Error;
use token_ledger::vault::Wallet;

const CAROL: u64 = 3;
const DAVE: u64 = 4;

#[test]
fn new_wallet_has_no_balances() {
    let wallet = Wallet::new();
    assert_eq!(wallet.balance_of(CAROL), 0);
    assert_eq!(wallet.balance_of(DAVE), 0);
}

#[test]
fn withdraw_deposit_withdraw_scenario() {
    let mut wallet = Wallet::new();
    assert_eq!(wallet.withdraw(CAROL, 10), Err(Error::InsufficientFunds));
    assert_eq!(wallet.deposit(CAROL, 10), Ok(()));
    assert_eq!(wallet.balance_of(CAROL), 10);
    assert_eq!(wallet.withdraw(CAROL, 10), Ok(()));
    assert_eq!(wallet.balance_of(CAROL), 0);
}

#[test]
fn deposit_touches_only_the_caller() {
    let mut wallet = Wallet::new();
    assert_eq!(wallet.deposit(CAROL, 5), Ok(()));
    assert_eq!(wallet.deposit(DAVE, 7), Ok(()));
    assert_eq!(wallet.balance_of(CAROL), 5);
    assert_eq!(wallet.balance_of(DAVE), 7);
}

#[test]
fn deposit_overflow_is_rejected_and_mutates_nothing() {
    let mut wallet = Wallet::new();
    assert_eq!(wallet.deposit(CAROL, u128::MAX), Ok(()));
    assert_eq!(wallet.deposit(CAROL, 1), Err(Error::Overflow));
    assert_eq!(wallet.balance_of(CAROL), u128::MAX);
}

#[test]
fn failed_withdraw_leaves_the_balance_unchanged() {
    let mut wallet = Wallet::new();
    assert_eq!(wallet.deposit(CAROL, 4), Ok(()));
    assert_eq!(wallet.withdraw(CAROL, 5), Err(Error::InsufficientFunds));
    assert_eq!(wallet.balance_of(CAROL), 4);
}

#[test]
fn withdraw_of_exact_balance_succeeds() {
    let mut wallet = Wallet::new();
    assert_eq!(wallet.deposit(DAVE, 9), Ok(()));
    assert_eq!(wallet.withdraw(DAVE, 9), Ok(()));
    assert_eq!(wallet.balance_of(DAVE), 0);
}

#[test]
fn withdraw_of_zero_from_absent_caller_succeeds() {
    let mut wallet = Wallet::new();
    assert_eq!(wallet.withdraw(CAROL, 0), Ok(()));
    assert_eq!(wallet.balance_of(CAROL), 0);
}
