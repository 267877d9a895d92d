//! The ledger model and the validation kernels on their own.

use exchange::engine::{plan_exchange, plan_send};
use exchange::errors::Error;
use exchange::ledger::Ledger;

#[test]
fn a_fresh_ledger_reports_zero_everywhere() {
    let ledger = Ledger::new();
    assert_eq!(ledger.balance(1, 10), 0);
    assert_eq!(ledger.balance(2, 99), 0);
    assert_eq!(ledger.supply_of(10), 0);
}

#[test]
fn mint_raises_balance_and_supply_together() {
    let mut ledger = Ledger::new();
    assert_eq!(ledger.mint(1, 10, 250), Ok(()));
    assert_eq!(ledger.mint(2, 10, 50), Ok(()));
    assert_eq!(ledger.balance(1, 10), 250);
    assert_eq!(ledger.balance(2, 10), 50);
    assert_eq!(ledger.supply_of(10), 300);
    assert_eq!(ledger.supply_of(20), 0);
}

#[test]
fn mint_refuses_a_negative_amount() {
    let mut ledger = Ledger::new();
    assert_eq!(ledger.mint(1, 10, -1), Err(Error::TransferError));
    assert_eq!(ledger.balance(1, 10), 0);
}

#[test]
fn mint_refuses_a_supply_beyond_the_amount_type() {
    let mut ledger = Ledger::new();
    assert_eq!(ledger.mint(1, 10, i128::MAX), Ok(()));
    assert_eq!(ledger.mint(2, 10, 1), Err(Error::TransferError));
    assert_eq!(ledger.balance(2, 10), 0);
    assert_eq!(ledger.supply_of(10), i128::MAX);
}

#[test]
fn transfer_moves_funds_between_accounts() {
    let mut ledger = Ledger::new();
    ledger.mint(1, 10, 100).unwrap();
    assert_eq!(ledger.transfer(1, 2, 10, 60), Ok(()));
    assert_eq!(ledger.balance(1, 10), 40);
    assert_eq!(ledger.balance(2, 10), 60);
    assert_eq!(ledger.supply_of(10), 100);
}

#[test]
fn transfer_to_oneself_changes_nothing() {
    let mut ledger = Ledger::new();
    ledger.mint(1, 10, 100).unwrap();
    assert_eq!(ledger.transfer(1, 1, 10, 60), Ok(()));
    assert_eq!(ledger.balance(1, 10), 100);
}

#[test]
fn transfer_refuses_more_than_the_balance() {
    let mut ledger = Ledger::new();
    ledger.mint(1, 10, 100).unwrap();
    assert_eq!(ledger.transfer(1, 2, 10, 101), Err(Error::TransferError));
    assert_eq!(ledger.balance(1, 10), 100);
    assert_eq!(ledger.balance(2, 10), 0);
}

#[test]
fn transfer_refuses_a_negative_amount() {
    let mut ledger = Ledger::new();
    ledger.mint(1, 10, 100).unwrap();
    assert_eq!(ledger.transfer(1, 2, 10, -1), Err(Error::TransferError));
    assert_eq!(ledger.balance(1, 10), 100);
}

#[test]
fn plan_send_decides_exactly() {
    assert_eq!(plan_send(100, 60), Ok(60));
    assert_eq!(plan_send(100, 100), Ok(100));
    assert_eq!(plan_send(100, 101), Err(Error::InsufficientFundsError));
    assert_eq!(plan_send(100, -1), Err(Error::TransferError));
    assert_eq!(plan_send(0, 0), Ok(0));
}

#[test]
fn plan_exchange_decides_exactly() {
    // fee 0.01 in seven-decimal fixed point
    let fee = 0_0100000;
    assert_eq!(plan_exchange(50_0000000, 1000_0000000, 50_0000000, fee), Ok(49_9900000));
    assert_eq!(
        plan_exchange(10, 1000_0000000, 50_0000000, fee),
        Err(Error::InsufficientFundsError)
    );
    assert_eq!(
        plan_exchange(50_0000000, 10, 50_0000000, fee),
        Err(Error::InsufficientLiquidityError)
    );
    assert_eq!(
        plan_exchange(50_0000000, 1000_0000000, fee, fee),
        Err(Error::FeeExceedsAmountError)
    );
    assert_eq!(
        plan_exchange(50_0000000, 1000_0000000, fee - 1, fee),
        Err(Error::FeeExceedsAmountError)
    );
    assert_eq!(plan_exchange(50_0000000, 1000_0000000, fee + 1, fee), Ok(1));
}
