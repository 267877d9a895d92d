//! End-to-end settlement scenarios through the public operations.

use exchange::auth::{AuthScope, Authorizations};
use exchange::engine::{EXCHANGE_FEE, SWAP_FEE};
use exchange::errors::Error;
use exchange::ledger::Ledger;
use exchange::ExchangeContract;

const MODULE: u64 = 7;
const SENDER: u64 = 1;
const RECEIVER: u64 = 2;
const ASSET_X: u64 = 10;
const ASSET_Y: u64 = 20;

#[test]
fn send_without_authorization_fails_and_moves_nothing() {
    let mut ledger = Ledger::new();
    ledger.mint(SENDER, ASSET_X, 500_0000000).unwrap();
    let auth = Authorizations::new();
    let contract = ExchangeContract::new(MODULE);

    let r = contract.send(&auth, &mut ledger, SENDER, RECEIVER, ASSET_X, 200_0000000);
    assert_eq!(r, Err(Error::AuthorizationError));
    assert_eq!(contract.read_balance(&ledger, ASSET_X, SENDER), 500_0000000);
    assert_eq!(contract.read_balance(&ledger, ASSET_X, RECEIVER), 0);
}

#[test]
fn authorized_send_moves_the_exact_amount() {
    let mut ledger = Ledger::new();
    ledger.mint(SENDER, ASSET_X, 500_0000000).unwrap();
    let mut auth = Authorizations::new();
    auth.grant(SENDER, AuthScope::Transfer { asset: ASSET_X, amount: 200_0000000 });
    let contract = ExchangeContract::new(MODULE);

    let r = contract.send(&auth, &mut ledger, SENDER, RECEIVER, ASSET_X, 200_0000000);
    assert_eq!(r, Ok(()));
    assert_eq!(contract.read_balance(&ledger, ASSET_X, SENDER), 300_0000000);
    assert_eq!(contract.read_balance(&ledger, ASSET_X, RECEIVER), 200_0000000);
    assert_eq!(ledger.supply_of(ASSET_X), 500_0000000);
}

#[test]
fn send_authorized_for_a_different_scope_fails() {
    let mut ledger = Ledger::new();
    ledger.mint(SENDER, ASSET_X, 500_0000000).unwrap();
    let mut auth = Authorizations::new();
    // right asset, wrong amount: the scope must match exactly
    auth.grant(SENDER, AuthScope::Transfer { asset: ASSET_X, amount: 100_0000000 });
    let contract = ExchangeContract::new(MODULE);

    let r = contract.send(&auth, &mut ledger, SENDER, RECEIVER, ASSET_X, 200_0000000);
    assert_eq!(r, Err(Error::AuthorizationError));
    assert_eq!(contract.read_balance(&ledger, ASSET_X, SENDER), 500_0000000);
}

#[test]
fn send_with_insufficient_funds_fails_and_moves_nothing() {
    let mut ledger = Ledger::new();
    ledger.mint(SENDER, ASSET_X, 100).unwrap();
    let mut auth = Authorizations::new();
    auth.grant(SENDER, AuthScope::Transfer { asset: ASSET_X, amount: 101 });
    let contract = ExchangeContract::new(MODULE);

    let r = contract.send(&auth, &mut ledger, SENDER, RECEIVER, ASSET_X, 101);
    assert_eq!(r, Err(Error::InsufficientFundsError));
    assert_eq!(contract.read_balance(&ledger, ASSET_X, SENDER), 100);
    assert_eq!(contract.read_balance(&ledger, ASSET_X, RECEIVER), 0);
}

#[test]
fn send_of_a_negative_amount_is_the_ledgers_refusal() {
    let mut ledger = Ledger::new();
    ledger.mint(SENDER, ASSET_X, 100).unwrap();
    let mut auth = Authorizations::new();
    auth.grant(SENDER, AuthScope::Transfer { asset: ASSET_X, amount: -5 });
    let contract = ExchangeContract::new(MODULE);

    let r = contract.send(&auth, &mut ledger, SENDER, RECEIVER, ASSET_X, -5);
    assert_eq!(r, Err(Error::TransferError));
    assert_eq!(contract.read_balance(&ledger, ASSET_X, SENDER), 100);
}

#[test]
fn exchange_deducts_the_fee_and_keeps_it_in_the_reserve() {
    let mut ledger = Ledger::new();
    ledger.mint(SENDER, ASSET_X, 500_0000000).unwrap();
    ledger.mint(MODULE, ASSET_Y, 1000_0000000).unwrap();
    let mut auth = Authorizations::new();
    auth.grant(
        SENDER,
        AuthScope::Conversion {
            send_asset: ASSET_X,
            receive_asset: ASSET_Y,
            amount: 50_0000000,
        },
    );
    // fee 0.01 in seven-decimal fixed point
    let contract = ExchangeContract::with_fees(MODULE, 0_0100000, SWAP_FEE);

    let r = contract.exchange(&auth, &mut ledger, SENDER, RECEIVER, ASSET_X, ASSET_Y, 50_0000000);
    assert_eq!(r, Ok(()));
    assert_eq!(contract.read_balance(&ledger, ASSET_Y, RECEIVER), 49_9900000);
    assert_eq!(contract.read_balance(&ledger, ASSET_Y, MODULE), 950_0100000);
    assert_eq!(contract.read_balance(&ledger, ASSET_X, MODULE), 50_0000000);
    assert_eq!(contract.read_balance(&ledger, ASSET_X, SENDER), 450_0000000);
    // both supplies are conserved
    assert_eq!(ledger.supply_of(ASSET_X), 500_0000000);
    assert_eq!(ledger.supply_of(ASSET_Y), 1000_0000000);
}

#[test]
fn exchange_of_exactly_the_fee_fails_with_the_fee_floor() {
    let mut ledger = Ledger::new();
    ledger.mint(SENDER, ASSET_X, 500_0000000).unwrap();
    ledger.mint(MODULE, ASSET_Y, 1000_0000000).unwrap();
    let mut auth = Authorizations::new();
    auth.grant(
        SENDER,
        AuthScope::Conversion {
            send_asset: ASSET_X,
            receive_asset: ASSET_Y,
            amount: EXCHANGE_FEE,
        },
    );
    let contract = ExchangeContract::new(MODULE);

    let r = contract.exchange(
        &auth,
        &mut ledger,
        SENDER,
        RECEIVER,
        ASSET_X,
        ASSET_Y,
        EXCHANGE_FEE,
    );
    assert_eq!(r, Err(Error::FeeExceedsAmountError));
    assert_eq!(contract.read_balance(&ledger, ASSET_X, SENDER), 500_0000000);
    assert_eq!(contract.read_balance(&ledger, ASSET_Y, MODULE), 1000_0000000);
    assert_eq!(contract.read_balance(&ledger, ASSET_Y, RECEIVER), 0);
}

#[test]
fn exchange_against_an_underfunded_reserve_fails_with_liquidity() {
    let mut ledger = Ledger::new();
    ledger.mint(SENDER, ASSET_X, 500_0000000).unwrap();
    ledger.mint(MODULE, ASSET_Y, 10_0000000).unwrap();
    let mut auth = Authorizations::new();
    auth.grant(
        SENDER,
        AuthScope::Conversion {
            send_asset: ASSET_X,
            receive_asset: ASSET_Y,
            amount: 50_0000000,
        },
    );
    let contract = ExchangeContract::new(MODULE);

    let r = contract.exchange(&auth, &mut ledger, SENDER, RECEIVER, ASSET_X, ASSET_Y, 50_0000000);
    assert_eq!(r, Err(Error::InsufficientLiquidityError));
    assert_eq!(contract.read_balance(&ledger, ASSET_X, SENDER), 500_0000000);
    assert_eq!(contract.read_balance(&ledger, ASSET_Y, MODULE), 10_0000000);
}

#[test]
fn exchange_with_insufficient_funds_fails_before_any_pull() {
    let mut ledger = Ledger::new();
    ledger.mint(SENDER, ASSET_X, 10).unwrap();
    ledger.mint(MODULE, ASSET_Y, 1000_0000000).unwrap();
    let mut auth = Authorizations::new();
    auth.grant(
        SENDER,
        AuthScope::Conversion {
            send_asset: ASSET_X,
            receive_asset: ASSET_Y,
            amount: 50_0000000,
        },
    );
    let contract = ExchangeContract::new(MODULE);

    let r = contract.exchange(&auth, &mut ledger, SENDER, RECEIVER, ASSET_X, ASSET_Y, 50_0000000);
    assert_eq!(r, Err(Error::InsufficientFundsError));
    assert_eq!(contract.read_balance(&ledger, ASSET_X, SENDER), 10);
    assert_eq!(contract.read_balance(&ledger, ASSET_X, MODULE), 0);
}

#[test]
fn swap_uses_its_own_fee() {
    let mut ledger = Ledger::new();
    ledger.mint(SENDER, ASSET_X, 500_0000000).unwrap();
    ledger.mint(MODULE, ASSET_Y, 1000_0000000).unwrap();
    let mut auth = Authorizations::new();
    auth.grant(
        SENDER,
        AuthScope::Conversion {
            send_asset: ASSET_X,
            receive_asset: ASSET_Y,
            amount: 50_0000000,
        },
    );
    let contract = ExchangeContract::new(MODULE);

    let r = contract.swap(&auth, &mut ledger, SENDER, RECEIVER, ASSET_X, ASSET_Y, 50_0000000);
    assert_eq!(r, Ok(()));
    assert_eq!(
        contract.read_balance(&ledger, ASSET_Y, RECEIVER),
        50_0000000 - SWAP_FEE
    );
    assert_eq!(
        contract.read_balance(&ledger, ASSET_Y, MODULE),
        1000_0000000 - 50_0000000 + SWAP_FEE
    );
}

#[test]
fn same_asset_exchange_checks_the_reserve_before_the_pull() {
    let mut ledger = Ledger::new();
    ledger.mint(SENDER, ASSET_X, 500_0000000).unwrap();
    let mut auth = Authorizations::new();
    auth.grant(
        SENDER,
        AuthScope::Conversion {
            send_asset: ASSET_X,
            receive_asset: ASSET_X,
            amount: 50_0000000,
        },
    );
    let contract = ExchangeContract::new(MODULE);

    // an empty reserve cannot be funded by the amount being pulled in
    let r = contract.exchange(&auth, &mut ledger, SENDER, RECEIVER, ASSET_X, ASSET_X, 50_0000000);
    assert_eq!(r, Err(Error::InsufficientLiquidityError));
    assert_eq!(contract.read_balance(&ledger, ASSET_X, SENDER), 500_0000000);

    // with a pre-funded reserve the engine keeps exactly the fee
    ledger.mint(MODULE, ASSET_X, 100_0000000).unwrap();
    let r = contract.exchange(&auth, &mut ledger, SENDER, RECEIVER, ASSET_X, ASSET_X, 50_0000000);
    assert_eq!(r, Ok(()));
    assert_eq!(
        contract.read_balance(&ledger, ASSET_X, MODULE),
        100_0000000 + EXCHANGE_FEE
    );
    assert_eq!(
        contract.read_balance(&ledger, ASSET_X, RECEIVER),
        50_0000000 - EXCHANGE_FEE
    );
}

#[test]
fn conversion_without_authorization_fails_and_moves_nothing() {
    let mut ledger = Ledger::new();
    ledger.mint(SENDER, ASSET_X, 500_0000000).unwrap();
    ledger.mint(MODULE, ASSET_Y, 1000_0000000).unwrap();
    // a transfer-scoped proof does not cover a conversion: the scope
    // must name both assets and the amount, exactly
    let mut auth = Authorizations::new();
    auth.grant(SENDER, AuthScope::Transfer { asset: ASSET_X, amount: 50_0000000 });
    let contract = ExchangeContract::new(MODULE);

    let r = contract.exchange(&auth, &mut ledger, SENDER, RECEIVER, ASSET_X, ASSET_Y, 50_0000000);
    assert_eq!(r, Err(Error::AuthorizationError));
    let r = contract.swap(&auth, &mut ledger, SENDER, RECEIVER, ASSET_X, ASSET_Y, 50_0000000);
    assert_eq!(r, Err(Error::AuthorizationError));
    assert_eq!(contract.read_balance(&ledger, ASSET_X, SENDER), 500_0000000);
    assert_eq!(contract.read_balance(&ledger, ASSET_Y, MODULE), 1000_0000000);
    assert_eq!(contract.read_balance(&ledger, ASSET_Y, RECEIVER), 0);
}

#[test]
fn load_without_authorization_fails_and_moves_nothing() {
    let mut ledger = Ledger::new();
    ledger.mint(SENDER, ASSET_Y, 300_0000000).unwrap();
    let auth = Authorizations::new();
    let contract = ExchangeContract::new(MODULE);

    let r = contract.load_tokens_into_contract(&auth, &mut ledger, ASSET_Y, SENDER, 300_0000000);
    assert_eq!(r, Err(Error::AuthorizationError));
    assert_eq!(contract.read_balance(&ledger, ASSET_Y, SENDER), 300_0000000);
    assert_eq!(contract.read_balance(&ledger, ASSET_Y, MODULE), 0);
}

#[test]
fn load_tokens_seeds_the_reserve() {
    let mut ledger = Ledger::new();
    ledger.mint(SENDER, ASSET_Y, 300_0000000).unwrap();
    let mut auth = Authorizations::new();
    auth.grant(SENDER, AuthScope::Transfer { asset: ASSET_Y, amount: 300_0000000 });
    let contract = ExchangeContract::new(MODULE);

    let r = contract.load_tokens_into_contract(&auth, &mut ledger, ASSET_Y, SENDER, 300_0000000);
    assert_eq!(r, Ok(()));
    assert_eq!(contract.read_balance(&ledger, ASSET_Y, MODULE), 300_0000000);
    assert_eq!(contract.read_balance(&ledger, ASSET_Y, SENDER), 0);
}

#[test]
fn load_tokens_beyond_the_balance_is_the_ledgers_refusal() {
    let mut ledger = Ledger::new();
    ledger.mint(SENDER, ASSET_Y, 100).unwrap();
    let mut auth = Authorizations::new();
    auth.grant(SENDER, AuthScope::Transfer { asset: ASSET_Y, amount: 200 });
    let contract = ExchangeContract::new(MODULE);

    let r = contract.load_tokens_into_contract(&auth, &mut ledger, ASSET_Y, SENDER, 200);
    assert_eq!(r, Err(Error::TransferError));
    assert_eq!(contract.read_balance(&ledger, ASSET_Y, SENDER), 100);
    assert_eq!(contract.read_balance(&ledger, ASSET_Y, MODULE), 0);
}

#[test]
fn accessors_mutate_nothing_and_repeat_their_answers() {
    let mut ledger = Ledger::new();
    ledger.mint(SENDER, ASSET_X, 42).unwrap();
    let contract = ExchangeContract::new(MODULE);

    assert_eq!(contract.contract_address(), MODULE);
    assert_eq!(contract.contract_address(), MODULE);
    let first = contract.read_balance(&ledger, ASSET_X, SENDER);
    let second = contract.read_balance(&ledger, ASSET_X, SENDER);
    assert_eq!(first, 42);
    assert_eq!(first, second);
}
