//! The engine's guarantees across operations, proved once and for all.
//!
//! Each operation's own contract pins its outcome and the exact movement
//! it causes; the lemmas here state the guarantees a reader of the whole
//! engine cares about — gating, conservation, the fee floor — directly
//! over those outcomes and movements.

use vstd::prelude::*;

use crate::auth::{AuthScope, Authorizations};
use crate::engine::{conversion_outcome, load_outcome, send_outcome};
use crate::errors::Error;
use crate::ledger::{transfer_delta, Ledger};

verus! {

/// Authorization gating: an operation whose initiating account presents
/// no proof for the exact scope acted on fails with
/// `AuthorizationError`. With each operation's own contract — a failing
/// call leaves every balance as it was — no unauthorized call moves
/// funds.
pub proof fn lemma_authorization_gating(
    auth: Authorizations,
    pre: Ledger,
    module: u64,
    sender: u64,
    send_asset: u64,
    receive_asset: u64,
    asset: u64,
    amount: i128,
    fee: i128,
)
    ensures
        !auth.permits(sender, AuthScope::Transfer { asset, amount }) ==> send_outcome(
            auth,
            pre,
            sender,
            asset,
            amount,
        ) == Err::<(), Error>(Error::AuthorizationError),
        !auth.permits(
            sender,
            AuthScope::Conversion { send_asset, receive_asset, amount },
        ) ==> conversion_outcome(
            auth,
            pre,
            module,
            sender,
            send_asset,
            receive_asset,
            amount,
            fee,
        ) == Err::<(), Error>(Error::AuthorizationError),
        !auth.permits(sender, AuthScope::Transfer { asset, amount }) ==> load_outcome(
            auth,
            pre,
            sender,
            asset,
            amount,
        ) == Err::<(), Error>(Error::AuthorizationError),
{
}

/// Balance conservation of a direct send: the sender's balance of the
/// asset falls by exactly the amount, the receiver's rises by exactly
/// it, and no other balance moves. (That no supply changes is in the
/// operation's own contract, on every outcome.)
pub proof fn lemma_send_moves_exact(sender: u64, receiver: u64, asset: u64, amount: int)
    requires
        sender != receiver,
    ensures
        transfer_delta(sender, receiver, asset, amount, sender, asset) == -amount,
        transfer_delta(sender, receiver, asset, amount, receiver, asset) == amount,
        forall|a: u64, t: u64|
            (a != sender && a != receiver) || t != asset ==> transfer_delta(
                sender,
                receiver,
                asset,
                amount,
                a,
                t,
            ) == 0,
{
}

/// Fee conservation of an exchange or swap, for three distinct parties
/// and two distinct assets: the sender loses the full amount of the
/// send asset, the receiver gains the amount minus the fee of the
/// receive asset, the engine's reserve of the receive asset falls by
/// exactly that payout, its reserve of the send asset rises by the full
/// amount — the fee remainder stays with the engine — and no other
/// balance moves.
pub proof fn lemma_conversion_moves_exact(
    sender: u64,
    receiver: u64,
    module: u64,
    send_asset: u64,
    receive_asset: u64,
    amount: int,
    fee: int,
)
    requires
        sender != module,
        receiver != module,
        send_asset != receive_asset,
    ensures
        transfer_delta(sender, module, send_asset, amount, sender, send_asset) + transfer_delta(
            module,
            receiver,
            receive_asset,
            amount - fee,
            sender,
            send_asset,
        ) == -amount,
        transfer_delta(sender, module, send_asset, amount, receiver, receive_asset)
            + transfer_delta(
            module,
            receiver,
            receive_asset,
            amount - fee,
            receiver,
            receive_asset,
        ) == amount - fee,
        transfer_delta(sender, module, send_asset, amount, module, receive_asset)
            + transfer_delta(
            module,
            receiver,
            receive_asset,
            amount - fee,
            module,
            receive_asset,
        ) == -(amount - fee),
        transfer_delta(sender, module, send_asset, amount, module, send_asset) + transfer_delta(
            module,
            receiver,
            receive_asset,
            amount - fee,
            module,
            send_asset,
        ) == amount,
        forall|a: u64, t: u64|
            a != sender && a != receiver && a != module ==> transfer_delta(
                sender,
                module,
                send_asset,
                amount,
                a,
                t,
            ) + transfer_delta(module, receiver, receive_asset, amount - fee, a, t) == 0,
        forall|a: u64, t: u64|
            t != send_asset && t != receive_asset ==> transfer_delta(
                sender,
                module,
                send_asset,
                amount,
                a,
                t,
            ) + transfer_delta(module, receiver, receive_asset, amount - fee, a, t) == 0,
{
}

/// The fee floor: an otherwise valid exchange or swap whose amount does
/// not exceed the fee fails with `FeeExceedsAmountError` — and, by the
/// operation's contract, leaves every balance unchanged.
pub proof fn lemma_fee_floor(
    auth: Authorizations,
    pre: Ledger,
    module: u64,
    sender: u64,
    send_asset: u64,
    receive_asset: u64,
    amount: i128,
    fee: i128,
)
    requires
        auth.permits(sender, AuthScope::Conversion { send_asset, receive_asset, amount }),
        pre.balance_of(sender, send_asset) >= amount as int,
        pre.balance_of(module, receive_asset) >= amount as int,
        amount <= fee,
    ensures
        conversion_outcome(auth, pre, module, sender, send_asset, receive_asset, amount, fee)
            == Err::<(), Error>(Error::FeeExceedsAmountError),
{
}

/// Insufficient funds and insufficient liquidity: an authorized
/// operation short of balance fails with the exact error of the side
/// that is short — the sender's funds for `send` and the pull side of a
/// conversion, the engine's reserve for the payout side, the ledger's
/// own refusal for a reserve load — and, by each operation's contract,
/// leaves every balance unchanged.
pub proof fn lemma_insufficient_balance(
    auth: Authorizations,
    pre: Ledger,
    module: u64,
    sender: u64,
    send_asset: u64,
    receive_asset: u64,
    asset: u64,
    amount: i128,
    fee: i128,
)
    ensures
        auth.permits(sender, AuthScope::Transfer { asset, amount }) && pre.balance_of(
            sender,
            asset,
        ) < amount as int ==> send_outcome(auth, pre, sender, asset, amount) == Err::<
            (),
            Error,
        >(Error::InsufficientFundsError),
        auth.permits(sender, AuthScope::Conversion { send_asset, receive_asset, amount })
            && pre.balance_of(sender, send_asset) < amount as int ==> conversion_outcome(
            auth,
            pre,
            module,
            sender,
            send_asset,
            receive_asset,
            amount,
            fee,
        ) == Err::<(), Error>(Error::InsufficientFundsError),
        auth.permits(sender, AuthScope::Conversion { send_asset, receive_asset, amount })
            && pre.balance_of(sender, send_asset) >= amount as int && pre.balance_of(
            module,
            receive_asset,
        ) < amount as int ==> conversion_outcome(
            auth,
            pre,
            module,
            sender,
            send_asset,
            receive_asset,
            amount,
            fee,
        ) == Err::<(), Error>(Error::InsufficientLiquidityError),
        auth.permits(sender, AuthScope::Transfer { asset, amount }) && amount >= 0
            && pre.balance_of(sender, asset) < amount as int ==> load_outcome(
            auth,
            pre,
            sender,
            asset,
            amount,
        ) == Err::<(), Error>(Error::TransferError),
{
}

} // verus!
