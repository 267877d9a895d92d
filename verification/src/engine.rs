//! The settlement engine: the operations that decide whether funds move
//! and how much each party ends up with.
//!
//! Every operation is a single linear pass — authorize, read, validate,
//! transfer — and issues no transfer before all of its validations have
//! passed, so a failed call provably changes no balance. The validation
//! kernels ([`plan_send`], [`plan_exchange`]) are plain functions from
//! the balances read to a decision; the operations run them against a
//! [`Ledger`], and a host adapter can run the very same kernels against
//! balances read from a live asset ledger.

use vstd::prelude::*;

use crate::auth::{AuthScope, Authorizations};
use crate::errors::Error;
use crate::ledger::{transfer_delta, Ledger};

verus! {

/// The flat fee an `exchange` deducts from the payout: 0.1 in the
/// seven-decimal fixed-point representation.
pub const EXCHANGE_FEE: i128 = 1_000_000;

/// The flat fee a `swap` deducts from the payout: 0.01 in the
/// seven-decimal fixed-point representation.
pub const SWAP_FEE: i128 = 100_000;

/// What a direct send decides, given the proofs presented and the state
/// of the ledger: authorization first, then the sender's balance, then
/// the ledger's own refusal of a negative amount.
pub open spec fn send_outcome(
    auth: Authorizations,
    pre: Ledger,
    sender: u64,
    asset: u64,
    amount: i128,
) -> Result<(), Error> {
    if !auth.permits(sender, AuthScope::Transfer { asset, amount }) {
        Err(Error::AuthorizationError)
    } else if pre.balance_of(sender, asset) < amount as int {
        Err(Error::InsufficientFundsError)
    } else if amount < 0 {
        Err(Error::TransferError)
    } else {
        Ok(())
    }
}

/// What an exchange or swap decides: authorization over both assets and
/// the amount, then the sender's balance, then the engine's reserve of
/// the receive asset as it stands before anything is pulled, then the
/// fee floor.
pub open spec fn conversion_outcome(
    auth: Authorizations,
    pre: Ledger,
    module: u64,
    sender: u64,
    send_asset: u64,
    receive_asset: u64,
    amount: i128,
    fee: i128,
) -> Result<(), Error> {
    if !auth.permits(sender, AuthScope::Conversion { send_asset, receive_asset, amount }) {
        Err(Error::AuthorizationError)
    } else if pre.balance_of(sender, send_asset) < amount as int {
        Err(Error::InsufficientFundsError)
    } else if pre.balance_of(module, receive_asset) < amount as int {
        Err(Error::InsufficientLiquidityError)
    } else if amount <= fee {
        Err(Error::FeeExceedsAmountError)
    } else {
        Ok(())
    }
}

/// What loading the engine's reserves decides: authorization, then only
/// what the ledger's own transfer enforces — there is no balance
/// pre-check of the engine's beyond it.
pub open spec fn load_outcome(
    auth: Authorizations,
    pre: Ledger,
    from: u64,
    asset: u64,
    amount: i128,
) -> Result<(), Error> {
    if !auth.permits(from, AuthScope::Transfer { asset, amount }) {
        Err(Error::AuthorizationError)
    } else if amount >= 0 && pre.balance_of(from, asset) >= amount as int {
        Ok(())
    } else {
        Err(Error::TransferError)
    }
}

/// The validation kernel of a direct send: from the sender's balance as
/// read, decide the amount to transfer or the exact refusal.
pub open spec fn plan_send_spec(balance: i128, amount: i128) -> Result<i128, Error> {
    if balance < amount {
        Err(Error::InsufficientFundsError)
    } else if amount < 0 {
        Err(Error::TransferError)
    } else {
        Ok(amount)
    }
}

/// Decide a direct send from the sender's balance as read: the amount to
/// transfer, or the exact refusal.
pub fn plan_send(balance: i128, amount: i128) -> (r: Result<i128, Error>)
    ensures
        r == plan_send_spec(balance, amount),
{
    if balance < amount {
        Err(Error::InsufficientFundsError)
    } else if amount < 0 {
        Err(Error::TransferError)
    } else {
        Ok(amount)
    }
}

/// The validation kernel of an exchange or swap: from the sender's
/// balance and the engine's reserve as read, decide the payout after the
/// fee or the exact refusal.
pub open spec fn plan_exchange_spec(
    send_balance: i128,
    reserve_balance: i128,
    amount: i128,
    fee: i128,
) -> Result<i128, Error> {
    if send_balance < amount {
        Err(Error::InsufficientFundsError)
    } else if reserve_balance < amount {
        Err(Error::InsufficientLiquidityError)
    } else if amount <= fee {
        Err(Error::FeeExceedsAmountError)
    } else {
        Ok((amount - fee) as i128)
    }
}

/// Decide an exchange or swap from the balances as read: the payout
/// after the fee, or the exact refusal.
pub fn plan_exchange(send_balance: i128, reserve_balance: i128, amount: i128, fee: i128) -> (r:
    Result<i128, Error>)
    requires
        fee >= 0,
    ensures
        r == plan_exchange_spec(send_balance, reserve_balance, amount, fee),
{
    if send_balance < amount {
        Err(Error::InsufficientFundsError)
    } else if reserve_balance < amount {
        Err(Error::InsufficientLiquidityError)
    } else if amount <= fee {
        Err(Error::FeeExceedsAmountError)
    } else {
        Ok(amount - fee)
    }
}

/// The settlement engine instance: its own account on the ledger, under
/// which it custodies funds mid-operation and accumulates fees, and the
/// fee each conversion operation deducts.
pub struct ExchangeContract {
    pub address: u64,
    pub exchange_fee: i128,
    pub swap_fee: i128,
}

impl ExchangeContract {
    /// The fees are amounts: never negative.
    pub open spec fn wf(self) -> bool {
        self.exchange_fee >= 0 && self.swap_fee >= 0
    }

    /// An engine settling under `address` with the default fees.
    pub fn new(address: u64) -> (r: ExchangeContract)
        ensures
            r.address == address,
            r.exchange_fee == EXCHANGE_FEE,
            r.swap_fee == SWAP_FEE,
            r.wf(),
    {
        ExchangeContract { address, exchange_fee: EXCHANGE_FEE, swap_fee: SWAP_FEE }
    }

    /// An engine with the fee of each conversion operation chosen by the
    /// deployment.
    pub fn with_fees(address: u64, exchange_fee: i128, swap_fee: i128) -> (r: ExchangeContract)
        requires
            exchange_fee >= 0,
            swap_fee >= 0,
        ensures
            r.address == address,
            r.exchange_fee == exchange_fee,
            r.swap_fee == swap_fee,
            r.wf(),
    {
        ExchangeContract { address, exchange_fee, swap_fee }
    }

    /// Send `amount` of `selected_token` from `sender` straight to
    /// `receiver`: no fee, no custody. Fails exactly as
    /// [`send_outcome`] says, and a failure moves nothing.
    pub fn send(
        &self,
        auth: &Authorizations,
        ledger: &mut Ledger,
        sender: u64,
        receiver: u64,
        selected_token: u64,
        amount: i128,
    ) -> (r: Result<(), Error>)
        requires
            old(ledger).wf(),
        ensures
            final(ledger).wf(),
            forall|t: u64| final(ledger).supply(t) == old(ledger).supply(t),
            r == send_outcome(*auth, *old(ledger), sender, selected_token, amount),
            r is Ok ==> forall|a: u64, t: u64|
                final(ledger).balance_of(a, t) == old(ledger).balance_of(a, t) + transfer_delta(
                    sender,
                    receiver,
                    selected_token,
                    amount as int,
                    a,
                    t,
                ),
            r is Err ==> forall|a: u64, t: u64|
                final(ledger).balance_of(a, t) == old(ledger).balance_of(a, t),
    {
        if !auth.check(sender, AuthScope::Transfer { asset: selected_token, amount }) {
            return Err(Error::AuthorizationError);
        }
        let balance = ledger.balance(sender, selected_token);
        match plan_send(balance, amount) {
            Ok(transfer_amount) => {
                ledger.apply_transfer(sender, receiver, selected_token, transfer_amount);
                Ok(())
            },
            Err(e) => Err(e),
        }
    }

    /// Exchange `amount` of `send_token` for `receive_token`: the engine
    /// pulls the full amount into its own custody and pays out the
    /// amount minus [`ExchangeContract::exchange_fee`] from its reserve,
    /// keeping the fee. Fails exactly as [`conversion_outcome`] says,
    /// and a failure moves nothing.
    pub fn exchange(
        &self,
        auth: &Authorizations,
        ledger: &mut Ledger,
        sender: u64,
        receiver: u64,
        send_token: u64,
        receive_token: u64,
        amount: i128,
    ) -> (r: Result<(), Error>)
        requires
            self.wf(),
            old(ledger).wf(),
        ensures
            final(ledger).wf(),
            forall|t: u64| final(ledger).supply(t) == old(ledger).supply(t),
            r == conversion_outcome(
                *auth,
                *old(ledger),
                self.address,
                sender,
                send_token,
                receive_token,
                amount,
                self.exchange_fee,
            ),
            r is Ok ==> forall|a: u64, t: u64|
                final(ledger).balance_of(a, t) == old(ledger).balance_of(a, t) + transfer_delta(
                    sender,
                    self.address,
                    send_token,
                    amount as int,
                    a,
                    t,
                ) + transfer_delta(
                    self.address,
                    receiver,
                    receive_token,
                    amount - self.exchange_fee,
                    a,
                    t,
                ),
            r is Err ==> forall|a: u64, t: u64|
                final(ledger).balance_of(a, t) == old(ledger).balance_of(a, t),
    {
        self.settle_conversion(
            auth,
            ledger,
            sender,
            receiver,
            send_token,
            receive_token,
            amount,
            self.exchange_fee,
        )
    }

    /// Swap `amount` of `send_token` for `receive_token`: the same
    /// settlement as [`ExchangeContract::exchange`], deducting
    /// [`ExchangeContract::swap_fee`] instead.
    pub fn swap(
        &self,
        auth: &Authorizations,
        ledger: &mut Ledger,
        sender: u64,
        receiver: u64,
        send_token: u64,
        receive_token: u64,
        amount: i128,
    ) -> (r: Result<(), Error>)
        requires
            self.wf(),
            old(ledger).wf(),
        ensures
            final(ledger).wf(),
            forall|t: u64| final(ledger).supply(t) == old(ledger).supply(t),
            r == conversion_outcome(
                *auth,
                *old(ledger),
                self.address,
                sender,
                send_token,
                receive_token,
                amount,
                self.swap_fee,
            ),
            r is Ok ==> forall|a: u64, t: u64|
                final(ledger).balance_of(a, t) == old(ledger).balance_of(a, t) + transfer_delta(
                    sender,
                    self.address,
                    send_token,
                    amount as int,
                    a,
                    t,
                ) + transfer_delta(
                    self.address,
                    receiver,
                    receive_token,
                    amount - self.swap_fee,
                    a,
                    t,
                ),
            r is Err ==> forall|a: u64, t: u64|
                final(ledger).balance_of(a, t) == old(ledger).balance_of(a, t),
    {
        self.settle_conversion(
            auth,
            ledger,
            sender,
            receiver,
            send_token,
            receive_token,
            amount,
            self.swap_fee,
        )
    }

    /// The shared conversion settlement, parameterized by the fee. The
    /// engine's reserve is checked against the balance observed strictly
    /// before the pull, so a same-asset conversion cannot fund its own
    /// payout with the amount it is simultaneously receiving.
    fn settle_conversion(
        &self,
        auth: &Authorizations,
        ledger: &mut Ledger,
        sender: u64,
        receiver: u64,
        send_token: u64,
        receive_token: u64,
        amount: i128,
        fee: i128,
    ) -> (r: Result<(), Error>)
        requires
            old(ledger).wf(),
            fee >= 0,
        ensures
            final(ledger).wf(),
            forall|t: u64| final(ledger).supply(t) == old(ledger).supply(t),
            r == conversion_outcome(
                *auth,
                *old(ledger),
                self.address,
                sender,
                send_token,
                receive_token,
                amount,
                fee,
            ),
            r is Ok ==> forall|a: u64, t: u64|
                final(ledger).balance_of(a, t) == old(ledger).balance_of(a, t) + transfer_delta(
                    sender,
                    self.address,
                    send_token,
                    amount as int,
                    a,
                    t,
                ) + transfer_delta(
                    self.address,
                    receiver,
                    receive_token,
                    amount - fee,
                    a,
                    t,
                ),
            r is Err ==> forall|a: u64, t: u64|
                final(ledger).balance_of(a, t) == old(ledger).balance_of(a, t),
    {
        if !auth.check(
            sender,
            AuthScope::Conversion {
                send_asset: send_token,
                receive_asset: receive_token,
                amount,
            },
        ) {
            return Err(Error::AuthorizationError);
        }
        let send_balance = ledger.balance(sender, send_token);
        // the reserve as it stands before the pull
        let reserve_balance = ledger.balance(self.address, receive_token);
        match plan_exchange(send_balance, reserve_balance, amount, fee) {
            Ok(payout) => {
                ledger.apply_transfer(sender, self.address, send_token, amount);
                assert(ledger.balance_of(self.address, receive_token) >= payout as int);
                ledger.apply_transfer(self.address, receiver, receive_token, payout);
                Ok(())
            },
            Err(e) => Err(e),
        }
    }

    /// Pull `amount` of `token_id` from `from` into the engine's own
    /// custody, seeding the reserve that exchanges and swaps pay from.
    /// There is no balance pre-check beyond the ledger's own. Fails
    /// exactly as [`load_outcome`] says, and a failure moves nothing.
    pub fn load_tokens_into_contract(
        &self,
        auth: &Authorizations,
        ledger: &mut Ledger,
        token_id: u64,
        from: u64,
        amount: i128,
    ) -> (r: Result<(), Error>)
        requires
            old(ledger).wf(),
        ensures
            final(ledger).wf(),
            forall|t: u64| final(ledger).supply(t) == old(ledger).supply(t),
            r == load_outcome(*auth, *old(ledger), from, token_id, amount),
            r is Ok ==> forall|a: u64, t: u64|
                final(ledger).balance_of(a, t) == old(ledger).balance_of(a, t) + transfer_delta(
                    from,
                    self.address,
                    token_id,
                    amount as int,
                    a,
                    t,
                ),
            r is Err ==> forall|a: u64, t: u64|
                final(ledger).balance_of(a, t) == old(ledger).balance_of(a, t),
    {
        if !auth.check(from, AuthScope::Transfer { asset: token_id, amount }) {
            return Err(Error::AuthorizationError);
        }
        match ledger.transfer(from, self.address, token_id, amount) {
            Ok(()) => Ok(()),
            Err(e) => Err(e),
        }
    }

    /// The engine's own account: where custodied funds and fees sit.
    /// Reads nothing but `self`.
    pub fn contract_address(&self) -> (r: u64)
        ensures
            r == self.address,
    {
        self.address
    }

    /// The balance of `selected_token` held by `address`, exactly as the
    /// ledger reports it. Reads the ledger and mutates nothing.
    pub fn read_balance(&self, ledger: &Ledger, selected_token: u64, address: u64) -> (r: i128)
        ensures
            r as int == ledger.balance_of(address, selected_token),
    {
        ledger.balance(address, selected_token)
    }
}

} // verus!
