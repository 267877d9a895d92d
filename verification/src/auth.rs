//! The engine's model of the external authorization capability.
//!
//! The surrounding platform proves that a caller controls an account for
//! one exact set of call parameters; the engine only ever asks "is this
//! account authorized for exactly this scope?". [`Authorizations`] holds
//! the proofs presented with a call as plain values, and answering that
//! question is all it does. A scope carries every parameter that affects
//! fund movement: using an authorization outside its exact scope must be
//! rejected, so a mismatch in any field makes the check fail.

use vstd::prelude::*;

verus! {

/// The exact parameter set one authorization is bound to.
#[derive(Clone, Copy, Debug, PartialEq, Eq, Structural)]
pub enum AuthScope {
    /// A movement of `amount` units of one `asset` out of the account:
    /// the scope of a direct send and of loading the engine's reserves.
    Transfer { asset: u64, amount: i128 },
    /// A conversion of `amount` units of `send_asset` into
    /// `receive_asset`: the scope of an exchange or swap. It names both
    /// assets, the stricter of the two scopes such an operation could
    /// bind, so the signer approves everything that moves.
    Conversion { send_asset: u64, receive_asset: u64, amount: i128 },
}

/// One presented proof: `account` is authorized for `scope`.
#[derive(Clone, Copy, Debug, PartialEq, Eq, Structural)]
pub struct AuthGrant {
    pub account: u64,
    pub scope: AuthScope,
}

/// The authorization proofs presented with a call.
pub struct Authorizations {
    pub grants: Vec<AuthGrant>,
}

impl Authorizations {
    /// Whether a proof for exactly `(account, scope)` was presented.
    pub open spec fn permits(self, account: u64, scope: AuthScope) -> bool {
        exists|i: int|
            0 <= i < self.grants@.len() && self.grants@[i] == (AuthGrant { account, scope })
    }

    /// No proofs at all: every check fails.
    pub fn new() -> (r: Authorizations)
        ensures
            forall|a: u64, s: AuthScope| !r.permits(a, s),
    {
        Authorizations { grants: Vec::new() }
    }

    /// Present one more proof.
    pub fn grant(&mut self, account: u64, scope: AuthScope)
        ensures
            forall|a: u64, s: AuthScope|
                final(self).permits(a, s) <==> old(self).permits(a, s) || (a == account && s
                    == scope),
    {
        self.grants.push(AuthGrant { account, scope });
        proof {
            assert forall|a: u64, s: AuthScope|
                self.permits(a, s) <==> (old(self).permits(a, s) || (a == account && s
                    == scope)) by {
                let n = old(self).grants@.len() as int;
                assert(self.grants@[n] == (AuthGrant { account: account, scope: scope }));
                if old(self).permits(a, s) {
                    let i = choose|i: int|
                        0 <= i < old(self).grants@.len() && old(self).grants@[i] == (AuthGrant {
                            account: a,
                            scope: s,
                        });
                    assert(self.grants@[i] == (AuthGrant { account: a, scope: s }));
                }
                if self.permits(a, s) && !(a == account && s == scope) {
                    let i = choose|i: int|
                        0 <= i < self.grants@.len() && self.grants@[i] == (AuthGrant {
                            account: a,
                            scope: s,
                        });
                    assert(i < n);
                    assert(old(self).grants@[i] == (AuthGrant { account: a, scope: s }));
                }
            }
        }
    }

    /// Whether `account` is authorized for exactly `scope`.
    pub fn check(&self, account: u64, scope: AuthScope) -> (r: bool)
        ensures
            r == self.permits(account, scope),
    {
        let n = self.grants.len();
        let mut k: usize = 0;
        while k < n
            invariant
                n == self.grants@.len(),
                k <= n,
                forall|j: int|
                    0 <= j < k ==> self.grants@[j] != (AuthGrant { account, scope }),
            decreases n - k,
        {
            let g = self.grants[k];
            if g.account == account && g.scope == scope {
                proof {
                    assert(self.grants@[k as int] == (AuthGrant { account, scope }));
                }
                return true;
            }
            k += 1;
        }
        false
    }
}

} // verus!
