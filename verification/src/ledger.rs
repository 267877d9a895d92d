//! The engine's model of the external asset ledger.
//!
//! The real ledger lives outside the engine; the engine only ever reads a
//! balance and asks for a transfer. [`Ledger`] captures exactly that
//! interface over plain identifiers: a set of balance records, one per
//! `(account, asset)` pair, with non-negative amounts and a bounded total
//! supply per asset. The supply bound is what the external ledger
//! guarantees of any asset it tracks, and it is what makes every transfer
//! here provably free of overflow.

use vstd::prelude::*;

use crate::errors::Error;

verus! {

/// One balance record: `account` holds `amount` units of `asset`.
///
/// Amounts are fixed-point integers with seven fractional decimal digits:
/// the recorded integer is the real quantity times `10_000_000`.
#[derive(Clone, Copy, Debug)]
pub struct Entry {
    pub account: u64,
    pub asset: u64,
    pub amount: i128,
}

/// The balance the records `s` give `account` in `asset`: the amount of
/// the first record with that key, or zero when none exists.
pub open spec fn records_balance(s: Seq<Entry>, account: u64, asset: u64) -> int
    decreases s.len(),
{
    if s.len() == 0 {
        0
    } else if s[0].account == account && s[0].asset == asset {
        s[0].amount as int
    } else {
        records_balance(s.drop_first(), account, asset)
    }
}

/// The total supply the records `s` give `asset`: the sum of every amount
/// recorded under that asset.
pub open spec fn records_supply(s: Seq<Entry>, asset: u64) -> int
    decreases s.len(),
{
    if s.len() == 0 {
        0
    } else {
        (if s[0].asset == asset {
            s[0].amount as int
        } else {
            0
        }) + records_supply(s.drop_first(), asset)
    }
}

/// No two records share a key, and no recorded amount is negative.
pub open spec fn records_wf(s: Seq<Entry>) -> bool {
    &&& forall|i: int, j: int|
        0 <= i < j < s.len() ==> !(s[i].account == s[j].account && s[i].asset == s[j].asset)
    &&& forall|i: int| 0 <= i < s.len() ==> s[i].amount >= 0
}

/// Every recorded balance is non-negative.
pub proof fn lemma_balance_nonneg(s: Seq<Entry>, account: u64, asset: u64)
    requires
        forall|i: int| 0 <= i < s.len() ==> s[i].amount >= 0,
    ensures
        records_balance(s, account, asset) >= 0,
    decreases s.len(),
{
    if s.len() == 0 {
    } else if s[0].account == account && s[0].asset == asset {
    } else {
        assert forall|i: int| 0 <= i < s.drop_first().len() implies s.drop_first()[i].amount
            >= 0 by {
            assert(s.drop_first()[i] == s[i + 1]);
        }
        lemma_balance_nonneg(s.drop_first(), account, asset);
    }
}

/// Every asset's supply is non-negative.
pub proof fn lemma_supply_nonneg(s: Seq<Entry>, asset: u64)
    requires
        forall|i: int| 0 <= i < s.len() ==> s[i].amount >= 0,
    ensures
        records_supply(s, asset) >= 0,
    decreases s.len(),
{
    if s.len() == 0 {
    } else {
        assert forall|i: int| 0 <= i < s.drop_first().len() implies s.drop_first()[i].amount
            >= 0 by {
            assert(s.drop_first()[i] == s[i + 1]);
        }
        lemma_supply_nonneg(s.drop_first(), asset);
    }
}

/// A single balance never exceeds the asset's supply.
pub proof fn lemma_balance_le_supply(s: Seq<Entry>, account: u64, asset: u64)
    requires
        forall|i: int| 0 <= i < s.len() ==> s[i].amount >= 0,
    ensures
        records_balance(s, account, asset) <= records_supply(s, asset),
    decreases s.len(),
{
    if s.len() == 0 {
    } else {
        assert forall|i: int| 0 <= i < s.drop_first().len() implies s.drop_first()[i].amount
            >= 0 by {
            assert(s.drop_first()[i] == s[i + 1]);
        }
        if s[0].account == account && s[0].asset == asset {
            lemma_supply_nonneg(s.drop_first(), asset);
        } else {
            lemma_balance_le_supply(s.drop_first(), account, asset);
        }
    }
}

/// Two distinct accounts' balances never exceed the asset's supply together.
pub proof fn lemma_two_balances_le_supply(s: Seq<Entry>, first: u64, second: u64, asset: u64)
    requires
        forall|i: int| 0 <= i < s.len() ==> s[i].amount >= 0,
        first != second,
    ensures
        records_balance(s, first, asset) + records_balance(s, second, asset) <= records_supply(
            s,
            asset,
        ),
    decreases s.len(),
{
    if s.len() == 0 {
    } else {
        assert forall|i: int| 0 <= i < s.drop_first().len() implies s.drop_first()[i].amount
            >= 0 by {
            assert(s.drop_first()[i] == s[i + 1]);
        }
        if s[0].asset == asset && (s[0].account == first || s[0].account == second) {
            let other = if s[0].account == first {
                second
            } else {
                first
            };
            lemma_balance_le_supply(s.drop_first(), other, asset);
        } else {
            lemma_two_balances_le_supply(s.drop_first(), first, second, asset);
        }
    }
}

/// The balance of a key that no record carries is zero.
pub proof fn lemma_balance_absent(s: Seq<Entry>, account: u64, asset: u64)
    requires
        forall|j: int|
            0 <= j < s.len() ==> !((#[trigger] s[j]).account == account && s[j].asset == asset),
    ensures
        records_balance(s, account, asset) == 0,
    decreases s.len(),
{
    if s.len() == 0 {
    } else {
        assert forall|j: int|
            0 <= j < s.drop_first().len() implies !((#[trigger] s.drop_first()[j]).account
            == account && s.drop_first()[j].asset == asset) by {
            assert(s.drop_first()[j] == s[j + 1]);
        }
        lemma_balance_absent(s.drop_first(), account, asset);
    }
}

/// The balance of a key is the amount of its earliest record.
pub proof fn lemma_balance_at_first_match(s: Seq<Entry>, i: int)
    requires
        0 <= i < s.len(),
        forall|j: int|
            0 <= j < i ==> !((#[trigger] s[j]).account == s[i].account && s[j].asset
                == s[i].asset),
    ensures
        records_balance(s, s[i].account, s[i].asset) == s[i].amount as int,
    decreases i,
{
    if i == 0 {
    } else {
        assert forall|j: int|
            0 <= j < i - 1 implies !((#[trigger] s.drop_first()[j]).account == s.drop_first()[i
            - 1].account && s.drop_first()[j].asset == s.drop_first()[i - 1].asset) by {
            assert(s.drop_first()[j] == s[j + 1]);
            assert(s.drop_first()[i - 1] == s[i]);
        }
        lemma_balance_at_first_match(s.drop_first(), i - 1);
        assert(s.drop_first()[i - 1] == s[i]);
    }
}

/// The balance at one key after replacing the record at `i` by one with
/// the same key: the new amount at that key, untouched elsewhere.
proof fn lemma_balance_update_one(s: Seq<Entry>, i: int, e: Entry, a: u64, t: u64)
    requires
        0 <= i < s.len(),
        s[i].account == e.account,
        s[i].asset == e.asset,
        forall|p: int, q: int|
            0 <= p < q < s.len() ==> !(s[p].account == s[q].account && s[p].asset == s[q].asset),
    ensures
        records_balance(s.update(i, e), a, t) == if a == e.account && t == e.asset {
            e.amount as int
        } else {
            records_balance(s, a, t)
        },
    decreases i,
{
    let s2 = s.update(i, e);
    if i == 0 {
        assert(s2.drop_first() =~= s.drop_first());
        assert(s2[0] == e);
    } else {
        assert(s2.drop_first() =~= s.drop_first().update(i - 1, e));
        assert forall|p: int, q: int|
            0 <= p < q < s.drop_first().len() implies !((#[trigger] s.drop_first()[p]).account
            == (#[trigger] s.drop_first()[q]).account && s.drop_first()[p].asset
            == s.drop_first()[q].asset) by {
            assert(s.drop_first()[p] == s[p + 1]);
            assert(s.drop_first()[q] == s[q + 1]);
        }
        assert(s.drop_first()[i - 1] == s[i]);
        lemma_balance_update_one(s.drop_first(), i - 1, e, a, t);
        assert(s2[0] == s[0]);
        if a == e.account && t == e.asset {
            // the head cannot carry the updated key: the record at `i` does
            assert(!(s[0].account == s[i].account && s[0].asset == s[i].asset));
        }
    }
}

/// Replacing the record at `i` by one with the same key moves every
/// balance to the new amount at that key and leaves all others alone.
pub proof fn lemma_balance_update(s: Seq<Entry>, i: int, e: Entry)
    requires
        0 <= i < s.len(),
        s[i].account == e.account,
        s[i].asset == e.asset,
        forall|p: int, q: int|
            0 <= p < q < s.len() ==> !(s[p].account == s[q].account && s[p].asset == s[q].asset),
    ensures
        forall|a: u64, t: u64|
            records_balance(s.update(i, e), a, t) == if a == e.account && t == e.asset {
                e.amount as int
            } else {
                records_balance(s, a, t)
            },
{
    assert forall|a: u64, t: u64|
        records_balance(s.update(i, e), a, t) == (if a == e.account && t == e.asset {
            e.amount as int
        } else {
            records_balance(s, a, t)
        }) by {
        lemma_balance_update_one(s, i, e, a, t);
    }
}

/// The supply of one asset after replacing the record at `i` by one with
/// the same key: shifted by the difference of the amounts, or untouched.
proof fn lemma_supply_update_one(s: Seq<Entry>, i: int, e: Entry, t: u64)
    requires
        0 <= i < s.len(),
        s[i].asset == e.asset,
    ensures
        records_supply(s.update(i, e), t) == records_supply(s, t) + if t == e.asset {
            e.amount - s[i].amount
        } else {
            0
        },
    decreases i,
{
    let s2 = s.update(i, e);
    if i == 0 {
        assert(s2.drop_first() =~= s.drop_first());
        assert(s2[0] == e);
    } else {
        assert(s2.drop_first() =~= s.drop_first().update(i - 1, e));
        assert(s.drop_first()[i - 1] == s[i]);
        lemma_supply_update_one(s.drop_first(), i - 1, e, t);
        assert(s2[0] == s[0]);
    }
    assert(records_supply(s2, t) == (if s2[0].asset == t {
        s2[0].amount as int
    } else {
        0
    }) + records_supply(s2.drop_first(), t));
    assert(records_supply(s, t) == (if s[0].asset == t {
        s[0].amount as int
    } else {
        0
    }) + records_supply(s.drop_first(), t));
}

/// Replacing the record at `i` by one with the same key shifts that
/// asset's supply by the difference of the amounts and no other supply.
pub proof fn lemma_supply_update(s: Seq<Entry>, i: int, e: Entry)
    requires
        0 <= i < s.len(),
        s[i].asset == e.asset,
    ensures
        forall|t: u64|
            records_supply(s.update(i, e), t) == records_supply(s, t) + if t == e.asset {
                e.amount - s[i].amount
            } else {
                0
            },
{
    assert forall|t: u64|
        records_supply(s.update(i, e), t) == records_supply(s, t) + (if t == e.asset {
            e.amount - s[i].amount
        } else {
            0
        }) by {
        lemma_supply_update_one(s, i, e, t);
    }
}

/// The balance at one key after appending a record whose key was absent.
proof fn lemma_balance_push_one(s: Seq<Entry>, e: Entry, a: u64, t: u64)
    requires
        forall|j: int|
            0 <= j < s.len() ==> !((#[trigger] s[j]).account == e.account && s[j].asset
                == e.asset),
    ensures
        records_balance(s.push(e), a, t) == if a == e.account && t == e.asset {
            e.amount as int
        } else {
            records_balance(s, a, t)
        },
    decreases s.len(),
{
    let s2 = s.push(e);
    if s.len() == 0 {
        assert(s2[0] == e);
        assert(s2.drop_first() =~= Seq::<Entry>::empty());
        assert(records_balance(Seq::<Entry>::empty(), a, t) == 0);
    } else {
        assert(s2.drop_first() =~= s.drop_first().push(e));
        assert forall|j: int|
            0 <= j < s.drop_first().len() implies !((#[trigger] s.drop_first()[j]).account
            == e.account && s.drop_first()[j].asset == e.asset) by {
            assert(s.drop_first()[j] == s[j + 1]);
        }
        lemma_balance_push_one(s.drop_first(), e, a, t);
        assert(s2[0] == s[0]);
    }
}

/// Appending a record raises every balance at its key to its amount and
/// leaves all other balances alone, provided the key was absent.
pub proof fn lemma_balance_push(s: Seq<Entry>, e: Entry)
    requires
        forall|j: int|
            0 <= j < s.len() ==> !((#[trigger] s[j]).account == e.account && s[j].asset
                == e.asset),
    ensures
        forall|a: u64, t: u64|
            records_balance(s.push(e), a, t) == if a == e.account && t == e.asset {
                e.amount as int
            } else {
                records_balance(s, a, t)
            },
{
    assert forall|a: u64, t: u64|
        records_balance(s.push(e), a, t) == (if a == e.account && t == e.asset {
            e.amount as int
        } else {
            records_balance(s, a, t)
        }) by {
        lemma_balance_push_one(s, e, a, t);
    }
}

/// The supply of one asset after appending a record.
proof fn lemma_supply_push_one(s: Seq<Entry>, e: Entry, t: u64)
    ensures
        records_supply(s.push(e), t) == records_supply(s, t) + if t == e.asset {
            e.amount as int
        } else {
            0
        },
    decreases s.len(),
{
    let s2 = s.push(e);
    if s.len() == 0 {
        assert(s2[0] == e);
        assert(s2.drop_first() =~= Seq::<Entry>::empty());
        assert(records_supply(Seq::<Entry>::empty(), t) == 0);
        assert(records_supply(s2, t) == (if s2[0].asset == t {
            s2[0].amount as int
        } else {
            0
        }) + records_supply(s2.drop_first(), t));
    } else {
        assert(s2.drop_first() =~= s.drop_first().push(e));
        lemma_supply_push_one(s.drop_first(), e, t);
        assert(s2[0] == s[0]);
        assert(records_supply(s2, t) == (if s2[0].asset == t {
            s2[0].amount as int
        } else {
            0
        }) + records_supply(s2.drop_first(), t));
        assert(records_supply(s, t) == (if s[0].asset == t {
            s[0].amount as int
        } else {
            0
        }) + records_supply(s.drop_first(), t));
    }
}

/// Appending a record adds its amount to its asset's supply and no other.
pub proof fn lemma_supply_push(s: Seq<Entry>, e: Entry)
    ensures
        forall|t: u64|
            records_supply(s.push(e), t) == records_supply(s, t) + if t == e.asset {
                e.amount as int
            } else {
                0
            },
{
    assert forall|t: u64|
        records_supply(s.push(e), t) == records_supply(s, t) + (if t == e.asset {
            e.amount as int
        } else {
            0
        }) by {
        lemma_supply_push_one(s, e, t);
    }
}

/// The net movement a single transfer causes at one key: `amount` into
/// `(to, asset)`, `amount` out of `(from, asset)`, nothing anywhere else.
/// When `from == to` the two cancel and every balance keeps its value.
pub open spec fn transfer_delta(
    from: u64,
    to: u64,
    asset: u64,
    amount: int,
    account: u64,
    token: u64,
) -> int {
    (if account == to && token == asset {
        amount
    } else {
        0
    }) - (if account == from && token == asset {
        amount
    } else {
        0
    })
}

/// A ledger of asset balances, one record per `(account, asset)` pair.
///
/// Its well-formedness carries what the external ledger guarantees of the
/// assets it tracks: balances are never negative and an asset's total
/// supply fits the amount type, so moving funds between two accounts can
/// never overflow a balance.
pub struct Ledger {
    pub entries: Vec<Entry>,
}

impl Ledger {
    /// The balance `account` holds in `asset`.
    pub open spec fn balance_of(self, account: u64, asset: u64) -> int {
        records_balance(self.entries@, account, asset)
    }

    /// The total amount of `asset` recorded over all accounts.
    pub open spec fn supply(self, asset: u64) -> int {
        records_supply(self.entries@, asset)
    }

    /// Unique keys, non-negative balances, and every supply within `i128`.
    pub open spec fn wf(self) -> bool {
        &&& records_wf(self.entries@)
        &&& forall|t: u64| records_supply(self.entries@, t) <= i128::MAX
    }

    /// An empty ledger: every balance and every supply is zero.
    pub fn new() -> (r: Ledger)
        ensures
            r.wf(),
            forall|a: u64, t: u64| r.balance_of(a, t) == 0,
            forall|t: u64| r.supply(t) == 0,
    {
        Ledger { entries: Vec::new() }
    }

    /// The position of the record for `(account, asset)`, if one exists.
    fn find_index(&self, account: u64, asset: u64) -> (r: Option<usize>)
        ensures
            match r {
                Some(i) => i < self.entries@.len() && self.entries@[i as int].account == account
                    && self.entries@[i as int].asset == asset && forall|j: int|
                    0 <= j < i ==> !((#[trigger] self.entries@[j]).account == account
                        && self.entries@[j].asset == asset),
                None => forall|j: int|
                    0 <= j < self.entries@.len() ==> !((#[trigger] self.entries@[j]).account
                        == account && self.entries@[j].asset == asset),
            },
    {
        let n = self.entries.len();
        let mut k: usize = 0;
        while k < n
            invariant
                n == self.entries@.len(),
                k <= n,
                forall|j: int|
                    0 <= j < k ==> !((#[trigger] self.entries@[j]).account == account
                        && self.entries@[j].asset == asset),
            decreases n - k,
        {
            let e = self.entries[k];
            if e.account == account && e.asset == asset {
                return Some(k);
            }
            k += 1;
        }
        None
    }

    /// The balance `account` holds in `asset`, as the ledger reports it.
    pub fn balance(&self, account: u64, asset: u64) -> (r: i128)
        ensures
            r as int == self.balance_of(account, asset),
    {
        match self.find_index(account, asset) {
            Some(i) => {
                proof {
                    lemma_balance_at_first_match(self.entries@, i as int);
                }
                self.entries[i].amount
            },
            None => {
                proof {
                    lemma_balance_absent(self.entries@, account, asset);
                }
                0
            },
        }
    }

    /// The total supply of `asset` over all accounts.
    pub fn supply_of(&self, asset: u64) -> (r: i128)
        requires
            self.wf(),
        ensures
            r as int == self.supply(asset),
    {
        let s = Ghost(self.entries@);
        let n = self.entries.len();
        let mut acc: i128 = 0;
        let mut k: usize = 0;
        proof {
            assert(s@.skip(0) =~= s@);
        }
        while k < n
            invariant
                self.wf(),
                s@ == self.entries@,
                n == s@.len(),
                k <= n,
                acc >= 0,
                acc as int + records_supply(s@.skip(k as int), asset) == records_supply(
                    s@,
                    asset,
                ),
            decreases n - k,
        {
            proof {
                let tail = s@.skip(k as int);
                assert(tail[0] == s@[k as int]);
                assert(tail.drop_first() =~= s@.skip(k as int + 1));
                assert forall|j: int| 0 <= j < tail.len() implies (#[trigger] tail[j]).amount
                    >= 0 by {
                    assert(tail[j] == s@[k + j]);
                }
                lemma_supply_nonneg(tail.drop_first(), asset);
                assert(records_supply(tail, asset) == (if tail[0].asset == asset {
                    tail[0].amount as int
                } else {
                    0
                }) + records_supply(tail.drop_first(), asset));
            }
            let e = self.entries[k];
            if e.asset == asset {
                acc = acc + e.amount;
            }
            k += 1;
        }
        proof {
            assert(s@.skip(n as int) =~= Seq::<Entry>::empty());
            assert(records_supply(Seq::<Entry>::empty(), asset) == 0);
        }
        acc
    }

    /// Set the record for `(account, asset)` to `value`, creating it if
    /// none exists. The supply bound of the new state is the caller's to
    /// establish, as the precondition states it.
    fn set_balance(&mut self, account: u64, asset: u64, value: i128)
        requires
            old(self).wf(),
            value >= 0,
            old(self).supply(asset) + value - old(self).balance_of(account, asset) <= i128::MAX,
        ensures
            final(self).wf(),
            forall|a: u64, t: u64|
                final(self).balance_of(a, t) == if a == account && t == asset {
                    value as int
                } else {
                    old(self).balance_of(a, t)
                },
            forall|t: u64|
                final(self).supply(t) == old(self).supply(t) + if t == asset {
                    value - old(self).balance_of(account, asset)
                } else {
                    0
                },
    {
        let e = Entry { account, asset, amount: value };
        match self.find_index(account, asset) {
            Some(i) => {
                proof {
                    lemma_balance_at_first_match(self.entries@, i as int);
                    lemma_balance_update(self.entries@, i as int, e);
                    lemma_supply_update(self.entries@, i as int, e);
                }
                self.entries.remove(i);
                self.entries.insert(i, e);
                proof {
                    assert(self.entries@ =~= old(self).entries@.update(i as int, e));
                    assert forall|p: int, q: int|
                        0 <= p < q < self.entries@.len() implies !((#[trigger] self.entries@[p]).account
                        == (#[trigger] self.entries@[q]).account && self.entries@[p].asset
                        == self.entries@[q].asset) by {
                        assert(self.entries@[p] == if p == i as int {
                            e
                        } else {
                            old(self).entries@[p]
                        });
                        assert(self.entries@[q] == if q == i as int {
                            e
                        } else {
                            old(self).entries@[q]
                        });
                    }
                }
            },
            None => {
                proof {
                    lemma_balance_absent(self.entries@, account, asset);
                    lemma_balance_push(self.entries@, e);
                    lemma_supply_push(self.entries@, e);
                }
                self.entries.push(e);
                proof {
                    assert forall|p: int, q: int|
                        0 <= p < q < self.entries@.len() implies !((#[trigger] self.entries@[p]).account
                        == (#[trigger] self.entries@[q]).account && self.entries@[p].asset
                        == self.entries@[q].asset) by {
                        assert(self.entries@[p] == if p == old(self).entries@.len() as int {
                            e
                        } else {
                            old(self).entries@[p]
                        });
                        assert(self.entries@[q] == if q == old(self).entries@.len() as int {
                            e
                        } else {
                            old(self).entries@[q]
                        });
                    }
                }
            },
        }
    }

    /// Move `amount` of `asset` from `from` to `to`, the two checks the
    /// external ledger itself makes having already passed.
    pub(crate) fn apply_transfer(&mut self, from: u64, to: u64, asset: u64, amount: i128)
        requires
            old(self).wf(),
            amount >= 0,
            old(self).balance_of(from, asset) >= amount,
        ensures
            final(self).wf(),
            forall|a: u64, t: u64|
                final(self).balance_of(a, t) == old(self).balance_of(a, t) + transfer_delta(
                    from,
                    to,
                    asset,
                    amount as int,
                    a,
                    t,
                ),
            forall|t: u64| final(self).supply(t) == old(self).supply(t),
    {
        if from == to {
            return ;
        }
        let from_balance = self.balance(from, asset);
        let to_balance = self.balance(to, asset);
        proof {
            lemma_balance_nonneg(self.entries@, to, asset);
            lemma_two_balances_le_supply(self.entries@, from, to, asset);
        }
        self.set_balance(from, asset, from_balance - amount);
        self.set_balance(to, asset, to_balance + amount);
    }

    /// Move `amount` of `asset` from `from` to `to`: the transfer
    /// primitive of the external ledger. It refuses a negative amount and
    /// a balance below the amount; either refusal changes nothing.
    pub fn transfer(&mut self, from: u64, to: u64, asset: u64, amount: i128) -> (r: Result<
        (),
        Error,
    >)
        requires
            old(self).wf(),
        ensures
            final(self).wf(),
            forall|t: u64| final(self).supply(t) == old(self).supply(t),
            r is Ok <==> amount >= 0 && old(self).balance_of(from, asset) >= amount,
            r is Err ==> r == Err::<(), Error>(Error::TransferError) && forall|a: u64, t: u64|
                final(self).balance_of(a, t) == old(self).balance_of(a, t),
            r is Ok ==> forall|a: u64, t: u64|
                final(self).balance_of(a, t) == old(self).balance_of(a, t) + transfer_delta(
                    from,
                    to,
                    asset,
                    amount as int,
                    a,
                    t,
                ),
    {
        if amount < 0 {
            return Err(Error::TransferError);
        }
        let from_balance = self.balance(from, asset);
        if from_balance < amount {
            return Err(Error::TransferError);
        }
        self.apply_transfer(from, to, asset, amount);
        Ok(())
    }

    /// Record `amount` new units of `asset` under `account`: how balances
    /// enter the model in the first place. It refuses a negative amount
    /// and a supply that would no longer fit the amount type.
    pub fn mint(&mut self, account: u64, asset: u64, amount: i128) -> (r: Result<(), Error>)
        requires
            old(self).wf(),
        ensures
            final(self).wf(),
            r is Ok <==> amount >= 0 && old(self).supply(asset) + amount <= i128::MAX,
            r is Err ==> r == Err::<(), Error>(Error::TransferError) && forall|a: u64, t: u64|
                final(self).balance_of(a, t) == old(self).balance_of(a, t),
            r is Err ==> forall|t: u64| final(self).supply(t) == old(self).supply(t),
            r is Ok ==> forall|a: u64, t: u64|
                final(self).balance_of(a, t) == old(self).balance_of(a, t) + if a == account
                    && t == asset {
                    amount as int
                } else {
                    0
                },
            r is Ok ==> forall|t: u64|
                final(self).supply(t) == old(self).supply(t) + if t == asset {
                    amount as int
                } else {
                    0
                },
    {
        if amount < 0 {
            return Err(Error::TransferError);
        }
        let current_supply = self.supply_of(asset);
        if current_supply > i128::MAX - amount {
            return Err(Error::TransferError);
        }
        let current = self.balance(account, asset);
        proof {
            lemma_balance_nonneg(self.entries@, account, asset);
            lemma_balance_le_supply(self.entries@, account, asset);
        }
        self.set_balance(account, asset, current + amount);
        Ok(())
    }
}

} // verus!
