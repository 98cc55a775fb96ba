//! The vault ledger: the pooled custody balances.
//!
//! The vault holds native value directly and, per token type, a sub-account
//! balance. Every deposit credits it; only the transfer authorization engine
//! debits it. Each mint appears at most once in the token ledger.

use vstd::prelude::*;
use crate::address::Address;
use crate::address::bytes32_eq;

verus! {

/// One token sub-account: a mint and the amount the vault holds of it.
#[derive(Clone, Copy, Debug, PartialEq, Eq)]
pub struct TokenBalance {
    /// The token's mint.
    pub mint: Address,
    /// The amount held.
    pub amount: u64,
}

/// The vault's balances: native value and one entry per token type.
#[derive(Debug)]
pub struct Vault {
    /// The native balance.
    pub native_balance: u64,
    /// The per-token balances, one entry per mint.
    pub token_balances: Vec<TokenBalance>,
}

/// Each mint appears at most once.
pub open spec fn unique_mints(s: Seq<TokenBalance>) -> bool {
    forall|i: int, j: int| 0 <= i < j < s.len() ==> s[i].mint@ != s[j].mint@
}

/// The balance recorded for a mint: the first matching entry's amount, zero
/// when none matches.
pub open spec fn token_balance_of(s: Seq<TokenBalance>, mint: Seq<u8>) -> int
    decreases s.len(),
{
    if s.len() == 0 {
        0
    } else if s[0].mint@ == mint {
        s[0].amount as int
    } else {
        token_balance_of(s.drop_first(), mint)
    }
}

/// When no entry carries the mint, its balance is zero.
proof fn lemma_balance_absent(s: Seq<TokenBalance>, mint: Seq<u8>)
    requires
        forall|i: int| 0 <= i < s.len() ==> s[i].mint@ != mint,
    ensures
        token_balance_of(s, mint) == 0,
    decreases s.len(),
{
    if s.len() > 0 {
        lemma_balance_absent(s.drop_first(), mint);
    }
}

/// With unique mints, the entry at an index is the balance of its mint.
proof fn lemma_balance_at_index(s: Seq<TokenBalance>, i: int)
    requires
        unique_mints(s),
        0 <= i < s.len(),
    ensures
        token_balance_of(s, s[i].mint@) == s[i].amount as int,
    decreases i,
{
    if i == 0 {
    } else {
        assert(s.drop_first()[i - 1] == s[i]);
        lemma_balance_at_index(s.drop_first(), i - 1);
    }
}

/// Replacing the entry at an index changes only that entry's mint balance.
proof fn lemma_balance_update(s: Seq<TokenBalance>, i: int, nb: TokenBalance, mint: Seq<u8>)
    requires
        0 <= i < s.len(),
        s[i].mint@ == nb.mint@,
        mint != nb.mint@,
    ensures
        token_balance_of(s.update(i, nb), mint) == token_balance_of(s, mint),
    decreases i,
{
    if i == 0 {
        assert(s.update(i, nb).drop_first() =~= s.drop_first());
    } else {
        assert(s.update(i, nb).drop_first() =~= s.drop_first().update(i - 1, nb));
        lemma_balance_update(s.drop_first(), i - 1, nb, mint);
    }
}

/// Appending an entry for a fresh mint changes only that mint's balance.
proof fn lemma_balance_push(s: Seq<TokenBalance>, nb: TokenBalance, mint: Seq<u8>)
    requires
        mint != nb.mint@,
    ensures
        token_balance_of(s.push(nb), mint) == token_balance_of(s, mint),
    decreases s.len(),
{
    if s.len() == 0 {
        assert(s.push(nb)[0] == nb);
        assert(s.push(nb).drop_first() =~= Seq::<TokenBalance>::empty());
        assert(token_balance_of(s.push(nb).drop_first(), mint) == 0);
    } else {
        assert(s.push(nb).drop_first() =~= s.drop_first().push(nb));
        lemma_balance_push(s.drop_first(), nb, mint);
    }
}

/// The appended entry's own balance is its amount, when its mint was absent.
proof fn lemma_balance_push_own(s: Seq<TokenBalance>, nb: TokenBalance)
    requires
        forall|i: int| 0 <= i < s.len() ==> s[i].mint@ != nb.mint@,
    ensures
        token_balance_of(s.push(nb), nb.mint@) == nb.amount as int,
    decreases s.len(),
{
    if s.len() == 0 {
    } else {
        assert(s.push(nb).drop_first() =~= s.drop_first().push(nb));
        lemma_balance_push_own(s.drop_first(), nb);
    }
}

impl Vault {
    /// A well-formed ledger records each mint at most once.
    pub open spec fn wf(self) -> bool {
        unique_mints(self.token_balances@)
    }

    /// The recorded balance of a mint.
    pub open spec fn spec_token_balance(self, mint: Seq<u8>) -> int {
        token_balance_of(self.token_balances@, mint)
    }

    /// An empty ledger.
    pub fn new() -> (v: Vault)
        ensures
            v.wf(),
            v.native_balance == 0,
            v.token_balances@.len() == 0,
            forall|m: Seq<u8>| v.spec_token_balance(m) == 0,
    {
        let v = Vault { native_balance: 0, token_balances: Vec::new() };
        proof {
            assert forall|m: Seq<u8>| v.spec_token_balance(m) == 0 by {
                lemma_balance_absent(v.token_balances@, m);
            }
        }
        v
    }

    /// Looks up the index of a mint's entry.
    fn find_mint(&self, mint: &Address) -> (r: Option<usize>)
        ensures
            match r {
                Some(i) => i < self.token_balances@.len() && self.token_balances@[i as int].mint@
                    == mint@,
                None => forall|j: int|
                    0 <= j < self.token_balances@.len() ==> self.token_balances@[j].mint@ != mint@,
            },
    {
        let n = self.token_balances.len();
        let mut i: usize = 0;
        while i < n
            invariant
                i <= n == self.token_balances@.len(),
                forall|j: int| 0 <= j < i ==> self.token_balances@[j].mint@ != mint@,
            decreases n - i,
        {
            if bytes32_eq(&self.token_balances[i].mint.bytes, &mint.bytes) {
                return Some(i);
            }
            i += 1;
        }
        None
    }

    /// Reads the recorded balance of a mint.
    pub fn token_balance(&self, mint: &Address) -> (r: u64)
        requires
            self.wf(),
        ensures
            r as int == self.spec_token_balance(mint@),
    {
        match self.find_mint(mint) {
            Some(i) => {
                proof {
                    lemma_balance_at_index(self.token_balances@, i as int);
                }
                self.token_balances[i].amount
            },
            None => {
                proof {
                    lemma_balance_absent(self.token_balances@, mint@);
                }
                0
            },
        }
    }

    /// Credits a mint's balance, creating its entry on first use.
    pub fn credit_token(&mut self, mint: &Address, amount: u64)
        requires
            old(self).wf(),
            old(self).spec_token_balance(mint@) + amount <= u64::MAX,
        ensures
            final(self).wf(),
            final(self).native_balance == old(self).native_balance,
            final(self).spec_token_balance(mint@) == old(self).spec_token_balance(mint@) + amount,
            forall|m: Seq<u8>|
                m != mint@ ==> final(self).spec_token_balance(m) == old(self).spec_token_balance(
                    m,
                ),
    {
        match self.find_mint(mint) {
            Some(i) => {
                proof {
                    lemma_balance_at_index(self.token_balances@, i as int);
                }
                let entry = TokenBalance { mint: *mint, amount: self.token_balances[i].amount
                    + amount };
                proof {
                    let s = self.token_balances@;
                    assert forall|m: Seq<u8>|
                        m != mint@ implies token_balance_of(s.update(i as int, entry), m)
                        == token_balance_of(s, m) by {
                        lemma_balance_update(s, i as int, entry, m);
                    }
                    lemma_balance_at_index(s.update(i as int, entry), i as int);
                }
                self.token_balances.set(i, entry);
            },
            None => {
                proof {
                    lemma_balance_absent(self.token_balances@, mint@);
                }
                let entry = TokenBalance { mint: *mint, amount };
                proof {
                    let s = self.token_balances@;
                    assert forall|m: Seq<u8>|
                        m != mint@ implies token_balance_of(s.push(entry), m) == token_balance_of(
                        s,
                        m,
                    ) by {
                        lemma_balance_push(s, entry, m);
                    }
                    lemma_balance_push_own(s, entry);
                }
                self.token_balances.push(entry);
            },
        }
    }

    /// Debits a mint's balance.
    pub fn debit_token(&mut self, mint: &Address, amount: u64)
        requires
            old(self).wf(),
            amount <= old(self).spec_token_balance(mint@),
        ensures
            final(self).wf(),
            final(self).native_balance == old(self).native_balance,
            final(self).spec_token_balance(mint@) == old(self).spec_token_balance(mint@) - amount,
            forall|m: Seq<u8>|
                m != mint@ ==> final(self).spec_token_balance(m) == old(self).spec_token_balance(
                    m,
                ),
    {
        match self.find_mint(mint) {
            Some(i) => {
                proof {
                    lemma_balance_at_index(self.token_balances@, i as int);
                }
                let entry = TokenBalance { mint: *mint, amount: self.token_balances[i].amount
                    - amount };
                proof {
                    let s = self.token_balances@;
                    assert forall|m: Seq<u8>|
                        m != mint@ implies token_balance_of(s.update(i as int, entry), m)
                        == token_balance_of(s, m) by {
                        lemma_balance_update(s, i as int, entry, m);
                    }
                    lemma_balance_at_index(s.update(i as int, entry), i as int);
                }
                self.token_balances.set(i, entry);
            },
            None => {
                proof {
                    lemma_balance_absent(self.token_balances@, mint@);
                }
            },
        }
    }
}

} // verus!
