//! The local multi-currency ledger collaborator and its key space.
//!
//! The ledger owns balance state for currencies named by [`CurrencyId`]
//! and exposes the five primitives the adaptor forwards to. Internally the
//! books are keyed by a compact integer code per currency; the code
//! assignment is injective, so the contracts can speak of currencies and
//! accounts directly.

use std::collections::HashMap;

use vstd::prelude::*;

use crate::errors::LedgerError;

verus! {

broadcast use vstd::std_specs::hash::group_hash_axioms;

/// The currency key the local ledger understands: a plain token named by
/// an 8-bit symbol, or a liquidity-pool share over two such symbols.
#[derive(Clone, Copy, PartialEq, Eq, Structural, PartialOrd, Ord, Hash, Debug)]
pub enum CurrencyId {
    /// A plain token, named by its 8-bit symbol.
    Token(u8),
    /// A liquidity-pool share over two token symbols.
    ZenlinkLp(u8, u8),
}

/// The compact integer code a currency's books are filed under. Token
/// codes occupy `0..256`; pool-share codes occupy `0x1_0000..0x2_0000`,
/// so the assignment is injective.
pub open spec fn currency_code_spec(c: CurrencyId) -> u32 {
    match c {
        CurrencyId::Token(t) => t as u32,
        CurrencyId::ZenlinkLp(t0, t1) => 0x1_0000u32 | ((t0 as u32) << 8) | (t1 as u32),
    }
}

/// Two distinct currencies are always filed under distinct codes.
pub proof fn lemma_currency_code_injective(c1: CurrencyId, c2: CurrencyId)
    ensures
        currency_code_spec(c1) == currency_code_spec(c2) ==> c1 == c2,
{
    match (c1, c2) {
        (CurrencyId::Token(a), CurrencyId::Token(b)) => {
        },
        (CurrencyId::Token(a), CurrencyId::ZenlinkLp(x, y)) => {
            assert((a as u32) != (0x1_0000u32 | ((x as u32) << 8) | (y as u32))) by (bit_vector);
        },
        (CurrencyId::ZenlinkLp(x, y), CurrencyId::Token(a)) => {
            assert((a as u32) != (0x1_0000u32 | ((x as u32) << 8) | (y as u32))) by (bit_vector);
        },
        (CurrencyId::ZenlinkLp(x1, y1), CurrencyId::ZenlinkLp(x2, y2)) => {
            assert((0x1_0000u32 | ((x1 as u32) << 8) | (y1 as u32)) == (0x1_0000u32 | ((
            x2 as u32) << 8) | (y2 as u32)) ==> x1 == x2 && y1 == y2) by (bit_vector);
        },
    }
}

fn currency_code(c: CurrencyId) -> (r: u32)
    ensures
        r == currency_code_spec(c),
{
    match c {
        CurrencyId::Token(t) => t as u32,
        CurrencyId::ZenlinkLp(t0, t1) => 0x1_0000u32 | ((t0 as u32) << 8) | (t1 as u32),
    }
}

/// The local multi-currency ledger: per-currency account books and
/// per-currency issuance totals.
pub struct LocalLedger {
    balances: HashMap<u32, HashMap<u128, u128>>,
    issuance: HashMap<u32, u128>,
}

impl LocalLedger {
    /// The free balance the ledger records for `who` under currency `c`;
    /// an account without an entry holds zero.
    pub closed spec fn balance_spec(self, c: CurrencyId, who: u128) -> u128 {
        let code = currency_code_spec(c);
        if self.balances@.contains_key(code) {
            let book = self.balances@[code];
            if book@.contains_key(who) {
                book@[who]
            } else {
                0
            }
        } else {
            0
        }
    }

    /// The total issuance the ledger records for currency `c`; a currency
    /// never deposited into has zero issuance.
    pub closed spec fn issuance_spec(self, c: CurrencyId) -> u128 {
        let code = currency_code_spec(c);
        if self.issuance@.contains_key(code) {
            self.issuance@[code]
        } else {
            0
        }
    }

    /// An empty ledger: every balance and every issuance total is zero.
    pub fn new() -> (r: LocalLedger)
        ensures
            forall|c: CurrencyId, w: u128| #[trigger] r.balance_spec(c, w) == 0,
            forall|c: CurrencyId| #[trigger] r.issuance_spec(c) == 0,
    {
        LocalLedger { balances: HashMap::new(), issuance: HashMap::new() }
    }

    /// The free balance of `who` under currency `c`.
    pub fn free_balance(&self, c: CurrencyId, who: &u128) -> (r: u128)
        ensures
            r == self.balance_spec(c, *who),
    {
        let code: u32 = currency_code(c);
        match self.balances.get(&code) {
            Some(book) => match book.get(who) {
                Some(v) => *v,
                None => 0,
            },
            None => 0,
        }
    }

    /// The total issuance of currency `c`.
    pub fn total_issuance(&self, c: CurrencyId) -> (r: u128)
        ensures
            r == self.issuance_spec(c),
    {
        let code: u32 = currency_code(c);
        match self.issuance.get(&code) {
            Some(v) => *v,
            None => 0,
        }
    }

    /// Credits `amount` of currency `c` to `who`, growing the currency's
    /// issuance by the same amount.
    ///
    /// Succeeds exactly when neither the issuance total nor the account's
    /// balance would overflow; on failure the ledger is unchanged and the
    /// error is [`LedgerError::Overflow`].
    pub fn deposit(&mut self, c: CurrencyId, who: &u128, amount: u128) -> (r: Result<
        (),
        LedgerError,
    >)
        ensures
            r is Ok <==> old(self).issuance_spec(c) + amount <= u128::MAX && old(self).balance_spec(
                c,
                *who,
            ) + amount <= u128::MAX,
            r is Err ==> r == Err::<(), LedgerError>(LedgerError::Overflow),
            r is Ok ==> final(self).balance_spec(c, *who) == old(self).balance_spec(c, *who)
                + amount && final(self).issuance_spec(c) == old(self).issuance_spec(c) + amount,
            r is Err ==> final(self).balance_spec(c, *who) == old(self).balance_spec(c, *who)
                && final(self).issuance_spec(c) == old(self).issuance_spec(c),
            forall|c2: CurrencyId, w2: u128|
                c2 != c || w2 != *who ==> #[trigger] final(self).balance_spec(c2, w2) == old(
                    self,
                ).balance_spec(c2, w2),
            forall|c2: CurrencyId|
                c2 != c ==> #[trigger] final(self).issuance_spec(c2) == old(self).issuance_spec(c2),
    {
        let code: u32 = currency_code(c);
        let iss: u128 = match self.issuance.get(&code) {
            Some(v) => *v,
            None => 0,
        };
        let bal: u128 = match self.balances.get(&code) {
            Some(book) => match book.get(who) {
                Some(v) => *v,
                None => 0,
            },
            None => 0,
        };
        if amount > u128::MAX - iss {
            return Err(LedgerError::Overflow);
        }
        if amount > u128::MAX - bal {
            return Err(LedgerError::Overflow);
        }
        let mut book: HashMap<u128, u128> = match self.balances.remove(&code) {
            Some(b) => b,
            None => HashMap::new(),
        };
        book.insert(*who, bal + amount);
        self.balances.insert(code, book);
        self.issuance.insert(code, iss + amount);
        proof {
            assert forall|c2: CurrencyId, w2: u128| c2 != c || w2 != *who implies #[trigger] self.balance_spec(c2, w2) == old(self).balance_spec(c2, w2) by {
                lemma_currency_code_injective(c2, c);
            }
            assert forall|c2: CurrencyId| c2 != c implies #[trigger] self.issuance_spec(c2) == old(self).issuance_spec(c2) by {
                lemma_currency_code_injective(c2, c);
            }
        }
        Ok(())
    }

    /// Debits `amount` of currency `c` from `who`, shrinking the
    /// currency's issuance by the same amount.
    ///
    /// Succeeds exactly when both the account's balance and the currency's
    /// issuance cover the amount; on failure the ledger is unchanged and
    /// the error is [`LedgerError::InsufficientBalance`].
    pub fn withdraw(&mut self, c: CurrencyId, who: &u128, amount: u128) -> (r: Result<
        (),
        LedgerError,
    >)
        ensures
            r is Ok <==> old(self).balance_spec(c, *who) >= amount && old(self).issuance_spec(c)
                >= amount,
            r is Err ==> r == Err::<(), LedgerError>(LedgerError::InsufficientBalance),
            r is Ok ==> final(self).balance_spec(c, *who) == old(self).balance_spec(c, *who)
                - amount && final(self).issuance_spec(c) == old(self).issuance_spec(c) - amount,
            r is Err ==> final(self).balance_spec(c, *who) == old(self).balance_spec(c, *who)
                && final(self).issuance_spec(c) == old(self).issuance_spec(c),
            forall|c2: CurrencyId, w2: u128|
                c2 != c || w2 != *who ==> #[trigger] final(self).balance_spec(c2, w2) == old(
                    self,
                ).balance_spec(c2, w2),
            forall|c2: CurrencyId|
                c2 != c ==> #[trigger] final(self).issuance_spec(c2) == old(self).issuance_spec(c2),
    {
        let code: u32 = currency_code(c);
        let iss: u128 = match self.issuance.get(&code) {
            Some(v) => *v,
            None => 0,
        };
        let bal: u128 = match self.balances.get(&code) {
            Some(book) => match book.get(who) {
                Some(v) => *v,
                None => 0,
            },
            None => 0,
        };
        if bal < amount || iss < amount {
            return Err(LedgerError::InsufficientBalance);
        }
        let mut book: HashMap<u128, u128> = match self.balances.remove(&code) {
            Some(b) => b,
            None => HashMap::new(),
        };
        book.insert(*who, bal - amount);
        self.balances.insert(code, book);
        self.issuance.insert(code, iss - amount);
        proof {
            assert forall|c2: CurrencyId, w2: u128| c2 != c || w2 != *who implies #[trigger] self.balance_spec(c2, w2) == old(self).balance_spec(c2, w2) by {
                lemma_currency_code_injective(c2, c);
            }
            assert forall|c2: CurrencyId| c2 != c implies #[trigger] self.issuance_spec(c2) == old(self).issuance_spec(c2) by {
                lemma_currency_code_injective(c2, c);
            }
        }
        Ok(())
    }

    /// Moves `amount` of currency `c` from `origin` to `target`, leaving
    /// the currency's issuance unchanged.
    ///
    /// Succeeds exactly when `origin` can cover the amount and, for
    /// distinct accounts, `target`'s balance does not overflow. A transfer
    /// to oneself is a successful no-op. On failure the ledger is
    /// unchanged; the error tells an uncovered debit from an overflowing
    /// credit apart.
    pub fn transfer(&mut self, c: CurrencyId, origin: &u128, target: &u128, amount: u128) -> (r:
        Result<(), LedgerError>)
        ensures
            r is Ok <==> old(self).balance_spec(c, *origin) >= amount && (*origin == *target || old(
                self,
            ).balance_spec(c, *target) + amount <= u128::MAX),
            old(self).balance_spec(c, *origin) < amount ==> r == Err::<(), LedgerError>(
                LedgerError::InsufficientBalance,
            ),
            old(self).balance_spec(c, *origin) >= amount && *origin != *target && old(
                self,
            ).balance_spec(c, *target) + amount > u128::MAX ==> r == Err::<(), LedgerError>(
                LedgerError::Overflow,
            ),
            r is Ok && *origin != *target ==> final(self).balance_spec(c, *origin) == old(
                self,
            ).balance_spec(c, *origin) - amount && final(self).balance_spec(c, *target) == old(
                self,
            ).balance_spec(c, *target) + amount,
            r is Ok && *origin == *target ==> final(self).balance_spec(c, *origin) == old(
                self,
            ).balance_spec(c, *origin),
            r is Err ==> final(self).balance_spec(c, *origin) == old(self).balance_spec(c, *origin)
                && final(self).balance_spec(c, *target) == old(self).balance_spec(c, *target),
            forall|c2: CurrencyId, w2: u128|
                c2 != c || (w2 != *origin && w2 != *target) ==> #[trigger] final(self).balance_spec(
                    c2,
                    w2,
                ) == old(self).balance_spec(c2, w2),
            forall|c2: CurrencyId| #[trigger]
                final(self).issuance_spec(c2) == old(self).issuance_spec(c2),
    {
        let code: u32 = currency_code(c);
        let bal_from: u128 = match self.balances.get(&code) {
            Some(book) => match book.get(origin) {
                Some(v) => *v,
                None => 0,
            },
            None => 0,
        };
        if bal_from < amount {
            return Err(LedgerError::InsufficientBalance);
        }
        if *origin == *target {
            return Ok(());
        }
        let bal_to: u128 = match self.balances.get(&code) {
            Some(book) => match book.get(target) {
                Some(v) => *v,
                None => 0,
            },
            None => 0,
        };
        if amount > u128::MAX - bal_to {
            return Err(LedgerError::Overflow);
        }
        let mut book: HashMap<u128, u128> = match self.balances.remove(&code) {
            Some(b) => b,
            None => HashMap::new(),
        };
        book.insert(*origin, bal_from - amount);
        book.insert(*target, bal_to + amount);
        self.balances.insert(code, book);
        proof {
            assert forall|c2: CurrencyId, w2: u128|
                c2 != c || (w2 != *origin && w2 != *target) implies #[trigger] self.balance_spec(c2, w2) == old(self).balance_spec(c2, w2) by {
                lemma_currency_code_injective(c2, c);
            }
            assert forall|c2: CurrencyId| #[trigger]
                self.issuance_spec(c2) == old(self).issuance_spec(c2) by {
                lemma_currency_code_injective(c2, c);
            }
        }
        Ok(())
    }
}

/// An account filter consulted by ledger configurations when a balance
/// falls to dust; this one exempts every account from dust removal.
pub struct DustRemovalWhitelist;

impl DustRemovalWhitelist {
    /// Every account is on the list.
    pub fn contains(_a: &u128) -> (r: bool)
        ensures
            r,
    {
        true
    }
}

/// A second all-admitting account filter, kept for configurations that
/// name their whitelist explicitly as a mock.
pub struct MockDustRemovalWhitelist;

impl MockDustRemovalWhitelist {
    /// Every account is on the list.
    pub fn contains(_a: &u128) -> (r: bool)
        ensures
            r,
    {
        true
    }
}

} // verus!
