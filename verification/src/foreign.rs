//! The foreign-ledger collaborator: balances of assets bridged in from
//! remote chains, keyed by the issuing chain's id and the asset's index
//! there.

use std::collections::HashMap;

use vstd::prelude::*;

use crate::errors::LedgerError;

verus! {

broadcast use vstd::std_specs::hash::group_hash_axioms;

/// The integer code a remote asset's books are filed under: the issuing
/// chain's id in the high 64 bits, the asset's index there in the low 64
/// bits, so the assignment is injective.
pub open spec fn remote_code_spec(chain_id: u32, asset_index: u64) -> u128 {
    ((chain_id as u128) << 64) | (asset_index as u128)
}

/// Two distinct remote assets are always filed under distinct codes.
pub proof fn lemma_remote_code_injective(c1: u32, i1: u64, c2: u32, i2: u64)
    ensures
        remote_code_spec(c1, i1) == remote_code_spec(c2, i2) ==> c1 == c2 && i1 == i2,
{
    assert((((c1 as u128) << 64) | (i1 as u128)) == (((c2 as u128) << 64) | (i2 as u128)) ==> c1
        == c2 && i1 == i2) by (bit_vector);
}

fn remote_code(chain_id: u32, asset_index: u64) -> (r: u128)
    ensures
        r == remote_code_spec(chain_id, asset_index),
{
    ((chain_id as u128) << 64) | (asset_index as u128)
}

/// The foreign ledger: per-remote-asset account books and issuance
/// totals, each asset named by the pair `(chain_id, asset_index)`.
pub struct ForeignLedger {
    balances: HashMap<u128, HashMap<u128, u128>>,
    issuance: HashMap<u128, u128>,
}

impl ForeignLedger {
    /// The balance the ledger records for `who` under the remote asset
    /// `(chain_id, asset_index)`; an account without an entry holds zero.
    pub closed spec fn balance_spec(self, chain_id: u32, asset_index: u64, who: u128) -> u128 {
        let code = remote_code_spec(chain_id, asset_index);
        if self.balances@.contains_key(code) {
            let book = self.balances@[code];
            if book@.contains_key(who) {
                book@[who]
            } else {
                0
            }
        } else {
            0
        }
    }

    /// The total issuance the ledger records for the remote asset
    /// `(chain_id, asset_index)`.
    pub closed spec fn issuance_spec(self, chain_id: u32, asset_index: u64) -> u128 {
        let code = remote_code_spec(chain_id, asset_index);
        if self.issuance@.contains_key(code) {
            self.issuance@[code]
        } else {
            0
        }
    }

    /// An empty ledger: every balance and every issuance total is zero.
    pub fn new() -> (r: ForeignLedger)
        ensures
            forall|c: u32, i: u64, w: u128| #[trigger] r.balance_spec(c, i, w) == 0,
            forall|c: u32, i: u64| #[trigger] r.issuance_spec(c, i) == 0,
    {
        ForeignLedger { balances: HashMap::new(), issuance: HashMap::new() }
    }

    /// The balance of `who` under the remote asset `(chain_id,
    /// asset_index)`.
    pub fn balance_of(&self, chain_id: u32, asset_index: u64, who: &u128) -> (r: u128)
        ensures
            r == self.balance_spec(chain_id, asset_index, *who),
    {
        let code: u128 = remote_code(chain_id, asset_index);
        match self.balances.get(&code) {
            Some(book) => match book.get(who) {
                Some(v) => *v,
                None => 0,
            },
            None => 0,
        }
    }

    /// The total issuance of the remote asset `(chain_id, asset_index)`.
    pub fn total_issuance(&self, chain_id: u32, asset_index: u64) -> (r: u128)
        ensures
            r == self.issuance_spec(chain_id, asset_index),
    {
        let code: u128 = remote_code(chain_id, asset_index);
        match self.issuance.get(&code) {
            Some(v) => *v,
            None => 0,
        }
    }

    /// Credits `amount` of the remote asset to `who`, growing the asset's
    /// issuance by the same amount.
    ///
    /// Succeeds exactly when neither the issuance total nor the account's
    /// balance would overflow; on failure the ledger is unchanged and the
    /// error is [`LedgerError::Overflow`].
    pub fn deposit(&mut self, chain_id: u32, asset_index: u64, who: &u128, amount: u128) -> (r:
        Result<(), LedgerError>)
        ensures
            r is Ok <==> old(self).issuance_spec(chain_id, asset_index) + amount <= u128::MAX && old(
                self,
            ).balance_spec(chain_id, asset_index, *who) + amount <= u128::MAX,
            r is Err ==> r == Err::<(), LedgerError>(LedgerError::Overflow),
            r is Ok ==> final(self).balance_spec(chain_id, asset_index, *who) == old(
                self,
            ).balance_spec(chain_id, asset_index, *who) + amount && final(self).issuance_spec(
                chain_id,
                asset_index,
            ) == old(self).issuance_spec(chain_id, asset_index) + amount,
            r is Err ==> final(self).balance_spec(chain_id, asset_index, *who) == old(
                self,
            ).balance_spec(chain_id, asset_index, *who) && final(self).issuance_spec(
                chain_id,
                asset_index,
            ) == old(self).issuance_spec(chain_id, asset_index),
            forall|c2: u32, i2: u64, w2: u128|
                c2 != chain_id || i2 != asset_index || w2 != *who ==> #[trigger] final(self).balance_spec(c2, i2, w2) == old(self).balance_spec(c2, i2, w2),
            forall|c2: u32, i2: u64|
                c2 != chain_id || i2 != asset_index ==> #[trigger] final(self).issuance_spec(
                    c2,
                    i2,
                ) == old(self).issuance_spec(c2, i2),
    {
        let code: u128 = remote_code(chain_id, asset_index);
        let iss: u128 = match self.issuance.get(&code) {
            Some(v) => *v,
            None => 0,
        };
        let bal: u128 = match self.balances.get(&code) {
            Some(book) => match book.get(who) {
                Some(v) => *v,
                None => 0,
            },
            None => 0,
        };
        if amount > u128::MAX - iss {
            return Err(LedgerError::Overflow);
        }
        if amount > u128::MAX - bal {
            return Err(LedgerError::Overflow);
        }
        let mut book: HashMap<u128, u128> = match self.balances.remove(&code) {
            Some(b) => b,
            None => HashMap::new(),
        };
        book.insert(*who, bal + amount);
        self.balances.insert(code, book);
        self.issuance.insert(code, iss + amount);
        proof {
            assert forall|c2: u32, i2: u64, w2: u128|
                c2 != chain_id || i2 != asset_index || w2 != *who implies #[trigger] self
                .balance_spec(c2, i2, w2) == old(self).balance_spec(c2, i2, w2) by {
                lemma_remote_code_injective(c2, i2, chain_id, asset_index);
            }
            assert forall|c2: u32, i2: u64| c2 != chain_id || i2 != asset_index implies #[trigger] self
                .issuance_spec(c2, i2) == old(self).issuance_spec(c2, i2) by {
                lemma_remote_code_injective(c2, i2, chain_id, asset_index);
            }
        }
        Ok(())
    }

    /// Debits `amount` of the remote asset from `who`, shrinking the
    /// asset's issuance by the same amount.
    ///
    /// Succeeds exactly when both the account's balance and the asset's
    /// issuance cover the amount; on failure the ledger is unchanged and
    /// the error is [`LedgerError::InsufficientBalance`].
    pub fn withdraw(&mut self, chain_id: u32, asset_index: u64, who: &u128, amount: u128) -> (r:
        Result<(), LedgerError>)
        ensures
            r is Ok <==> old(self).balance_spec(chain_id, asset_index, *who) >= amount && old(
                self,
            ).issuance_spec(chain_id, asset_index) >= amount,
            r is Err ==> r == Err::<(), LedgerError>(LedgerError::InsufficientBalance),
            r is Ok ==> final(self).balance_spec(chain_id, asset_index, *who) == old(
                self,
            ).balance_spec(chain_id, asset_index, *who) - amount && final(self).issuance_spec(
                chain_id,
                asset_index,
            ) == old(self).issuance_spec(chain_id, asset_index) - amount,
            r is Err ==> final(self).balance_spec(chain_id, asset_index, *who) == old(
                self,
            ).balance_spec(chain_id, asset_index, *who) && final(self).issuance_spec(
                chain_id,
                asset_index,
            ) == old(self).issuance_spec(chain_id, asset_index),
            forall|c2: u32, i2: u64, w2: u128|
                c2 != chain_id || i2 != asset_index || w2 != *who ==> #[trigger] final(self).balance_spec(c2, i2, w2) == old(self).balance_spec(c2, i2, w2),
            forall|c2: u32, i2: u64|
                c2 != chain_id || i2 != asset_index ==> #[trigger] final(self).issuance_spec(
                    c2,
                    i2,
                ) == old(self).issuance_spec(c2, i2),
    {
        let code: u128 = remote_code(chain_id, asset_index);
        let iss: u128 = match self.issuance.get(&code) {
            Some(v) => *v,
            None => 0,
        };
        let bal: u128 = match self.balances.get(&code) {
            Some(book) => match book.get(who) {
                Some(v) => *v,
                None => 0,
            },
            None => 0,
        };
        if bal < amount || iss < amount {
            return Err(LedgerError::InsufficientBalance);
        }
        let mut book: HashMap<u128, u128> = match self.balances.remove(&code) {
            Some(b) => b,
            None => HashMap::new(),
        };
        book.insert(*who, bal - amount);
        self.balances.insert(code, book);
        self.issuance.insert(code, iss - amount);
        proof {
            assert forall|c2: u32, i2: u64, w2: u128|
                c2 != chain_id || i2 != asset_index || w2 != *who implies #[trigger] self
                .balance_spec(c2, i2, w2) == old(self).balance_spec(c2, i2, w2) by {
                lemma_remote_code_injective(c2, i2, chain_id, asset_index);
            }
            assert forall|c2: u32, i2: u64| c2 != chain_id || i2 != asset_index implies #[trigger] self
                .issuance_spec(c2, i2) == old(self).issuance_spec(c2, i2) by {
                lemma_remote_code_injective(c2, i2, chain_id, asset_index);
            }
        }
        Ok(())
    }

    /// Moves `amount` of the remote asset from `origin` to `target`,
    /// leaving the asset's issuance unchanged.
    ///
    /// Succeeds exactly when `origin` can cover the amount and, for
    /// distinct accounts, `target`'s balance does not overflow. A transfer
    /// to oneself is a successful no-op. On failure the ledger is
    /// unchanged.
    pub fn transfer(
        &mut self,
        chain_id: u32,
        asset_index: u64,
        origin: &u128,
        target: &u128,
        amount: u128,
    ) -> (r: Result<(), LedgerError>)
        ensures
            r is Ok <==> old(self).balance_spec(chain_id, asset_index, *origin) >= amount && (
            *origin == *target || old(self).balance_spec(chain_id, asset_index, *target) + amount
                <= u128::MAX),
            old(self).balance_spec(chain_id, asset_index, *origin) < amount ==> r == Err::<
                (),
                LedgerError,
            >(LedgerError::InsufficientBalance),
            old(self).balance_spec(chain_id, asset_index, *origin) >= amount && *origin != *target
                && old(self).balance_spec(chain_id, asset_index, *target) + amount > u128::MAX
                ==> r == Err::<(), LedgerError>(LedgerError::Overflow),
            r is Ok && *origin != *target ==> final(self).balance_spec(
                chain_id,
                asset_index,
                *origin,
            ) == old(self).balance_spec(chain_id, asset_index, *origin) - amount && final(self).balance_spec(chain_id, asset_index, *target) == old(self).balance_spec(
                chain_id,
                asset_index,
                *target,
            ) + amount,
            r is Ok && *origin == *target ==> final(self).balance_spec(
                chain_id,
                asset_index,
                *origin,
            ) == old(self).balance_spec(chain_id, asset_index, *origin),
            r is Err ==> final(self).balance_spec(chain_id, asset_index, *origin) == old(
                self,
            ).balance_spec(chain_id, asset_index, *origin) && final(self).balance_spec(
                chain_id,
                asset_index,
                *target,
            ) == old(self).balance_spec(chain_id, asset_index, *target),
            forall|c2: u32, i2: u64, w2: u128|
                c2 != chain_id || i2 != asset_index || (w2 != *origin && w2 != *target)
                    ==> #[trigger] final(self).balance_spec(c2, i2, w2) == old(self).balance_spec(
                    c2,
                    i2,
                    w2,
                ),
            forall|c2: u32, i2: u64| #[trigger]
                final(self).issuance_spec(c2, i2) == old(self).issuance_spec(c2, i2),
    {
        let code: u128 = remote_code(chain_id, asset_index);
        let bal_from: u128 = match self.balances.get(&code) {
            Some(book) => match book.get(origin) {
                Some(v) => *v,
                None => 0,
            },
            None => 0,
        };
        if bal_from < amount {
            return Err(LedgerError::InsufficientBalance);
        }
        if *origin == *target {
            return Ok(());
        }
        let bal_to: u128 = match self.balances.get(&code) {
            Some(book) => match book.get(target) {
                Some(v) => *v,
                None => 0,
            },
            None => 0,
        };
        if amount > u128::MAX - bal_to {
            return Err(LedgerError::Overflow);
        }
        let mut book: HashMap<u128, u128> = match self.balances.remove(&code) {
            Some(b) => b,
            None => HashMap::new(),
        };
        book.insert(*origin, bal_from - amount);
        book.insert(*target, bal_to + amount);
        self.balances.insert(code, book);
        proof {
            assert forall|c2: u32, i2: u64, w2: u128|
                c2 != chain_id || i2 != asset_index || (w2 != *origin && w2 != *target) implies #[trigger] self
                .balance_spec(c2, i2, w2) == old(self).balance_spec(c2, i2, w2) by {
                lemma_remote_code_injective(c2, i2, chain_id, asset_index);
            }
            assert forall|c2: u32, i2: u64| #[trigger]
                self.issuance_spec(c2, i2) == old(self).issuance_spec(c2, i2) by {
                lemma_remote_code_injective(c2, i2, chain_id, asset_index);
            }
        }
        Ok(())
    }
}

} // verus!
