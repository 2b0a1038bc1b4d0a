//! The native-ledger collaborator: account balances for the chain's
//! single intrinsic currency.

use std::collections::HashMap;

use vstd::prelude::*;

use crate::errors::LedgerError;

verus! {

broadcast use vstd::std_specs::hash::group_hash_axioms;

/// The native ledger: balances of the chain's intrinsic currency, with no
/// currency-key parameter.
pub struct NativeLedger {
    balances: HashMap<u128, u128>,
    issuance: u128,
}

impl NativeLedger {
    /// The native balance the ledger records for `who`; an account
    /// without an entry holds zero.
    pub closed spec fn balance_spec(self, who: u128) -> u128 {
        if self.balances@.contains_key(who) {
            self.balances@[who]
        } else {
            0
        }
    }

    /// The recorded total issuance of the native currency.
    pub closed spec fn issuance_spec(self) -> u128 {
        self.issuance
    }

    /// An empty ledger: every balance and the issuance total are zero.
    pub fn new() -> (r: NativeLedger)
        ensures
            forall|w: u128| #[trigger] r.balance_spec(w) == 0,
            r.issuance_spec() == 0,
    {
        NativeLedger { balances: HashMap::new(), issuance: 0 }
    }

    /// The native balance of `who`.
    pub fn balance_of(&self, who: &u128) -> (r: u128)
        ensures
            r == self.balance_spec(*who),
    {
        match self.balances.get(who) {
            Some(v) => *v,
            None => 0,
        }
    }

    /// The total issuance of the native currency.
    pub fn total_issuance(&self) -> (r: u128)
        ensures
            r == self.issuance_spec(),
    {
        self.issuance
    }

    /// Credits `amount` to `who`, growing the issuance total by the same
    /// amount.
    ///
    /// Succeeds exactly when neither the issuance total nor the account's
    /// balance would overflow; on failure the ledger is unchanged and the
    /// error is [`LedgerError::Overflow`].
    pub fn deposit(&mut self, who: &u128, amount: u128) -> (r: Result<(), LedgerError>)
        ensures
            r is Ok <==> old(self).issuance_spec() + amount <= u128::MAX && old(self).balance_spec(
                *who,
            ) + amount <= u128::MAX,
            r is Err ==> r == Err::<(), LedgerError>(LedgerError::Overflow),
            r is Ok ==> final(self).balance_spec(*who) == old(self).balance_spec(*who) + amount
                && final(self).issuance_spec() == old(self).issuance_spec() + amount,
            r is Err ==> final(self).balance_spec(*who) == old(self).balance_spec(*who) && final(self).issuance_spec() == old(self).issuance_spec(),
            forall|w2: u128|
                w2 != *who ==> #[trigger] final(self).balance_spec(w2) == old(self).balance_spec(
                    w2,
                ),
    {
        let iss: u128 = self.issuance;
        let bal: u128 = match self.balances.get(who) {
            Some(v) => *v,
            None => 0,
        };
        if amount > u128::MAX - iss {
            return Err(LedgerError::Overflow);
        }
        if amount > u128::MAX - bal {
            return Err(LedgerError::Overflow);
        }
        self.balances.insert(*who, bal + amount);
        self.issuance = iss + amount;
        Ok(())
    }

    /// Debits `amount` from `who`, shrinking the issuance total by the
    /// same amount.
    ///
    /// Succeeds exactly when both the account's balance and the issuance
    /// total cover the amount; on failure the ledger is unchanged and the
    /// error is [`LedgerError::InsufficientBalance`].
    pub fn withdraw(&mut self, who: &u128, amount: u128) -> (r: Result<(), LedgerError>)
        ensures
            r is Ok <==> old(self).balance_spec(*who) >= amount && old(self).issuance_spec()
                >= amount,
            r is Err ==> r == Err::<(), LedgerError>(LedgerError::InsufficientBalance),
            r is Ok ==> final(self).balance_spec(*who) == old(self).balance_spec(*who) - amount
                && final(self).issuance_spec() == old(self).issuance_spec() - amount,
            r is Err ==> final(self).balance_spec(*who) == old(self).balance_spec(*who) && final(self).issuance_spec() == old(self).issuance_spec(),
            forall|w2: u128|
                w2 != *who ==> #[trigger] final(self).balance_spec(w2) == old(self).balance_spec(
                    w2,
                ),
    {
        let iss: u128 = self.issuance;
        let bal: u128 = match self.balances.get(who) {
            Some(v) => *v,
            None => 0,
        };
        if bal < amount || iss < amount {
            return Err(LedgerError::InsufficientBalance);
        }
        self.balances.insert(*who, bal - amount);
        self.issuance = iss - amount;
        Ok(())
    }

    /// Moves `amount` from `origin` to `target`, leaving the issuance
    /// total unchanged.
    ///
    /// Succeeds exactly when `origin` can cover the amount and, for
    /// distinct accounts, `target`'s balance does not overflow. A transfer
    /// to oneself is a successful no-op. On failure the ledger is
    /// unchanged.
    pub fn transfer(&mut self, origin: &u128, target: &u128, amount: u128) -> (r: Result<
        (),
        LedgerError,
    >)
        ensures
            r is Ok <==> old(self).balance_spec(*origin) >= amount && (*origin == *target || old(
                self,
            ).balance_spec(*target) + amount <= u128::MAX),
            old(self).balance_spec(*origin) < amount ==> r == Err::<(), LedgerError>(
                LedgerError::InsufficientBalance,
            ),
            old(self).balance_spec(*origin) >= amount && *origin != *target && old(
                self,
            ).balance_spec(*target) + amount > u128::MAX ==> r == Err::<(), LedgerError>(
                LedgerError::Overflow,
            ),
            r is Ok && *origin != *target ==> final(self).balance_spec(*origin) == old(
                self,
            ).balance_spec(*origin) - amount && final(self).balance_spec(*target) == old(
                self,
            ).balance_spec(*target) + amount,
            r is Ok && *origin == *target ==> final(self).balance_spec(*origin) == old(
                self,
            ).balance_spec(*origin),
            r is Err ==> final(self).balance_spec(*origin) == old(self).balance_spec(*origin)
                && final(self).balance_spec(*target) == old(self).balance_spec(*target),
            forall|w2: u128|
                w2 != *origin && w2 != *target ==> #[trigger] final(self).balance_spec(w2) == old(
                    self,
                ).balance_spec(w2),
            final(self).issuance_spec() == old(self).issuance_spec(),
    {
        let bal_from: u128 = match self.balances.get(origin) {
            Some(v) => *v,
            None => 0,
        };
        if bal_from < amount {
            return Err(LedgerError::InsufficientBalance);
        }
        if *origin == *target {
            return Ok(());
        }
        let bal_to: u128 = match self.balances.get(target) {
            Some(v) => *v,
            None => 0,
        };
        if amount > u128::MAX - bal_to {
            return Err(LedgerError::Overflow);
        }
        self.balances.insert(*origin, bal_from - amount);
        self.balances.insert(*target, bal_to + amount);
        Ok(())
    }
}

} // verus!
