//! The asset router: the single entry point of the settlement engine.
//!
//! The router classifies each identifier and dispatches the call to
//! exactly one backend: the native ledger for `NATIVE`, the local ledger
//! (through the adaptor) for `LOCAL` and `LIQUIDITY`, and the optional
//! foreign ledger for `RESERVED`. Running without a foreign ledger is a
//! valid configuration; reserved mutations then fail with
//! [`AssetError::NoForeignLedgerConfigured`].
//!
//! The router owns no balance data of its own and keeps no undo log; a
//! transfer across two backends is expressed by the caller as a withdraw
//! followed by a deposit, and atomicity across those two calls is the
//! caller's responsibility.

use vstd::prelude::*;

use crate::adaptor::{ledger_key_spec, LocalAssetAdaptor};
use crate::asset::{classify, AssetClass, AssetId, LIQUIDITY, LOCAL, NATIVE, RESERVED};
use crate::errors::{AssetError, LedgerError};
use crate::foreign::ForeignLedger;
use crate::ledger::{CurrencyId, LocalLedger};
use crate::native::NativeLedger;

verus! {

/// The router over the three backing ledgers.
pub struct AssetRouter {
    /// The native-ledger collaborator.
    pub native: NativeLedger,
    /// The local multi-currency ledger the adaptor forwards to.
    pub local: LocalLedger,
    /// The optional foreign-ledger collaborator.
    pub foreign: Option<ForeignLedger>,
}

/// No balance and no issuance total differs between the two router
/// states.
pub open spec fn balances_unchanged(pre: AssetRouter, post: AssetRouter) -> bool {
    &&& forall|w: u128| #[trigger] post.native.balance_spec(w) == pre.native.balance_spec(w)
    &&& post.native.issuance_spec() == pre.native.issuance_spec()
    &&& forall|c: CurrencyId, w: u128| #[trigger]
        post.local.balance_spec(c, w) == pre.local.balance_spec(c, w)
    &&& forall|c: CurrencyId| #[trigger] post.local.issuance_spec(c) == pre.local.issuance_spec(c)
    &&& (pre.foreign is Some <==> post.foreign is Some)
    &&& pre.foreign is Some ==> {
        &&& forall|c: u32, i: u64, w: u128| #[trigger]
            post.foreign.unwrap().balance_spec(c, i, w) == pre.foreign.unwrap().balance_spec(
                c,
                i,
                w,
            )
        &&& forall|c: u32, i: u64| #[trigger]
            post.foreign.unwrap().issuance_spec(c, i) == pre.foreign.unwrap().issuance_spec(c, i)
    }
}

impl AssetRouter {
    /// Assembles a router from its collaborators; running without a
    /// foreign ledger is a valid configuration.
    pub fn new(native: NativeLedger, local: LocalLedger, foreign: Option<ForeignLedger>) -> (r:
        AssetRouter)
        ensures
            r.native == native,
            r.local == local,
            r.foreign == foreign,
    {
        AssetRouter { native, local, foreign }
    }

    /// The balance the router reports for `id` and `who`: the owning
    /// backend's balance, or zero when no backend owns the identifier
    /// (an unknown tag, or a reserved asset with no foreign ledger).
    pub open spec fn balance_of_spec(self, id: AssetId, who: u128) -> u128 {
        if id.asset_type == NATIVE {
            self.native.balance_spec(who)
        } else if id.asset_type == LOCAL || id.asset_type == LIQUIDITY {
            LocalAssetAdaptor::balance_spec(self.local, id, who)
        } else if id.asset_type == RESERVED {
            if self.foreign is Some {
                self.foreign.unwrap().balance_spec(id.chain_id, id.asset_index, who)
            } else {
                0
            }
        } else {
            0
        }
    }

    /// The total supply the router reports for `id`, under the same
    /// routing as [`AssetRouter::balance_of_spec`].
    pub open spec fn total_supply_spec(self, id: AssetId) -> u128 {
        if id.asset_type == NATIVE {
            self.native.issuance_spec()
        } else if id.asset_type == LOCAL || id.asset_type == LIQUIDITY {
            LocalAssetAdaptor::supply_spec(self.local, id)
        } else if id.asset_type == RESERVED {
            if self.foreign is Some {
                self.foreign.unwrap().issuance_spec(id.chain_id, id.asset_index)
            } else {
                0
            }
        } else {
            0
        }
    }

    /// The balance of `who` under `id`.
    ///
    /// Routing is transparent: a native identifier reports exactly the
    /// native ledger's balance, and a local or liquidity identifier
    /// reports exactly the local ledger's balance under the derived
    /// currency key. Read-only queries degrade to zero instead of
    /// erroring.
    pub fn balance_of(&self, id: AssetId, who: &u128) -> (r: u128)
        ensures
            r == self.balance_of_spec(id, *who),
            id.asset_type == NATIVE ==> r == self.native.balance_spec(*who),
            id.asset_type == LOCAL || id.asset_type == LIQUIDITY ==> (ledger_key_spec(id) matches Ok(
                c,
            ) ==> r == self.local.balance_spec(c, *who)),
    {
        match classify(&id) {
            Some(AssetClass::Native) => self.native.balance_of(who),
            Some(AssetClass::Local) | Some(AssetClass::Liquidity) => {
                LocalAssetAdaptor::local_balance_of(&self.local, id, who)
            },
            Some(AssetClass::Reserved) => match &self.foreign {
                Some(f) => f.balance_of(id.chain_id, id.asset_index, who),
                None => 0,
            },
            None => 0,
        }
    }

    /// The total supply of `id`.
    ///
    /// The result is a function of the ledger state alone, so two calls
    /// without an intervening mutation return the same value.
    pub fn total_supply(&self, id: AssetId) -> (r: u128)
        ensures
            r == self.total_supply_spec(id),
    {
        match classify(&id) {
            Some(AssetClass::Native) => self.native.total_issuance(),
            Some(AssetClass::Local) | Some(AssetClass::Liquidity) => {
                LocalAssetAdaptor::local_total_supply(&self.local, id)
            },
            Some(AssetClass::Reserved) => match &self.foreign {
                Some(f) => f.total_issuance(id.chain_id, id.asset_index),
                None => 0,
            },
            None => 0,
        }
    }

    /// Whether `id` exists: true exactly when its total supply is
    /// strictly positive, which is the sole existence test.
    pub fn asset_exists(&self, id: AssetId) -> (r: bool)
        ensures
            r == (self.total_supply_spec(id) > 0),
    {
        self.total_supply(id) > 0
    }

    /// Moves `amount` of `id` from `origin` to `target` on the owning
    /// backend.
    ///
    /// Identifier-shape errors and unroutable identifiers fail loudly; a
    /// backend refusal is surfaced verbatim; and on any failure no
    /// balance anywhere changes.
    pub fn transfer(&mut self, id: AssetId, origin: &u128, target: &u128, amount: u128) -> (r:
        Result<(), AssetError>)
        ensures
            !id.is_valid_spec() ==> r == Err::<(), AssetError>(AssetError::MalformedAssetIdentifier),
            id.asset_type == RESERVED && old(self).foreign is None ==> r == Err::<(), AssetError>(
                AssetError::NoForeignLedgerConfigured,
            ),
            r is Err ==> balances_unchanged(*old(self), *final(self)),
            id.asset_type == NATIVE ==> {
                &&& final(self).local == old(self).local
                &&& final(self).foreign == old(self).foreign
                &&& (r is Ok <==> old(self).native.balance_spec(*origin) >= amount && (*origin
                    == *target || old(self).native.balance_spec(*target) + amount <= u128::MAX))
                &&& old(self).native.balance_spec(*origin) < amount ==> r == Err::<(), AssetError>(
                    AssetError::Ledger(LedgerError::InsufficientBalance),
                )
                &&& old(self).native.balance_spec(*origin) >= amount && *origin != *target && old(
                    self,
                ).native.balance_spec(*target) + amount > u128::MAX ==> r == Err::<(), AssetError>(
                    AssetError::Ledger(LedgerError::Overflow),
                )
                &&& r is Ok && *origin != *target ==> final(self).native.balance_spec(*origin)
                    == old(self).native.balance_spec(*origin) - amount && final(self).native.balance_spec(*target) == old(self).native.balance_spec(*target) + amount
                &&& r is Ok && *origin == *target ==> final(self).native.balance_spec(*origin)
                    == old(self).native.balance_spec(*origin)
                &&& forall|w2: u128|
                    w2 != *origin && w2 != *target ==> #[trigger] final(self).native.balance_spec(
                        w2,
                    ) == old(self).native.balance_spec(w2)
                &&& final(self).native.issuance_spec() == old(self).native.issuance_spec()
            },
            id.asset_type == LOCAL || id.asset_type == LIQUIDITY ==> {
                &&& final(self).native == old(self).native
                &&& final(self).foreign == old(self).foreign
                &&& ledger_key_spec(id) matches Ok(c) ==> {
                    &&& (r is Ok <==> old(self).local.balance_spec(c, *origin) >= amount && (
                    *origin == *target || old(self).local.balance_spec(c, *target) + amount
                        <= u128::MAX))
                    &&& old(self).local.balance_spec(c, *origin) < amount ==> r == Err::<
                        (),
                        AssetError,
                    >(AssetError::Ledger(LedgerError::InsufficientBalance))
                    &&& old(self).local.balance_spec(c, *origin) >= amount && *origin != *target
                        && old(self).local.balance_spec(c, *target) + amount > u128::MAX ==> r
                        == Err::<(), AssetError>(AssetError::Ledger(LedgerError::Overflow))
                    &&& r is Ok && *origin != *target ==> final(self).local.balance_spec(c, *origin)
                        == old(self).local.balance_spec(c, *origin) - amount && final(self).local.balance_spec(c, *target) == old(self).local.balance_spec(c, *target)
                        + amount
                    &&& r is Ok && *origin == *target ==> final(self).local.balance_spec(c, *origin)
                        == old(self).local.balance_spec(c, *origin)
                    &&& forall|c2: CurrencyId, w2: u128|
                        c2 != c || (w2 != *origin && w2 != *target) ==> #[trigger] final(self).local.balance_spec(c2, w2) == old(self).local.balance_spec(c2, w2)
                    &&& forall|c2: CurrencyId| #[trigger]
                        final(self).local.issuance_spec(c2) == old(self).local.issuance_spec(c2)
                }
            },
            id.asset_type == RESERVED ==> {
                &&& final(self).native == old(self).native
                &&& final(self).local == old(self).local
                &&& (old(self).foreign is Some <==> final(self).foreign is Some)
            },
            id.asset_type == RESERVED && old(self).foreign is Some ==> {
                &&& (r is Ok <==> old(self).foreign.unwrap().balance_spec(
                    id.chain_id,
                    id.asset_index,
                    *origin,
                ) >= amount && (*origin == *target || old(self).foreign.unwrap().balance_spec(
                    id.chain_id,
                    id.asset_index,
                    *target,
                ) + amount <= u128::MAX))
                &&& old(self).foreign.unwrap().balance_spec(id.chain_id, id.asset_index, *origin)
                    < amount ==> r == Err::<(), AssetError>(
                    AssetError::Ledger(LedgerError::InsufficientBalance),
                )
                &&& old(self).foreign.unwrap().balance_spec(id.chain_id, id.asset_index, *origin)
                    >= amount && *origin != *target && old(self).foreign.unwrap().balance_spec(
                    id.chain_id,
                    id.asset_index,
                    *target,
                ) + amount > u128::MAX ==> r == Err::<(), AssetError>(
                    AssetError::Ledger(LedgerError::Overflow),
                )
                &&& r is Ok && *origin != *target ==> final(self).foreign.unwrap().balance_spec(
                    id.chain_id,
                    id.asset_index,
                    *origin,
                ) == old(self).foreign.unwrap().balance_spec(id.chain_id, id.asset_index, *origin)
                    - amount && final(self).foreign.unwrap().balance_spec(
                    id.chain_id,
                    id.asset_index,
                    *target,
                ) == old(self).foreign.unwrap().balance_spec(id.chain_id, id.asset_index, *target)
                    + amount
                &&& r is Ok && *origin == *target ==> final(self).foreign.unwrap().balance_spec(
                    id.chain_id,
                    id.asset_index,
                    *origin,
                ) == old(self).foreign.unwrap().balance_spec(id.chain_id, id.asset_index, *origin)
                &&& forall|c2: u32, i2: u64, w2: u128|
                    c2 != id.chain_id || i2 != id.asset_index || (w2 != *origin && w2 != *target)
                        ==> #[trigger] final(self).foreign.unwrap().balance_spec(c2, i2, w2) == old(
                        self,
                    ).foreign.unwrap().balance_spec(c2, i2, w2)
                &&& forall|c2: u32, i2: u64| #[trigger]
                    final(self).foreign.unwrap().issuance_spec(c2, i2) == old(
                        self,
                    ).foreign.unwrap().issuance_spec(c2, i2)
            },
    {
        match classify(&id) {
            Some(AssetClass::Native) => match self.native.transfer(origin, target, amount) {
                Ok(()) => Ok(()),
                Err(e) => Err(AssetError::Ledger(e)),
            },
            Some(AssetClass::Local) | Some(AssetClass::Liquidity) => {
                LocalAssetAdaptor::local_transfer(&mut self.local, id, origin, target, amount)
            },
            Some(AssetClass::Reserved) => match &mut self.foreign {
                Some(f) => match f.transfer(id.chain_id, id.asset_index, origin, target, amount) {
                    Ok(()) => Ok(()),
                    Err(e) => Err(AssetError::Ledger(e)),
                },
                None => Err(AssetError::NoForeignLedgerConfigured),
            },
            None => Err(AssetError::MalformedAssetIdentifier),
        }
    }

    /// Credits `amount` of `id` to `who` on the owning backend and
    /// reports the amount actually credited.
    pub fn deposit(&mut self, id: AssetId, who: &u128, amount: u128) -> (r: Result<
        u128,
        AssetError,
    >)
        ensures
            !id.is_valid_spec() ==> r == Err::<u128, AssetError>(
                AssetError::MalformedAssetIdentifier,
            ),
            id.asset_type == RESERVED && old(self).foreign is None ==> r == Err::<u128, AssetError>(
                AssetError::NoForeignLedgerConfigured,
            ),
            r is Err ==> balances_unchanged(*old(self), *final(self)),
            id.asset_type == NATIVE ==> {
                &&& final(self).local == old(self).local
                &&& final(self).foreign == old(self).foreign
                &&& (r is Ok <==> old(self).native.issuance_spec() + amount <= u128::MAX && old(
                    self,
                ).native.balance_spec(*who) + amount <= u128::MAX)
                &&& r is Err ==> r == Err::<u128, AssetError>(
                    AssetError::Ledger(LedgerError::Overflow),
                )
                &&& r is Ok ==> r == Ok::<u128, AssetError>(amount) && final(self).native.balance_spec(*who) == old(self).native.balance_spec(*who) + amount
                    && final(self).native.issuance_spec() == old(self).native.issuance_spec()
                    + amount && forall|w2: u128|
                    w2 != *who ==> #[trigger] final(self).native.balance_spec(w2) == old(
                        self,
                    ).native.balance_spec(w2)
            },
            id.asset_type == LOCAL || id.asset_type == LIQUIDITY ==> {
                &&& final(self).native == old(self).native
                &&& final(self).foreign == old(self).foreign
                &&& ledger_key_spec(id) matches Ok(c) ==> {
                    &&& (r is Ok <==> old(self).local.issuance_spec(c) + amount <= u128::MAX && old(
                        self,
                    ).local.balance_spec(c, *who) + amount <= u128::MAX)
                    &&& r is Err ==> r == Err::<u128, AssetError>(
                        AssetError::Ledger(LedgerError::Overflow),
                    )
                    &&& r is Ok ==> r == Ok::<u128, AssetError>(amount) && final(self).local.balance_spec(c, *who) == old(self).local.balance_spec(c, *who) + amount
                        && final(self).local.issuance_spec(c) == old(self).local.issuance_spec(c)
                        + amount && forall|c2: CurrencyId, w2: u128|
                        c2 != c || w2 != *who ==> #[trigger] final(self).local.balance_spec(c2, w2)
                            == old(self).local.balance_spec(c2, w2)
                }
            },
            id.asset_type == RESERVED ==> {
                &&& final(self).native == old(self).native
                &&& final(self).local == old(self).local
                &&& (old(self).foreign is Some <==> final(self).foreign is Some)
            },
            id.asset_type == RESERVED && old(self).foreign is Some ==> {
                &&& (r is Ok <==> old(self).foreign.unwrap().issuance_spec(
                    id.chain_id,
                    id.asset_index,
                ) + amount <= u128::MAX && old(self).foreign.unwrap().balance_spec(
                    id.chain_id,
                    id.asset_index,
                    *who,
                ) + amount <= u128::MAX)
                &&& r is Err ==> r == Err::<u128, AssetError>(
                    AssetError::Ledger(LedgerError::Overflow),
                )
                &&& r is Ok ==> r == Ok::<u128, AssetError>(amount) && final(self).foreign.unwrap().balance_spec(id.chain_id, id.asset_index, *who) == old(
                    self,
                ).foreign.unwrap().balance_spec(id.chain_id, id.asset_index, *who) + amount
                    && final(self).foreign.unwrap().issuance_spec(id.chain_id, id.asset_index)
                    == old(self).foreign.unwrap().issuance_spec(id.chain_id, id.asset_index)
                    + amount && (forall|c2: u32, i2: u64, w2: u128|
                    c2 != id.chain_id || i2 != id.asset_index || w2 != *who ==> #[trigger] final(self).foreign.unwrap().balance_spec(c2, i2, w2) == old(
                        self,
                    ).foreign.unwrap().balance_spec(c2, i2, w2)) && (forall|c2: u32, i2: u64|
                    c2 != id.chain_id || i2 != id.asset_index ==> #[trigger] final(self).foreign.unwrap().issuance_spec(c2, i2) == old(
                        self,
                    ).foreign.unwrap().issuance_spec(c2, i2))
            },
    {
        match classify(&id) {
            Some(AssetClass::Native) => match self.native.deposit(who, amount) {
                Ok(()) => Ok(amount),
                Err(e) => Err(AssetError::Ledger(e)),
            },
            Some(AssetClass::Local) | Some(AssetClass::Liquidity) => {
                LocalAssetAdaptor::local_deposit(&mut self.local, id, who, amount)
            },
            Some(AssetClass::Reserved) => match &mut self.foreign {
                Some(f) => match f.deposit(id.chain_id, id.asset_index, who, amount) {
                    Ok(()) => Ok(amount),
                    Err(e) => Err(AssetError::Ledger(e)),
                },
                None => Err(AssetError::NoForeignLedgerConfigured),
            },
            None => Err(AssetError::MalformedAssetIdentifier),
        }
    }

    /// Debits `amount` of `id` from `who` on the owning backend and
    /// reports the amount actually debited.
    pub fn withdraw(&mut self, id: AssetId, who: &u128, amount: u128) -> (r: Result<
        u128,
        AssetError,
    >)
        ensures
            !id.is_valid_spec() ==> r == Err::<u128, AssetError>(
                AssetError::MalformedAssetIdentifier,
            ),
            id.asset_type == RESERVED && old(self).foreign is None ==> r == Err::<u128, AssetError>(
                AssetError::NoForeignLedgerConfigured,
            ),
            r is Err ==> balances_unchanged(*old(self), *final(self)),
            id.asset_type == NATIVE ==> {
                &&& final(self).local == old(self).local
                &&& final(self).foreign == old(self).foreign
                &&& (r is Ok <==> old(self).native.balance_spec(*who) >= amount && old(
                    self,
                ).native.issuance_spec() >= amount)
                &&& r is Err ==> r == Err::<u128, AssetError>(
                    AssetError::Ledger(LedgerError::InsufficientBalance),
                )
                &&& r is Ok ==> r == Ok::<u128, AssetError>(amount) && final(self).native.balance_spec(*who) == old(self).native.balance_spec(*who) - amount
                    && final(self).native.issuance_spec() == old(self).native.issuance_spec()
                    - amount && forall|w2: u128|
                    w2 != *who ==> #[trigger] final(self).native.balance_spec(w2) == old(
                        self,
                    ).native.balance_spec(w2)
            },
            id.asset_type == LOCAL || id.asset_type == LIQUIDITY ==> {
                &&& final(self).native == old(self).native
                &&& final(self).foreign == old(self).foreign
                &&& ledger_key_spec(id) matches Ok(c) ==> {
                    &&& (r is Ok <==> old(self).local.balance_spec(c, *who) >= amount && old(
                        self,
                    ).local.issuance_spec(c) >= amount)
                    &&& r is Err ==> r == Err::<u128, AssetError>(
                        AssetError::Ledger(LedgerError::InsufficientBalance),
                    )
                    &&& r is Ok ==> r == Ok::<u128, AssetError>(amount) && final(self).local.balance_spec(c, *who) == old(self).local.balance_spec(c, *who) - amount
                        && final(self).local.issuance_spec(c) == old(self).local.issuance_spec(c)
                        - amount && forall|c2: CurrencyId, w2: u128|
                        c2 != c || w2 != *who ==> #[trigger] final(self).local.balance_spec(c2, w2)
                            == old(self).local.balance_spec(c2, w2)
                }
            },
            id.asset_type == RESERVED ==> {
                &&& final(self).native == old(self).native
                &&& final(self).local == old(self).local
                &&& (old(self).foreign is Some <==> final(self).foreign is Some)
            },
            id.asset_type == RESERVED && old(self).foreign is Some ==> {
                &&& (r is Ok <==> old(self).foreign.unwrap().balance_spec(
                    id.chain_id,
                    id.asset_index,
                    *who,
                ) >= amount && old(self).foreign.unwrap().issuance_spec(id.chain_id, id.asset_index)
                    >= amount)
                &&& r is Err ==> r == Err::<u128, AssetError>(
                    AssetError::Ledger(LedgerError::InsufficientBalance),
                )
                &&& r is Ok ==> r == Ok::<u128, AssetError>(amount) && final(self).foreign.unwrap().balance_spec(id.chain_id, id.asset_index, *who) == old(
                    self,
                ).foreign.unwrap().balance_spec(id.chain_id, id.asset_index, *who) - amount
                    && final(self).foreign.unwrap().issuance_spec(id.chain_id, id.asset_index)
                    == old(self).foreign.unwrap().issuance_spec(id.chain_id, id.asset_index)
                    - amount && (forall|c2: u32, i2: u64, w2: u128|
                    c2 != id.chain_id || i2 != id.asset_index || w2 != *who ==> #[trigger] final(self).foreign.unwrap().balance_spec(c2, i2, w2) == old(
                        self,
                    ).foreign.unwrap().balance_spec(c2, i2, w2)) && (forall|c2: u32, i2: u64|
                    c2 != id.chain_id || i2 != id.asset_index ==> #[trigger] final(self).foreign.unwrap().issuance_spec(c2, i2) == old(
                        self,
                    ).foreign.unwrap().issuance_spec(c2, i2))
            },
    {
        match classify(&id) {
            Some(AssetClass::Native) => match self.native.withdraw(who, amount) {
                Ok(()) => Ok(amount),
                Err(e) => Err(AssetError::Ledger(e)),
            },
            Some(AssetClass::Local) | Some(AssetClass::Liquidity) => {
                LocalAssetAdaptor::local_withdraw(&mut self.local, id, who, amount)
            },
            Some(AssetClass::Reserved) => match &mut self.foreign {
                Some(f) => match f.withdraw(id.chain_id, id.asset_index, who, amount) {
                    Ok(()) => Ok(amount),
                    Err(e) => Err(AssetError::Ledger(e)),
                },
                None => Err(AssetError::NoForeignLedgerConfigured),
            },
            None => Err(AssetError::MalformedAssetIdentifier),
        }
    }
}

} // verus!
