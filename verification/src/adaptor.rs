//! The local-ledger adaptor: translates a generic asset identifier into
//! the currency key the local multi-currency ledger understands and
//! forwards the five ledger primitives.
//!
//! The key mapping is an algorithm, never a stored table: it is re-derived
//! on every call, so it stays consistent with the identifier encoding at
//! all times.

use vstd::prelude::*;

use crate::asset::{AssetId, LIQUIDITY, LOCAL};
use crate::errors::AssetError;
use crate::ledger::{CurrencyId, LocalLedger};

verus! {

/// The currency key an identifier translates to: `LOCAL` wraps the index
/// truncated to the 8-bit symbol width into a plain-token key; `LIQUIDITY`
/// wraps its two packed sub-indices, each truncated to the symbol width,
/// into a pool-share key. Any other type is not owned by this adaptor.
pub open spec fn ledger_key_spec(id: AssetId) -> Result<CurrencyId, AssetError> {
    if id.asset_type == LIQUIDITY {
        Ok(
            CurrencyId::ZenlinkLp(
                (((id.asset_index & 0xFFFF0000) >> 16) as u8),
                ((id.asset_index & 0x0000FFFF) as u8),
            ),
        )
    } else if id.asset_type == LOCAL {
        Ok(CurrencyId::Token(id.asset_index as u8))
    } else {
        Err(AssetError::UnsupportedAssetType)
    }
}

/// Derives the local ledger's currency key for an identifier.
///
/// Only the `LOCAL` and `LIQUIDITY` types belong to the local ledger; any
/// other type fails with [`AssetError::UnsupportedAssetType`] rather than
/// being silently coerced.
pub fn asset_id_to_currency_id(asset_id: &AssetId) -> (r: Result<CurrencyId, AssetError>)
    ensures
        r == ledger_key_spec(*asset_id),
{
    if asset_id.asset_type == LIQUIDITY {
        let token0_id: u8 = ((asset_id.asset_index & 0xFFFF0000) >> 16) as u8;
        let token1_id: u8 = (asset_id.asset_index & 0x0000FFFF) as u8;
        return Ok(CurrencyId::ZenlinkLp(token0_id, token1_id));
    }
    if asset_id.asset_type == LOCAL {
        let token_id: u8 = asset_id.asset_index as u8;
        return Ok(CurrencyId::Token(token_id));
    }
    Err(AssetError::UnsupportedAssetType)
}

/// The adaptor between generic asset identifiers and the local
/// multi-currency ledger. It owns no state: every call re-derives the
/// currency key and forwards to the ledger it is handed.
pub struct LocalAssetAdaptor;

impl LocalAssetAdaptor {
    /// The balance the adaptor reports: the ledger's balance under the
    /// derived key, or zero for an identifier it does not understand.
    pub open spec fn balance_spec(ledger: LocalLedger, id: AssetId, who: u128) -> u128 {
        match ledger_key_spec(id) {
            Ok(c) => ledger.balance_spec(c, who),
            Err(_) => 0,
        }
    }

    /// The supply the adaptor reports: the ledger's issuance under the
    /// derived key, or zero for an identifier it does not understand.
    pub open spec fn supply_spec(ledger: LocalLedger, id: AssetId) -> u128 {
        match ledger_key_spec(id) {
            Ok(c) => ledger.issuance_spec(c),
            Err(_) => 0,
        }
    }

    /// The balance of `who` under `asset_id`.
    ///
    /// Read-only queries stay total: an asset this adaptor does not
    /// understand simply has no balance from its point of view.
    pub fn local_balance_of(ledger: &LocalLedger, asset_id: AssetId, who: &u128) -> (r: u128)
        ensures
            r == Self::balance_spec(*ledger, asset_id, *who),
    {
        match asset_id_to_currency_id(&asset_id) {
            Ok(currency_id) => ledger.free_balance(currency_id, who),
            Err(_) => 0,
        }
    }

    /// The total supply of `asset_id`, or zero for an identifier the
    /// adaptor does not understand.
    pub fn local_total_supply(ledger: &LocalLedger, asset_id: AssetId) -> (r: u128)
        ensures
            r == Self::supply_spec(*ledger, asset_id),
    {
        match asset_id_to_currency_id(&asset_id) {
            Ok(currency_id) => ledger.total_issuance(currency_id),
            Err(_) => 0,
        }
    }

    /// Whether `asset_id` exists: true exactly when its total supply is
    /// strictly positive. This is the sole existence test; there is no
    /// separate registration flag.
    pub fn local_is_exists(ledger: &LocalLedger, asset_id: AssetId) -> (r: bool)
        ensures
            r == (Self::supply_spec(*ledger, asset_id) > 0),
    {
        match asset_id_to_currency_id(&asset_id) {
            Ok(currency_id) => ledger.total_issuance(currency_id) > 0,
            Err(_) => false,
        }
    }

    /// Moves `amount` of `asset_id` from `origin` to `target` on the
    /// local ledger.
    ///
    /// A transfer must not lie about having moved value: an identifier
    /// that resolves to no key fails loudly with
    /// [`AssetError::CannotResolveAsset`], and a ledger refusal is
    /// surfaced verbatim. On any failure the ledger is unchanged.
    pub fn local_transfer(
        ledger: &mut LocalLedger,
        asset_id: AssetId,
        origin: &u128,
        target: &u128,
        amount: u128,
    ) -> (r: Result<(), AssetError>)
        ensures
            ledger_key_spec(asset_id) is Err ==> r == Err::<(), AssetError>(
                AssetError::CannotResolveAsset,
            ),
            ledger_key_spec(asset_id) matches Ok(c) ==> {
                &&& r is Ok <==> old(ledger).balance_spec(c, *origin) >= amount && (*origin
                    == *target || old(ledger).balance_spec(c, *target) + amount <= u128::MAX)
                &&& old(ledger).balance_spec(c, *origin) < amount ==> r == Err::<(), AssetError>(
                    AssetError::Ledger(crate::errors::LedgerError::InsufficientBalance),
                )
                &&& old(ledger).balance_spec(c, *origin) >= amount && *origin != *target && old(
                    ledger,
                ).balance_spec(c, *target) + amount > u128::MAX ==> r == Err::<(), AssetError>(
                    AssetError::Ledger(crate::errors::LedgerError::Overflow),
                )
                &&& r is Ok && *origin != *target ==> final(ledger).balance_spec(c, *origin) == old(
                    ledger,
                ).balance_spec(c, *origin) - amount && final(ledger).balance_spec(c, *target)
                    == old(ledger).balance_spec(c, *target) + amount
                &&& r is Ok && *origin == *target ==> final(ledger).balance_spec(c, *origin) == old(
                    ledger,
                ).balance_spec(c, *origin)
            },
            r is Err ==> forall|c2: CurrencyId, w2: u128| #[trigger]
                final(ledger).balance_spec(c2, w2) == old(ledger).balance_spec(c2, w2),
            forall|c2: CurrencyId, w2: u128|
                (forall|c: CurrencyId| ledger_key_spec(asset_id) == Ok::<CurrencyId, AssetError>(c)
                    ==> c2 != c || (w2 != *origin && w2 != *target)) ==> #[trigger] final(ledger).balance_spec(c2, w2) == old(ledger).balance_spec(c2, w2),
            forall|c2: CurrencyId| #[trigger]
                final(ledger).issuance_spec(c2) == old(ledger).issuance_spec(c2),
    {
        match asset_id_to_currency_id(&asset_id) {
            Ok(currency_id) => match ledger.transfer(currency_id, origin, target, amount) {
                Ok(()) => Ok(()),
                Err(e) => Err(AssetError::Ledger(e)),
            },
            Err(_) => Err(AssetError::CannotResolveAsset),
        }
    }

    /// Credits `amount` of `asset_id` to `origin` on the local ledger and
    /// reports the amount actually credited.
    ///
    /// An identifier that resolves to no key deliberately no-ops and
    /// reports zero minted rather than failing the caller; a ledger
    /// refusal is surfaced verbatim, and then the ledger is unchanged.
    pub fn local_deposit(ledger: &mut LocalLedger, asset_id: AssetId, origin: &u128, amount: u128)
        -> (r: Result<u128, AssetError>)
        ensures
            ledger_key_spec(asset_id) is Err ==> r == Ok::<u128, AssetError>(0) && forall|
                c2: CurrencyId,
                w2: u128,
            | #[trigger]
                final(ledger).balance_spec(c2, w2) == old(ledger).balance_spec(c2, w2),
            ledger_key_spec(asset_id) matches Ok(c) ==> {
                &&& r is Ok <==> old(ledger).issuance_spec(c) + amount <= u128::MAX && old(
                    ledger,
                ).balance_spec(c, *origin) + amount <= u128::MAX
                &&& r is Ok ==> r == Ok::<u128, AssetError>(amount) && final(ledger).balance_spec(
                    c,
                    *origin,
                ) == old(ledger).balance_spec(c, *origin) + amount && final(ledger).issuance_spec(c)
                    == old(ledger).issuance_spec(c) + amount
                &&& r is Err ==> r == Err::<u128, AssetError>(
                    AssetError::Ledger(crate::errors::LedgerError::Overflow),
                ) && final(ledger).balance_spec(c, *origin) == old(ledger).balance_spec(c, *origin)
                    && final(ledger).issuance_spec(c) == old(ledger).issuance_spec(c)
            },
            forall|c2: CurrencyId, w2: u128|
                (forall|c: CurrencyId| ledger_key_spec(asset_id) == Ok::<CurrencyId, AssetError>(c)
                    ==> c2 != c || w2 != *origin) ==> #[trigger] final(ledger).balance_spec(c2, w2)
                    == old(ledger).balance_spec(c2, w2),
            forall|c2: CurrencyId|
                (forall|c: CurrencyId| ledger_key_spec(asset_id) == Ok::<CurrencyId, AssetError>(c)
                    ==> c2 != c) ==> #[trigger] final(ledger).issuance_spec(c2) == old(
                    ledger,
                ).issuance_spec(c2),
    {
        match asset_id_to_currency_id(&asset_id) {
            Ok(currency_id) => match ledger.deposit(currency_id, origin, amount) {
                Ok(()) => Ok(amount),
                Err(e) => Err(AssetError::Ledger(e)),
            },
            Err(_) => Ok(0),
        }
    }

    /// Debits `amount` of `asset_id` from `origin` on the local ledger
    /// and reports the amount actually debited.
    ///
    /// Symmetric to [`LocalAssetAdaptor::local_deposit`]: an identifier
    /// that resolves to no key no-ops and reports zero; a ledger refusal
    /// is surfaced verbatim, and then the ledger is unchanged.
    pub fn local_withdraw(ledger: &mut LocalLedger, asset_id: AssetId, origin: &u128, amount: u128)
        -> (r: Result<u128, AssetError>)
        ensures
            ledger_key_spec(asset_id) is Err ==> r == Ok::<u128, AssetError>(0) && forall|
                c2: CurrencyId,
                w2: u128,
            | #[trigger]
                final(ledger).balance_spec(c2, w2) == old(ledger).balance_spec(c2, w2),
            ledger_key_spec(asset_id) matches Ok(c) ==> {
                &&& r is Ok <==> old(ledger).balance_spec(c, *origin) >= amount && old(
                    ledger,
                ).issuance_spec(c) >= amount
                &&& r is Ok ==> r == Ok::<u128, AssetError>(amount) && final(ledger).balance_spec(
                    c,
                    *origin,
                ) == old(ledger).balance_spec(c, *origin) - amount && final(ledger).issuance_spec(c)
                    == old(ledger).issuance_spec(c) - amount
                &&& r is Err ==> r == Err::<u128, AssetError>(
                    AssetError::Ledger(crate::errors::LedgerError::InsufficientBalance),
                ) && final(ledger).balance_spec(c, *origin) == old(ledger).balance_spec(c, *origin)
                    && final(ledger).issuance_spec(c) == old(ledger).issuance_spec(c)
            },
            forall|c2: CurrencyId, w2: u128|
                (forall|c: CurrencyId| ledger_key_spec(asset_id) == Ok::<CurrencyId, AssetError>(c)
                    ==> c2 != c || w2 != *origin) ==> #[trigger] final(ledger).balance_spec(c2, w2)
                    == old(ledger).balance_spec(c2, w2),
            forall|c2: CurrencyId|
                (forall|c: CurrencyId| ledger_key_spec(asset_id) == Ok::<CurrencyId, AssetError>(c)
                    ==> c2 != c) ==> #[trigger] final(ledger).issuance_spec(c2) == old(
                    ledger,
                ).issuance_spec(c2),
    {
        match asset_id_to_currency_id(&asset_id) {
            Ok(currency_id) => match ledger.withdraw(currency_id, origin, amount) {
                Ok(()) => Ok(amount),
                Err(e) => Err(AssetError::Ledger(e)),
            },
            Err(_) => Ok(0),
        }
    }
}

} // verus!
