//! Error kinds surfaced by the asset-identity and routing layer.

use vstd::prelude::*;

verus! {

/// An error reported by a backing ledger while moving value.
///
/// Ledger errors are surfaced verbatim by the adaptor and the router,
/// wrapped in [`AssetError::Ledger`], and never reinterpreted.
#[derive(Clone, Copy, PartialEq, Eq, Structural, Debug)]
pub enum LedgerError {
    /// The debited account (or the currency's recorded issuance) cannot
    /// cover the requested amount.
    InsufficientBalance,
    /// Crediting the amount would overflow a balance or an issuance total.
    Overflow,
}

/// An error reported by the identifier codec, the pair deriver, the
/// local-ledger adaptor or the asset router.
#[derive(Clone, Copy, PartialEq, Eq, Structural, Debug)]
pub enum AssetError {
    /// Bytes decoded from an untrusted source do not hold a well-formed
    /// asset identifier (wrong length or an unknown type tag).
    MalformedAssetIdentifier,
    /// An operation that requires one asset type was invoked on an
    /// identifier of a different type.
    WrongAssetType,
    /// Pair derivation was given the same asset twice.
    IdenticalAssets,
    /// The local-ledger adaptor was asked to translate an identifier of a
    /// type it does not own.
    UnsupportedAssetType,
    /// A mutating adaptor call could not resolve the identifier to a
    /// ledger key.
    CannotResolveAsset,
    /// A reserved (bridged) identifier was routed while no foreign-ledger
    /// collaborator is configured.
    NoForeignLedgerConfigured,
    /// A backend ledger refused the operation; the ledger's own error is
    /// carried unchanged.
    Ledger(LedgerError),
}

} // verus!
