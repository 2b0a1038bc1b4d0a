//! The canonical asset identifier, its validity rules and its
//! classification by asset type.

use vstd::prelude::*;

use crate::errors::AssetError;

verus! {

/// Type tag of the chain's intrinsic balance unit.
pub const NATIVE: u8 = 0;

/// Type tag of a token issued by the local multi-currency ledger.
pub const LOCAL: u8 = 1;

/// Type tag of a share in a locally hosted liquidity pool.
pub const LIQUIDITY: u8 = 2;

/// Type tag of an asset bridged or escrowed from a remote chain.
pub const RESERVED: u8 = 3;

/// Canonical identifier of a tradable value.
///
/// An identifier is a pure value: equality, ordering and hashing are
/// field-wise and total, so an identifier can serve as a ledger lookup key.
/// For `LOCAL` and `RESERVED` assets, `asset_index` is a flat index into the
/// issuing ledger's namespace. For `LIQUIDITY` assets it packs the two
/// underlying sub-indices: each sub-index is 16 bits wide, the smaller one
/// occupies bits 16..32 (the high half) and the larger one bits 0..16 (the
/// low half).
#[derive(Clone, Copy, PartialEq, Eq, Structural, PartialOrd, Ord, Hash, Debug)]
pub struct AssetId {
    /// The ledger domain that issued or registers the asset; `0` denotes
    /// this chain.
    pub chain_id: u32,
    /// One of [`NATIVE`], [`LOCAL`], [`LIQUIDITY`], [`RESERVED`].
    pub asset_type: u8,
    /// Backend-specific payload, interpreted according to `asset_type`.
    pub asset_index: u64,
}

/// The closed set of asset classes an identifier can fall in.
#[derive(Clone, Copy, PartialEq, Eq, Structural, Debug)]
pub enum AssetClass {
    /// The chain's intrinsic balance unit.
    Native,
    /// A token issued by the local multi-currency ledger.
    Local,
    /// A share in a locally hosted liquidity pool.
    Liquidity,
    /// An asset bridged or escrowed from a remote chain.
    Reserved,
}

impl AssetId {
    /// An identifier is well formed when its type tag belongs to the
    /// closed tag set.
    pub open spec fn is_valid_spec(self) -> bool {
        self.asset_type == NATIVE || self.asset_type == LOCAL
            || self.asset_type == LIQUIDITY || self.asset_type == RESERVED
    }

    /// Reports whether the identifier's type tag belongs to the closed
    /// tag set.
    pub fn is_valid(&self) -> (r: bool)
        ensures
            r == self.is_valid_spec(),
    {
        self.asset_type == NATIVE || self.asset_type == LOCAL
            || self.asset_type == LIQUIDITY || self.asset_type == RESERVED
    }
}

/// The class an identifier's type tag denotes, or `None` for a tag outside
/// the closed set.
pub open spec fn classify_spec(id: AssetId) -> Option<AssetClass> {
    if id.asset_type == NATIVE {
        Some(AssetClass::Native)
    } else if id.asset_type == LOCAL {
        Some(AssetClass::Local)
    } else if id.asset_type == LIQUIDITY {
        Some(AssetClass::Liquidity)
    } else if id.asset_type == RESERVED {
        Some(AssetClass::Reserved)
    } else {
        None
    }
}

/// Classifies an identifier by its type tag.
///
/// The projection is total: a tag outside the closed set yields `None`,
/// and such identifiers are rejected with
/// [`AssetError::MalformedAssetIdentifier`] wherever they are decoded from
/// untrusted bytes.
pub fn classify(id: &AssetId) -> (c: Option<AssetClass>)
    ensures
        c == classify_spec(*id),
        c is Some <==> id.is_valid_spec(),
{
    if id.asset_type == NATIVE {
        Some(AssetClass::Native)
    } else if id.asset_type == LOCAL {
        Some(AssetClass::Local)
    } else if id.asset_type == LIQUIDITY {
        Some(AssetClass::Liquidity)
    } else if id.asset_type == RESERVED {
        Some(AssetClass::Reserved)
    } else {
        None
    }
}

/// The two 16-bit sub-indices packed in a liquidity identifier's
/// `asset_index`: the high half first, then the low half. Identifiers of
/// any other type yield [`AssetError::WrongAssetType`].
pub open spec fn decompose_liquidity_spec(id: AssetId) -> Result<(u32, u32), AssetError> {
    if id.asset_type == LIQUIDITY {
        Ok(((((id.asset_index >> 16) & 0xFFFF) as u32), ((id.asset_index & 0xFFFF) as u32)))
    } else {
        Err(AssetError::WrongAssetType)
    }
}

/// Extracts the two packed 16-bit sub-indices of a liquidity identifier.
///
/// Calling this on a non-liquidity identifier is a programming error and
/// fails with [`AssetError::WrongAssetType`] rather than returning garbage.
pub fn decompose_liquidity(id: &AssetId) -> (r: Result<(u32, u32), AssetError>)
    ensures
        r == decompose_liquidity_spec(*id),
{
    if id.asset_type == LIQUIDITY {
        let hi: u64 = (id.asset_index >> 16) & 0xFFFF;
        let lo: u64 = id.asset_index & 0xFFFF;
        Ok((hi as u32, lo as u32))
    } else {
        Err(AssetError::WrongAssetType)
    }
}

} // verus!
