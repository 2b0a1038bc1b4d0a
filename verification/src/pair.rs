//! Deterministic derivation of the liquidity-pool identifier for an
//! unordered pair of underlying assets.

use vstd::prelude::*;

use crate::asset::{AssetId, LIQUIDITY};
use crate::errors::AssetError;

verus! {

/// The chain id stamped on locally derived liquidity identifiers; `0`
/// denotes this chain.
pub const SELF_CHAIN_ID: u32 = 0;

/// The comparable sub-index of an underlying asset: its `asset_index`
/// truncated to the 16-bit packing width.
pub open spec fn sub_index_spec(a: AssetId) -> u64 {
    a.asset_index & 0xFFFF
}

/// The liquidity identifier derived for two distinct underlying assets:
/// the smaller sub-index occupies the high half of the packed index, the
/// larger the low half, so the result does not depend on argument order.
pub open spec fn derive_ok_spec(a: AssetId, b: AssetId) -> AssetId {
    let sa = sub_index_spec(a);
    let sb = sub_index_spec(b);
    let hi = if sa <= sb { sa } else { sb };
    let lo = if sa <= sb { sb } else { sa };
    AssetId { chain_id: SELF_CHAIN_ID, asset_type: LIQUIDITY, asset_index: (hi << 16) | lo }
}

/// Derives the canonical liquidity identifier for the pool over `a` and
/// `b`.
///
/// A pool requires two distinct assets, so `a == b` fails with
/// [`AssetError::IdenticalAssets`]. Otherwise the result is pure and
/// deterministic: its type is [`LIQUIDITY`], its chain id is
/// [`SELF_CHAIN_ID`], and its index packs the two 16-bit sub-indices in
/// canonical (min, max) order, which makes the derivation independent of
/// argument order.
pub fn derive(a: &AssetId, b: &AssetId) -> (r: Result<AssetId, AssetError>)
    ensures
        r is Err <==> *a == *b,
        r is Err ==> r == Err::<AssetId, AssetError>(AssetError::IdenticalAssets),
        r is Ok ==> r == Ok::<AssetId, AssetError>(derive_ok_spec(*a, *b)),
{
    if *a == *b {
        return Err(AssetError::IdenticalAssets);
    }
    let sa: u64 = a.asset_index & 0xFFFF;
    let sb: u64 = b.asset_index & 0xFFFF;
    let hi: u64 = if sa <= sb { sa } else { sb };
    let lo: u64 = if sa <= sb { sb } else { sa };
    Ok(AssetId { chain_id: SELF_CHAIN_ID, asset_type: LIQUIDITY, asset_index: (hi << 16) | lo })
}

/// Pair derivation is commutative: for distinct underlying assets, the
/// derived liquidity identifier does not depend on argument order.
pub proof fn lemma_derive_commutative(a: AssetId, b: AssetId)
    requires
        a != b,
    ensures
        derive_ok_spec(a, b) == derive_ok_spec(b, a),
{
}

/// Round trip: decomposing a derived liquidity identifier returns the two
/// sub-indices of the underlying assets in canonical (min, max) order.
pub proof fn lemma_derive_round_trip(a: AssetId, b: AssetId)
    requires
        a != b,
    ensures
        ({
            let sa = sub_index_spec(a);
            let sb = sub_index_spec(b);
            let mn = if sa <= sb { sa } else { sb };
            let mx = if sa <= sb { sb } else { sa };
            crate::asset::decompose_liquidity_spec(derive_ok_spec(a, b))
                == Ok::<(u32, u32), AssetError>(((mn as u32), (mx as u32)))
        }),
{
    let ia = a.asset_index;
    let ib = b.asset_index;
    assert((ia & 0xFFFF) <= 0xFFFF && (ib & 0xFFFF) <= 0xFFFF) by (bit_vector);
    let sa = sub_index_spec(a);
    let sb = sub_index_spec(b);
    let mn = if sa <= sb { sa } else { sb };
    let mx = if sa <= sb { sb } else { sa };
    assert(((((mn << 16) | mx) >> 16) & 0xFFFF) == mn && (((mn << 16) | mx) & 0xFFFF) == mx)
        by (bit_vector)
        requires
            mn <= 0xFFFFu64,
            mx <= 0xFFFFu64,
    ;
}

} // verus!
