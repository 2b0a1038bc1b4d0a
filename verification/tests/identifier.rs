//! Tests for the identifier codec, classification and pair derivation.

use asset_router::asset::{
    classify, decompose_liquidity, AssetClass, AssetId, LIQUIDITY, LOCAL, NATIVE, RESERVED,
};
use asset_router::errors::AssetError;
use asset_router::wire::{decode_asset_id, encode_asset_id, ENCODED_LEN};

fn local(index: u64) -> AssetId {
    AssetId { chain_id: 0, asset_type: LOCAL, asset_index: index }
}

#[test]
fn classify_covers_the_closed_tag_set() {
    assert_eq!(
        classify(&AssetId { chain_id: 0, asset_type: NATIVE, asset_index: 0 }),
        Some(AssetClass::Native)
    );
    assert_eq!(classify(&local(1)), Some(AssetClass::Local));
    assert_eq!(
        classify(&AssetId { chain_id: 0, asset_type: LIQUIDITY, asset_index: 0 }),
        Some(AssetClass::Liquidity)
    );
    assert_eq!(
        classify(&AssetId { chain_id: 5, asset_type: RESERVED, asset_index: 0 }),
        Some(AssetClass::Reserved)
    );
    assert_eq!(classify(&AssetId { chain_id: 0, asset_type: 9, asset_index: 0 }), None);
    assert!(!AssetId { chain_id: 0, asset_type: 200, asset_index: 0 }.is_valid());
}

#[test]
fn decompose_requires_a_liquidity_identifier() {
    assert_eq!(decompose_liquidity(&local(7)), Err(AssetError::WrongAssetType));
    assert_eq!(
        decompose_liquidity(&AssetId { chain_id: 0, asset_type: NATIVE, asset_index: 0 }),
        Err(AssetError::WrongAssetType)
    );
}

#[test]
fn decompose_extracts_the_packed_halves() {
    let lp = AssetId { chain_id: 0, asset_type: LIQUIDITY, asset_index: 0x5_0009 };
    assert_eq!(decompose_liquidity(&lp), Ok((5, 9)));
}

#[test]
fn derive_rejects_identical_assets() {
    let a = local(5);
    assert_eq!(asset_router::pair::derive(&a, &a), Err(AssetError::IdenticalAssets));
}

#[test]
fn derive_is_commutative() {
    let a = local(5);
    let b = local(9);
    let ab = asset_router::pair::derive(&a, &b).unwrap();
    let ba = asset_router::pair::derive(&b, &a).unwrap();
    assert_eq!(ab, ba);
    assert_eq!(ab.asset_type, LIQUIDITY);
    assert_eq!(ab.chain_id, 0);
    assert_eq!(decompose_liquidity(&ab), Ok((5, 9)));
}

#[test]
fn derive_orders_sub_indices_canonically() {
    let a = local(9);
    let b = local(5);
    let lp = asset_router::pair::derive(&a, &b).unwrap();
    assert_eq!(lp.asset_index, (5 << 16) | 9);
    assert_eq!(decompose_liquidity(&lp), Ok((5, 9)));
}

#[test]
fn derive_truncates_to_the_packing_width() {
    // Only the low 16 bits of each underlying index take part.
    let a = local(0x9_0005);
    let b = local(9);
    let lp = asset_router::pair::derive(&a, &b).unwrap();
    assert_eq!(decompose_liquidity(&lp), Ok((5, 9)));
}

#[test]
fn wire_encoding_is_little_endian_and_13_bytes() {
    let id = local(7);
    let bytes = encode_asset_id(&id);
    assert_eq!(bytes.len(), ENCODED_LEN);
    assert_eq!(bytes, vec![0, 0, 0, 0, LOCAL, 7, 0, 0, 0, 0, 0, 0, 0]);

    let id2 = AssetId { chain_id: 0x0102_0304, asset_type: RESERVED, asset_index: 0x1122_3344_5566_7788 };
    let bytes2 = encode_asset_id(&id2);
    assert_eq!(
        bytes2,
        vec![0x04, 0x03, 0x02, 0x01, RESERVED, 0x88, 0x77, 0x66, 0x55, 0x44, 0x33, 0x22, 0x11]
    );
}

#[test]
fn wire_round_trips_well_formed_identifiers() {
    let ids = [
        AssetId { chain_id: 0, asset_type: NATIVE, asset_index: 0 },
        local(7),
        AssetId { chain_id: 200, asset_type: LIQUIDITY, asset_index: 0x5_0009 },
        AssetId { chain_id: u32::MAX, asset_type: RESERVED, asset_index: u64::MAX },
    ];
    for id in ids {
        assert_eq!(decode_asset_id(&encode_asset_id(&id)), Ok(id));
    }
}

#[test]
fn wire_rejects_an_unknown_tag() {
    let mut bytes = encode_asset_id(&local(7));
    bytes[4] = 9;
    assert_eq!(decode_asset_id(&bytes), Err(AssetError::MalformedAssetIdentifier));
}

#[test]
fn wire_rejects_a_wrong_length() {
    let mut bytes = encode_asset_id(&local(7));
    bytes.pop();
    assert_eq!(decode_asset_id(&bytes), Err(AssetError::MalformedAssetIdentifier));
    assert_eq!(decode_asset_id(&vec![]), Err(AssetError::MalformedAssetIdentifier));
}

#[test]
fn derive_accepts_distinct_assets_with_equal_sub_indices() {
    // The identifiers differ, so the pair is well formed even though both
    // sub-indices are 5; the packed halves are then equal.
    let a = local(5);
    let b = AssetId { chain_id: 2, asset_type: RESERVED, asset_index: 5 };
    let lp = asset_router::pair::derive(&a, &b).unwrap();
    assert_eq!(asset_router::pair::derive(&b, &a).unwrap(), lp);
    assert_eq!(decompose_liquidity(&lp), Ok((5, 5)));
}
