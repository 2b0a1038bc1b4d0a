//! Fixed-width wire encoding of asset identifiers.
//!
//! The serialized form is `chain_id (u32) | asset_type (u8) |
//! asset_index (u64)`, each field little endian, no padding, 13 bytes in
//! all. Any change to the field widths is a breaking format change.

use vstd::prelude::*;

use crate::asset::AssetId;
use crate::errors::AssetError;

verus! {

/// The fixed byte width of a serialized asset identifier.
pub const ENCODED_LEN: usize = 13;

/// The 13 bytes a well-formed identifier serializes to.
pub open spec fn encode_spec(id: AssetId) -> Seq<u8> {
    seq![
        (id.chain_id & 0xFF) as u8,
        ((id.chain_id >> 8) & 0xFF) as u8,
        ((id.chain_id >> 16) & 0xFF) as u8,
        ((id.chain_id >> 24) & 0xFF) as u8,
        id.asset_type,
        (id.asset_index & 0xFF) as u8,
        ((id.asset_index >> 8) & 0xFF) as u8,
        ((id.asset_index >> 16) & 0xFF) as u8,
        ((id.asset_index >> 24) & 0xFF) as u8,
        ((id.asset_index >> 32) & 0xFF) as u8,
        ((id.asset_index >> 40) & 0xFF) as u8,
        ((id.asset_index >> 48) & 0xFF) as u8,
        ((id.asset_index >> 56) & 0xFF) as u8,
    ]
}

/// The identifier a byte string decodes to: exactly 13 bytes, little
/// endian fields, and a type tag inside the closed tag set; anything else
/// is malformed.
pub open spec fn decode_spec(bytes: Seq<u8>) -> Result<AssetId, AssetError> {
    if bytes.len() != 13 {
        Err(AssetError::MalformedAssetIdentifier)
    } else {
        let id = AssetId {
            chain_id: (bytes[0] as u32) | ((bytes[1] as u32) << 8) | ((bytes[2] as u32) << 16)
                | ((bytes[3] as u32) << 24),
            asset_type: bytes[4],
            asset_index: (bytes[5] as u64) | ((bytes[6] as u64) << 8) | ((bytes[7] as u64) << 16)
                | ((bytes[8] as u64) << 24) | ((bytes[9] as u64) << 32) | ((bytes[10] as u64) << 40)
                | ((bytes[11] as u64) << 48) | ((bytes[12] as u64) << 56),
        };
        if id.is_valid_spec() {
            Ok(id)
        } else {
            Err(AssetError::MalformedAssetIdentifier)
        }
    }
}

/// Serializes an identifier to its fixed 13-byte wire form.
pub fn encode_asset_id(id: &AssetId) -> (r: Vec<u8>)
    ensures
        r@ == encode_spec(*id),
{
    let mut out: Vec<u8> = Vec::new();
    out.push((id.chain_id & 0xFF) as u8);
    out.push(((id.chain_id >> 8) & 0xFF) as u8);
    out.push(((id.chain_id >> 16) & 0xFF) as u8);
    out.push(((id.chain_id >> 24) & 0xFF) as u8);
    out.push(id.asset_type);
    out.push((id.asset_index & 0xFF) as u8);
    out.push(((id.asset_index >> 8) & 0xFF) as u8);
    out.push(((id.asset_index >> 16) & 0xFF) as u8);
    out.push(((id.asset_index >> 24) & 0xFF) as u8);
    out.push(((id.asset_index >> 32) & 0xFF) as u8);
    out.push(((id.asset_index >> 40) & 0xFF) as u8);
    out.push(((id.asset_index >> 48) & 0xFF) as u8);
    out.push(((id.asset_index >> 56) & 0xFF) as u8);
    proof {
        assert(out@ =~= encode_spec(*id));
    }
    out
}

/// Deserializes an identifier from untrusted bytes.
///
/// Fails with [`AssetError::MalformedAssetIdentifier`] when the input is
/// not exactly 13 bytes long or when the decoded type tag lies outside the
/// closed tag set.
pub fn decode_asset_id(bytes: &Vec<u8>) -> (r: Result<AssetId, AssetError>)
    ensures
        r == decode_spec(bytes@),
{
    if bytes.len() != 13 {
        return Err(AssetError::MalformedAssetIdentifier);
    }
    let chain_id: u32 = (bytes[0] as u32) | ((bytes[1] as u32) << 8) | ((bytes[2] as u32) << 16)
        | ((bytes[3] as u32) << 24);
    let asset_type: u8 = bytes[4];
    let asset_index: u64 = (bytes[5] as u64) | ((bytes[6] as u64) << 8) | ((bytes[7] as u64) << 16)
        | ((bytes[8] as u64) << 24) | ((bytes[9] as u64) << 32) | ((bytes[10] as u64) << 40)
        | ((bytes[11] as u64) << 48) | ((bytes[12] as u64) << 56);
    let id = AssetId { chain_id, asset_type, asset_index };
    if id.is_valid() {
        Ok(id)
    } else {
        Err(AssetError::MalformedAssetIdentifier)
    }
}

/// Round trip: a well-formed identifier decodes back from its own
/// encoding.
pub proof fn lemma_wire_round_trip(id: AssetId)
    requires
        id.is_valid_spec(),
    ensures
        decode_spec(encode_spec(id)) == Ok::<AssetId, AssetError>(id),
{
    let c = id.chain_id;
    assert(((c & 0xFF) as u8 as u32) | ((((c >> 8) & 0xFF) as u8 as u32) << 8)
        | ((((c >> 16) & 0xFF) as u8 as u32) << 16) | ((((c >> 24) & 0xFF) as u8 as u32) << 24)
        == c) by (bit_vector);
    let x = id.asset_index;
    assert(((x & 0xFF) as u8 as u64) | ((((x >> 8) & 0xFF) as u8 as u64) << 8)
        | ((((x >> 16) & 0xFF) as u8 as u64) << 16) | ((((x >> 24) & 0xFF) as u8 as u64) << 24)
        | ((((x >> 32) & 0xFF) as u8 as u64) << 32) | ((((x >> 40) & 0xFF) as u8 as u64) << 40)
        | ((((x >> 48) & 0xFF) as u8 as u64) << 48) | ((((x >> 56) & 0xFF) as u8 as u64) << 56)
        == x) by (bit_vector);
}

} // verus!
