//! Byte-level derivations: the storage key under which the assets registry
//! keeps an asset's record, and the account that the market maker holds its
//! funds in.
use vstd::prelude::*;
use parity_scale_codec::Encode;
use sp_runtime::traits::AccountIdConversion;
use crate::types::{AccountId, AssetId};

verus! {

/// The 128-bit xxHash digest of some bytes, as `sp_crypto_hashing::twox_128`
/// computes it.
pub uninterp spec fn twox_128_of(data: Seq<u8>) -> Seq<u8>;

/// The 128-bit BLAKE2b digest of some bytes, as
/// `sp_crypto_hashing::blake2_128` computes it.
pub uninterp spec fn blake2_128_of(data: Seq<u8>) -> Seq<u8>;

/// Calls `sp_crypto_hashing::twox_128`, which returns the 16-byte digest
/// made of xxHash64 with seeds 0 and 1, each written little-endian. The
/// contract names the digest and says no more of it.
#[verifier::external_body]
fn twox_128(data: &[u8]) -> (digest: [u8; 16])
    ensures
        digest@ == twox_128_of(data@),
{
    sp_crypto_hashing::twox_128(data)
}

/// Calls `sp_crypto_hashing::blake2_128`, which returns the 16-byte
/// BLAKE2b digest of `data`. The contract names the digest and says no more
/// of it.
#[verifier::external_body]
fn blake2_128(data: &[u8]) -> (digest: [u8; 16])
    ensures
        digest@ == blake2_128_of(data@),
{
    sp_crypto_hashing::blake2_128(data)
}

/// The SCALE encoding of a `u32`: its four bytes, least significant first.
pub open spec fn le_bytes_u32(x: u32) -> Seq<u8> {
    seq![
        (x % 0x100) as u8,
        ((x / 0x100) % 0x100) as u8,
        ((x / 0x1_0000) % 0x100) as u8,
        ((x / 0x100_0000) % 0x100) as u8,
    ]
}

/// The number that eight bytes denote when read least significant first.
pub open spec fn le_value_u64(b: Seq<u8>) -> int {
    b[0] as int + b[1] as int * 0x100 + b[2] as int * 0x1_0000 + b[3] as int * 0x100_0000
        + b[4] as int * 0x1_0000_0000 + b[5] as int * 0x100_0000_0000
        + b[6] as int * 0x1_0000_0000_0000 + b[7] as int * 0x100_0000_0000_0000
}

/// Calls `Encode::encode` of `parity_scale_codec` on a `u32`, which writes
/// the four little-endian bytes of the number.
#[verifier::external_body]
fn encode_u32(x: &u32) -> (bytes: Vec<u8>)
    ensures
        bytes@ == le_bytes_u32(*x),
{
    x.encode()
}

/// Appends the bytes of `s` to `v`.
fn append_bytes(v: &mut Vec<u8>, s: &[u8])
    ensures
        final(v)@ == old(v)@ + s@,
{
    let mut i: usize = 0;
    while i < s.len()
        invariant
            i <= s@.len(),
            v@ == old(v)@ + s@.subrange(0, i as int),
        decreases s@.len() - i,
    {
        v.push(s[i]);
        i = i + 1;
        assert(v@ =~= old(v)@ + s@.subrange(0, i as int));
    }
    assert(s@.subrange(0, s@.len() as int) =~= s@);
}

/// The name under which the assets registry is kept ("Assets").
pub open spec fn assets_pallet_name() -> Seq<u8> {
    seq![0x41u8, 0x73, 0x73, 0x65, 0x74, 0x73]
}

/// The name of the registry's map of asset records ("Asset").
pub open spec fn asset_storage_name() -> Seq<u8> {
    seq![0x41u8, 0x73, 0x73, 0x65, 0x74]
}

/// The storage key of an asset's record: the hashed registry name, the hashed
/// map name, then the asset id hashed with BLAKE2-128 and followed by the id
/// itself.
pub open spec fn asset_details_key_spec(asset: AssetId) -> Seq<u8> {
    twox_128_of(assets_pallet_name()) + twox_128_of(asset_storage_name()) + blake2_128_of(
        le_bytes_u32(asset),
    ) + le_bytes_u32(asset)
}

/// The storage key under which the assets registry keeps the record of
/// `asset`.
pub fn asset_details_key(asset: AssetId) -> (key: Vec<u8>)
    ensures
        key@ == asset_details_key_spec(asset),
{
    let pallet_name: Vec<u8> = vec![0x41u8, 0x73, 0x73, 0x65, 0x74, 0x73];
    let storage_name: Vec<u8> = vec![0x41u8, 0x73, 0x73, 0x65, 0x74];
    assert(pallet_name@ =~= assets_pallet_name());
    assert(storage_name@ =~= asset_storage_name());
    let pallet_hash = twox_128(pallet_name.as_slice());
    let storage_hash = twox_128(storage_name.as_slice());
    let encoded = encode_u32(&asset);
    let key_hash = blake2_128(encoded.as_slice());
    let mut key: Vec<u8> = Vec::new();
    append_bytes(&mut key, &pallet_hash);
    append_bytes(&mut key, &storage_hash);
    append_bytes(&mut key, &key_hash);
    append_bytes(&mut key, encoded.as_slice());
    assert(key@ =~= asset_details_key_spec(asset));
    key
}

/// The four bytes ("modl") that mark an account derived from a pallet id.
pub open spec fn pallet_type_id() -> Seq<u8> {
    seq![0x6du8, 0x6f, 0x64, 0x6c]
}

/// The account derived from a pallet id: the marker and the id, read as a
/// little-endian account number (of which the first eight bytes count).
pub open spec fn pallet_account_spec(pallet_id: Seq<u8>) -> int {
    le_value_u64(pallet_type_id() + pallet_id)
}

/// Calls `AccountIdConversion::into_account_truncating` of `sp_runtime` on
/// `frame_support::PalletId`, with a `u64` account: it encodes the type id
/// "modl" followed by the eight bytes of the id, and decodes an account from
/// those bytes padded with zeros, which for a `u64` reads the first eight
/// bytes little-endian and cannot fail.
#[verifier::external_body]
pub(crate) fn pallet_account(pallet_id: &[u8; 8]) -> (account: AccountId)
    ensures
        account == pallet_account_spec(pallet_id@),
{
    frame_support::PalletId(*pallet_id).into_account_truncating()
}

} // verus!
