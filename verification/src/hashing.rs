use ckb_types::prelude::{Builder, Entity, Pack, Unpack};
use vstd::bytes::spec_u32_to_le_bytes;
use vstd::prelude::*;

verus! {

/// The digest of `data` under the ledger's default hash function: BLAKE2b
/// with a 32-byte output and the ledger's personalisation.
pub uninterp spec fn blake2b_256_digest(data: Seq<u8>) -> [u8; 32];

/// Number of bytes of a serialised script before its arguments: the total
/// size and three offsets, four bytes each, the code hash, and one byte for
/// the hash type.
pub const SCRIPT_HEAD_SIZE: u32 = 49;

/// The serialised form of a byte string: its length, cut to 32 bits, as
/// four bytes, lowest first, and then the bytes.
pub open spec fn packed_bytes(bytes: Seq<u8>) -> Seq<u8> {
    spec_u32_to_le_bytes(bytes.len() as u32) + bytes
}

/// The serialised form of the script made of a code hash, the byte that
/// stands for its hash type, and its arguments: the total size, cut to 32
/// bits; the places at which the three parts start; the code hash; the hash
/// type; and the serialised arguments. Each number is four bytes, lowest
/// first.
pub open spec fn packed_script(code_hash: [u8; 32], hash_type: u8, args: Seq<u8>) -> Seq<u8> {
    spec_u32_to_le_bytes((SCRIPT_HEAD_SIZE + packed_bytes(args).len()) as u32)
        + spec_u32_to_le_bytes(16) + spec_u32_to_le_bytes(48) + spec_u32_to_le_bytes(
        SCRIPT_HEAD_SIZE,
    ) + code_hash@ + seq![hash_type] + packed_bytes(args)
}

/// The hash of a script: the digest of its serialised form.
pub open spec fn packed_script_hash(code_hash: [u8; 32], hash_type: u8, args: Seq<u8>) -> [u8; 32] {
    blake2b_256_digest(packed_script(code_hash, hash_type, args))
}

/// The hash whose bytes are all zero.
pub open spec fn zero_hash() -> [u8; 32] {
    [
        0u8, 0u8, 0u8, 0u8, 0u8, 0u8, 0u8, 0u8, 0u8, 0u8, 0u8, 0u8, 0u8, 0u8, 0u8, 0u8,
        0u8, 0u8, 0u8, 0u8, 0u8, 0u8, 0u8, 0u8, 0u8, 0u8, 0u8, 0u8, 0u8, 0u8, 0u8, 0u8,
    ]
}

/// The content hash of a cell's data: the zero hash for empty data, the
/// digest of the data otherwise.
pub open spec fn data_hash(data: Seq<u8>) -> [u8; 32] {
    if data.len() == 0 {
        zero_hash()
    } else {
        blake2b_256_digest(data)
    }
}

/// Calls `ckb_hash::blake2b_256`. The contract only names the digest: it is
/// a function of the bytes alone.
#[verifier::external_body]
pub(crate) fn blake2b_256(data: &[u8]) -> (digest: [u8; 32])
    ensures
        digest == blake2b_256_digest(data@),
{
    ckb_hash::blake2b_256(data)
}

/// Calls `ckb_types::packed::CellOutput::calc_data_hash`, which returns the
/// zero hash for empty data and the BLAKE2b digest of the data otherwise.
#[verifier::external_body]
pub(crate) fn calc_data_hash(data: &[u8]) -> (hash: [u8; 32])
    ensures
        hash == data_hash(data@),
{
    ckb_types::packed::CellOutput::calc_data_hash(data).unpack()
}

/// Builds a `ckb_types::packed::Script` from the three parts and calls its
/// `calc_script_hash`, which is `ckb_hash::blake2b_256` of the script's
/// serialised form.
#[verifier::external_body]
pub(crate) fn calc_script_hash(code_hash: &[u8; 32], hash_type: u8, args: &[u8]) -> (hash: [u8; 32])
    ensures
        hash == packed_script_hash(*code_hash, hash_type, args@),
{
    ckb_types::packed::Script::new_builder()
        .code_hash(code_hash.pack())
        .hash_type(hash_type.into())
        .args(args.pack())
        .build()
        .calc_script_hash()
        .unpack()
}

/// Fills 32 bytes from `rand::thread_rng`. Nothing is promised of the bytes.
#[verifier::external_body]
pub(crate) fn random_bytes32() -> [u8; 32] {
    let mut buf = [0u8; 32];
    rand::Rng::fill(&mut rand::thread_rng(), &mut buf);
    buf
}

/// The zero hash.
pub fn zero() -> (hash: [u8; 32])
    ensures
        hash == zero_hash(),
{
    let hash = [0u8; 32];
    assert(hash =~= zero_hash());
    hash
}

} // verus!
