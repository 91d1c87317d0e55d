use crate::contract::schema::{
    Byte32, Bytes, BytesConversion, JsonByteConversion, JsonBytes, MolConversion,
    SchemaDecodeError, SchemaPrimitiveType,
};
use crate::contract::Contract;
use vstd::prelude::*;

verus! {

/// Number of bytes of a token on chain: its two ids.
pub const NFT_SIZE: usize = 64;

/// What gives a token's content its id.
pub trait NftContentHasher {
    fn hash(content: &[u8]) -> [u8; 32];
}

/// The id of the first issue of a token.
pub type GenesisId = SchemaPrimitiveType<[u8; 32], Byte32>;

/// The id of a token's content.
pub type ContentId = SchemaPrimitiveType<[u8; 32], Byte32>;

/// A non-fungible token: the id of its first issue and the id of its
/// content.
#[derive(Debug)]
pub struct TrampolineNFT {
    pub genesis_id: GenesisId,
    pub cid: ContentId,
}

impl Clone for TrampolineNFT {
    fn clone(&self) -> (copy: TrampolineNFT)
        ensures
            copy.genesis_id.inner == self.genesis_id.inner,
            copy.cid.inner == self.cid.inner,
    {
        TrampolineNFT { genesis_id: self.genesis_id.clone(), cid: self.cid.clone() }
    }
}

impl Default for TrampolineNFT {
    /// The token whose ids are all zero.
    fn default() -> (nft: TrampolineNFT)
        ensures
            nft.genesis_id.inner == crate::hashing::zero_hash(),
            nft.cid.inner == crate::hashing::zero_hash(),
    {
        TrampolineNFT {
            genesis_id: GenesisId::new(crate::hashing::zero()),
            cid: ContentId::new(crate::hashing::zero()),
        }
    }
}

/// The 32 bytes of `bytes` from place `start` on.
fn read_id(bytes: &Vec<u8>, start: usize) -> (id: [u8; 32])
    requires
        start + 32 <= bytes@.len(),
    ensures
        id@ == bytes@.subrange(start as int, start + 32),
{
    let mut id = [0u8; 32];
    let total = bytes.len();
    let mut i: usize = 0;
    while i < 32
        invariant
            i <= 32,
            start + 32 <= total == bytes@.len(),
            forall|j: int| 0 <= j < i ==> id@[j] == bytes@[start + j],
        decreases 32 - i,
    {
        id[i] = bytes[start + i];
        i += 1;
    }
    assert(id@ =~= bytes@.subrange(start as int, start + 32));
    id
}

/// Appends the 32 bytes of `id` to `bytes`.
fn write_id(bytes: &mut Vec<u8>, id: &[u8; 32])
    ensures
        final(bytes)@ == old(bytes)@ + id@,
{
    let mut i: usize = 0;
    while i < 32
        invariant
            i <= 32,
            bytes@ == old(bytes)@ + id@.take(i as int),
        decreases 32 - i,
    {
        bytes.push(id[i]);
        assert(bytes@ =~= old(bytes)@ + id@.take(i + 1));
        i += 1;
    }
    assert(id@.take(32) =~= id@);
}

impl BytesConversion for TrampolineNFT {
    /// On chain a token is the id of its first issue followed by the id of
    /// its content.
    open spec fn encoding(&self) -> Seq<u8> {
        self.genesis_id.inner@ + self.cid.inner@
    }

    open spec fn well_shaped(bytes: Seq<u8>) -> bool {
        bytes.len() == NFT_SIZE
    }

    fn from_bytes(bytes: Vec<u8>) -> (value: Result<TrampolineNFT, SchemaDecodeError>) {
        if bytes.len() != NFT_SIZE {
            return Err(SchemaDecodeError::Length(NFT_SIZE, bytes.len()));
        }
        let genesis_id = read_id(&bytes, 0);
        let cid = read_id(&bytes, 32);
        assert(genesis_id@ + cid@ =~= bytes@);
        Ok(TrampolineNFT { genesis_id: GenesisId::new(genesis_id), cid: ContentId::new(cid) })
    }

    fn to_bytes(&self) -> (bytes: Vec<u8>) {
        let mut bytes: Vec<u8> = Vec::new();
        write_id(&mut bytes, &self.genesis_id.inner);
        write_id(&mut bytes, &self.cid.inner);
        assert(bytes@ =~= self.encoding());
        bytes
    }
}

impl JsonByteConversion for TrampolineNFT {
    fn to_json_bytes(&self) -> (json: JsonBytes)
        ensures
            json.bytes@ == self.encoding(),
    {
        JsonBytes::from_bytes(self.to_bytes())
    }

    fn from_json_bytes(bytes: JsonBytes) -> (value: Result<TrampolineNFT, SchemaDecodeError>)
        ensures
            value is Ok <==> Self::well_shaped(bytes.bytes@),
            value is Ok ==> value->Ok_0.encoding() == bytes.bytes@,
    {
        Self::from_bytes(bytes.into_bytes())
    }
}

impl MolConversion for TrampolineNFT {
    type MolType = Vec<u8>;

    fn to_mol(&self) -> (entity: Vec<u8>)
        ensures
            entity@ == self.encoding(),
    {
        self.to_bytes()
    }

    fn from_mol(entity: Vec<u8>) -> (value: Result<TrampolineNFT, SchemaDecodeError>)
        ensures
            value is Ok <==> Self::well_shaped(entity@),
            value is Ok ==> value->Ok_0.encoding() == entity@,
    {
        Self::from_bytes(entity)
    }
}

/// The contract of a non-fungible token.
pub type TrampolineNFTContract = Contract<SchemaPrimitiveType<Vec<u8>, Bytes>, TrampolineNFT>;

} // verus!
