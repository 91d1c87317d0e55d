use crate::bytes::clone_bytes;
use ckb_types::packed;
use ckb_types::prelude::{Entity, Pack, Unpack};
use std::marker::PhantomData;
use vstd::bytes::{
    lemma_auto_spec_u32_to_from_le_bytes, spec_u128_to_le_bytes, spec_u32_from_le_bytes,
    spec_u32_to_le_bytes,
};
use vstd::prelude::*;

verus! {

#[verifier::external_type_specification]
#[verifier::external_body]
pub struct ExMoleculeError(ckb_types::error::VerificationError);

/// Why bytes could not be read as a value of a schema.
#[derive(Debug)]
pub enum SchemaDecodeError {
    /// The bytes do not have the shape of the wire form.
    Shape(ckb_types::error::VerificationError),
    /// The bytes have another length than the schema's.
    Length(usize, usize),
}

/// Bytes as they stand in a JSON document.
#[derive(Debug)]
pub struct JsonBytes {
    pub bytes: Vec<u8>,
}

impl JsonBytes {
    pub fn from_bytes(bytes: Vec<u8>) -> (json: JsonBytes)
        ensures
            json.bytes == bytes,
    {
        JsonBytes { bytes }
    }

    pub fn into_bytes(self) -> (bytes: Vec<u8>)
        ensures
            bytes == self.bytes,
    {
        self.bytes
    }
}

/// Conversion between a value and its on-chain bytes. The bytes of a value
/// are read back as a value with the same bytes. Unless an implementation
/// says otherwise, its contract is that it has no bytes and reads none.
pub trait BytesConversion: Sized {
    /// The on-chain bytes of the value.
    open spec fn encoding(&self) -> Seq<u8> {
        Seq::empty()
    }

    /// Whether `bytes` have the shape of a value.
    open spec fn well_shaped(bytes: Seq<u8>) -> bool {
        false
    }

    fn from_bytes(bytes: Vec<u8>) -> (value: Result<Self, SchemaDecodeError>)
        ensures
            value is Ok <==> Self::well_shaped(bytes@),
            value is Ok ==> value->Ok_0.encoding() == bytes@,
    ;

    fn to_bytes(&self) -> (bytes: Vec<u8>)
        ensures
            bytes@ == self.encoding(),
    ;
}

/// Conversion between a value and the bytes that stand for it in JSON.
pub trait JsonByteConversion: Sized {
    fn to_json_bytes(&self) -> JsonBytes;

    fn from_json_bytes(bytes: JsonBytes) -> Result<Self, SchemaDecodeError>;
}

/// Conversion between a value and its JSON form.
pub trait JsonConversion: Sized {
    type JsonType;

    fn to_json(&self) -> Self::JsonType;

    fn from_json(json: Self::JsonType) -> Result<Self, SchemaDecodeError>;
}

/// Conversion between a value and its wire form.
pub trait MolConversion: Sized {
    type MolType;

    fn to_mol(&self) -> Self::MolType;

    fn from_mol(entity: Self::MolType) -> Result<Self, SchemaDecodeError>;
}

/// A wire form of values of `T`: how a value is packed into bytes, and how
/// bytes of the right shape are unpacked. Packing what was unpacked gives
/// the bytes back.
pub trait WireForm<T>: Sized {
    /// The bytes that `value` packs into.
    spec fn wire(value: &T) -> Seq<u8>;

    /// Whether `bytes` have the shape of the wire form.
    spec fn shaped(bytes: Seq<u8>) -> bool;

    fn pack(value: &T) -> (bytes: Vec<u8>)
        ensures
            bytes@ == Self::wire(value),
    ;

    fn unpack(bytes: &[u8]) -> (value: Result<T, SchemaDecodeError>)
        ensures
            value is Ok <==> Self::shaped(bytes@),
            value is Ok ==> Self::wire(&value->Ok_0) == bytes@,
    ;
}

/// The wire form of a 128-bit number: sixteen bytes, lowest first.
#[derive(Clone, Copy, Debug, Default)]
pub struct Uint128;

/// The wire form of a 32-byte value: the bytes themselves.
#[derive(Clone, Copy, Debug, Default)]
pub struct Byte32;

/// The wire form of a byte string: its length as four bytes, lowest first,
/// then the bytes.
#[derive(Clone, Copy, Debug, Default)]
pub struct Bytes;

/// Packs with `ckb_types`' `Pack<packed::Uint128>`, which lays the number
/// out in sixteen bytes, lowest first.
#[verifier::external_body]
pub(crate) fn pack_u128(value: u128) -> (bytes: Vec<u8>)
    ensures
        bytes@ == spec_u128_to_le_bytes(value),
{
    Pack::<packed::Uint128>::pack(&value).as_slice().to_vec()
}

/// Reads with `packed::Uint128::from_compatible_slice`, which takes exactly
/// sixteen bytes, and unpacks them as a number, lowest byte first.
#[verifier::external_body]
pub(crate) fn unpack_u128(bytes: &[u8]) -> (value: Result<u128, ckb_types::error::VerificationError>)
    ensures
        value is Ok <==> bytes@.len() == 16,
        value is Ok ==> spec_u128_to_le_bytes(value->Ok_0) == bytes@,
{
    match packed::Uint128::from_compatible_slice(bytes) {
        Ok(entity) => Ok(entity.unpack()),
        Err(e) => Err(e),
    }
}

/// Packs with `ckb_types`' `Pack<packed::Byte32>`, which keeps the 32 bytes
/// as they are.
#[verifier::external_body]
pub(crate) fn pack_byte32(value: &[u8; 32]) -> (bytes: Vec<u8>)
    ensures
        bytes@ == value@,
{
    Pack::<packed::Byte32>::pack(value).as_slice().to_vec()
}

/// Reads with `packed::Byte32::from_compatible_slice`, which takes exactly
/// 32 bytes, and unpacks them as they are.
#[verifier::external_body]
pub(crate) fn unpack_byte32(bytes: &[u8]) -> (value: Result<[u8; 32], ckb_types::error::VerificationError>)
    ensures
        value is Ok <==> bytes@.len() == 32,
        value is Ok ==> value->Ok_0@ == bytes@,
{
    match packed::Byte32::from_compatible_slice(bytes) {
        Ok(entity) => Ok(entity.unpack()),
        Err(e) => Err(e),
    }
}

/// Packs with `ckb_types`' `Pack<packed::Bytes>`, which writes the length,
/// cut to 32 bits, as four bytes, lowest first, and then the bytes.
#[verifier::external_body]
pub(crate) fn pack_bytes(value: &[u8]) -> (bytes: Vec<u8>)
    ensures
        bytes@ == crate::hashing::packed_bytes(value@),
{
    Pack::<packed::Bytes>::pack(value).as_slice().to_vec()
}

/// Reads with `packed::Bytes::from_compatible_slice`, which takes four bytes
/// of length, lowest first, followed by exactly that many bytes, and
/// unpacks the bytes that follow the length.
#[verifier::external_body]
pub(crate) fn unpack_bytes(bytes: &[u8]) -> (value: Result<Vec<u8>, ckb_types::error::VerificationError>)
    ensures
        value is Ok <==> Bytes::shaped(bytes@),
        value is Ok ==> value->Ok_0@ == bytes@.skip(4),
{
    match packed::Bytes::from_compatible_slice(bytes) {
        Ok(entity) => Ok(entity.unpack()),
        Err(e) => Err(e),
    }
}

impl WireForm<u128> for Uint128 {
    open spec fn wire(value: &u128) -> Seq<u8> {
        spec_u128_to_le_bytes(*value)
    }

    open spec fn shaped(bytes: Seq<u8>) -> bool {
        bytes.len() == 16
    }

    fn pack(value: &u128) -> (bytes: Vec<u8>) {
        pack_u128(*value)
    }

    fn unpack(bytes: &[u8]) -> (value: Result<u128, SchemaDecodeError>) {
        match unpack_u128(bytes) {
            Ok(value) => Ok(value),
            Err(e) => Err(SchemaDecodeError::Shape(e)),
        }
    }
}

impl WireForm<[u8; 32]> for Byte32 {
    open spec fn wire(value: &[u8; 32]) -> Seq<u8> {
        value@
    }

    open spec fn shaped(bytes: Seq<u8>) -> bool {
        bytes.len() == 32
    }

    fn pack(value: &[u8; 32]) -> (bytes: Vec<u8>) {
        pack_byte32(value)
    }

    fn unpack(bytes: &[u8]) -> (value: Result<[u8; 32], SchemaDecodeError>) {
        match unpack_byte32(bytes) {
            Ok(value) => Ok(value),
            Err(e) => Err(SchemaDecodeError::Shape(e)),
        }
    }
}

impl WireForm<Vec<u8>> for Bytes {
    open spec fn wire(value: &Vec<u8>) -> Seq<u8> {
        crate::hashing::packed_bytes(value@)
    }

    open spec fn shaped(bytes: Seq<u8>) -> bool {
        bytes.len() >= 4 && bytes.len() == 4 + spec_u32_from_le_bytes(bytes.take(4))
    }

    fn pack(value: &Vec<u8>) -> (bytes: Vec<u8>) {
        pack_bytes(value.as_slice())
    }

    fn unpack(bytes: &[u8]) -> (value: Result<Vec<u8>, SchemaDecodeError>) {
        match unpack_bytes(bytes) {
            Ok(value) => {
                proof {
                    lemma_auto_spec_u32_to_from_le_bytes();
                    let head = bytes@.take(4);
                    assert(value@.len() == spec_u32_from_le_bytes(head));
                    assert(spec_u32_to_le_bytes(spec_u32_from_le_bytes(head)) == head);
                    assert(head + bytes@.skip(4) =~= bytes@);
                }
                Ok(value)
            },
            Err(e) => Err(SchemaDecodeError::Shape(e)),
        }
    }
}

/// A native value bound to the wire form in which it goes on chain.
#[derive(Debug)]
pub struct SchemaPrimitiveType<T, M> {
    pub inner: T,
    pub _entity_type: PhantomData<M>,
}

impl<T, M> SchemaPrimitiveType<T, M> {
    pub fn new(inner: T) -> (value: Self)
        ensures
            value.inner == inner,
    {
        Self { inner, _entity_type: PhantomData::<M> }
    }
}

/// A collection of a fixed number of schema values.
pub struct SchemaFixedCollectionType<T>(pub T);

/// A schema value whose wire form has no fixed size.
pub struct SchemaDynamicSizedType<T, M> {
    pub inner: T,
    pub _entity_type: PhantomData<M>,
}

impl<T, M: WireForm<T>> BytesConversion for SchemaPrimitiveType<T, M> {
    open spec fn encoding(&self) -> Seq<u8> {
        M::wire(&self.inner)
    }

    open spec fn well_shaped(bytes: Seq<u8>) -> bool {
        M::shaped(bytes)
    }

    fn from_bytes(bytes: Vec<u8>) -> (value: Result<Self, SchemaDecodeError>) {
        match M::unpack(bytes.as_slice()) {
            Ok(inner) => Ok(Self { inner, _entity_type: PhantomData::<M> }),
            Err(e) => Err(e),
        }
    }

    fn to_bytes(&self) -> (bytes: Vec<u8>) {
        M::pack(&self.inner)
    }
}

impl<T, M: WireForm<T>> MolConversion for SchemaPrimitiveType<T, M> {
    type MolType = Vec<u8>;

    fn to_mol(&self) -> (entity: Vec<u8>)
        ensures
            entity@ == self.encoding(),
    {
        M::pack(&self.inner)
    }

    fn from_mol(entity: Vec<u8>) -> (value: Result<Self, SchemaDecodeError>)
        ensures
            value is Ok <==> Self::well_shaped(entity@),
            value is Ok ==> value->Ok_0.encoding() == entity@,
    {
        Self::from_bytes(entity)
    }
}

impl<T, M: WireForm<T>> JsonByteConversion for SchemaPrimitiveType<T, M> {
    fn to_json_bytes(&self) -> (json: JsonBytes)
        ensures
            json.bytes@ == self.encoding(),
    {
        JsonBytes::from_bytes(self.to_bytes())
    }

    fn from_json_bytes(bytes: JsonBytes) -> (value: Result<Self, SchemaDecodeError>)
        ensures
            value is Ok <==> Self::well_shaped(bytes.bytes@),
            value is Ok ==> value->Ok_0.encoding() == bytes.bytes@,
    {
        Self::from_bytes(bytes.into_bytes())
    }
}

impl<T, M: WireForm<T>> JsonConversion for SchemaPrimitiveType<T, M> {
    type JsonType = JsonBytes;

    fn to_json(&self) -> (json: JsonBytes)
        ensures
            json.bytes@ == self.encoding(),
    {
        self.to_json_bytes()
    }

    fn from_json(json: JsonBytes) -> (value: Result<Self, SchemaDecodeError>)
        ensures
            value is Ok <==> Self::well_shaped(json.bytes@),
            value is Ok ==> value->Ok_0.encoding() == json.bytes@,
    {
        Self::from_json_bytes(json)
    }
}

impl<T: Copy, M> Clone for SchemaPrimitiveType<T, M> {
    fn clone(&self) -> (copy: Self)
        ensures
            copy.inner == self.inner,
    {
        Self { inner: self.inner, _entity_type: PhantomData::<M> }
    }
}

} // verus!
