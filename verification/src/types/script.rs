use crate::bytes::{clone_bytes, same_hash};
use crate::hashing::{calc_script_hash, packed_script_hash};
use vstd::prelude::*;

verus! {

/// Number of bytes of a script's code hash.
pub const CODE_HASH_SIZE_BYTES: usize = 32;

/// Number of capacity units that one byte of a cell occupies.
pub const BYTE_SHANNONS: u64 = 100_000_000;

#[verifier::external_type_specification]
#[verifier::external_body]
pub struct ExCapacityError(ckb_types::core::CapacityError);

/// How a script's code hash finds the code that it runs.
#[derive(Clone, Copy, Debug, PartialEq, Eq, Hash, Structural)]
pub enum ScriptHashType {
    /// By the content hash of the code cell's data.
    Data,
    /// By the hash of the code cell's type script.
    Type,
    /// By the content hash of the code cell's data, run by the newer machine.
    Data1,
}

impl ScriptHashType {
    /// The byte that stands for this hash type in a serialised script.
    pub open spec fn byte(self) -> u8 {
        match self {
            ScriptHashType::Data => 0,
            ScriptHashType::Type => 1,
            ScriptHashType::Data1 => 2,
        }
    }

    /// Whether scripts of this hash type name their code by its content hash.
    pub open spec fn by_content(self) -> bool {
        self != ScriptHashType::Type
    }

    pub fn to_byte(&self) -> (byte: u8)
        ensures
            byte == self.byte(),
    {
        match self {
            ScriptHashType::Data => 0,
            ScriptHashType::Type => 1,
            ScriptHashType::Data1 => 2,
        }
    }

    /// The hash type that `byte` stands for, if any.
    pub fn from_byte(byte: u8) -> (hash_type: Option<ScriptHashType>)
        ensures
            match hash_type {
                Some(t) => t.byte() == byte,
                None => byte > 2,
            },
    {
        if byte == 0 {
            Some(ScriptHashType::Data)
        } else if byte == 1 {
            Some(ScriptHashType::Type)
        } else if byte == 2 {
            Some(ScriptHashType::Data1)
        } else {
            None
        }
    }

    /// The name of this hash type in a JSON document.
    pub open spec fn json_name(self) -> Seq<char> {
        match self {
            ScriptHashType::Data => "data"@,
            ScriptHashType::Type => "type"@,
            ScriptHashType::Data1 => "data1"@,
        }
    }

    pub fn is_by_content(&self) -> (by_content: bool)
        ensures
            by_content == self.by_content(),
    {
        match self {
            ScriptHashType::Type => false,
            _ => true,
        }
    }
}

/// Why a script was refused.
pub enum ScriptError {
    /// The capacity that the script occupies does not fit the capacity type.
    ScriptCapacityError(ckb_types::core::CapacityError),
    /// The hash computed from the script (first) differs from the hash stored
    /// with it (second).
    MismatchedScriptHash([u8; 32], [u8; 32]),
}

/// A script: the hash that names its code, how that hash is to be read, its
/// arguments, and the script hash recorded when it was made.
#[derive(Debug, PartialEq, Eq)]
pub struct Script {
    pub args: Vec<u8>,
    pub code_hash: [u8; 32],
    pub hash_type: ScriptHashType,
    pub script_hash: [u8; 32],
}

/// The mathematical value of a [`Script`].
pub struct ScriptView {
    pub args: Seq<u8>,
    pub code_hash: [u8; 32],
    pub hash_type: ScriptHashType,
    pub script_hash: [u8; 32],
}

impl ScriptView {
    /// The serialised form of the script. The recorded hash is no part of
    /// it.
    pub open spec fn packed(self) -> Seq<u8> {
        crate::hashing::packed_script(self.code_hash, self.hash_type.byte(), self.args)
    }

    /// The script hash: the digest of the script's serialised form.
    pub open spec fn hash(self) -> [u8; 32] {
        packed_script_hash(self.code_hash, self.hash_type.byte(), self.args)
    }

    /// Whether the recorded hash is the script's hash.
    pub open spec fn valid(self) -> bool {
        self.script_hash == self.hash()
    }

    /// Bytes that the script occupies in a cell: arguments, code hash and
    /// the hash type's one byte.
    pub open spec fn size_bytes(self) -> int {
        self.args.len() + CODE_HASH_SIZE_BYTES + 1
    }
}

impl View for Script {
    type V = ScriptView;

    open spec fn view(&self) -> ScriptView {
        ScriptView {
            args: self.args@,
            code_hash: self.code_hash,
            hash_type: self.hash_type,
            script_hash: self.script_hash,
        }
    }
}

impl Clone for Script {
    fn clone(&self) -> (copy: Script)
        ensures
            copy@ == self@,
    {
        Script {
            args: clone_bytes(&self.args),
            code_hash: self.code_hash,
            hash_type: self.hash_type,
            script_hash: self.script_hash,
        }
    }
}

/// Calls `ckb_types::core::Capacity::bytes`, which multiplies the number of
/// bytes by the capacity of one byte and fails where the product overflows
/// 64 bits; the capacity is handed back as its number of units.
#[verifier::external_body]
pub(crate) fn capacity_of_bytes(bytes: usize) -> (capacity: Result<
    u64,
    ckb_types::core::CapacityError,
>)
    ensures
        capacity is Ok <==> bytes * BYTE_SHANNONS <= u64::MAX,
        capacity is Ok ==> capacity->Ok_0 == bytes * BYTE_SHANNONS,
{
    match ckb_types::core::Capacity::bytes(bytes) {
        Ok(capacity) => Ok(capacity.as_u64()),
        Err(e) => Err(e),
    }
}

impl Script {
    /// A script of the three parts, with its hash recorded.
    pub fn new(code_hash: [u8; 32], hash_type: ScriptHashType, args: Vec<u8>) -> (script: Script)
        ensures
            script@.code_hash == code_hash,
            script@.hash_type == hash_type,
            script@.args == args@,
            script@.valid(),
    {
        let script_hash = calc_script_hash(&code_hash, hash_type.to_byte(), args.as_slice());
        Script { args, code_hash, hash_type, script_hash }
    }

    /// Replaces the arguments. The recorded hash stays as it was.
    pub fn set_args(&mut self, args: Vec<u8>)
        ensures
            final(self)@ == (ScriptView { args: args@, ..old(self)@ }),
    {
        self.args = args;
    }

    pub fn size_bytes(&self) -> (size: usize)
        requires
            self@.size_bytes() <= usize::MAX,
        ensures
            size == self@.size_bytes(),
    {
        self.args.len() + CODE_HASH_SIZE_BYTES + 1
    }

    pub fn calc_script_hash(&self) -> (hash: [u8; 32])
        ensures
            hash == self@.hash(),
    {
        calc_script_hash(&self.code_hash, self.hash_type.to_byte(), self.args.as_slice())
    }

    /// Checks the recorded hash against the script's hash.
    pub fn validate(&self) -> (checked: Result<[u8; 32], ScriptError>)
        ensures
            self@.valid() ==> checked == Ok::<[u8; 32], ScriptError>(self@.hash()),
            !self@.valid() ==> checked == Err::<[u8; 32], ScriptError>(
                ScriptError::MismatchedScriptHash(self@.hash(), self@.script_hash),
            ),
    {
        let calc_hash = self.calc_script_hash();
        if same_hash(&calc_hash, &self.script_hash) {
            Ok(calc_hash)
        } else {
            Err(ScriptError::MismatchedScriptHash(calc_hash, self.script_hash))
        }
    }

    /// The capacity that the script occupies.
    pub fn required_capacity(&self) -> (capacity: Result<u64, ScriptError>)
        requires
            self@.size_bytes() <= usize::MAX,
        ensures
            capacity is Ok <==> self@.size_bytes() * BYTE_SHANNONS <= u64::MAX,
            capacity is Ok ==> capacity->Ok_0 == self@.size_bytes() * BYTE_SHANNONS,
            capacity is Err ==> capacity->Err_0 is ScriptCapacityError,
    {
        match capacity_of_bytes(self.size_bytes()) {
            Ok(capacity) => Ok(capacity),
            Err(e) => Err(ScriptError::ScriptCapacityError(e)),
        }
    }

    pub fn code_hash(&self) -> (code_hash: [u8; 32])
        ensures
            code_hash == self@.code_hash,
    {
        self.code_hash
    }

    /// The name of the hash type as it stands in a JSON document.
    pub fn hash_type_json(&self) -> (name: &'static str)
        ensures
            name@ == self@.hash_type.json_name(),
    {
        match self.hash_type {
            ScriptHashType::Data => "data",
            ScriptHashType::Type => "type",
            ScriptHashType::Data1 => "data1",
        }
    }

    pub fn hash_type_raw(&self) -> (hash_type: ScriptHashType)
        ensures
            hash_type == self@.hash_type,
    {
        self.hash_type
    }

    pub fn args(&self) -> (args: Vec<u8>)
        ensures
            args@ == self@.args,
    {
        clone_bytes(&self.args)
    }
}

impl Script {
    /// The arguments as they stand in a JSON document.
    pub fn args_json(&self) -> (args: crate::contract::schema::JsonBytes)
        ensures
            args.bytes@ == self@.args,
    {
        crate::contract::schema::JsonBytes::from_bytes(clone_bytes(&self.args))
    }

    pub fn args_raw(&self) -> (args: Vec<u8>)
        ensures
            args@ == self@.args,
    {
        clone_bytes(&self.args)
    }

    /// The arguments in their serialised form.
    pub fn args_packed(&self) -> (args: Vec<u8>)
        ensures
            args@ == crate::hashing::packed_bytes(self@.args),
    {
        crate::contract::schema::pack_bytes(self.args.as_slice())
    }

    /// The script in its serialised form, of which the script hash is the
    /// digest.
    pub fn packed(&self) -> (bytes: Vec<u8>)
        requires
            self@.args.len() + 53 <= u32::MAX,
        ensures
            bytes@ == self@.packed(),
    {
        let args = self.args_packed();
        proof {
            vstd::bytes::lemma_auto_spec_u32_to_from_le_bytes();
            assert(args@.len() == self@.args.len() + 4);
        }
        let mut bytes = vstd::bytes::u32_to_le_bytes(49 + args.len() as u32);
        let mut first = vstd::bytes::u32_to_le_bytes(16);
        let mut second = vstd::bytes::u32_to_le_bytes(48);
        let mut third = vstd::bytes::u32_to_le_bytes(49);
        bytes.append(&mut first);
        bytes.append(&mut second);
        bytes.append(&mut third);
        let mut i: usize = 0;
        let ghost head = bytes@;
        while i < 32
            invariant
                i <= 32,
                bytes@ == head + self.code_hash@.take(i as int),
            decreases 32 - i,
        {
            bytes.push(self.code_hash[i]);
            assert(bytes@ =~= head + self.code_hash@.take(i + 1));
            i += 1;
        }
        assert(self.code_hash@.take(32) =~= self.code_hash@);
        bytes.push(self.hash_type.to_byte());
        let mut args = args;
        bytes.append(&mut args);
        assert(bytes@ =~= self@.packed());
        bytes
    }
}

impl Default for Script {
    /// The script with a zero code hash, hash type `Data` and no arguments.
    fn default() -> (script: Script)
        ensures
            script@.code_hash == crate::hashing::zero_hash(),
            script@.hash_type == ScriptHashType::Data,
            script@.args == Seq::<u8>::empty(),
            script@.valid(),
    {
        Script::new(crate::hashing::zero(), ScriptHashType::Data, Vec::new())
    }
}

} // verus!
