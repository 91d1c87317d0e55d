use ckb_types::prelude::{Builder, Entity, Pack, Unpack};
use trampoline_sdk::types::script::{Script, ScriptError, ScriptHashType};

#[test]
fn default_script_is_valid() {
    let script = Script::default();
    assert_eq!(script.code_hash(), [0u8; 32]);
    assert_eq!(script.hash_type_raw(), ScriptHashType::Data);
    assert!(script.args().is_empty());
    assert!(matches!(script.validate(), Ok(h) if h == script.calc_script_hash()));
}

#[test]
fn stale_hash_is_reported() {
    let mut script = Script::new([7u8; 32], ScriptHashType::Data1, vec![1, 2, 3]);
    let recorded = script.calc_script_hash();
    script.set_args(vec![4, 5]);
    let fresh = script.calc_script_hash();
    assert_ne!(recorded, fresh);
    match script.validate() {
        Err(ScriptError::MismatchedScriptHash(calc, stored)) => {
            assert_eq!(calc, fresh);
            assert_eq!(stored, recorded);
        }
        _ => panic!("a stale hash must be reported"),
    }
}

#[test]
fn script_hash_is_the_hash_of_the_packed_script() {
    let script = Script::new([7u8; 32], ScriptHashType::Data1, vec![1, 2, 3]);
    let packed = ckb_types::packed::Script::new_builder()
        .code_hash([7u8; 32].pack())
        .hash_type(ckb_types::core::ScriptHashType::Data1.into())
        .args(vec![1u8, 2, 3].pack())
        .build();
    let expected: [u8; 32] = packed.calc_script_hash().unpack();
    assert_eq!(script.calc_script_hash(), expected);
    assert_eq!(script.calc_script_hash(), ckb_hash::blake2b_256(packed.as_slice()));
    assert_eq!(script.packed(), packed.as_slice().to_vec());
    assert_eq!(script.calc_script_hash(), ckb_hash::blake2b_256(script.packed()));
    assert_ne!(script.calc_script_hash(), [7u8; 32]);
    let by_type = Script::new([7u8; 32], ScriptHashType::Type, vec![1, 2, 3]);
    assert_ne!(by_type.calc_script_hash(), expected);
}

#[test]
fn script_size_counts_arguments_code_hash_and_hash_type() {
    let script = Script::new([7u8; 32], ScriptHashType::Data, vec![1, 2, 3]);
    assert_eq!(script.size_bytes(), 36);
    assert!(matches!(script.required_capacity(), Ok(c) if c == 3_600_000_000));
    let empty = Script::default();
    assert_eq!(empty.size_bytes(), 33);
    assert!(matches!(empty.required_capacity(), Ok(c) if c == 3_300_000_000));
}

#[test]
fn script_getters_hand_out_the_parts() {
    let script = Script::new([9u8; 32], ScriptHashType::Type, vec![4, 5]);
    assert_eq!(script.code_hash(), [9u8; 32]);
    assert_eq!(script.hash_type_raw(), ScriptHashType::Type);
    assert_eq!(script.hash_type_json(), "type");
    assert_eq!(Script::new([0u8; 32], ScriptHashType::Data, vec![]).hash_type_json(), "data");
    assert_eq!(Script::new([0u8; 32], ScriptHashType::Data1, vec![]).hash_type_json(), "data1");
    assert_eq!(script.args(), vec![4, 5]);
    assert_eq!(script.args_raw(), vec![4, 5]);
    assert_eq!(script.args_json().into_bytes(), vec![4, 5]);
    assert_eq!(script.args_packed(), vec![2, 0, 0, 0, 4, 5]);
    let copy = script.clone();
    assert_eq!(copy, script);
}

#[test]
fn hash_types_stand_for_their_bytes() {
    assert_eq!(ScriptHashType::Data.to_byte(), 0);
    assert_eq!(ScriptHashType::Type.to_byte(), 1);
    assert_eq!(ScriptHashType::Data1.to_byte(), 2);
    assert_eq!(ScriptHashType::from_byte(0), Some(ScriptHashType::Data));
    assert_eq!(ScriptHashType::from_byte(1), Some(ScriptHashType::Type));
    assert_eq!(ScriptHashType::from_byte(2), Some(ScriptHashType::Data1));
    assert_eq!(ScriptHashType::from_byte(3), None);
    assert!(ScriptHashType::Data.is_by_content());
    assert!(ScriptHashType::Data1.is_by_content());
    assert!(!ScriptHashType::Type.is_by_content());
}

#[test]
fn set_args_keeps_the_recorded_hash() {
    let mut script = Script::new([7u8; 32], ScriptHashType::Data1, vec![1]);
    assert!(script.validate().is_ok());
    let recorded = script.script_hash;
    script.set_args(vec![2]);
    assert_eq!(script.script_hash, recorded);
    assert_eq!(script.args(), vec![2]);
    assert!(script.validate().is_err());
}

#[test]
fn serialised_script_lays_out_its_parts() {
    let script = Script::new([0xABu8; 32], ScriptHashType::Type, vec![9, 8]);
    let mut expected = vec![55, 0, 0, 0, 16, 0, 0, 0, 48, 0, 0, 0, 49, 0, 0, 0];
    expected.extend_from_slice(&[0xABu8; 32]);
    expected.push(1);
    expected.extend_from_slice(&[2, 0, 0, 0, 9, 8]);
    assert_eq!(script.packed(), expected);
    let long = Script::new([1u8; 32], ScriptHashType::Data, vec![7u8; 300]);
    let packed = ckb_types::packed::Script::new_builder()
        .code_hash([1u8; 32].pack())
        .hash_type(ckb_types::core::ScriptHashType::Data.into())
        .args(vec![7u8; 300].pack())
        .build();
    assert_eq!(long.packed(), packed.as_slice().to_vec());
    let empty = Script::default();
    let packed = ckb_types::packed::Script::default();
    assert_eq!(empty.packed(), packed.as_slice().to_vec());
    let expected: [u8; 32] = packed.calc_script_hash().unpack();
    assert_eq!(empty.calc_script_hash(), expected);
}
