use trampoline_sdk::chain::mock_chain::{random_out_point, MockChain, MockChainTxProvider};
use trampoline_sdk::chain::model::{ChainError, VerifierError};
use trampoline_sdk::types::cell::CellOutput;
use trampoline_sdk::types::script::{Script, ScriptHashType};
use trampoline_sdk::types::transaction::Transaction;
use trampoline_sdk::types::{CellDep, CellInput, DepType, HeaderView, OutPoint};

fn data_hash(data: &[u8]) -> [u8; 32] {
    ckb_hash::blake2b_256(data)
}

#[test]
fn it_works() {
    let result = 2 + 2;
    assert_eq!(result, 4);
}

#[test]
fn random_out_point_has_index_zero() {
    let a = random_out_point();
    let b = random_out_point();
    assert_eq!(a.index, 0);
    assert_eq!(b.index, 0);
    assert_ne!(a.tx_hash, b.tx_hash);
}

#[test]
fn deploy_twice_returns_the_same_reference() {
    let mut chain = MockChain::new();
    let code = vec![1u8, 2, 3, 4, 5, 6, 7, 8, 9, 10];
    let first = chain.deploy_cell_with_data(code.clone());
    let cells_after_first = chain.cells.len();
    let second = chain.deploy_cell_with_data(code.clone());
    assert_eq!(first, second);
    assert_eq!(cells_after_first, 1);
    assert_eq!(chain.cells.len(), 1);
}

#[test]
fn deployed_content_is_found_by_its_hash() {
    let mut chain = MockChain::new();
    let code = vec![9u8; 10];
    let out_point = chain.deploy_cell_with_data(code.clone());
    assert_eq!(chain.get_cell_by_data_hash(&data_hash(&code)), Some(out_point));
    assert_eq!(chain.get_cell_by_data_hash(&[0u8; 32]), None);
    let (output, data) = chain.get_cell(&out_point).unwrap();
    assert_eq!(data, code);
    assert_eq!(output.capacity, 10 * 100_000_000);
    let type_script = output.type_.unwrap();
    assert_eq!(type_script.code_hash(), data_hash(&code));
    assert_eq!(type_script.hash_type_raw(), ScriptHashType::Data);
    assert_eq!(output.lock.code_hash(), [0u8; 32]);
}

#[test]
fn empty_content_has_the_zero_hash() {
    let mut chain = MockChain::new();
    let out_point = chain.deploy_cell_with_data(Vec::new());
    assert_eq!(chain.get_cell_by_data_hash(&[0u8; 32]), Some(out_point));
}

#[test]
fn deploy_at_takes_the_first_free_index() {
    let mut chain = MockChain::new();
    let first = chain.deploy_cell_with_data_at(vec![1], [5u8; 32]);
    let second = chain.deploy_cell_with_data_at(vec![2], [5u8; 32]);
    let third = chain.deploy_cell_with_data_at(vec![3], [6u8; 32]);
    assert_eq!(first, OutPoint::new([5u8; 32], 0));
    assert_eq!(second, OutPoint::new([5u8; 32], 1));
    assert_eq!(third, OutPoint::new([6u8; 32], 0));
}

#[test]
fn lock_index_lists_cells_in_order_of_creation() {
    let mut chain = MockChain::new();
    let lock = Script::new([1u8; 32], ScriptHashType::Data1, vec![7]);
    let lock_hash = lock.calc_script_hash();
    let a = chain.create_cell(CellOutput::new(1, lock.clone(), None), vec![1]);
    let b = chain.create_cell(CellOutput::new(2, lock.clone(), None), vec![2]);
    assert_eq!(chain.get_cells_by_lock_hash(lock_hash), Some(vec![a, b]));
    for out_point in chain.get_cells_by_lock_hash(lock_hash).unwrap() {
        let (output, _) = chain.get_cell(&out_point).unwrap();
        assert_eq!(output.calc_lock_hash(), lock_hash);
    }
    assert_eq!(chain.get_cells_by_lock_hash([3u8; 32]), None);
    assert_eq!(chain.get_cells_by_type_hash(lock_hash), None);
}

#[test]
fn type_index_lists_cells_with_that_type_script() {
    let mut chain = MockChain::new();
    let lock = Script::default();
    let type_ = Script::new([2u8; 32], ScriptHashType::Type, vec![]);
    let type_hash = type_.calc_script_hash();
    let a = chain.create_cell(CellOutput::new(1, lock.clone(), Some(type_.clone())), vec![]);
    let _b = chain.create_cell(CellOutput::new(1, lock.clone(), None), vec![]);
    assert_eq!(chain.get_cells_by_type_hash(type_hash), Some(vec![a]));
}

#[test]
fn a_taken_reference_keeps_its_cell() {
    let mut chain = MockChain::new();
    let out_point = OutPoint::new([4u8; 32], 3);
    let lock = Script::default();
    assert!(chain.create_cell_with_outpoint(out_point, CellOutput::new(1, lock.clone(), None), vec![1]));
    assert!(!chain.create_cell_with_outpoint(out_point, CellOutput::new(2, lock.clone(), None), vec![2]));
    let (output, data) = chain.get_cell(&out_point).unwrap();
    assert_eq!(output.capacity, 1);
    assert_eq!(data, vec![1]);
    assert_eq!(chain.get_cells_by_lock_hash(lock.calc_script_hash()), Some(vec![out_point]));
}

#[test]
fn first_deploy_wins_the_content_index() {
    let mut chain = MockChain::new();
    let lock = Script::default();
    let a = OutPoint::new([1u8; 32], 0);
    let b = OutPoint::new([2u8; 32], 0);
    chain.create_cell_with_outpoint(a, CellOutput::new(1, lock.clone(), None), vec![8, 8]);
    chain.create_cell_with_outpoint(b, CellOutput::new(1, lock.clone(), None), vec![8, 8]);
    assert_eq!(chain.get_cell_by_data_hash(&data_hash(&[8, 8])), Some(a));
    let again = chain.deploy_cell_output(vec![8, 8], CellOutput::new(5, lock, None));
    assert_eq!(again, a);
    assert_eq!(chain.cells.len(), 2);
}

#[test]
fn default_chain_holds_the_default_lock() {
    let chain = MockChain::default();
    let out_point = chain.get_default_script_outpoint();
    let (_, data) = chain.get_cell(&out_point).unwrap();
    assert_eq!(data, ckb_always_success_script::ALWAYS_SUCCESS.to_vec());
    assert_eq!(chain.get_cell_by_data_hash(&data_hash(&data)), Some(out_point));
    assert!(!chain.capture_debug());
}

#[test]
fn random_cell_is_locked_by_the_default_lock() {
    let mut chain = MockChain::default();
    let code = chain.get_default_script_outpoint();
    let out_point = chain.deploy_random_cell_with_default_lock(2000, Some(vec![1, 2]));
    let (output, data) = chain.get_cell(&out_point).unwrap();
    assert!(data.is_empty());
    assert_eq!(output.capacity, 2000 * 100_000_000);
    assert!(output.type_.is_none());
    assert_eq!(output.lock.args(), vec![1, 2]);
    assert_eq!(output.lock.hash_type_raw(), ScriptHashType::Data1);
    let (_, lock_code) = chain.get_cell(&code).unwrap();
    assert_eq!(output.lock.code_hash(), data_hash(&lock_code));
    let expected = chain.build_script(&code, vec![1, 2]).unwrap();
    assert_eq!(expected.calc_script_hash(), output.calc_lock_hash());
}

#[test]
fn link_needs_a_known_header() {
    let mut chain = MockChain::new();
    let out_point = chain.deploy_cell_with_data(vec![1]);
    assert!(!chain.link_cell_with_block(out_point, [9u8; 32], 4));
    chain.insert_header(HeaderView { hash: [9u8; 32], number: 12, epoch: 77 });
    assert!(chain.link_cell_with_block(out_point, [9u8; 32], 4));
    let mut tx = Transaction::new();
    tx.inputs.push(CellInput::new(out_point));
    let resolved = chain.build_resolved_tx(&tx).unwrap();
    let info = resolved.resolved_inputs[0].transaction_info.unwrap();
    assert_eq!(info.block_hash, [9u8; 32]);
    assert_eq!(info.block_number, 12);
    assert_eq!(info.block_epoch, 77);
    assert_eq!(info.index, 4);
}

#[test]
fn resolution_names_the_first_missing_reference() {
    let mut chain = MockChain::new();
    let held = chain.deploy_cell_with_data(vec![1, 2, 3]);
    let missing_input = OutPoint::new([1u8; 32], 1);
    let missing_dep = OutPoint::new([2u8; 32], 2);
    let mut tx = Transaction::new();
    tx.inputs.push(CellInput::new(held));
    tx.cell_deps.push(CellDep::code(missing_dep));
    match chain.build_resolved_tx(&tx) {
        Err(ChainError::UnresolvedReference(p)) => assert_eq!(p, missing_dep),
        _ => panic!("the missing dependency must be named"),
    }
    tx.inputs.push(CellInput::new(missing_input));
    match chain.build_resolved_tx(&tx) {
        Err(ChainError::UnresolvedReference(p)) => assert_eq!(p, missing_input),
        _ => panic!("the missing input must be named"),
    }
}

#[test]
fn resolution_materialises_every_reference() {
    let mut chain = MockChain::new();
    let a = chain.deploy_cell_with_data(vec![1, 2, 3]);
    let b = chain.deploy_cell_with_data(vec![4]);
    let mut tx = Transaction::new();
    tx.inputs.push(CellInput::new(b));
    tx.cell_deps.push(CellDep::code(a));
    let resolved = chain.build_resolved_tx(&tx).unwrap();
    assert_eq!(resolved.resolved_inputs.len(), 1);
    assert_eq!(resolved.resolved_cell_deps.len(), 1);
    assert!(resolved.resolved_dep_groups.is_empty());
    let input = &resolved.resolved_inputs[0];
    assert_eq!(input.out_point, b);
    assert_eq!(input.data_bytes, 1);
    assert_eq!(input.mem_cell_data, Some(vec![4]));
    assert_eq!(input.mem_cell_data_hash, Some(data_hash(&[4])));
    assert!(input.transaction_info.is_none());
    assert_eq!(resolved.resolved_cell_deps[0].out_point, a);
}

#[test]
fn completion_keeps_named_dependencies_and_adds_each_code_cell_once() {
    let mut chain = MockChain::new();
    let code = chain.deploy_cell_with_data(vec![1u8; 10]);
    let other = chain.deploy_cell_with_data(vec![2u8; 10]);
    let script = chain.build_script(&code, vec![]).unwrap();
    let held = chain.create_cell(CellOutput::new(1, script.clone(), None), vec![7]);
    let named = CellDep { out_point: other, dep_type: DepType::DepGroup };
    let mut tx = Transaction::new();
    tx.cell_deps.push(named);
    tx.cell_deps.push(named);
    tx.inputs.push(CellInput::new(held));
    tx.outputs.push(CellOutput::new(1, Script::default(), Some(script.clone())));
    tx.outputs_data.push(vec![]);
    tx.outputs.push(CellOutput::new(1, script, None));
    tx.outputs_data.push(vec![]);
    let completed = chain.complete_tx(tx);
    assert_eq!(completed.cell_deps, vec![named, CellDep::code(code)]);
    assert_eq!(completed.inputs.len(), 1);
    assert_eq!(completed.outputs.len(), 2);
}

#[test]
fn completion_skips_scripts_named_by_type() {
    let mut chain = MockChain::new();
    let code = chain.deploy_cell_with_data(vec![1u8; 10]);
    let (_, data) = chain.get_cell(&code).unwrap();
    let typed = Script::new(data_hash(&data), ScriptHashType::Type, vec![]);
    let mut tx = Transaction::new();
    tx.outputs.push(CellOutput::new(1, typed, None));
    tx.outputs_data.push(vec![]);
    let completed = chain.complete_tx(tx);
    assert!(completed.cell_deps.is_empty());
}

#[test]
fn building_a_script_by_type_is_refused() {
    let mut chain = MockChain::new();
    let code = chain.deploy_cell_with_data(vec![1u8; 10]);
    assert!(matches!(
        chain.build_script_with_hash_type(&code, ScriptHashType::Type, vec![]),
        Err(ChainError::UnsupportedScriptAddressing)
    ));
    assert!(matches!(
        chain.build_script_with_hash_type(&OutPoint::new([0u8; 32], 9), ScriptHashType::Data, vec![]),
        Ok(None)
    ));
    let typed = Script::new([1u8; 32], ScriptHashType::Type, vec![]);
    assert!(matches!(
        chain.find_cell_dep_for_script(&typed),
        Err(ChainError::UnsupportedScriptAddressing)
    ));
    let unknown = Script::new([1u8; 32], ScriptHashType::Data, vec![]);
    assert!(matches!(chain.find_cell_dep_for_script(&unknown), Ok(None)));
}

#[test]
fn accepted_transaction_stores_its_outputs() {
    let mut chain = MockChain::new();
    let lock = Script::default();
    let mut tx = Transaction::new();
    tx.outputs.push(CellOutput::new(11, lock.clone(), None));
    tx.outputs_data.push(vec![1]);
    tx.outputs.push(CellOutput::new(22, lock.clone(), None));
    tx.outputs_data.push(vec![2]);
    let received = chain.receive_tx(&tx, [3u8; 32], Ok(1000));
    assert!(matches!(received, Ok(h) if h == [3u8; 32]));
    let (first, first_data) = chain.get_cell(&OutPoint::new([3u8; 32], 0)).unwrap();
    let (second, second_data) = chain.get_cell(&OutPoint::new([3u8; 32], 1)).unwrap();
    assert_eq!((first.capacity, first_data), (11, vec![1]));
    assert_eq!((second.capacity, second_data), (22, vec![2]));
    assert_eq!(
        chain.get_cells_by_lock_hash(lock.calc_script_hash()),
        Some(vec![OutPoint::new([3u8; 32], 0), OutPoint::new([3u8; 32], 1)])
    );
}

#[test]
fn refused_transaction_changes_nothing() {
    let mut chain = MockChain::new();
    let mut tx = Transaction::new();
    tx.outputs.push(CellOutput::new(11, Script::default(), None));
    tx.outputs_data.push(vec![1]);
    let verdict = Err(VerifierError { message: String::from("script failed") });
    match chain.receive_tx(&tx, [3u8; 32], verdict) {
        Err(ChainError::Verification(e)) => assert_eq!(e.message, "script failed"),
        _ => panic!("the verifier's reason must be handed on"),
    }
    assert_eq!(chain.cells.len(), 0);
}

#[test]
fn debug_messages_are_kept_only_when_asked() {
    let mut chain = MockChain::new();
    assert_eq!(chain.record_message([1u8; 32], String::from("a")), Some(String::from("a")));
    assert!(chain.captured_messages().is_empty());
    chain.set_capture_debug(true);
    assert!(chain.capture_debug());
    assert_eq!(chain.record_message([1u8; 32], String::from("b")), None);
    assert_eq!(chain.record_message([2u8; 32], String::from("c")), None);
    let messages = chain.captured_messages();
    assert_eq!(messages.len(), 2);
    assert_eq!((messages[0].id, messages[0].message.as_str()), ([1u8; 32], "b"));
    assert_eq!((messages[1].id, messages[1].message.as_str()), ([2u8; 32], "c"));
}

#[test]
fn provider_wraps_the_chain() {
    let mut chain = MockChain::new();
    let out_point = chain.deploy_cell_with_data(vec![1]);
    let provider = MockChainTxProvider::new(chain);
    assert!(provider.chain.get_cell(&out_point).is_some());
}
