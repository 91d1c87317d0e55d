use trampoline_sdk::bytes::{clone_byte_strings, clone_bytes, same_hash};
use trampoline_sdk::chain::mock_chain::{random_hash, MockChain, MockChainTxProvider};
use trampoline_sdk::chain::model::ChainError;
use trampoline_sdk::contract::builtins::sudt::sudt_contract;
use trampoline_sdk::contract::builtins::t_nft::{ContentId, GenesisId, TrampolineNFT};
use trampoline_sdk::contract::generator::{CellMetaTransaction, TransactionProvider};
use trampoline_sdk::contract::schema::{
    BytesConversion, JsonByteConversion, MolConversion, SchemaDecodeError,
};
use trampoline_sdk::hashing::zero;
use trampoline_sdk::table::Table;
use trampoline_sdk::types::cell::{clone_cell, CellMeta, CellOutput};
use trampoline_sdk::types::script::{Script, ScriptHashType};
use trampoline_sdk::types::transaction::{ResolvedTransaction, Transaction};
use trampoline_sdk::types::{CellDep, CellInput, DepType, HeaderView, OutPoint, TransactionInfo};

#[test]
fn random_hashes_differ() {
    assert_ne!(random_hash(), random_hash());
}

#[test]
fn hashes_compare_byte_by_byte() {
    let mut other = [3u8; 32];
    assert!(same_hash(&[3u8; 32], &other));
    other[31] = 4;
    assert!(!same_hash(&[3u8; 32], &other));
    assert_eq!(zero(), [0u8; 32]);
    assert_eq!(clone_bytes(&vec![1, 2, 3]), vec![1, 2, 3]);
    assert_eq!(clone_byte_strings(&vec![vec![1], vec![], vec![2, 3]]), vec![vec![1], vec![], vec![2, 3]]);
}

#[test]
fn table_binds_keys_once() {
    let mut table: Table<[u8; 32], u8> = Table::new();
    assert_eq!(table.len(), 0);
    assert!(!table.contains_key(&[1u8; 32]));
    table.insert([1u8; 32], 1);
    table.insert([2u8; 32], 2);
    table.insert([1u8; 32], 3);
    assert_eq!(table.len(), 2);
    assert_eq!(table.get(&[1u8; 32]), Some(&3));
    assert_eq!(table.get(&[2u8; 32]), Some(&2));
    assert_eq!(table.get(&[3u8; 32]), None);
}

#[test]
fn out_points_and_dependencies_compare_by_their_parts() {
    let a = OutPoint::new([1u8; 32], 1);
    assert!(a.same(&OutPoint::new([1u8; 32], 1)));
    assert!(!a.same(&OutPoint::new([1u8; 32], 2)));
    assert!(!a.same(&OutPoint::new([2u8; 32], 1)));
    assert!(CellDep::code(a).same(&CellDep { out_point: a, dep_type: DepType::Code }));
    assert!(!CellDep::code(a).same(&CellDep { out_point: a, dep_type: DepType::DepGroup }));
    assert_eq!(CellInput::new(a), CellInput { previous_output: a, since: 0 });
    let info = TransactionInfo::new(1, 2, [3u8; 32], 4);
    assert_eq!(
        info,
        TransactionInfo { block_hash: [3u8; 32], block_number: 1, block_epoch: 2, index: 4 }
    );
    let header = HeaderView { hash: [5u8; 32], number: 6, epoch: 7 };
    assert_eq!((header.hash(), header.number(), header.epoch()), ([5u8; 32], 6, 7));
}

#[test]
fn fresh_reference_is_the_first_free_index() {
    let mut chain = MockChain::new();
    let lock = Script::default();
    assert_eq!(chain.fresh_out_point([1u8; 32]), OutPoint::new([1u8; 32], 0));
    chain.create_cell_with_outpoint(OutPoint::new([1u8; 32], 0), CellOutput::new(1, lock.clone(), None), vec![]);
    chain.create_cell_with_outpoint(OutPoint::new([1u8; 32], 2), CellOutput::new(1, lock.clone(), None), vec![]);
    assert_eq!(chain.fresh_out_point([1u8; 32]), OutPoint::new([1u8; 32], 1));
    chain.create_cell_with_outpoint(OutPoint::new([1u8; 32], 1), CellOutput::new(1, lock, None), vec![]);
    assert_eq!(chain.fresh_out_point([1u8; 32]), OutPoint::new([1u8; 32], 3));
    assert_eq!(chain.fresh_out_point([2u8; 32]), OutPoint::new([2u8; 32], 0));
}

#[test]
fn deploy_output_at_stores_the_given_cell() {
    let mut chain = MockChain::new();
    let lock = Script::new([1u8; 32], ScriptHashType::Data, vec![1]);
    let output = CellOutput::new(77, lock.clone(), None);
    let first = chain.deploy_cell_output_at(vec![1, 2], output.clone(), [8u8; 32]);
    assert_eq!(first, OutPoint::new([8u8; 32], 0));
    let again = chain.deploy_cell_output_at(vec![1, 2], CellOutput::new(1, Script::default(), None), [9u8; 32]);
    assert_eq!(again, first);
    assert_eq!(chain.get_cell(&first), Some((output.clone(), vec![1, 2])));
    assert_eq!(chain.get_cells_by_lock_hash(lock.calc_script_hash()), Some(vec![first]));
    let cell = clone_cell(&(output, vec![5]));
    let deployed = chain.deploy_cell(&cell);
    assert_eq!(chain.get_cell(&deployed), Some(cell));
}

#[test]
fn default_lock_can_be_set_from_a_code_cell() {
    let mut chain = MockChain::with_default_lock(vec![1, 2, 3], [4u8; 32]);
    assert_eq!(chain.get_default_script_outpoint(), OutPoint::new([4u8; 32], 0));
    let contract = sudt_contract([6u8; 32]).code(vec![9, 9]);
    chain.set_default_lock(&contract);
    let out_point = chain.get_default_script_outpoint();
    assert_eq!(chain.get_cell_data(&out_point), Some(vec![9, 9]));
    let cell = chain.generate_cell_with_default_lock(vec![1]);
    assert_eq!(cell.capacity, 0);
    assert!(cell.type_.is_none());
    assert_eq!(cell.lock.args(), vec![1]);
    assert_eq!(cell.lock.code_hash(), ckb_hash::blake2b_256([9u8, 9]));
    assert_eq!(cell.lock.hash_type_raw(), ScriptHashType::Data1);
}

#[test]
fn cell_data_is_read_from_the_cell_or_the_ledger() {
    let mut chain = MockChain::new();
    let out_point = chain.deploy_cell_with_data(vec![1, 2, 3]);
    assert_eq!(chain.get_cell_data(&out_point), Some(vec![1, 2, 3]));
    assert_eq!(chain.get_cell_data_hash(&out_point), Some(ckb_hash::blake2b_256([1u8, 2, 3])));
    let missing = OutPoint::new([1u8; 32], 7);
    assert_eq!(chain.get_cell_data(&missing), None);
    assert_eq!(chain.get_cell_data_hash(&missing), None);
    let (output, _) = chain.get_cell(&out_point).unwrap();
    let mut meta = CellMeta::from_cell_output(&(output, vec![8]), out_point, None);
    assert_eq!(chain.load_cell_data(&meta), Some(vec![8]));
    meta.mem_cell_data = None;
    assert_eq!(chain.load_cell_data(&meta), Some(vec![1, 2, 3]));
    meta.out_point = missing;
    assert_eq!(chain.load_cell_data(&meta), None);
    assert_eq!(meta.clone(), meta);
}

#[test]
fn headers_are_found_by_their_hash() {
    let mut chain = MockChain::new();
    let header = HeaderView { hash: [5u8; 32], number: 6, epoch: 7 };
    assert_eq!(chain.get_header(&[5u8; 32]), None);
    chain.insert_header(header);
    assert_eq!(chain.get_header(&[5u8; 32]), Some(header));
}

#[test]
fn outputs_must_come_with_their_data() {
    let chain = MockChain::new();
    let mut tx = Transaction::new();
    assert!(chain.verify_tx_consensus(&tx).is_ok());
    tx.outputs.push(CellOutput::new(1, Script::default(), None));
    assert!(matches!(
        chain.verify_tx_consensus(&tx),
        Err(ChainError::OutputsDataLengthMismatch(1, 0))
    ));
    tx.outputs_data.push(vec![]);
    assert!(chain.verify_tx_consensus(&tx).is_ok());
}

#[test]
fn outputs_without_data_are_not_stored() {
    let mut chain = MockChain::new();
    let mut tx = Transaction::new();
    tx.outputs.push(CellOutput::new(1, Script::default(), None));
    tx.outputs.push(CellOutput::new(2, Script::default(), None));
    tx.outputs_data.push(vec![1]);
    assert!(chain.receive_tx(&tx, [1u8; 32], Ok(0)).is_ok());
    assert!(chain.get_cell(&OutPoint::new([1u8; 32], 0)).is_some());
    assert!(chain.get_cell(&OutPoint::new([1u8; 32], 1)).is_none());
}

#[test]
fn provider_sends_accepted_transactions_completed() {
    let mut chain = MockChain::new();
    let code = chain.deploy_cell_with_data(vec![3u8; 10]);
    let script = chain.build_script(&code, vec![]).unwrap();
    let mut provider = MockChainTxProvider::new(chain);
    let mut tx = Transaction::new();
    tx.outputs.push(CellOutput::new(1, script, None));
    tx.outputs_data.push(vec![4]);
    let completed = provider.complete_tx(tx.clone());
    assert_eq!(completed.cell_deps, vec![CellDep::code(code)]);
    let refused = trampoline_sdk::chain::model::VerifierError { message: String::from("no") };
    assert_eq!(provider.send_tx(tx.clone(), [7u8; 32], Err(refused)), None);
    assert!(provider.chain.get_cell(&OutPoint::new([7u8; 32], 0)).is_none());
    assert_eq!(provider.send_tx(tx, [7u8; 32], Ok(10)), Some([7u8; 32]));
    assert_eq!(provider.chain.get_cell_data(&OutPoint::new([7u8; 32], 0)), Some(vec![4]));
}

#[test]
fn transactions_are_built_part_by_part() {
    let a = OutPoint::new([1u8; 32], 1);
    let tx = Transaction::new()
        .set_inputs(vec![CellInput::new(a)])
        .set_cell_deps(vec![CellDep::code(a)])
        .set_outputs(vec![CellOutput::new(1, Script::default(), None)], vec![vec![1]]);
    assert_eq!(tx.inputs, vec![CellInput::new(a)]);
    assert_eq!(tx.cell_deps, vec![CellDep::code(a)]);
    assert_eq!(tx.outputs.len(), 1);
    assert_eq!(tx.outputs_data, vec![vec![1]]);
    assert_eq!(tx.clone(), tx);
    let built = CellMetaTransaction::from_tx(tx.clone());
    assert!(built.inputs.is_empty());
    let meta = CellMeta::from_cell_output(&(CellOutput::new(1, Script::default(), None), vec![]), a, None);
    let built = built.inputs(vec![meta.clone()]).tx(Transaction::new());
    assert_eq!(built.inputs, vec![meta.clone()]);
    assert_eq!(built.tx, Transaction::new());
    assert_eq!(built.clone().inputs, vec![meta.clone()]);
    let resolved = ResolvedTransaction {
        transaction: tx,
        resolved_cell_deps: vec![meta.clone()],
        resolved_inputs: vec![meta],
        resolved_dep_groups: vec![],
    };
    assert_eq!(resolved.clone(), resolved);
}

#[test]
fn token_goes_on_chain_as_its_two_ids() {
    let nft = TrampolineNFT { genesis_id: GenesisId::new([1u8; 32]), cid: ContentId::new([2u8; 32]) };
    let mut expected = vec![1u8; 32];
    expected.extend_from_slice(&[2u8; 32]);
    assert_eq!(nft.to_bytes(), expected);
    assert_eq!(nft.to_mol(), expected);
    assert_eq!(nft.to_json_bytes().into_bytes(), expected);
    let read = TrampolineNFT::from_bytes(expected.clone()).unwrap();
    assert_eq!(read.genesis_id.inner, [1u8; 32]);
    assert_eq!(read.cid.inner, [2u8; 32]);
    assert_eq!(TrampolineNFT::from_mol(expected.clone()).unwrap().cid.inner, [2u8; 32]);
    assert!(matches!(
        TrampolineNFT::from_bytes(vec![0u8; 63]),
        Err(SchemaDecodeError::Length(64, 63))
    ));
    assert!(matches!(
        TrampolineNFT::from_bytes(vec![0u8; 65]),
        Err(SchemaDecodeError::Length(64, 65))
    ));
    let zero = TrampolineNFT::default();
    assert_eq!(zero.to_bytes(), vec![0u8; 64]);
    assert_eq!(nft.clone().genesis_id.inner, [1u8; 32]);
}

#[test]
fn token_contract_starts_with_an_amount_of_zero() {
    let contract = sudt_contract([6u8; 32]);
    assert_eq!(contract.args.inner, [6u8; 32]);
    assert_eq!(contract.data.inner, 0);
    assert!(contract.code.is_none());
    assert_eq!(contract.read_args().unwrap().inner, [6u8; 32]);
    assert_eq!(contract.read_data().unwrap().inner, 0);
}

#[test]
fn a_copy_of_the_ledger_goes_its_own_way() {
    let mut chain = MockChain::default();
    let lock = Script::new([1u8; 32], ScriptHashType::Data1, vec![1]);
    let held = chain.create_cell(CellOutput::new(5, lock.clone(), Some(lock.clone())), vec![5]);
    chain.insert_header(HeaderView { hash: [5u8; 32], number: 6, epoch: 7 });
    chain.link_cell_with_block(held, [5u8; 32], 1);
    chain.set_capture_debug(true);
    chain.record_message([2u8; 32], String::from("kept"));
    let mut copy = chain.clone();
    assert_eq!(copy.cells.len(), chain.cells.len());
    assert_eq!(copy.get_cell(&held), chain.get_cell(&held));
    assert_eq!(copy.get_default_script_outpoint(), chain.get_default_script_outpoint());
    assert_eq!(copy.get_cells_by_lock_hash(lock.calc_script_hash()), Some(vec![held]));
    assert_eq!(copy.get_cells_by_type_hash(lock.calc_script_hash()), Some(vec![held]));
    assert_eq!(copy.get_cell_by_data_hash(&ckb_hash::blake2b_256([5u8])), Some(held));
    assert_eq!(copy.get_header(&[5u8; 32]), chain.get_header(&[5u8; 32]));
    assert_eq!(copy.captured_messages(), chain.captured_messages());
    assert!(copy.capture_debug());
    let mut tx = Transaction::new();
    tx.inputs.push(CellInput::new(held));
    assert_eq!(copy.build_resolved_tx(&tx).unwrap(), chain.build_resolved_tx(&tx).unwrap());
    let added = copy.deploy_cell_with_data(vec![9, 9, 9]);
    assert!(copy.get_cell(&added).is_some());
    assert!(chain.get_cell(&added).is_none());
    let provider = chain.inner();
    assert_eq!(provider.chain.get_cell(&held), chain.get_cell(&held));
    assert_eq!(provider.chain.cells.len(), chain.cells.len());
}
