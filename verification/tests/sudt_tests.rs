use trampoline_sdk::chain::mock_chain::{MockChain, MockChainTxProvider};
use trampoline_sdk::contract::builtins::sudt::{sudt_contract, Mint, OwnedBy, SudtAmount};
use trampoline_sdk::contract::generator::{
    CellMetaTransaction, CellQueryAttribute, Generator, GeneratorError, GeneratorMiddleware,
    QueryStatement,
};
use trampoline_sdk::contract::schema::BytesConversion;
use trampoline_sdk::contract::{ContractCellField, ContractCellFieldSelector, InputRule, OutputRule};
use trampoline_sdk::types::cell::CellOutput;
use trampoline_sdk::types::script::{Script, ScriptHashType};
use trampoline_sdk::types::transaction::Transaction;
use trampoline_sdk::types::CellDep;

fn token_output(script: Script, amount: u128) -> Transaction {
    let mut tx = Transaction::new();
    tx.outputs.push(CellOutput::new(100, Script::default(), Some(script)));
    tx.outputs_data.push(amount.to_le_bytes().to_vec());
    tx
}

#[test]
fn mint_adds_to_the_amount() {
    let rule = Mint { amount: 10 };
    match rule.apply(ContractCellField::Data(SudtAmount::new(5))) {
        Some(ContractCellField::Data(amount)) => assert_eq!(amount.inner, 15),
        _ => panic!("the amount must be handed back"),
    }
    assert!(rule.apply(ContractCellField::Data(SudtAmount::new(u128::MAX - 9))).is_none());
    match rule.apply(ContractCellField::Data(SudtAmount::new(u128::MAX - 10))) {
        Some(ContractCellField::Data(amount)) => assert_eq!(amount.inner, u128::MAX),
        _ => panic!("the amount must be handed back"),
    }
    assert!(matches!(
        rule.apply(ContractCellField::Capacity(3)),
        Some(ContractCellField::Capacity(3))
    ));
}

#[test]
fn owned_by_asks_for_the_cells_of_a_lock() {
    let rule = OwnedBy { lock_hash: [4u8; 32], limit: 2 };
    let query = rule.query(&Transaction::new());
    assert_eq!(query._limit, 2);
    assert!(matches!(
        query._query,
        QueryStatement::Single(CellQueryAttribute::LockHash(h)) if h == [4u8; 32]
    ));
}

#[test]
fn token_pass_mints_collects_inputs_and_names_the_code() {
    let code = vec![0x5Du8; 10];
    let owner_lock = Script::new([1u8; 32], ScriptHashType::Data1, vec![1]);
    let owner = owner_lock.calc_script_hash();
    let mut chain = MockChain::new();
    let deployed = chain.deploy_cell_with_data(code.clone());
    let first = chain.create_cell(CellOutput::new(500, owner_lock.clone(), None), vec![1]);
    let _second = chain.create_cell(CellOutput::new(600, owner_lock, None), vec![2]);
    let provider = MockChainTxProvider::new(chain);
    let mut contract = sudt_contract(owner).code(code);
    contract.add_output_rule(ContractCellFieldSelector::Data, Box::new(Mint { amount: 10 }));
    contract.add_input_rule(Box::new(OwnedBy { lock_hash: owner, limit: 1 }));
    let tx = token_output(contract.as_script().unwrap(), 5);
    let generator = Generator::new()
        .pipeline(vec![&contract])
        .chain_service(&provider)
        .query_service(&provider);
    let mut register = Vec::new();
    let made = generator.pipe(CellMetaTransaction::from_tx(tx), &mut register).unwrap();
    assert_eq!(made.tx.outputs_data, vec![15u128.to_le_bytes().to_vec()]);
    assert_eq!(made.tx.inputs.len(), 1);
    assert_eq!(made.tx.inputs[0].previous_output, first);
    assert_eq!(made.inputs[0].cell_output.capacity, 500);
    assert_eq!(made.tx.cell_deps, vec![CellDep::code(deployed)]);
    assert!(register.is_empty());
}

#[test]
fn token_pass_fails_where_the_amount_overflows() {
    let code = vec![0x5Du8; 10];
    let mut contract = sudt_contract([1u8; 32]).code(code);
    contract.add_output_rule(ContractCellFieldSelector::Data, Box::new(Mint { amount: 1 }));
    let tx = token_output(contract.as_script().unwrap(), u128::MAX);
    assert!(matches!(
        contract.pipe(CellMetaTransaction::from_tx(tx)),
        Err(GeneratorError::RuleFailed)
    ));
    assert_eq!(SudtAmount::new(3).to_bytes().len(), 16);
}
