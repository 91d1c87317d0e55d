use trampoline_sdk::chain::mock_chain::{MockChain, MockChainTxProvider};
use trampoline_sdk::contract::generator::{
    CellMetaTransaction, CellQuery, CellQueryAttribute, Generator, GeneratorError,
    GeneratorMiddleware, QueryProvider, QueryStatement,
};
use trampoline_sdk::types::cell::CellOutput;
use trampoline_sdk::types::script::{Script, ScriptHashType};
use trampoline_sdk::types::transaction::Transaction;
use trampoline_sdk::types::{CellDep, OutPoint};

/// Registers one query and leaves the transaction as it is.
struct Asks {
    query: CellQuery,
}

impl GeneratorMiddleware for Asks {
    fn pipe(&self, tx: CellMetaTransaction) -> Result<CellMetaTransaction, GeneratorError> {
        Ok(tx)
    }

    fn update_query_register(&self, _tx: &CellMetaTransaction, query_register: &mut Vec<CellQuery>) {
        query_register.push(self.query.clone());
    }
}

/// Appends one byte to the data of every output.
struct Appends {
    byte: u8,
}

impl GeneratorMiddleware for Appends {
    fn pipe(&self, mut tx: CellMetaTransaction) -> Result<CellMetaTransaction, GeneratorError> {
        for data in tx.tx.outputs_data.iter_mut() {
            data.push(self.byte);
        }
        Ok(tx)
    }

    fn update_query_register(&self, _tx: &CellMetaTransaction, _query_register: &mut Vec<CellQuery>) {}
}

/// Fails on every transaction.
struct Fails;

impl GeneratorMiddleware for Fails {
    fn pipe(&self, _tx: CellMetaTransaction) -> Result<CellMetaTransaction, GeneratorError> {
        Err(GeneratorError::RuleFailed)
    }

    fn update_query_register(&self, _tx: &CellMetaTransaction, _query_register: &mut Vec<CellQuery>) {}
}

fn single(attribute: CellQueryAttribute, limit: u64) -> CellQuery {
    CellQuery { _query: QueryStatement::Single(attribute), _limit: limit }
}

fn one_output() -> CellMetaTransaction {
    let mut tx = Transaction::new();
    tx.outputs.push(CellOutput::new(1, Script::default(), None));
    tx.outputs_data.push(vec![0]);
    CellMetaTransaction::from_tx(tx)
}

#[test]
fn new_generator_makes_the_empty_transaction() {
    let generator = Generator::new();
    let made = generator.generate().unwrap();
    assert!(made.inputs.is_empty());
    assert!(made.tx.inputs.is_empty());
    assert!(made.tx.outputs.is_empty());
    assert!(made.tx.cell_deps.is_empty());
}

#[test]
fn inputs_follow_the_order_of_the_queries() {
    let mut chain = MockChain::new();
    let lock = Script::new([1u8; 32], ScriptHashType::Data1, vec![1]);
    let type_ = Script::new([2u8; 32], ScriptHashType::Data1, vec![2]);
    let typed = chain.create_cell(CellOutput::new(5, Script::default(), Some(type_.clone())), vec![5]);
    let locked = chain.create_cell(CellOutput::new(6, lock.clone(), None), vec![6]);
    let provider = MockChainTxProvider::new(chain);
    let first = Asks { query: single(CellQueryAttribute::LockHash(lock.calc_script_hash()), 1) };
    let second = Asks { query: single(CellQueryAttribute::TypeScript(type_), 1) };
    let generator = Generator::new().pipeline(vec![&first, &second]).query_service(&provider);
    let made = generator.generate().unwrap();
    let inputs: Vec<OutPoint> = made.tx.inputs.iter().map(|i| i.previous_output).collect();
    assert_eq!(inputs, vec![locked, typed]);
    let cells: Vec<OutPoint> = made.inputs.iter().map(|c| c.out_point).collect();
    assert_eq!(cells, vec![locked, typed]);
    assert_eq!(made.inputs[0].mem_cell_data, Some(vec![6]));

    let generator = Generator::new().pipeline(vec![&second, &first]).query_service(&provider);
    let made = generator.generate().unwrap();
    let inputs: Vec<OutPoint> = made.tx.inputs.iter().map(|i| i.previous_output).collect();
    assert_eq!(inputs, vec![typed, locked]);
}

#[test]
fn order_of_the_pipeline_is_observable() {
    let a = Appends { byte: 1 };
    let b = Appends { byte: 2 };
    let mut register = Vec::new();
    let ab = Generator::new().pipeline(vec![&a, &b]).pipe(one_output(), &mut register).unwrap();
    let ba = Generator::new().pipeline(vec![&b, &a]).pipe(one_output(), &mut register).unwrap();
    assert_eq!(ab.tx.outputs_data, vec![vec![0, 1, 2]]);
    assert_eq!(ba.tx.outputs_data, vec![vec![0, 2, 1]]);
}

#[test]
fn unanswered_query_fails_the_pass_and_is_named() {
    let mut chain = MockChain::new();
    let lock = Script::new([1u8; 32], ScriptHashType::Data1, vec![1]);
    chain.create_cell(CellOutput::new(6, lock.clone(), None), vec![6]);
    let provider = MockChainTxProvider::new(chain);
    let answered = Asks { query: single(CellQueryAttribute::LockHash(lock.calc_script_hash()), 1) };
    let unanswered = Asks { query: single(CellQueryAttribute::LockHash([9u8; 32]), 3) };
    let later = Asks { query: single(CellQueryAttribute::LockHash([8u8; 32]), 4) };
    let generator =
        Generator::new().pipeline(vec![&answered, &unanswered, &later]).query_service(&provider);
    let mut register = Vec::new();
    match generator.pipe(one_output(), &mut register) {
        Err(GeneratorError::QueryUnsatisfied(query)) => {
            assert_eq!(query._limit, 3);
            assert!(matches!(
                query._query,
                QueryStatement::Single(CellQueryAttribute::LockHash(h)) if h == [9u8; 32]
            ));
        }
        _ => panic!("the unanswered query must be named"),
    }
    assert!(register.is_empty());
}

#[test]
fn query_without_a_provider_is_unsatisfied() {
    let asks = Asks { query: single(CellQueryAttribute::LockHash([9u8; 32]), 1) };
    let generator = Generator::new().pipeline(vec![&asks]);
    assert!(matches!(generator.generate(), Err(GeneratorError::QueryUnsatisfied(_))));
    assert!(generator.query(single(CellQueryAttribute::LockHash([9u8; 32]), 1)).is_none());
}

#[test]
fn failing_middleware_fails_the_pass() {
    let a = Appends { byte: 1 };
    let fails = Fails;
    let generator = Generator::new().pipeline(vec![&a, &fails, &a]);
    assert!(matches!(generator.generate(), Err(GeneratorError::RuleFailed)));
}

#[test]
fn pass_completes_the_dependencies() {
    let mut chain = MockChain::new();
    let code = chain.deploy_cell_with_data(vec![3u8; 10]);
    let script = chain.build_script(&code, vec![]).unwrap();
    let provider = MockChainTxProvider::new(chain);
    let mut tx = Transaction::new();
    tx.outputs.push(CellOutput::new(1, script, None));
    tx.outputs_data.push(vec![]);
    let generator = Generator::new().chain_service(&provider);
    let mut register = Vec::new();
    let made = generator.pipe(CellMetaTransaction::from_tx(tx), &mut register).unwrap();
    assert_eq!(made.tx.cell_deps, vec![CellDep::code(code)]);
}

#[test]
fn provider_applies_the_limit() {
    let mut chain = MockChain::new();
    let lock = Script::new([1u8; 32], ScriptHashType::Data1, vec![1]);
    let a = chain.create_cell(CellOutput::new(1, lock.clone(), None), vec![1]);
    let b = chain.create_cell(CellOutput::new(2, lock.clone(), None), vec![2]);
    let c = chain.create_cell(CellOutput::new(3, lock.clone(), None), vec![3]);
    let provider = MockChainTxProvider::new(chain);
    let hash = lock.calc_script_hash();
    assert_eq!(provider.query(single(CellQueryAttribute::LockHash(hash), 2)), Some(vec![a, b]));
    assert_eq!(provider.query(single(CellQueryAttribute::LockHash(hash), 3)), Some(vec![a, b, c]));
    assert_eq!(provider.query(single(CellQueryAttribute::LockScript(lock), 9)), Some(vec![a, b, c]));
    assert_eq!(provider.query(single(CellQueryAttribute::LockHash(hash), 0)), Some(vec![]));
    assert_eq!(provider.query(single(CellQueryAttribute::LockHash([0u8; 32]), 2)), None);
    assert_eq!(provider.query(single(CellQueryAttribute::MinCapacity(1), 2)), None);
    assert_eq!(
        provider.query(CellQuery {
            _query: QueryStatement::Any(vec![CellQueryAttribute::LockHash(hash)]),
            _limit: 2
        }),
        None
    );
    let data_hash = ckb_hash::blake2b_256([2u8]);
    assert_eq!(provider.query(single(CellQueryAttribute::DataHash(data_hash), 5)), Some(vec![b]));
    let cells = provider.query_cell_meta(single(CellQueryAttribute::LockHash(hash), 1)).unwrap();
    assert_eq!(cells.len(), 1);
    assert_eq!(cells[0].out_point, a);
    assert_eq!(cells[0].cell_output.capacity, 1);
    assert!(cells[0].transaction_info.is_none());
}
