use trampoline_sdk::chain::genesis::{
    genesis_block_from_chain, genesis_event, Block, GenesisCodeHashes, GenesisScripts,
    DAO_OUTPUT_LOC, MULTISIG_OUTPUT_LOC, SIGHASH_OUTPUT_LOC,
};
use trampoline_sdk::chain::mock_chain::MockChain;

fn bundled(name: &str) -> Vec<u8> {
    ckb_system_scripts::BUNDLED_CELL.get(name).unwrap().to_vec()
}

fn genesis_scripts() -> GenesisScripts {
    GenesisScripts {
        secp256k1_data: bundled("specs/cells/secp256k1_data"),
        secp256k1_blake160_sighash_all: bundled("specs/cells/secp256k1_blake160_sighash_all"),
        secp256k1_blake160_multisig_all: bundled("specs/cells/secp256k1_blake160_multisig_all"),
        dao: bundled("specs/cells/dao"),
    }
}

fn code_hashes() -> GenesisCodeHashes {
    GenesisCodeHashes {
        secp256k1_data: ckb_system_scripts::CODE_HASH_SECP256K1_DATA,
        secp256k1_blake160_sighash_all: ckb_system_scripts::CODE_HASH_SECP256K1_BLAKE160_SIGHASH_ALL,
        secp256k1_blake160_multisig_all:
            ckb_system_scripts::CODE_HASH_SECP256K1_BLAKE160_MULTISIG_ALL,
        dao: ckb_system_scripts::CODE_HASH_DAO,
    }
}

fn mockchain_setup() -> (MockChain, Block) {
    // Create a new mockchain
    let mut chain = MockChain::default();

    // Create default genesis scripts
    let genesis_scripts = genesis_scripts();

    // Run genesis event on the mockchain with the scripts
    genesis_event(&mut chain, &genesis_scripts);

    // Generate genesis block
    let genesis_block = genesis_block_from_chain(&mut chain, &code_hashes()).unwrap();

    (chain, genesis_block)
}

#[test]
fn test_genesis_block_has_dao_cell() {
    let (chain, genesis_block) = mockchain_setup();

    // Get the cell by hash
    let dao_code_hash_bytes = ckb_system_scripts::CODE_HASH_DAO;
    let dao_outpoint = chain.get_cell_by_data_hash(&dao_code_hash_bytes).unwrap();
    let dao_cell = chain.get_cell(&dao_outpoint).unwrap();
    let cell_by_hash = dao_cell.0;

    // Get cell by location
    let location = DAO_OUTPUT_LOC; // TX 0 OUTP 2
    let cell_by_location_in_block =
        genesis_block.transactions[location.0].outputs.get(location.1).unwrap();

    // Compare the two
    assert_eq!(&cell_by_hash, cell_by_location_in_block);
}

#[test]
fn test_genesis_block_has_secp_multisig_cell() {
    let (chain, genesis_block) = mockchain_setup();

    // Get the cell by hash
    let multisig_code_hash_bytes = ckb_system_scripts::CODE_HASH_SECP256K1_BLAKE160_MULTISIG_ALL;
    let multisig_outpoint = chain.get_cell_by_data_hash(&multisig_code_hash_bytes).unwrap();
    let multisig_cell = chain.get_cell(&multisig_outpoint).unwrap();
    let cell_by_hash = multisig_cell.0;

    // Get cell by location
    let location = MULTISIG_OUTPUT_LOC; // TX 0 OUTP 4
    let cell_by_location_in_block =
        genesis_block.transactions[location.0].outputs.get(location.1).unwrap();

    // Compare the two
    assert_eq!(&cell_by_hash, cell_by_location_in_block);

    // Check the cell's data
    let data_hash = chain.get_cell_data_hash(&multisig_outpoint).unwrap();
    assert_eq!(ckb_hash::blake2b_256(&multisig_cell.1), data_hash);
    assert_eq!(ckb_resource::CODE_HASH_SECP256K1_BLAKE160_MULTISIG_ALL.0, data_hash);
}

#[test]
fn test_genesis_block_has_secp_sighash_cell() {
    let (chain, genesis_block) = mockchain_setup();

    // Get the cell by hash
    let secp_sighash_outp = chain
        .get_cell_by_data_hash(&ckb_system_scripts::CODE_HASH_SECP256K1_BLAKE160_SIGHASH_ALL)
        .unwrap();
    let secp_sighash_cell = chain.get_cell(&secp_sighash_outp).unwrap();
    let cell_by_hash = secp_sighash_cell.0;

    let location = SIGHASH_OUTPUT_LOC; // TX 0 OUTP 1
    let cell_by_location_in_block =
        genesis_block.transactions[location.0].outputs.get(location.1).unwrap();

    assert_eq!(cell_by_location_in_block, &cell_by_hash);
}

#[test]
fn test_genesis_block_has_number_0() {
    // Create a new mockchain
    let mut chain = MockChain::default();

    // Create default genesis scripts
    let genesis_scripts = genesis_scripts();

    // Run genesis event on the mockchain with the scripts
    let _scripts = genesis_event(&mut chain, &genesis_scripts);

    // Generate genesis block
    let genesis_block = genesis_block_from_chain(&mut chain, &code_hashes()).unwrap();

    // Check if genesis block has number 0
    assert_eq!(genesis_block.number, 0);
}

#[test]
fn test_genesis_event_deploys_all_system_script() {
    // Create a new mockchain
    let mut chain = MockChain::default();

    // Create default genesis scripts
    let genesis_scripts = genesis_scripts();

    // Run genesis event on the mockchain with the scripts
    let scripts = genesis_event(&mut chain, &genesis_scripts);

    // Setup DAO cell
    let dao_cell = chain.get_cell_by_data_hash(&ckb_system_scripts::CODE_HASH_DAO).unwrap();

    // Setup blake_sighash_all cell
    let secp256_sighash_all_cell = chain
        .get_cell_by_data_hash(&ckb_system_scripts::CODE_HASH_SECP256K1_BLAKE160_SIGHASH_ALL)
        .unwrap();

    // Setup blake_multisig cell
    let secp256_multisig_cell = chain
        .get_cell_by_data_hash(&ckb_system_scripts::CODE_HASH_SECP256K1_BLAKE160_MULTISIG_ALL)
        .unwrap();

    // Setup blake_data cell
    let secp256_data_cell =
        chain.get_cell_by_data_hash(&ckb_system_scripts::CODE_HASH_SECP256K1_DATA).unwrap();

    assert_eq!(dao_cell, scripts.dao);
    assert_eq!(secp256_sighash_all_cell, scripts.secp256k1_blake160_sighash_all);
    assert_eq!(secp256_multisig_cell, scripts.secp256k1_blake160_multisig_all);
    assert_eq!(secp256_data_cell, scripts.secp256k1_data);
}

#[test]
fn test_genesis_event_deploys_dao_cell() {
    let mut chain = MockChain::default();

    // Create default genesis scripts
    let genesis_scripts = genesis_scripts();

    // Run genesis event on the mockchain with the scripts
    let scripts = genesis_event(&mut chain, &genesis_scripts);

    // Get dao cell from the chain
    let dao_cell = chain.get_cell_by_data_hash(&ckb_system_scripts::CODE_HASH_DAO).unwrap();

    assert_eq!(dao_cell, scripts.dao);
}

#[test]
fn genesis_event_deploys_each_script_once() {
    let mut chain = MockChain::default();
    let first = genesis_event(&mut chain, &genesis_scripts());
    let cells = chain.cells.len();
    let second = genesis_event(&mut chain, &genesis_scripts());
    assert_eq!(first, second);
    assert_eq!(cells, 5);
    assert_eq!(chain.cells.len(), 5);
}

#[test]
fn genesis_block_lists_five_cells_and_stores_the_plain_one() {
    let mut chain = MockChain::default();
    genesis_event(&mut chain, &genesis_scripts());
    let before = chain.cells.len();
    let block = genesis_block_from_chain(&mut chain, &code_hashes()).unwrap();
    assert_eq!(chain.cells.len(), before + 1);
    assert_eq!(block.transactions.len(), 1);
    let tx = &block.transactions[0];
    assert_eq!(tx.outputs.len(), 5);
    assert_eq!(tx.outputs_data.len(), 5);
    assert!(tx.inputs.is_empty());
    assert_eq!(tx.outputs_data[0], bundled("specs/cells/secp256k1_data"));
    assert_eq!(tx.outputs_data[2], bundled("specs/cells/dao"));
    assert!(tx.outputs_data[3].is_empty());
    assert_eq!(tx.outputs[3].capacity, 100000 * 100_000_000);
    assert!(tx.outputs[3].type_.is_none());
}

#[test]
fn no_genesis_block_without_the_scripts() {
    let mut chain = MockChain::default();
    let before = chain.cells.len();
    assert!(genesis_block_from_chain(&mut chain, &code_hashes()).is_none());
    assert_eq!(chain.cells.len(), before);
}
