use crate::bytes::{byte_strings, clone_bytes};
use crate::chain::mock_chain::MockChain;
use crate::chain::model::ChainView;
use crate::types::cell::{cell_view, CellOutput, CellView};
use crate::types::script::BYTE_SHANNONS;
use crate::types::transaction::{Transaction, TransactionView};
use crate::types::{views, OutPoint};
use vstd::prelude::*;

verus! {

/// Place of the cell that holds the deposit script in the first block: the
/// transaction's index, then the output's.
pub const DAO_OUTPUT_LOC: (usize, usize) = (0, 2);

/// Place of the cell that holds the single-signature lock in the first block.
pub const SIGHASH_OUTPUT_LOC: (usize, usize) = (0, 1);

/// Place of the cell that holds the multi-signature lock in the first block.
pub const MULTISIG_OUTPUT_LOC: (usize, usize) = (0, 4);

/// Capacity, in bytes, of the plain cell of the first block.
pub const GENESIS_PLAIN_CELL_BYTES: usize = 100000;

/// The code of the built-in scripts.
#[derive(Debug)]
pub struct GenesisScripts {
    pub secp256k1_data: Vec<u8>,
    pub secp256k1_blake160_sighash_all: Vec<u8>,
    pub secp256k1_blake160_multisig_all: Vec<u8>,
    pub dao: Vec<u8>,
}

/// The content hashes of the built-in scripts.
#[derive(Clone, Copy, Debug)]
pub struct GenesisCodeHashes {
    pub secp256k1_data: [u8; 32],
    pub secp256k1_blake160_sighash_all: [u8; 32],
    pub secp256k1_blake160_multisig_all: [u8; 32],
    pub dao: [u8; 32],
}

/// Where each built-in script is deployed.
#[derive(Clone, Copy, Debug, PartialEq, Eq)]
pub struct GenesisOutPoints {
    pub secp256k1_data: OutPoint,
    pub secp256k1_blake160_sighash_all: OutPoint,
    pub secp256k1_blake160_multisig_all: OutPoint,
    pub dao: OutPoint,
}

/// A block, as far as the ledger reads it.
#[derive(Debug, PartialEq, Eq)]
pub struct Block {
    pub number: u64,
    pub transactions: Vec<Transaction>,
}

/// The ledger after the built-in scripts are deployed under the references
/// of `at`, in the order: signature data, single-signature lock,
/// multi-signature lock, deposit script.
pub open spec fn genesis_deployed(
    chain: ChainView,
    scripts: GenesisScripts,
    at: GenesisOutPoints,
) -> ChainView {
    chain.deploy_cell_with_data(scripts.secp256k1_data@, at.secp256k1_data).deploy_cell_with_data(
        scripts.secp256k1_blake160_sighash_all@,
        at.secp256k1_blake160_sighash_all,
    ).deploy_cell_with_data(
        scripts.secp256k1_blake160_multisig_all@,
        at.secp256k1_blake160_multisig_all,
    ).deploy_cell_with_data(scripts.dao@, at.dao)
}

/// Whether each of the built-in scripts can be deployed in a code cell.
pub open spec fn deployable(scripts: GenesisScripts) -> bool {
    &&& scripts.secp256k1_data@.len() * BYTE_SHANNONS <= u64::MAX
    &&& scripts.secp256k1_blake160_sighash_all@.len() * BYTE_SHANNONS <= u64::MAX
    &&& scripts.secp256k1_blake160_multisig_all@.len() * BYTE_SHANNONS <= u64::MAX
    &&& scripts.dao@.len() * BYTE_SHANNONS <= u64::MAX
}

/// Whether the content index of `chain` gives `out_point` for `code`.
pub open spec fn found_at(chain: ChainView, code: Seq<u8>, out_point: OutPoint) -> bool {
    chain.cells_by_data_hash.contains_key(crate::hashing::data_hash(code))
        && chain.cells_by_data_hash[crate::hashing::data_hash(code)] == out_point
}

/// Deploys every built-in script on `chain`, each once, and hands back
/// where each is found.
pub fn genesis_event(chain: &mut MockChain, genesis_scripts: &GenesisScripts) -> (at: GenesisOutPoints)
    requires
        old(chain).wf(),
        old(chain).cells.keys().len() + 4 <= u32::MAX,
        deployable(*genesis_scripts),
    ensures
        final(chain).wf(),
        old(chain)@.consistent() ==> final(chain)@.consistent(),
        final(chain)@ == genesis_deployed(old(chain)@, *genesis_scripts, at),
        found_at(final(chain)@, genesis_scripts.secp256k1_data@, at.secp256k1_data),
        found_at(
            final(chain)@,
            genesis_scripts.secp256k1_blake160_sighash_all@,
            at.secp256k1_blake160_sighash_all,
        ),
        found_at(
            final(chain)@,
            genesis_scripts.secp256k1_blake160_multisig_all@,
            at.secp256k1_blake160_multisig_all,
        ),
        found_at(final(chain)@, genesis_scripts.dao@, at.dao),
        final(chain).cells.keys().len() <= old(chain).cells.keys().len() + 4,
{
    let secp256k1_data = chain.deploy_cell_with_data(clone_bytes(&genesis_scripts.secp256k1_data));
    let secp256k1_blake160_sighash_all = chain.deploy_cell_with_data(
        clone_bytes(&genesis_scripts.secp256k1_blake160_sighash_all),
    );
    let secp256k1_blake160_multisig_all = chain.deploy_cell_with_data(
        clone_bytes(&genesis_scripts.secp256k1_blake160_multisig_all),
    );
    let dao = chain.deploy_cell_with_data(clone_bytes(&genesis_scripts.dao));
    GenesisOutPoints {
        secp256k1_data,
        secp256k1_blake160_sighash_all,
        secp256k1_blake160_multisig_all,
        dao,
    }
}

/// Whether content of each of the four hashes is deployed on the ledger in
/// a cell that it holds.
pub open spec fn genesis_held(chain: ChainView, hashes: GenesisCodeHashes) -> bool {
    &&& held(chain, hashes.secp256k1_data)
    &&& held(chain, hashes.secp256k1_blake160_sighash_all)
    &&& held(chain, hashes.secp256k1_blake160_multisig_all)
    &&& held(chain, hashes.dao)
}

/// Whether content with hash `hash` is deployed in a cell that the ledger
/// holds.
pub open spec fn held(chain: ChainView, hash: [u8; 32]) -> bool {
    chain.cells_by_data_hash.contains_key(hash) && chain.cells.contains_key(
        chain.cells_by_data_hash[hash],
    )
}

/// The cell in which content with hash `hash` is deployed.
pub open spec fn code_cell_of(chain: ChainView, hash: [u8; 32]) -> CellView {
    chain.cells[chain.cells_by_data_hash[hash]]
}

/// The cells of the first block, in the order of its outputs: signature
/// data, single-signature lock, deposit script, a plain cell, and
/// multi-signature lock.
pub open spec fn genesis_cells(chain: ChainView, hashes: GenesisCodeHashes) -> Seq<CellView> {
    seq![
        code_cell_of(chain, hashes.secp256k1_data),
        code_cell_of(chain, hashes.secp256k1_blake160_sighash_all),
        code_cell_of(chain, hashes.dao),
        chain.default_locked_cell(GENESIS_PLAIN_CELL_BYTES, Seq::empty()),
        code_cell_of(chain, hashes.secp256k1_blake160_multisig_all),
    ]
}

/// The cell deployed with content of hash `hash`, if the ledger holds it.
fn code_cell(chain: &MockChain, hash: &[u8; 32]) -> (cell: Option<(CellOutput, Vec<u8>)>)
    requires
        chain.wf(),
    ensures
        cell is Some == held(chain@, *hash),
        cell is Some ==> cell_view(cell->Some_0) == code_cell_of(chain@, *hash),
{
    match chain.get_cell_by_data_hash(hash) {
        Some(out_point) => chain.get_cell(&out_point),
        None => None,
    }
}

/// Builds the first block from the built-in scripts deployed on `chain`:
/// block number 0 with one transaction, whose outputs are the cells of the
/// scripts and, in the fourth place, a plain cell locked by the default
/// lock, which is stored on the ledger under a fresh reference. Where one
/// of the scripts is not deployed there is no block, and the ledger stays
/// as it is.
pub fn genesis_block_from_chain(chain: &mut MockChain, hashes: &GenesisCodeHashes) -> (block: Option<
    Block,
>)
    requires
        old(chain).wf(),
        old(chain).has_room(),
        old(chain)@.default_lock is Some,
    ensures
        final(chain).wf(),
        old(chain)@.consistent() ==> final(chain)@.consistent(),
        block is Some == genesis_held(old(chain)@, *hashes),
        block is None ==> final(chain)@ == old(chain)@,
        block is Some ==> {
            &&& block->Some_0.number == 0
            &&& block->Some_0.transactions@.len() == 1
            &&& block->Some_0.transactions@[0]@ == (TransactionView {
                outputs: Seq::new(5, |i: int| genesis_cells(old(chain)@, *hashes)[i].output),
                outputs_data: Seq::new(5, |i: int| genesis_cells(old(chain)@, *hashes)[i].data),
                ..TransactionView::empty()
            })
            &&& exists|out_point: OutPoint|
                !old(chain)@.cells.contains_key(out_point) && final(chain)@ == old(
                    chain,
                )@.create_cell_with_outpoint(
                    out_point,
                    old(chain)@.default_locked_cell(GENESIS_PLAIN_CELL_BYTES, Seq::empty()),
                )
        },
{
    let secp256k1_data = match code_cell(chain, &hashes.secp256k1_data) {
        Some(cell) => cell,
        None => {
            return None;
        },
    };
    let sighash_all = match code_cell(chain, &hashes.secp256k1_blake160_sighash_all) {
        Some(cell) => cell,
        None => {
            return None;
        },
    };
    let dao = match code_cell(chain, &hashes.dao) {
        Some(cell) => cell,
        None => {
            return None;
        },
    };
    let multisig_all = match code_cell(chain, &hashes.secp256k1_blake160_multisig_all) {
        Some(cell) => cell,
        None => {
            return None;
        },
    };
    let ghost before = chain@;
    let plain_at = chain.deploy_random_cell_with_default_lock(GENESIS_PLAIN_CELL_BYTES, None);
    let plain = match chain.get_cell(&plain_at) {
        Some(cell) => cell,
        None => vstd::pervasive::unreached(),
    };
    let mut outputs: Vec<CellOutput> = Vec::new();
    let mut outputs_data: Vec<Vec<u8>> = Vec::new();
    outputs.push(secp256k1_data.0);
    outputs_data.push(secp256k1_data.1);
    outputs.push(sighash_all.0);
    outputs_data.push(sighash_all.1);
    outputs.push(dao.0);
    outputs_data.push(dao.1);
    outputs.push(plain.0);
    outputs_data.push(plain.1);
    outputs.push(multisig_all.0);
    outputs_data.push(multisig_all.1);
    let tx = Transaction::new().set_outputs(outputs, outputs_data);
    proof {
        let cells = genesis_cells(before, *hashes);
        assert(tx@.outputs =~= Seq::new(5, |i: int| cells[i].output));
        assert(tx@.outputs_data =~= Seq::new(5, |i: int| cells[i].data));
    }
    let mut transactions: Vec<Transaction> = Vec::new();
    transactions.push(tx);
    Some(Block { number: 0, transactions })
}

} // verus!
