use crate::chain::model::{first_seen, ChainView};
use crate::hashing::data_hash;
use crate::types::cell::{CellOutputView, CellView};
use crate::types::transaction::TransactionView;
use crate::types::OutPoint;
use vstd::prelude::*;

verus! {

/// The ledger with nothing in it is consistent.
pub proof fn lemma_empty_is_consistent()
    ensures
        ChainView::empty().consistent(),
{
}

/// Storing a cell keeps the ledger consistent: afterwards, as before, every
/// reference listed under a lock hash resolves to a cell with that lock
/// hash, and likewise for type hashes and content hashes.
pub proof fn lemma_create_cell_keeps_consistent(chain: ChainView, out_point: OutPoint, cell: CellView)
    requires
        chain.consistent(),
    ensures
        chain.create_cell_with_outpoint(out_point, cell).consistent(),
{
    let after = chain.create_cell_with_outpoint(out_point, cell);
    if !chain.cells.contains_key(out_point) {
        assert forall|h: [u8; 32]| #[trigger] after.cells_by_data_hash.contains_key(h) implies {
            &&& after.cells.contains_key(after.cells_by_data_hash[h])
            &&& after.cells[after.cells_by_data_hash[h]].data_hash() == h
        } by {
            if chain.cells_by_data_hash.contains_key(h) {
                assert(chain.cells.contains_key(chain.cells_by_data_hash[h]));
            }
        }
        assert forall|h: [u8; 32], i: int|
            after.cells_by_lock_hash.contains_key(h) && 0 <= i
                < after.cells_by_lock_hash[h].len() implies {
            &&& after.cells.contains_key(#[trigger] after.cells_by_lock_hash[h][i])
            &&& after.cells[after.cells_by_lock_hash[h][i]].output.lock_hash() == h
        } by {
            if h == cell.output.lock_hash() {
                if chain.cells_by_lock_hash.contains_key(h) && i
                    < chain.cells_by_lock_hash[h].len() {
                    assert(chain.cells.contains_key(chain.cells_by_lock_hash[h][i]));
                }
            } else {
                assert(chain.cells.contains_key(chain.cells_by_lock_hash[h][i]));
            }
        }
        assert forall|h: [u8; 32], i: int|
            after.cells_by_type_hash.contains_key(h) && 0 <= i
                < after.cells_by_type_hash[h].len() implies {
            &&& after.cells.contains_key(#[trigger] after.cells_by_type_hash[h][i])
            &&& after.cells[after.cells_by_type_hash[h][i]].output.has_type_hash(h)
        } by {
            if cell.output.type_ is Some && h == cell.output.type_->Some_0.hash() {
                if chain.cells_by_type_hash.contains_key(h) && i
                    < chain.cells_by_type_hash[h].len() {
                    assert(chain.cells.contains_key(chain.cells_by_type_hash[h][i]));
                }
            } else {
                assert(chain.cells.contains_key(chain.cells_by_type_hash[h][i]));
            }
        }
    }
}

/// Deploying content in a code cell keeps the ledger consistent.
pub proof fn lemma_deploy_with_data_keeps_consistent(
    chain: ChainView,
    data: Seq<u8>,
    out_point: OutPoint,
)
    requires
        chain.consistent(),
    ensures
        chain.deploy_cell_with_data(data, out_point).consistent(),
{
    let after = chain.deploy_cell_with_data(data, out_point);
    if !chain.deployed(data) && !chain.cells.contains_key(out_point) {
        assert forall|h: [u8; 32]| #[trigger] after.cells_by_data_hash.contains_key(h) implies {
            &&& after.cells.contains_key(after.cells_by_data_hash[h])
            &&& after.cells[after.cells_by_data_hash[h]].data_hash() == h
        } by {
            if chain.cells_by_data_hash.contains_key(h) {
                assert(chain.cells.contains_key(chain.cells_by_data_hash[h]));
            }
        }
        assert forall|h: [u8; 32], i: int|
            after.cells_by_lock_hash.contains_key(h) && 0 <= i
                < after.cells_by_lock_hash[h].len() implies {
            &&& after.cells.contains_key(#[trigger] after.cells_by_lock_hash[h][i])
            &&& after.cells[after.cells_by_lock_hash[h][i]].output.lock_hash() == h
        } by {
            assert(chain.cells.contains_key(chain.cells_by_lock_hash[h][i]));
        }
        assert forall|h: [u8; 32], i: int|
            after.cells_by_type_hash.contains_key(h) && 0 <= i
                < after.cells_by_type_hash[h].len() implies {
            &&& after.cells.contains_key(#[trigger] after.cells_by_type_hash[h][i])
            &&& after.cells[after.cells_by_type_hash[h][i]].output.has_type_hash(h)
        } by {
            assert(chain.cells.contains_key(chain.cells_by_type_hash[h][i]));
        }
    }
}

/// Deploying content in a given cell keeps the ledger consistent.
pub proof fn lemma_deploy_output_keeps_consistent(
    chain: ChainView,
    data: Seq<u8>,
    output: CellOutputView,
    out_point: OutPoint,
)
    requires
        chain.consistent(),
    ensures
        chain.deploy_cell_output(data, output, out_point).consistent(),
{
    lemma_create_cell_keeps_consistent(chain, out_point, CellView { output, data });
}

/// Storing the outputs of a transaction keeps the ledger consistent.
pub proof fn lemma_with_outputs_keeps_consistent(
    chain: ChainView,
    tx_hash: [u8; 32],
    tx: TransactionView,
    n: nat,
)
    requires
        chain.consistent(),
    ensures
        chain.with_outputs(tx_hash, tx, n).consistent(),
    decreases n,
{
    if n > 0 {
        lemma_with_outputs_keeps_consistent(chain, tx_hash, tx, (n - 1) as nat);
        lemma_create_cell_keeps_consistent(
            chain.with_outputs(tx_hash, tx, (n - 1) as nat),
            OutPoint { tx_hash, index: (n - 1) as u32 },
            CellView { output: tx.outputs[n - 1], data: tx.outputs_data[n - 1] },
        );
    }
}

/// Recording where a cell is committed keeps the ledger consistent.
pub proof fn lemma_link_keeps_consistent(
    chain: ChainView,
    out_point: OutPoint,
    block_hash: [u8; 32],
    index: usize,
)
    requires
        chain.consistent(),
    ensures
        chain.link_cell_with_block(out_point, block_hash, index).consistent(),
{
}

/// Deploying is idempotent. Once `data` is deployed with a free reference
/// offered for it, deploying the same bytes again, whatever reference is
/// offered then, gives the same reference and leaves the ledger as it is.
/// The first deployment of new content adds one cell, at the reference
/// offered, and changes no other; that of known content adds none.
pub proof fn lemma_deploy_is_idempotent(
    chain: ChainView,
    data: Seq<u8>,
    first: OutPoint,
    second: OutPoint,
)
    requires
        chain.deployed(data) || !chain.cells.contains_key(first),
    ensures
        chain.deploy_cell_with_data(data, first).deployed_at(data, second) == chain.deployed_at(
            data,
            first,
        ),
        chain.deploy_cell_with_data(data, first).deploy_cell_with_data(data, second)
            == chain.deploy_cell_with_data(data, first),
        chain.deployed(data) ==> chain.deploy_cell_with_data(data, first) == chain,
        !chain.deployed(data) ==> chain.deploy_cell_with_data(data, first).cells.dom()
            == chain.cells.dom().insert(first),
        forall|p: OutPoint| #[trigger]
            chain.cells.contains_key(p) ==> chain.deploy_cell_with_data(data, first).cells[p]
                == chain.cells[p],
{
    let once = chain.deploy_cell_with_data(data, first);
    if !chain.deployed(data) {
        assert(once.cells.dom() =~= chain.cells.dom().insert(first));
    }
}

/// Deploying in a given cell is idempotent in the same way.
pub proof fn lemma_deploy_output_is_idempotent(
    chain: ChainView,
    data: Seq<u8>,
    output: CellOutputView,
    first: OutPoint,
    second: OutPoint,
)
    requires
        chain.deployed(data) || !chain.cells.contains_key(first),
    ensures
        chain.deploy_cell_output(data, output, first).deployed_at(data, second)
            == chain.deployed_at(data, first),
        chain.deploy_cell_output(data, output, first).deploy_cell_output(data, output, second)
            == chain.deploy_cell_output(data, output, first),
        chain.deployed(data) ==> chain.deploy_cell_output(data, output, first) == chain,
        !chain.deployed(data) ==> chain.deploy_cell_output(data, output, first).cells.dom()
            == chain.cells.dom().insert(first),
        forall|p: OutPoint| #[trigger]
            chain.cells.contains_key(p) ==> chain.deploy_cell_output(data, output, first).cells[p]
                == chain.cells[p],
{
    let once = chain.deploy_cell_output(data, output, first);
    if !chain.deployed(data) {
        assert(once.cells.dom() =~= chain.cells.dom().insert(first));
    }
}

/// Content addressing. After `data` is deployed with a free reference
/// offered for it, the content index gives, under the hash of `data`, the
/// reference that the deployment returned.
pub proof fn lemma_deployed_is_found(chain: ChainView, data: Seq<u8>, out_point: OutPoint)
    requires
        chain.deployed(data) || !chain.cells.contains_key(out_point),
    ensures
        chain.deploy_cell_with_data(data, out_point).cells_by_data_hash.contains_key(
            data_hash(data),
        ),
        chain.deploy_cell_with_data(data, out_point).cells_by_data_hash[data_hash(data)]
            == chain.deployed_at(data, out_point),
{
}

/// The first deployment wins: storing a cell changes no entry of the
/// content index, and no stored cell.
pub proof fn lemma_create_cell_keeps_entries(chain: ChainView, out_point: OutPoint, cell: CellView)
    ensures
        forall|h: [u8; 32]| #[trigger]
            chain.cells_by_data_hash.contains_key(h) ==> {
                &&& chain.create_cell_with_outpoint(out_point, cell).cells_by_data_hash.contains_key(h)
                &&& chain.create_cell_with_outpoint(out_point, cell).cells_by_data_hash[h]
                    == chain.cells_by_data_hash[h]
            },
        forall|p: OutPoint| #[trigger]
            chain.cells.contains_key(p) ==> {
                &&& chain.create_cell_with_outpoint(out_point, cell).cells.contains_key(p)
                &&& chain.create_cell_with_outpoint(out_point, cell).cells[p] == chain.cells[p]
            },
{
}

/// The first deployment wins: deploying changes no entry of the content
/// index, and no stored cell.
pub proof fn lemma_deploy_keeps_entries(chain: ChainView, data: Seq<u8>, out_point: OutPoint)
    ensures
        forall|h: [u8; 32]| #[trigger]
            chain.cells_by_data_hash.contains_key(h) ==> {
                &&& chain.deploy_cell_with_data(data, out_point).cells_by_data_hash.contains_key(h)
                &&& chain.deploy_cell_with_data(data, out_point).cells_by_data_hash[h]
                    == chain.cells_by_data_hash[h]
            },
        forall|p: OutPoint| #[trigger]
            chain.cells.contains_key(p) ==> {
                &&& chain.deploy_cell_with_data(data, out_point).cells.contains_key(p)
                &&& chain.deploy_cell_with_data(data, out_point).cells[p] == chain.cells[p]
            },
{
}

/// A list stripped of repetitions holds no item twice, holds exactly the
/// items of the list, and keeps the list's first item first.
pub proof fn lemma_first_seen<A>(list: Seq<A>)
    ensures
        first_seen(list).no_duplicates(),
        forall|x: A| list.contains(x) <==> first_seen(list).contains(x),
        first_seen(list).len() <= list.len(),
    decreases list.len(),
{
    if list.len() > 0 {
        let front = list.drop_last();
        lemma_first_seen(front);
        let before = first_seen(front);
        let after = first_seen(list);
        assert(after == if before.contains(list.last()) {
            before
        } else {
            before.push(list.last())
        });
        assert forall|x: A| list.contains(x) <==> after.contains(x) by {
            if list.contains(x) {
                let i = choose|i: int| 0 <= i < list.len() && list[i] == x;
                if i < front.len() {
                    assert(front[i] == x);
                    assert(front.contains(x));
                    assert(before.contains(x));
                    let j = choose|j: int| 0 <= j < before.len() && before[j] == x;
                    assert(after[j] == x);
                } else {
                    assert(x == list.last());
                    if !before.contains(x) {
                        assert(after[before.len() as int] == x);
                    }
                }
            }
            if after.contains(x) {
                let j = choose|j: int| 0 <= j < after.len() && after[j] == x;
                if j < before.len() {
                    assert(before[j] == x);
                    assert(before.contains(x));
                    assert(front.contains(x));
                    let i = choose|i: int| 0 <= i < front.len() && front[i] == x;
                    assert(list[i] == x);
                } else {
                    assert(list[list.len() - 1] == x);
                }
            }
        }
    }
}

/// Stripping repetitions keeps the order of first occurrences: what comes
/// of a list's front is the front of what comes of the list.
pub proof fn lemma_first_seen_extends<A>(front: Seq<A>, rest: Seq<A>)
    ensures
        first_seen(front).is_prefix_of(first_seen(front + rest)),
    decreases rest.len(),
{
    if rest.len() == 0 {
        assert(front + rest =~= front);
    } else {
        lemma_first_seen_extends(front, rest.drop_last());
        assert((front + rest).drop_last() =~= front + rest.drop_last());
    }
}

/// Completing the dependencies of a transaction never removes one that the
/// transaction names, keeps the named ones in their order of first
/// occurrence at the front, never lists a dependency twice, and changes
/// nothing else of the transaction.
pub proof fn lemma_complete_tx_keeps_named_deps(chain: ChainView, tx: TransactionView)
    ensures
        forall|i: int|
            0 <= i < tx.cell_deps.len() ==> chain.complete_tx(tx).cell_deps.contains(
                #[trigger] tx.cell_deps[i],
            ),
        chain.complete_tx(tx).cell_deps.no_duplicates(),
        first_seen(tx.cell_deps).is_prefix_of(chain.complete_tx(tx).cell_deps),
        chain.complete_tx(tx) == (TransactionView {
            cell_deps: chain.complete_tx(tx).cell_deps,
            ..tx
        }),
{
    let wanted = chain.wanted_deps(tx);
    lemma_first_seen(wanted);
    assert forall|i: int| 0 <= i < tx.cell_deps.len() implies chain.complete_tx(
        tx,
    ).cell_deps.contains(#[trigger] tx.cell_deps[i]) by {
        assert(wanted[i] == tx.cell_deps[i]);
        assert(wanted.contains(tx.cell_deps[i]));
    }
    let rest = chain.inputs_deps(tx.inputs, tx.inputs.len()) + chain.outputs_deps(
        tx.outputs,
        tx.outputs.len(),
    );
    assert(wanted =~= tx.cell_deps + rest);
    lemma_first_seen_extends(tx.cell_deps, rest);
}

} // verus!
