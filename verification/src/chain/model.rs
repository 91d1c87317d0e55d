use crate::contract::generator::{CellQueryAttributeView, CellQueryView, QueryStatementView};
use crate::hashing::{data_hash, zero_hash};
use crate::types::cell::{resolved_cell, CellMetaView, CellOutputView, CellView};
use crate::types::script::{ScriptHashType, ScriptView};
use crate::types::transaction::{ResolvedTransactionView, TransactionView};
use crate::types::{CellDep, CellInput, DepType, HeaderView, OutPoint, TransactionInfo};
use vstd::prelude::*;

verus! {

/// A message that a script printed while it ran: the script's id and the text.
pub struct MessageView {
    pub id: [u8; 32],
    pub message: Seq<char>,
}

/// The mathematical value of the ledger: the cells by reference, where each
/// committed cell sits in the chain, the known headers, the three indices,
/// the default lock's code cell, and the debug capture.
pub struct ChainView {
    pub cells: Map<OutPoint, CellView>,
    pub outpoint_txs: Map<OutPoint, TransactionInfo>,
    pub headers: Map<[u8; 32], HeaderView>,
    pub cells_by_data_hash: Map<[u8; 32], OutPoint>,
    pub cells_by_lock_hash: Map<[u8; 32], Seq<OutPoint>>,
    pub cells_by_type_hash: Map<[u8; 32], Seq<OutPoint>>,
    pub default_lock: Option<OutPoint>,
    pub debug: bool,
    pub messages: Seq<MessageView>,
}

/// Why a transaction was not accepted.
#[derive(Debug)]
pub struct VerifierError {
    pub message: String,
}

/// Why an operation of the ledger failed.
#[derive(Debug)]
pub enum ChainError {
    /// A transaction refers to a cell that the ledger does not hold.
    UnresolvedReference(OutPoint),
    /// A script names its code otherwise than by its content hash.
    UnsupportedScriptAddressing,
    /// The verifier refused the transaction.
    Verification(VerifierError),
    /// A transaction has this many outputs (first) but data for that many
    /// (second).
    OutputsDataLengthMismatch(usize, usize),
}

/// The items of `list` without repetition, each at the place where it
/// first occurs.
pub open spec fn first_seen<A>(list: Seq<A>) -> Seq<A>
    decreases list.len(),
{
    if list.len() == 0 {
        Seq::empty()
    } else {
        let before = first_seen(list.drop_last());
        if before.contains(list.last()) {
            before
        } else {
            before.push(list.last())
        }
    }
}

/// The references that a transaction makes, in the order in which they are
/// resolved: its inputs, then its dependencies.
pub open spec fn references(tx: TransactionView) -> Seq<OutPoint> {
    Seq::new(tx.inputs.len(), |i: int| tx.inputs[i].previous_output) + Seq::new(
        tx.cell_deps.len(),
        |i: int| tx.cell_deps[i].out_point,
    )
}

/// The first `limit` items of `list`, or all of them where it has fewer.
pub open spec fn limited<A>(list: Seq<A>, limit: u64) -> Seq<A> {
    if list.len() <= limit {
        list
    } else {
        list.take(limit as int)
    }
}

/// The references listed under `hash` in an index; none where the hash is
/// not in it.
pub open spec fn listed(index: Map<[u8; 32], Seq<OutPoint>>, hash: [u8; 32]) -> Seq<OutPoint> {
    if index.contains_key(hash) {
        index[hash]
    } else {
        Seq::empty()
    }
}

/// The script with a zero code hash, hash type `Data`, no arguments and its
/// own hash recorded.
pub open spec fn default_script() -> ScriptView {
    let bare = ScriptView {
        args: Seq::empty(),
        code_hash: zero_hash(),
        hash_type: ScriptHashType::Data,
        script_hash: zero_hash(),
    };
    ScriptView { script_hash: bare.hash(), ..bare }
}

/// The cell that wraps deployed `data`: its capacity is that of the data's
/// length, its lock is the default script, and its type script names the
/// data by its content hash.
pub open spec fn code_cell(data: Seq<u8>) -> CellView {
    let bare = ScriptView {
        args: Seq::empty(),
        code_hash: data_hash(data),
        hash_type: ScriptHashType::Data,
        script_hash: zero_hash(),
    };
    CellView {
        output: CellOutputView {
            capacity: (data.len() * crate::types::script::BYTE_SHANNONS) as u64,
            lock: default_script(),
            type_: Some(ScriptView { script_hash: bare.hash(), ..bare }),
        },
        data,
    }
}

impl ChainView {
    /// The ledger with nothing in it.
    pub open spec fn empty() -> ChainView {
        ChainView {
            cells: Map::empty(),
            outpoint_txs: Map::empty(),
            headers: Map::empty(),
            cells_by_data_hash: Map::empty(),
            cells_by_lock_hash: Map::empty(),
            cells_by_type_hash: Map::empty(),
            default_lock: None,
            debug: false,
            messages: Seq::empty(),
        }
    }

    /// Every entry of an index refers to a stored cell that belongs under it:
    /// a content hash to a cell with that data, a lock hash to cells with that
    /// lock, a type hash to cells with that type script.
    pub open spec fn consistent(self) -> bool {
        &&& forall|h: [u8; 32]| #[trigger]
            self.cells_by_data_hash.contains_key(h) ==> {
                &&& self.cells.contains_key(self.cells_by_data_hash[h])
                &&& self.cells[self.cells_by_data_hash[h]].data_hash() == h
            }
        &&& forall|h: [u8; 32], i: int|
            self.cells_by_lock_hash.contains_key(h) && 0 <= i < self.cells_by_lock_hash[h].len()
                ==> {
                &&& self.cells.contains_key(#[trigger] self.cells_by_lock_hash[h][i])
                &&& self.cells[self.cells_by_lock_hash[h][i]].output.lock_hash() == h
            }
        &&& forall|h: [u8; 32], i: int|
            self.cells_by_type_hash.contains_key(h) && 0 <= i < self.cells_by_type_hash[h].len()
                ==> {
                &&& self.cells.contains_key(#[trigger] self.cells_by_type_hash[h][i])
                &&& self.cells[self.cells_by_type_hash[h][i]].output.has_type_hash(h)
            }
    }

    /// The ledger after `cell` is stored at `out_point`. A reference that is
    /// taken keeps its cell, and the ledger stays as it is. Otherwise the cell
    /// is stored and entered in the indices: under its content hash unless
    /// that hash is listed already, at the end of the list of its lock hash,
    /// and at the end of the list of its type hash where it has a type script.
    pub open spec fn create_cell_with_outpoint(self, out_point: OutPoint, cell: CellView) -> ChainView {
        if self.cells.contains_key(out_point) {
            self
        } else {
            ChainView {
                cells: self.cells.insert(out_point, cell),
                cells_by_data_hash: if self.cells_by_data_hash.contains_key(cell.data_hash()) {
                    self.cells_by_data_hash
                } else {
                    self.cells_by_data_hash.insert(cell.data_hash(), out_point)
                },
                cells_by_lock_hash: self.cells_by_lock_hash.insert(
                    cell.output.lock_hash(),
                    listed(self.cells_by_lock_hash, cell.output.lock_hash()).push(out_point),
                ),
                cells_by_type_hash: match cell.output.type_ {
                    Some(script) => self.cells_by_type_hash.insert(
                        script.hash(),
                        listed(self.cells_by_type_hash, script.hash()).push(out_point),
                    ),
                    None => self.cells_by_type_hash,
                },
                ..self
            }
        }
    }

    /// Whether content with the hash of `data` is deployed.
    pub open spec fn deployed(self, data: Seq<u8>) -> bool {
        self.cells_by_data_hash.contains_key(data_hash(data))
    }

    /// The reference under which `data` is found after it is deployed with
    /// `out_point` offered for it: the one it was deployed under before, or
    /// else `out_point`.
    pub open spec fn deployed_at(self, data: Seq<u8>, out_point: OutPoint) -> OutPoint {
        if self.deployed(data) {
            self.cells_by_data_hash[data_hash(data)]
        } else {
            out_point
        }
    }

    /// The ledger after `data` is deployed in a cell of its own, with
    /// `out_point` offered for it. Deployed content stays where it is; new
    /// content is stored at `out_point` in its code cell and listed under its
    /// content hash.
    pub open spec fn deploy_cell_with_data(self, data: Seq<u8>, out_point: OutPoint) -> ChainView {
        if self.deployed(data) || self.cells.contains_key(out_point) {
            self
        } else {
            ChainView {
                cells: self.cells.insert(out_point, code_cell(data)),
                cells_by_data_hash: self.cells_by_data_hash.insert(data_hash(data), out_point),
                ..self
            }
        }
    }

    /// The ledger after `data` is deployed in the cell `output`, with
    /// `out_point` offered for it. Deployed content stays where it is; new
    /// content is stored as any cell is.
    pub open spec fn deploy_cell_output(
        self,
        data: Seq<u8>,
        output: CellOutputView,
        out_point: OutPoint,
    ) -> ChainView {
        if self.deployed(data) {
            self
        } else {
            self.create_cell_with_outpoint(out_point, CellView { output, data })
        }
    }

    /// The ledger after the cell at `out_point` is recorded as committed at
    /// place `index` of the block with hash `block_hash`. Without a header of
    /// that hash nothing is recorded.
    pub open spec fn link_cell_with_block(
        self,
        out_point: OutPoint,
        block_hash: [u8; 32],
        index: usize,
    ) -> ChainView {
        if self.headers.contains_key(block_hash) {
            let header = self.headers[block_hash];
            ChainView {
                outpoint_txs: self.outpoint_txs.insert(
                    out_point,
                    TransactionInfo {
                        block_hash,
                        block_number: header.number,
                        block_epoch: header.epoch,
                        index,
                    },
                ),
                ..self
            }
        } else {
            self
        }
    }

    /// The code dependency that `script` calls for: the cell deployed with
    /// the content that the script names by its hash. None where the script
    /// names its code otherwise, or no such content is deployed.
    pub open spec fn code_dep(self, script: ScriptView) -> Seq<CellDep> {
        if script.hash_type.by_content() && self.cells_by_data_hash.contains_key(
            script.code_hash,
        ) {
            seq![
                CellDep {
                    out_point: self.cells_by_data_hash[script.code_hash],
                    dep_type: DepType::Code,
                },
            ]
        } else {
            Seq::empty()
        }
    }

    /// The code dependencies of a cell: that of its lock, then that of its
    /// type script.
    pub open spec fn output_deps(self, output: CellOutputView) -> Seq<CellDep> {
        self.code_dep(output.lock) + match output.type_ {
            Some(script) => self.code_dep(script),
            None => Seq::empty(),
        }
    }

    /// The code dependencies of the cell that `input` consumes; none where
    /// the ledger does not hold that cell.
    pub open spec fn input_deps(self, input: CellInput) -> Seq<CellDep> {
        if self.cells.contains_key(input.previous_output) {
            self.output_deps(self.cells[input.previous_output].output)
        } else {
            Seq::empty()
        }
    }

    /// The code dependencies of the first `n` inputs, in input order.
    pub open spec fn inputs_deps(self, inputs: Seq<CellInput>, n: nat) -> Seq<CellDep>
        decreases n,
    {
        if n == 0 {
            Seq::empty()
        } else {
            self.inputs_deps(inputs, (n - 1) as nat) + self.input_deps(inputs[n - 1])
        }
    }

    /// The code dependencies of the first `n` outputs, in output order.
    pub open spec fn outputs_deps(self, outputs: Seq<CellOutputView>, n: nat) -> Seq<CellDep>
        decreases n,
    {
        if n == 0 {
            Seq::empty()
        } else {
            self.outputs_deps(outputs, (n - 1) as nat) + self.output_deps(outputs[n - 1])
        }
    }

    /// Every dependency that a transaction is to carry, with repetitions: the
    /// ones it names, then those of its inputs, then those of its outputs.
    pub open spec fn wanted_deps(self, tx: TransactionView) -> Seq<CellDep> {
        tx.cell_deps + self.inputs_deps(tx.inputs, tx.inputs.len()) + self.outputs_deps(
            tx.outputs,
            tx.outputs.len(),
        )
    }

    /// The transaction with its dependencies completed: every wanted
    /// dependency once, at the place where it is first wanted.
    pub open spec fn complete_tx(self, tx: TransactionView) -> TransactionView {
        TransactionView { cell_deps: first_seen(self.wanted_deps(tx)), ..tx }
    }

    /// The materialised cell at `out_point`.
    pub open spec fn resolve(self, out_point: OutPoint) -> CellMetaView
        recommends
            self.cells.contains_key(out_point),
    {
        resolved_cell(self.cells[out_point], out_point, self.location(out_point))
    }

    /// Whether the ledger holds every cell that `tx` refers to.
    pub open spec fn resolvable(self, tx: TransactionView) -> bool {
        forall|i: int| 0 <= i < references(tx).len() ==> self.cells.contains_key(
            #[trigger] references(tx)[i],
        )
    }

    /// Whether `out_point` is the first reference of `tx` that the ledger
    /// does not hold.
    pub open spec fn first_missing(self, tx: TransactionView, out_point: OutPoint) -> bool {
        exists|i: int|
            {
                &&& 0 <= i < references(tx).len()
                &&& #[trigger] references(tx)[i] == out_point
                &&& !self.cells.contains_key(out_point)
                &&& forall|j: int| 0 <= j < i ==> self.cells.contains_key(#[trigger] references(tx)[j])
            }
    }

    /// The transaction with the cell behind each input and dependency.
    pub open spec fn build_resolved_tx(self, tx: TransactionView) -> ResolvedTransactionView
        recommends
            self.resolvable(tx),
    {
        ResolvedTransactionView {
            transaction: tx,
            resolved_cell_deps: Seq::new(
                tx.cell_deps.len(),
                |i: int| self.resolve(tx.cell_deps[i].out_point),
            ),
            resolved_inputs: Seq::new(
                tx.inputs.len(),
                |i: int| self.resolve(tx.inputs[i].previous_output),
            ),
            resolved_dep_groups: Seq::empty(),
        }
    }

    /// How many outputs of `tx` come with their data.
    pub open spec fn paired_outputs(tx: TransactionView) -> nat {
        if tx.outputs.len() <= tx.outputs_data.len() {
            tx.outputs.len()
        } else {
            tx.outputs_data.len()
        }
    }

    /// The ledger after the first `n` outputs of `tx` are stored, in output
    /// order, each under the transaction's id and its own index.
    pub open spec fn with_outputs(self, tx_hash: [u8; 32], tx: TransactionView, n: nat) -> ChainView
        decreases n,
    {
        if n == 0 {
            self
        } else {
            self.with_outputs(tx_hash, tx, (n - 1) as nat).create_cell_with_outpoint(
                OutPoint { tx_hash, index: (n - 1) as u32 },
                CellView { output: tx.outputs[n - 1], data: tx.outputs_data[n - 1] },
            )
        }
    }

    /// A script that runs the default lock's code on the newer machine with
    /// `args`.
    pub open spec fn default_lock_script(self, args: Seq<u8>) -> ScriptView
        recommends
            self.default_lock is Some,
            self.cells.contains_key(self.default_lock->Some_0),
    {
        let bare = ScriptView {
            args,
            code_hash: self.cells[self.default_lock->Some_0].data_hash(),
            hash_type: ScriptHashType::Data1,
            script_hash: zero_hash(),
        };
        ScriptView { script_hash: bare.hash(), ..bare }
    }

    /// A cell of `capacity` bytes with no data and no type script, locked
    /// by the default lock with `args`.
    pub open spec fn default_locked_cell(self, capacity: usize, args: Seq<u8>) -> CellView {
        CellView {
            output: CellOutputView {
                capacity: (capacity * crate::types::script::BYTE_SHANNONS) as u64,
                lock: self.default_lock_script(args),
                type_: None,
            },
            data: Seq::empty(),
        }
    }

    /// The references of the cells that have `attribute`, in the order of
    /// the index that lists them; `None` where the index has no entry, or
    /// the attribute is a capacity, by which no index lists.
    pub open spec fn matching(self, attribute: CellQueryAttributeView) -> Option<Seq<OutPoint>> {
        match attribute {
            CellQueryAttributeView::LockHash(hash) => if self.cells_by_lock_hash.contains_key(
                hash,
            ) {
                Some(self.cells_by_lock_hash[hash])
            } else {
                None
            },
            CellQueryAttributeView::LockScript(script) => if self.cells_by_lock_hash.contains_key(
                script.hash(),
            ) {
                Some(self.cells_by_lock_hash[script.hash()])
            } else {
                None
            },
            CellQueryAttributeView::TypeScript(script) => if self.cells_by_type_hash.contains_key(
                script.hash(),
            ) {
                Some(self.cells_by_type_hash[script.hash()])
            } else {
                None
            },
            CellQueryAttributeView::DataHash(hash) => if self.cells_by_data_hash.contains_key(
                hash,
            ) {
                Some(seq![self.cells_by_data_hash[hash]])
            } else {
                None
            },
            _ => None,
        }
    }

    /// The answer to `query`: for a query of one attribute, the first
    /// references that match it, as many as its limit allows; `None` where
    /// nothing is listed for the attribute, and for every other query.
    pub open spec fn query(self, query: CellQueryView) -> Option<Seq<OutPoint>> {
        match query._query {
            QueryStatementView::Single(attribute) => match self.matching(attribute) {
                Some(list) => Some(limited(list, query._limit)),
                None => None,
            },
            _ => None,
        }
    }

    /// The cells behind the answer to `query`, each materialised without
    /// its place in the chain; `None` where the query has no answer, or
    /// the ledger does not hold one of the cells.
    pub open spec fn query_cell_meta(self, query: CellQueryView) -> Option<Seq<CellMetaView>> {
        match self.query(query) {
            Some(list) => if forall|i: int|
                0 <= i < list.len() ==> self.cells.contains_key(#[trigger] list[i]) {
                Some(Seq::new(list.len(), |i: int| resolved_cell(self.cells[list[i]], list[i], None)))
            } else {
                None
            },
            None => None,
        }
    }

    /// The place in the chain recorded for the cell at `out_point`, if any.
    pub open spec fn location(self, out_point: OutPoint) -> Option<TransactionInfo> {
        if self.outpoint_txs.contains_key(out_point) {
            Some(self.outpoint_txs[out_point])
        } else {
            None
        }
    }
}

} // verus!
