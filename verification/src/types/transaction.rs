use crate::bytes::{byte_strings, clone_byte_strings};
use crate::types::cell::{clone_cell_metas, CellMeta, CellMetaView, CellOutput, CellOutputView};
use crate::types::{views, CellDep, CellInput};
use vstd::prelude::*;

verus! {

/// A transaction by references: the cells it consumes and the cells it needs
/// available, each by its reference, and the cells it creates with their data.
#[derive(Debug, PartialEq, Eq)]
pub struct Transaction {
    pub version: u32,
    pub cell_deps: Vec<CellDep>,
    pub header_deps: Vec<[u8; 32]>,
    pub inputs: Vec<CellInput>,
    pub outputs: Vec<CellOutput>,
    pub outputs_data: Vec<Vec<u8>>,
    pub witnesses: Vec<Vec<u8>>,
}

/// The mathematical value of a [`Transaction`].
pub struct TransactionView {
    pub version: u32,
    pub cell_deps: Seq<CellDep>,
    pub header_deps: Seq<[u8; 32]>,
    pub inputs: Seq<CellInput>,
    pub outputs: Seq<CellOutputView>,
    pub outputs_data: Seq<Seq<u8>>,
    pub witnesses: Seq<Seq<u8>>,
}

impl TransactionView {
    /// The transaction with nothing in it.
    pub open spec fn empty() -> TransactionView {
        TransactionView {
            version: 0,
            cell_deps: Seq::empty(),
            header_deps: Seq::empty(),
            inputs: Seq::empty(),
            outputs: Seq::empty(),
            outputs_data: Seq::empty(),
            witnesses: Seq::empty(),
        }
    }
}

impl View for Transaction {
    type V = TransactionView;

    open spec fn view(&self) -> TransactionView {
        TransactionView {
            version: self.version,
            cell_deps: self.cell_deps@,
            header_deps: self.header_deps@,
            inputs: self.inputs@,
            outputs: views(self.outputs@),
            outputs_data: byte_strings(self.outputs_data@),
            witnesses: byte_strings(self.witnesses@),
        }
    }
}

/// A fresh copy of a list of plain values.
pub fn clone_plain<T: Copy>(list: &Vec<T>) -> (copy: Vec<T>)
    ensures
        copy@ == list@,
{
    let mut copy: Vec<T> = Vec::new();
    let mut i: usize = 0;
    while i < list.len()
        invariant
            i <= list@.len(),
            copy@ == list@.take(i as int),
        decreases list@.len() - i,
    {
        copy.push(list[i]);
        assert(copy@ =~= list@.take(i + 1));
        i += 1;
    }
    assert(list@.take(i as int) =~= list@);
    copy
}

/// A fresh copy of a list of outputs.
pub fn clone_outputs(list: &Vec<CellOutput>) -> (copy: Vec<CellOutput>)
    ensures
        views(copy@) == views(list@),
{
    let mut copy: Vec<CellOutput> = Vec::new();
    let mut i: usize = 0;
    while i < list.len()
        invariant
            i <= list@.len(),
            copy@.len() == i,
            forall|j: int| 0 <= j < i ==> copy@[j]@ == list@[j]@,
        decreases list@.len() - i,
    {
        copy.push(list[i].clone());
        i += 1;
    }
    assert(views(copy@) =~= views(list@));
    copy
}

impl Clone for Transaction {
    fn clone(&self) -> (copy: Transaction)
        ensures
            copy@ == self@,
    {
        Transaction {
            version: self.version,
            cell_deps: clone_plain(&self.cell_deps),
            header_deps: clone_plain(&self.header_deps),
            inputs: clone_plain(&self.inputs),
            outputs: clone_outputs(&self.outputs),
            outputs_data: clone_byte_strings(&self.outputs_data),
            witnesses: clone_byte_strings(&self.witnesses),
        }
    }
}

impl Transaction {
    /// The transaction with nothing in it.
    pub fn new() -> (tx: Transaction)
        ensures
            tx@ == TransactionView::empty(),
    {
        let tx = Transaction {
            version: 0,
            cell_deps: Vec::new(),
            header_deps: Vec::new(),
            inputs: Vec::new(),
            outputs: Vec::new(),
            outputs_data: Vec::new(),
            witnesses: Vec::new(),
        };
        assert(tx@.outputs =~= Seq::empty());
        assert(tx@.outputs_data =~= Seq::empty());
        assert(tx@.witnesses =~= Seq::empty());
        tx
    }

    /// Replaces the inputs.
    pub fn set_inputs(self, inputs: Vec<CellInput>) -> (tx: Transaction)
        ensures
            tx@ == (TransactionView { inputs: inputs@, ..self@ }),
    {
        Transaction {
            version: self.version,
            cell_deps: self.cell_deps,
            header_deps: self.header_deps,
            inputs,
            outputs: self.outputs,
            outputs_data: self.outputs_data,
            witnesses: self.witnesses,
        }
    }

    /// Replaces the dependencies.
    pub fn set_cell_deps(self, cell_deps: Vec<CellDep>) -> (tx: Transaction)
        ensures
            tx@ == (TransactionView { cell_deps: cell_deps@, ..self@ }),
    {
        Transaction {
            version: self.version,
            cell_deps,
            header_deps: self.header_deps,
            inputs: self.inputs,
            outputs: self.outputs,
            outputs_data: self.outputs_data,
            witnesses: self.witnesses,
        }
    }

    /// Replaces the outputs and their data.
    pub fn set_outputs(self, outputs: Vec<CellOutput>, outputs_data: Vec<Vec<u8>>) -> (tx:
        Transaction)
        ensures
            tx@ == (TransactionView {
                outputs: views(outputs@),
                outputs_data: byte_strings(outputs_data@),
                ..self@
            }),
    {
        Transaction {
            version: self.version,
            cell_deps: self.cell_deps,
            header_deps: self.header_deps,
            inputs: self.inputs,
            outputs,
            outputs_data,
            witnesses: self.witnesses,
        }
    }
}

/// A transaction together with the cell behind each of its inputs and
/// dependencies.
#[derive(Debug, PartialEq, Eq)]
pub struct ResolvedTransaction {
    pub transaction: Transaction,
    pub resolved_cell_deps: Vec<CellMeta>,
    pub resolved_inputs: Vec<CellMeta>,
    pub resolved_dep_groups: Vec<CellMeta>,
}

/// The mathematical value of a [`ResolvedTransaction`].
pub struct ResolvedTransactionView {
    pub transaction: TransactionView,
    pub resolved_cell_deps: Seq<CellMetaView>,
    pub resolved_inputs: Seq<CellMetaView>,
    pub resolved_dep_groups: Seq<CellMetaView>,
}

impl View for ResolvedTransaction {
    type V = ResolvedTransactionView;

    open spec fn view(&self) -> ResolvedTransactionView {
        ResolvedTransactionView {
            transaction: self.transaction@,
            resolved_cell_deps: views(self.resolved_cell_deps@),
            resolved_inputs: views(self.resolved_inputs@),
            resolved_dep_groups: views(self.resolved_dep_groups@),
        }
    }
}

impl Clone for ResolvedTransaction {
    fn clone(&self) -> (copy: ResolvedTransaction)
        ensures
            copy@ == self@,
    {
        ResolvedTransaction {
            transaction: self.transaction.clone(),
            resolved_cell_deps: clone_cell_metas(&self.resolved_cell_deps),
            resolved_inputs: clone_cell_metas(&self.resolved_inputs),
            resolved_dep_groups: clone_cell_metas(&self.resolved_dep_groups),
        }
    }
}

} // verus!
