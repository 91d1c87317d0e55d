use crate::bytes::clone_bytes;
use crate::hashing::data_hash;
use crate::types::script::{Script, ScriptView};
use crate::types::{OutPoint, TransactionInfo};
use vstd::prelude::*;

verus! {

/// What a cell declares besides its data: its capacity, the lock script
/// that governs spending it, and an optional type script.
#[derive(Debug, PartialEq, Eq)]
pub struct CellOutput {
    pub capacity: u64,
    pub lock: Script,
    pub type_: Option<Script>,
}

/// The mathematical value of a [`CellOutput`].
pub struct CellOutputView {
    pub capacity: u64,
    pub lock: ScriptView,
    pub type_: Option<ScriptView>,
}

impl CellOutputView {
    /// The hash of the lock script.
    pub open spec fn lock_hash(self) -> [u8; 32] {
        self.lock.hash()
    }

    /// Whether the cell has a type script, and its hash is `hash`.
    pub open spec fn has_type_hash(self, hash: [u8; 32]) -> bool {
        self.type_ is Some && self.type_->Some_0.hash() == hash
    }
}

impl View for CellOutput {
    type V = CellOutputView;

    open spec fn view(&self) -> CellOutputView {
        CellOutputView {
            capacity: self.capacity,
            lock: self.lock@,
            type_: match self.type_ {
                Some(script) => Some(script@),
                None => None,
            },
        }
    }
}

impl Clone for CellOutput {
    fn clone(&self) -> (copy: CellOutput)
        ensures
            copy@ == self@,
    {
        let type_ = match &self.type_ {
            Some(script) => Some(script.clone()),
            None => None,
        };
        CellOutput { capacity: self.capacity, lock: self.lock.clone(), type_ }
    }
}

impl CellOutput {
    pub fn new(capacity: u64, lock: Script, type_: Option<Script>) -> (output: CellOutput)
        ensures
            output == (CellOutput { capacity, lock, type_ }),
    {
        CellOutput { capacity, lock, type_ }
    }

    pub fn calc_lock_hash(&self) -> (hash: [u8; 32])
        ensures
            hash == self@.lock_hash(),
    {
        self.lock.calc_script_hash()
    }

    /// The hash of the type script, if the cell has one.
    pub fn calc_type_hash(&self) -> (hash: Option<[u8; 32]>)
        ensures
            match hash {
                Some(h) => self@.has_type_hash(h),
                None => self@.type_ is None,
            },
    {
        match &self.type_ {
            Some(script) => Some(script.calc_script_hash()),
            None => None,
        }
    }
}

/// A cell: what it declares, and its data.
pub type CellOutputWithData = (CellOutput, Vec<u8>);

/// The mathematical value of a cell.
pub struct CellView {
    pub output: CellOutputView,
    pub data: Seq<u8>,
}

impl CellView {
    /// The content hash of the cell's data.
    pub open spec fn data_hash(self) -> [u8; 32] {
        data_hash(self.data)
    }
}

/// The value of a cell held as a pair.
pub open spec fn cell_view(cell: CellOutputWithData) -> CellView {
    CellView { output: cell.0@, data: cell.1@ }
}

/// A fresh copy of a cell.
pub fn clone_cell(cell: &CellOutputWithData) -> (copy: CellOutputWithData)
    ensures
        cell_view(copy) == cell_view(*cell),
{
    (cell.0.clone(), clone_bytes(&cell.1))
}

/// A cell made ready for a transaction that reads or consumes it.
#[derive(Debug, PartialEq, Eq)]
pub struct CellMeta {
    pub cell_output: CellOutput,
    pub out_point: OutPoint,
    pub transaction_info: Option<TransactionInfo>,
    pub data_bytes: u64,
    pub mem_cell_data: Option<Vec<u8>>,
    pub mem_cell_data_hash: Option<[u8; 32]>,
}

/// The mathematical value of a [`CellMeta`].
pub struct CellMetaView {
    pub cell_output: CellOutputView,
    pub out_point: OutPoint,
    pub transaction_info: Option<TransactionInfo>,
    pub data_bytes: u64,
    pub mem_cell_data: Option<Seq<u8>>,
    pub mem_cell_data_hash: Option<[u8; 32]>,
}

impl View for CellMeta {
    type V = CellMetaView;

    open spec fn view(&self) -> CellMetaView {
        CellMetaView {
            cell_output: self.cell_output@,
            out_point: self.out_point,
            transaction_info: self.transaction_info,
            data_bytes: self.data_bytes,
            mem_cell_data: match self.mem_cell_data {
                Some(data) => Some(data@),
                None => None,
            },
            mem_cell_data_hash: self.mem_cell_data_hash,
        }
    }
}

/// The materialised form of the cell `cell` found at `out_point`, with the
/// place of its transaction where one is recorded.
pub open spec fn resolved_cell(
    cell: CellView,
    out_point: OutPoint,
    transaction_info: Option<TransactionInfo>,
) -> CellMetaView {
    CellMetaView {
        cell_output: cell.output,
        out_point,
        transaction_info,
        data_bytes: cell.data.len() as u64,
        mem_cell_data: Some(cell.data),
        mem_cell_data_hash: Some(cell.data_hash()),
    }
}

impl Clone for CellMeta {
    fn clone(&self) -> (copy: CellMeta)
        ensures
            copy@ == self@,
    {
        let mem_cell_data = match &self.mem_cell_data {
            Some(data) => Some(clone_bytes(data)),
            None => None,
        };
        CellMeta {
            cell_output: self.cell_output.clone(),
            out_point: self.out_point,
            transaction_info: self.transaction_info,
            data_bytes: self.data_bytes,
            mem_cell_data,
            mem_cell_data_hash: self.mem_cell_data_hash,
        }
    }
}

impl CellMeta {
    /// Materialises a cell of the ledger.
    pub fn from_cell_output(
        cell: &CellOutputWithData,
        out_point: OutPoint,
        transaction_info: Option<TransactionInfo>,
    ) -> (meta: CellMeta)
        ensures
            meta@ == resolved_cell(cell_view(*cell), out_point, transaction_info),
    {
        let data = clone_bytes(&cell.1);
        let hash = crate::hashing::calc_data_hash(data.as_slice());
        CellMeta {
            cell_output: cell.0.clone(),
            out_point,
            transaction_info,
            data_bytes: data.len() as u64,
            mem_cell_data: Some(data),
            mem_cell_data_hash: Some(hash),
        }
    }
}

/// A fresh copy of a list of materialised cells.
pub fn clone_cell_metas(list: &Vec<CellMeta>) -> (copy: Vec<CellMeta>)
    ensures
        crate::types::views(copy@) == crate::types::views(list@),
{
    let mut copy: Vec<CellMeta> = Vec::new();
    let mut i: usize = 0;
    while i < list.len()
        invariant
            i <= list@.len(),
            copy@.len() == i,
            forall|j: int| 0 <= j < i ==> copy@[j]@ == list@[j]@,
        decreases list@.len() - i,
    {
        copy.push(list[i].clone());
        i += 1;
    }
    assert(crate::types::views(copy@) =~= crate::types::views(list@));
    copy
}

} // verus!
