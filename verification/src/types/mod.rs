pub mod cell;
pub mod script;
pub mod transaction;

use vstd::prelude::*;

verus! {

/// The views of the items of `list`, in order.
pub open spec fn views<T: View>(list: Seq<T>) -> Seq<T::V> {
    Seq::new(list.len(), |i: int| list[i]@)
}

/// A reference to a cell: the id of the transaction that created it and the
/// index of the cell among that transaction's outputs.
#[derive(Clone, Copy, Debug, PartialEq, Eq, Hash)]
pub struct OutPoint {
    pub tx_hash: [u8; 32],
    pub index: u32,
}

impl OutPoint {
    pub fn new(tx_hash: [u8; 32], index: u32) -> (out_point: OutPoint)
        ensures
            out_point == (OutPoint { tx_hash, index }),
    {
        OutPoint { tx_hash, index }
    }

    /// Whether `self` and `other` are the same reference.
    pub fn same(&self, other: &OutPoint) -> (same: bool)
        ensures
            same == (*self == *other),
    {
        self.index == other.index && crate::bytes::same_hash(&self.tx_hash, &other.tx_hash)
    }
}

/// How a dependency cell is to be read.
#[derive(Clone, Copy, Debug, PartialEq, Eq, Hash, Structural)]
pub enum DepType {
    /// The cell holds code.
    Code,
    /// The cell holds a list of references to further cells.
    DepGroup,
}

/// A cell that a transaction needs available without consuming it.
#[derive(Clone, Copy, Debug, PartialEq, Eq, Hash)]
pub struct CellDep {
    pub out_point: OutPoint,
    pub dep_type: DepType,
}

impl CellDep {
    /// A code dependency on the cell at `out_point`.
    pub fn code(out_point: OutPoint) -> (dep: CellDep)
        ensures
            dep == (CellDep { out_point, dep_type: DepType::Code }),
    {
        CellDep { out_point, dep_type: DepType::Code }
    }

    /// Whether `self` and `other` are the same dependency.
    pub fn same(&self, other: &CellDep) -> (same: bool)
        ensures
            same == (*self == *other),
    {
        self.dep_type == other.dep_type && self.out_point.same(&other.out_point)
    }
}

/// A cell that a transaction consumes.
#[derive(Clone, Copy, Debug, PartialEq, Eq, Hash)]
pub struct CellInput {
    pub previous_output: OutPoint,
    pub since: u64,
}

impl CellInput {
    /// An input that consumes the cell at `previous_output` with no time lock.
    pub fn new(previous_output: OutPoint) -> (input: CellInput)
        ensures
            input == (CellInput { previous_output, since: 0 }),
    {
        CellInput { previous_output, since: 0 }
    }
}

/// Where a committed cell's transaction sits in the chain.
#[derive(Clone, Copy, Debug, PartialEq, Eq, Hash)]
pub struct TransactionInfo {
    pub block_hash: [u8; 32],
    pub block_number: u64,
    pub block_epoch: u64,
    pub index: usize,
}

impl TransactionInfo {
    pub fn new(block_number: u64, block_epoch: u64, block_hash: [u8; 32], index: usize) -> (info:
        TransactionInfo)
        ensures
            info == (TransactionInfo { block_hash, block_number, block_epoch, index }),
    {
        TransactionInfo { block_hash, block_number, block_epoch, index }
    }
}

/// What the ledger reads of a block header.
#[derive(Clone, Copy, Debug, PartialEq, Eq, Hash)]
pub struct HeaderView {
    pub hash: [u8; 32],
    pub number: u64,
    pub epoch: u64,
}

impl HeaderView {
    pub fn hash(&self) -> (hash: [u8; 32])
        ensures
            hash == self.hash,
    {
        self.hash
    }

    pub fn number(&self) -> (number: u64)
        ensures
            number == self.number,
    {
        self.number
    }

    pub fn epoch(&self) -> (epoch: u64)
        ensures
            epoch == self.epoch,
    {
        self.epoch
    }
}

} // verus!
