use crate::chain::mock_chain::MockChainTxProvider;
use crate::chain::model::{limited, VerifierError};
use crate::contract::generator::{
    CellQuery, CellQueryAttribute, CellQueryView, QueryProvider, QueryStatement,
    TransactionProvider,
};
use crate::types::cell::{CellMeta, CellMetaView};
use crate::types::transaction::{clone_plain, Transaction, TransactionView};
use crate::types::{views, OutPoint};
use vstd::prelude::*;

verus! {

/// The first `limit` items of `list`, or all of them where it has fewer.
pub fn take_limited(list: Vec<OutPoint>, limit: u64) -> (kept: Vec<OutPoint>)
    ensures
        kept@ == limited(list@, limit),
{
    if list.len() as u64 <= limit {
        return list;
    }
    let wanted = limit as usize;
    let mut kept: Vec<OutPoint> = Vec::new();
    let mut i: usize = 0;
    while i < wanted
        invariant
            wanted == limit,
            wanted < list@.len(),
            i <= wanted,
            kept@ == list@.take(i as int),
        decreases wanted - i,
    {
        kept.push(list[i]);
        assert(kept@ =~= list@.take(i + 1));
        i += 1;
    }
    kept
}

impl MockChainTxProvider {
    /// The references that match `attribute`, as the ledger's indices list
    /// them.
    fn matching(&self, attribute: &CellQueryAttribute) -> (found: Option<Vec<OutPoint>>)
        requires
            self.chain.wf(),
        ensures
            match found {
                Some(list) => self.chain@.matching(attribute@) == Some(list@),
                None => self.chain@.matching(attribute@) is None,
            },
    {
        match attribute {
            CellQueryAttribute::LockHash(hash) => self.chain.get_cells_by_lock_hash(*hash),
            CellQueryAttribute::LockScript(script) => self.chain.get_cells_by_lock_hash(
                script.calc_script_hash(),
            ),
            CellQueryAttribute::TypeScript(script) => self.chain.get_cells_by_type_hash(
                script.calc_script_hash(),
            ),
            CellQueryAttribute::DataHash(hash) => match self.chain.get_cell_by_data_hash(hash) {
                Some(out_point) => {
                    let mut list: Vec<OutPoint> = Vec::new();
                    list.push(out_point);
                    assert(list@ =~= seq![out_point]);
                    Some(list)
                },
                None => None,
            },
            _ => None,
        }
    }

    /// Takes a transaction with the verifier's verdict on it, completes its
    /// dependencies and hands it to the ledger. Hands back the
    /// transaction's id where the verdict accepts it, and nothing otherwise.
    pub fn send_tx(
        &mut self,
        tx: Transaction,
        tx_hash: [u8; 32],
        verdict: Result<u64, VerifierError>,
    ) -> (sent: Option<[u8; 32]>)
        requires
            old(self).chain.wf(),
            tx@.outputs.len() <= u32::MAX,
        ensures
            final(self).chain.wf(),
            old(self).chain@.consistent() ==> final(self).chain@.consistent(),
            verdict is Ok ==> sent == Some(tx_hash) && final(self).chain@ == old(
                self,
            ).chain@.with_outputs(
                tx_hash,
                old(self).chain@.complete_tx(tx@),
                crate::chain::model::ChainView::paired_outputs(tx@),
            ),
            verdict is Err ==> sent is None && final(self).chain@ == old(self).chain@,
    {
        let completed = self.chain.complete_tx(tx);
        match self.chain.receive_tx(&completed, tx_hash, verdict) {
            Ok(hash) => Some(hash),
            Err(_) => None,
        }
    }
}

impl QueryProvider for MockChainTxProvider {
    open spec fn ready(&self) -> bool {
        self.chain.wf()
    }

    open spec fn found(&self, query: CellQueryView) -> Option<Seq<OutPoint>> {
        self.chain@.query(query)
    }

    open spec fn found_cells(&self, query: CellQueryView) -> Option<Seq<CellMetaView>> {
        self.chain@.query_cell_meta(query)
    }

    fn query(&self, query: CellQuery) -> (found: Option<Vec<OutPoint>>) {
        match &query._query {
            QueryStatement::Single(attribute) => match self.matching(attribute) {
                Some(list) => Some(take_limited(list, query._limit)),
                None => None,
            },
            _ => None,
        }
    }

    fn query_cell_meta(&self, query: CellQuery) -> (found: Option<Vec<CellMeta>>) {
        let ghost asked = query@;
        let list = match self.query(query) {
            Some(list) => list,
            None => {
                return None;
            },
        };
        let mut cells: Vec<CellMeta> = Vec::new();
        let mut i: usize = 0;
        while i < list.len()
            invariant
                self.chain.wf(),
                asked == query@,
                self.chain@.query(asked) == Some(list@),
                i <= list@.len(),
                cells@.len() == i,
                forall|j: int| 0 <= j < i ==> self.chain@.cells.contains_key(#[trigger] list@[j]),
                forall|j: int|
                    0 <= j < i ==> (#[trigger] cells@[j])@ == crate::types::cell::resolved_cell(
                        self.chain@.cells[list@[j]],
                        list@[j],
                        None,
                    ),
            decreases list@.len() - i,
        {
            match self.chain.cells.get(&list[i]) {
                Some(cell) => {
                    cells.push(CellMeta::from_cell_output(cell, list[i], None));
                },
                None => {
                    proof {
                        let found = self.chain@.query(asked)->Some_0;
                        assert(!self.chain@.cells.contains_key(found[i as int]));
                        assert(self.chain@.query_cell_meta(asked) is None);
                    }
                    return None;
                },
            }
            i += 1;
        }
        proof {
            let expected = Seq::new(
                list@.len(),
                |i: int|
                    crate::types::cell::resolved_cell(self.chain@.cells[list@[i]], list@[i], None),
            );
            assert(views(cells@) =~= expected);
            assert(self.chain@.query_cell_meta(asked) == Some(expected));
        }
        Some(cells)
    }
}

impl TransactionProvider for MockChainTxProvider {
    open spec fn ready(&self) -> bool {
        self.chain.wf()
    }

    open spec fn completed(&self, tx: TransactionView) -> TransactionView {
        self.chain@.complete_tx(tx)
    }

    fn complete_tx(&self, tx: Transaction) -> (completed: Transaction) {
        self.chain.complete_tx(tx)
    }
}

} // verus!
