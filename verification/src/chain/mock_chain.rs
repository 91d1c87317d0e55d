use crate::bytes::clone_bytes;
use crate::chain::model::{ChainError, ChainView, MessageView};
use crate::contract::schema::BytesConversion;
use crate::contract::Contract;
use crate::hashing::{calc_data_hash, data_hash, random_bytes32};
use crate::table::Table;
use crate::types::cell::{
    cell_view, clone_cell, CellMeta, CellOutput, CellOutputWithData, CellView,
};
use crate::types::script::{capacity_of_bytes, Script, ScriptHashType, BYTE_SHANNONS};
use crate::types::transaction::{clone_plain, Transaction};
use crate::types::{views, HeaderView, OutPoint, TransactionInfo};
use vstd::prelude::*;

verus! {

/// A message that a script printed while it ran.
#[derive(Debug, PartialEq, Eq)]
pub struct Message {
    pub id: [u8; 32],
    pub message: String,
}

impl View for Message {
    type V = MessageView;

    open spec fn view(&self) -> MessageView {
        MessageView { id: self.id, message: self.message@ }
    }
}

/// Thirty-two random bytes.
pub fn random_hash() -> [u8; 32] {
    random_bytes32()
}

/// A reference with a random transaction id and index 0.
pub fn random_out_point() -> (out_point: OutPoint)
    ensures
        out_point.index == 0,
{
    OutPoint::new(random_hash(), 0)
}

/// An in-memory ledger of cells with its indices.
pub struct MockChain {
    pub cells: Table<OutPoint, CellOutputWithData>,
    pub outpoint_txs: Table<OutPoint, TransactionInfo>,
    pub headers: Table<[u8; 32], HeaderView>,
    pub cells_by_data_hash: Table<[u8; 32], OutPoint>,
    pub cells_by_lock_hash: Table<[u8; 32], Vec<OutPoint>>,
    pub cells_by_type_hash: Table<[u8; 32], Vec<OutPoint>>,
    pub default_lock: Option<OutPoint>,
    pub debug: bool,
    pub messages: Vec<Message>,
}

/// The references with transaction id `tx_hash` and an index below `n`.
pub open spec fn probes(tx_hash: [u8; 32], n: nat) -> Set<OutPoint> {
    Set::new(|p: OutPoint| p.tx_hash == tx_hash && p.index < n)
}

proof fn lemma_probes_len(tx_hash: [u8; 32], n: nat)
    requires
        n <= u32::MAX,
    ensures
        probes(tx_hash, n).finite(),
        probes(tx_hash, n).len() == n,
    decreases n,
{
    if n == 0 {
        assert(probes(tx_hash, 0) =~= Set::<OutPoint>::empty());
    } else {
        let m = (n - 1) as nat;
        lemma_probes_len(tx_hash, m);
        let last = OutPoint { tx_hash, index: m as u32 };
        assert(probes(tx_hash, n) =~= probes(tx_hash, m).insert(last));
    }
}

/// A list without repetition that holds every reference of `tx_hash` with an
/// index below `n` has at least `n` items.
proof fn lemma_probes_fit(keys: Seq<OutPoint>, tx_hash: [u8; 32], n: nat)
    requires
        keys.no_duplicates(),
        n <= u32::MAX,
        forall|p: OutPoint| p.tx_hash == tx_hash && p.index < n ==> keys.contains(p),
    ensures
        n <= keys.len(),
{
    lemma_probes_len(tx_hash, n);
    keys.unique_seq_to_set();
    assert(probes(tx_hash, n).subset_of(keys.to_set()));
    vstd::set_lib::lemma_len_subset(probes(tx_hash, n), keys.to_set());
}

impl MockChain {
    /// Every table of the ledger is well formed, and the ledger holds the
    /// default lock's code cell, where one is set, and every cell that the
    /// content index refers to.
    pub open spec fn wf(&self) -> bool {
        &&& self.cells.wf()
        &&& self.outpoint_txs.wf()
        &&& self.headers.wf()
        &&& self.cells_by_data_hash.wf()
        &&& self.cells_by_lock_hash.wf()
        &&& self.cells_by_type_hash.wf()
        &&& self.default_lock is Some ==> self.cells@.contains_key(self.default_lock->Some_0)
        &&& forall|h: [u8; 32]| #[trigger]
            self.cells_by_data_hash@.contains_key(h) ==> self.cells@.contains_key(
                self.cells_by_data_hash@[h],
            )
    }

    /// Whether another cell can still be given a reference of its own under
    /// any transaction id.
    pub open spec fn has_room(&self) -> bool {
        self.cells.keys().len() < u32::MAX
    }

    pub open spec fn view(&self) -> ChainView {
        ChainView {
            cells: self.cells@.map_values(|c: CellOutputWithData| cell_view(c)),
            outpoint_txs: self.outpoint_txs@,
            headers: self.headers@,
            cells_by_data_hash: self.cells_by_data_hash@,
            cells_by_lock_hash: self.cells_by_lock_hash@.map_values(|l: Vec<OutPoint>| l@),
            cells_by_type_hash: self.cells_by_type_hash@.map_values(|l: Vec<OutPoint>| l@),
            default_lock: self.default_lock,
            debug: self.debug,
            messages: crate::types::views(self.messages@),
        }
    }

    /// The ledger with nothing in it.
    pub fn new() -> (chain: MockChain)
        ensures
            chain.wf(),
            chain.cells.keys() == Seq::<OutPoint>::empty(),
            chain@ == ChainView::empty(),
            chain@.consistent(),
    {
        let chain = MockChain {
            cells: Table::new(),
            outpoint_txs: Table::new(),
            headers: Table::new(),
            cells_by_data_hash: Table::new(),
            cells_by_lock_hash: Table::new(),
            cells_by_type_hash: Table::new(),
            default_lock: None,
            debug: false,
            messages: Vec::new(),
        };
        assert(chain@.cells =~= Map::empty());
        assert(chain@.cells_by_lock_hash =~= Map::empty());
        assert(chain@.cells_by_type_hash =~= Map::empty());
        assert(chain@.messages =~= Seq::empty());
        chain
    }

    /// The first reference with transaction id `tx_hash`, by index, that no
    /// cell of the ledger has.
    pub fn fresh_out_point(&self, tx_hash: [u8; 32]) -> (out_point: OutPoint)
        requires
            self.wf(),
            self.has_room(),
        ensures
            out_point.tx_hash == tx_hash,
            !self@.cells.contains_key(out_point),
            forall|p: OutPoint|
                p.tx_hash == tx_hash && p.index < out_point.index ==> self@.cells.contains_key(p),
    {
        let mut index: u32 = 0;
        proof {
            self.cells.lemma_keys();
        }
        loop
            invariant
                self.wf(),
                self.has_room(),
                self.cells.keys().no_duplicates(),
                forall|k: OutPoint| self.cells@.contains_key(k) <==> self.cells.keys().contains(k),
                forall|p: OutPoint|
                    p.tx_hash == tx_hash && p.index < index ==> self.cells@.contains_key(p),
                index <= self.cells.keys().len(),
            decreases self.cells.keys().len() - index,
        {
            let candidate = OutPoint::new(tx_hash, index);
            if !self.cells.contains_key(&candidate) {
                return candidate;
            }
            proof {
                assert forall|p: OutPoint|
                    p.tx_hash == tx_hash && p.index < index + 1 implies self.cells.keys().contains(
                    p,
                ) by {
                    if p.index == index {
                        assert(p == candidate);
                    }
                }
                lemma_probes_fit(self.cells.keys(), tx_hash, (index + 1) as nat);
            }
            index = index + 1;
        }
    }

    /// Stores `cell` with `data` at `outp`, unless that reference is taken,
    /// and enters it in the indices. Says whether the cell was stored.
    pub fn create_cell_with_outpoint(&mut self, outp: OutPoint, cell: CellOutput, data: Vec<u8>) -> (created:
        bool)
        requires
            old(self).wf(),
        ensures
            final(self).wf(),
            old(self)@.consistent() ==> final(self)@.consistent(),
            created == !old(self)@.cells.contains_key(outp),
            final(self)@ == old(self)@.create_cell_with_outpoint(
                outp,
                CellView { output: cell@, data: data@ },
            ),
            final(self).cells.keys() == if created {
                old(self).cells.keys().push(outp)
            } else {
                old(self).cells.keys()
            },
    {
        if self.cells.contains_key(&outp) {
            return false;
        }
        let ghost before = self@;
        let ghost stored = CellView { output: cell@, data: data@ };
        let data_hash = calc_data_hash(data.as_slice());
        let lock_hash = cell.calc_lock_hash();
        let type_hash = cell.calc_type_hash();
        if !self.cells_by_data_hash.contains_key(&data_hash) {
            self.cells_by_data_hash.insert(data_hash, outp);
        }
        self.cells.insert(outp, (cell, data));
        let mut locked: Vec<OutPoint> = match self.cells_by_lock_hash.get(&lock_hash) {
            Some(list) => clone_plain(list),
            None => Vec::new(),
        };
        locked.push(outp);
        self.cells_by_lock_hash.insert(lock_hash, locked);
        match type_hash {
            Some(hash) => {
                let mut typed: Vec<OutPoint> = match self.cells_by_type_hash.get(&hash) {
                    Some(list) => clone_plain(list),
                    None => Vec::new(),
                };
                typed.push(outp);
                self.cells_by_type_hash.insert(hash, typed);
            },
            None => {},
        }
        proof {
            let after = before.create_cell_with_outpoint(outp, stored);
            if before.consistent() {
                crate::chain::laws::lemma_create_cell_keeps_consistent(before, outp, stored);
            }
            assert(self@.cells =~= after.cells);
            assert(self@.cells_by_data_hash =~= after.cells_by_data_hash);
            assert(self@.cells_by_lock_hash =~= after.cells_by_lock_hash);
            assert(self@.cells_by_type_hash =~= after.cells_by_type_hash);
        }
        true
    }

    /// Stores `cell` with `data` under a fresh reference with a random
    /// transaction id.
    pub fn create_cell(&mut self, cell: CellOutput, data: Vec<u8>) -> (out_point: OutPoint)
        requires
            old(self).wf(),
            old(self).has_room(),
        ensures
            final(self).wf(),
            old(self)@.consistent() ==> final(self)@.consistent(),
            !old(self)@.cells.contains_key(out_point),
            forall|p: OutPoint|
                p.tx_hash == out_point.tx_hash && p.index < out_point.index ==> old(
                    self,
                )@.cells.contains_key(p),
            final(self)@ == old(self)@.create_cell_with_outpoint(
                out_point,
                CellView { output: cell@, data: data@ },
            ),
            final(self).cells.keys() == old(self).cells.keys().push(out_point),
    {
        let out_point = self.fresh_out_point(random_out_point().tx_hash);
        self.create_cell_with_outpoint(out_point, cell, data);
        out_point
    }

    /// Deploys `data` in a code cell of its own under the first free
    /// reference of `tx_hash`, unless content with the same hash is deployed
    /// already. Returns the reference under which the content is found.
    pub fn deploy_cell_with_data_at(&mut self, data: Vec<u8>, tx_hash: [u8; 32]) -> (out_point:
        OutPoint)
        requires
            old(self).wf(),
            old(self).has_room(),
            data@.len() * BYTE_SHANNONS <= u64::MAX,
        ensures
            final(self).wf(),
            old(self)@.consistent() ==> final(self)@.consistent(),
            out_point == old(self)@.deployed_at(data@, out_point),
            final(self)@ == old(self)@.deploy_cell_with_data(data@, out_point),
            final(self)@.cells_by_data_hash.contains_key(data_hash(data@)),
            final(self)@.cells_by_data_hash[data_hash(data@)] == out_point,
            !old(self)@.deployed(data@) ==> {
                &&& out_point.tx_hash == tx_hash
                &&& !old(self)@.cells.contains_key(out_point)
                &&& forall|p: OutPoint|
                    p.tx_hash == tx_hash && p.index < out_point.index ==> old(
                        self,
                    )@.cells.contains_key(p)
                &&& final(self).cells.keys() == old(self).cells.keys().push(out_point)
            },
            old(self)@.deployed(data@) ==> final(self).cells.keys() == old(self).cells.keys(),
    {
        let hash = calc_data_hash(data.as_slice());
        match self.cells_by_data_hash.get(&hash) {
            Some(out_point) => {
                return *out_point;
            },
            None => {},
        }
        let out_point = self.fresh_out_point(tx_hash);
        let capacity = match capacity_of_bytes(data.len()) {
            Ok(capacity) => capacity,
            Err(_) => vstd::pervasive::unreached(),
        };
        let cell = CellOutput::new(
            capacity,
            Script::default(),
            Some(Script::new(hash, ScriptHashType::Data, Vec::new())),
        );
        let ghost before = self@;
        let ghost stored = data@;
        proof {
            assert(cell_view((cell, data)) == crate::chain::model::code_cell(stored));
        }
        self.cells.insert(out_point, (cell, data));
        self.cells_by_data_hash.insert(hash, out_point);
        proof {
            let after = before.deploy_cell_with_data(stored, out_point);
            if before.consistent() {
                crate::chain::laws::lemma_deploy_with_data_keeps_consistent(
                    before,
                    stored,
                    out_point,
                );
            }
            assert(self@.cells =~= after.cells);
            assert(self@.cells_by_data_hash =~= after.cells_by_data_hash);
            assert(self@.cells_by_lock_hash =~= after.cells_by_lock_hash);
            assert(self@.cells_by_type_hash =~= after.cells_by_type_hash);
        }
        out_point
    }

    /// Deploys `data` in a code cell of its own under a fresh reference with
    /// a random transaction id, unless content with the same hash is deployed
    /// already. Returns the reference under which the content is found.
    pub fn deploy_cell_with_data(&mut self, data: Vec<u8>) -> (out_point: OutPoint)
        requires
            old(self).wf(),
            old(self).has_room(),
            data@.len() * BYTE_SHANNONS <= u64::MAX,
        ensures
            final(self).wf(),
            old(self)@.consistent() ==> final(self)@.consistent(),
            out_point == old(self)@.deployed_at(data@, out_point),
            final(self)@ == old(self)@.deploy_cell_with_data(data@, out_point),
            final(self)@.cells_by_data_hash.contains_key(data_hash(data@)),
            final(self)@.cells_by_data_hash[data_hash(data@)] == out_point,
            !old(self)@.deployed(data@) ==> {
                &&& !old(self)@.cells.contains_key(out_point)
                &&& forall|p: OutPoint|
                    p.tx_hash == out_point.tx_hash && p.index < out_point.index ==> old(
                        self,
                    )@.cells.contains_key(p)
                &&& final(self).cells.keys() == old(self).cells.keys().push(out_point)
            },
            old(self)@.deployed(data@) ==> final(self).cells.keys() == old(self).cells.keys(),
    {
        self.deploy_cell_with_data_at(data, random_bytes32())
    }

    /// Deploys `data` in the cell `output` under the first free reference of
    /// `tx_hash`, unless content with the same hash is deployed already.
    /// Returns the reference under which the content is found.
    pub fn deploy_cell_output_at(&mut self, data: Vec<u8>, output: CellOutput, tx_hash: [u8; 32]) -> (out_point:
        OutPoint)
        requires
            old(self).wf(),
            old(self).has_room(),
        ensures
            final(self).wf(),
            old(self)@.consistent() ==> final(self)@.consistent(),
            out_point == old(self)@.deployed_at(data@, out_point),
            final(self)@ == old(self)@.deploy_cell_output(data@, output@, out_point),
            final(self)@.cells_by_data_hash.contains_key(data_hash(data@)),
            final(self)@.cells_by_data_hash[data_hash(data@)] == out_point,
            !old(self)@.deployed(data@) ==> {
                &&& out_point.tx_hash == tx_hash
                &&& !old(self)@.cells.contains_key(out_point)
                &&& forall|p: OutPoint|
                    p.tx_hash == tx_hash && p.index < out_point.index ==> old(
                        self,
                    )@.cells.contains_key(p)
                &&& final(self).cells.keys() == old(self).cells.keys().push(out_point)
            },
            old(self)@.deployed(data@) ==> final(self).cells.keys() == old(self).cells.keys(),
    {
        let hash = calc_data_hash(data.as_slice());
        match self.cells_by_data_hash.get(&hash) {
            Some(out_point) => {
                return *out_point;
            },
            None => {},
        }
        let out_point = self.fresh_out_point(tx_hash);
        self.create_cell_with_outpoint(out_point, output, data);
        out_point
    }

    /// Deploys `data` in the cell `output` under a fresh reference with a
    /// random transaction id, unless content with the same hash is deployed
    /// already. Returns the reference under which the content is found.
    pub fn deploy_cell_output(&mut self, data: Vec<u8>, output: CellOutput) -> (out_point: OutPoint)
        requires
            old(self).wf(),
            old(self).has_room(),
        ensures
            final(self).wf(),
            old(self)@.consistent() ==> final(self)@.consistent(),
            out_point == old(self)@.deployed_at(data@, out_point),
            final(self)@ == old(self)@.deploy_cell_output(data@, output@, out_point),
            final(self)@.cells_by_data_hash.contains_key(data_hash(data@)),
            final(self)@.cells_by_data_hash[data_hash(data@)] == out_point,
            !old(self)@.deployed(data@) ==> {
                &&& !old(self)@.cells.contains_key(out_point)
                &&& forall|p: OutPoint|
                    p.tx_hash == out_point.tx_hash && p.index < out_point.index ==> old(
                        self,
                    )@.cells.contains_key(p)
                &&& final(self).cells.keys() == old(self).cells.keys().push(out_point)
            },
            old(self)@.deployed(data@) ==> final(self).cells.keys() == old(self).cells.keys(),
    {
        self.deploy_cell_output_at(data, output, random_bytes32())
    }

    /// Records `header` under its hash.
    pub fn insert_header(&mut self, header: HeaderView)
        requires
            old(self).wf(),
        ensures
            final(self).wf(),
            old(self)@.consistent() ==> final(self)@.consistent(),
            final(self)@ == (ChainView {
                headers: old(self)@.headers.insert(header.hash, header),
                ..old(self)@
            }),
            final(self).cells.keys() == old(self).cells.keys(),
    {
        self.headers.insert(header.hash(), header);
    }

    /// Records the cell at `outp` as committed at place `tx_idx` of the block
    /// with hash `hash`. Says whether a header of that hash is known; without
    /// one nothing is recorded.
    pub fn link_cell_with_block(&mut self, outp: OutPoint, hash: [u8; 32], tx_idx: usize) -> (linked:
        bool)
        requires
            old(self).wf(),
        ensures
            final(self).wf(),
            old(self)@.consistent() ==> final(self)@.consistent(),
            linked == old(self)@.headers.contains_key(hash),
            final(self)@ == old(self)@.link_cell_with_block(outp, hash, tx_idx),
            final(self).cells.keys() == old(self).cells.keys(),
    {
        let info = match self.headers.get(&hash) {
            Some(header) => TransactionInfo::new(header.number(), header.epoch(), hash, tx_idx),
            None => {
                return false;
            },
        };
        self.outpoint_txs.insert(outp, info);
        true
    }

    /// Whether messages that scripts print are kept.
    pub fn capture_debug(&self) -> (capture: bool)
        ensures
            capture == self@.debug,
    {
        self.debug
    }

    /// Sets whether messages that scripts print are kept. They are not kept
    /// unless this is set.
    pub fn set_capture_debug(&mut self, capture_debug: bool)
        ensures
            final(self)@ == (ChainView { debug: capture_debug, ..old(self)@ }),
            old(self)@.consistent() ==> final(self)@.consistent(),
            final(self).wf() == old(self).wf(),
            final(self).cells == old(self).cells,
    {
        self.debug = capture_debug;
    }

    /// Takes a message that the script `id` printed: it is kept, after the
    /// ones kept before, where messages are kept, and handed back otherwise.
    pub fn record_message(&mut self, id: [u8; 32], message: String) -> (unkept: Option<String>)
        ensures
            final(self).wf() == old(self).wf(),
            old(self)@.consistent() ==> final(self)@.consistent(),
            final(self).cells == old(self).cells,
            old(self)@.debug ==> unkept is None && final(self)@ == (ChainView {
                messages: old(self)@.messages.push(MessageView { id, message: message@ }),
                ..old(self)@
            }),
            !old(self)@.debug ==> unkept == Some(message) && final(self)@ == old(self)@,
    {
        if self.debug {
            self.messages.push(Message { id, message });
            assert(views(self.messages@) =~= views(old(self).messages@).push(
                MessageView { id, message: message@ },
            ));
            None
        } else {
            Some(message)
        }
    }

    /// The messages kept so far, in the order in which they came.
    pub fn captured_messages(&self) -> (messages: Vec<Message>)
        ensures
            views(messages@) == self@.messages,
    {
        let mut messages: Vec<Message> = Vec::new();
        let mut i: usize = 0;
        while i < self.messages.len()
            invariant
                i <= self.messages@.len(),
                messages@.len() == i,
                forall|j: int| 0 <= j < i ==> messages@[j]@ == self.messages@[j]@,
            decreases self.messages@.len() - i,
        {
            let kept = &self.messages[i];
            messages.push(Message { id: kept.id, message: kept.message.clone() });
            i += 1;
        }
        assert(views(messages@) =~= self@.messages);
        messages
    }

    /// A ledger that holds `code` alone, deployed under index 0 of `tx_hash`
    /// and set as the default lock.
    pub fn with_default_lock(code: Vec<u8>, tx_hash: [u8; 32]) -> (chain: MockChain)
        requires
            code@.len() * BYTE_SHANNONS <= u64::MAX,
        ensures
            chain.wf(),
            chain.has_room(),
            chain@.consistent(),
            chain@ == (ChainView {
                default_lock: Some(OutPoint { tx_hash, index: 0 }),
                ..ChainView::empty().deploy_cell_with_data(code@, OutPoint { tx_hash, index: 0 })
            }),
    {
        let mut chain = MockChain::new();
        let default_lock = chain.deploy_cell_with_data_at(code, tx_hash);
        assert(chain@.cells.contains_key(default_lock));
        assert(chain.cells@.contains_key(default_lock));
        chain.default_lock = Some(default_lock);
        chain
    }

    /// The reference of the default lock's code cell.
    pub fn get_default_script_outpoint(&self) -> (out_point: OutPoint)
        requires
            self@.default_lock is Some,
        ensures
            Some(out_point) == self@.default_lock,
    {
        match self.default_lock {
            Some(out_point) => out_point,
            None => vstd::pervasive::unreached(),
        }
    }

    /// Stores, under a fresh reference with a random transaction id, a cell
    /// of `capacity` bytes with no data, locked by the default lock with
    /// `args` (with none where `args` is `None`).
    pub fn deploy_random_cell_with_default_lock(&mut self, capacity: usize, args: Option<Vec<u8>>) -> (out_point:
        OutPoint)
        requires
            old(self).wf(),
            old(self).has_room(),
            old(self)@.default_lock is Some,
            capacity * BYTE_SHANNONS <= u64::MAX,
        ensures
            final(self).wf(),
            old(self)@.consistent() ==> final(self)@.consistent(),
            !old(self)@.cells.contains_key(out_point),
            forall|p: OutPoint|
                p.tx_hash == out_point.tx_hash && p.index < out_point.index ==> old(
                    self,
                )@.cells.contains_key(p),
            final(self)@ == old(self)@.create_cell_with_outpoint(
                out_point,
                old(self)@.default_locked_cell(
                    capacity,
                    match args {
                        Some(a) => a@,
                        None => Seq::empty(),
                    },
                ),
            ),
            final(self).cells.keys() == old(self).cells.keys().push(out_point),
    {
        let args = match args {
            Some(args) => args,
            None => Vec::new(),
        };
        let ghost wanted = self@.default_locked_cell(capacity, args@);
        let default_lock = self.get_default_script_outpoint();
        let script = match self.build_script(&default_lock, args) {
            Some(script) => script,
            None => vstd::pervasive::unreached(),
        };
        let capacity = match capacity_of_bytes(capacity) {
            Ok(capacity) => capacity,
            Err(_) => vstd::pervasive::unreached(),
        };
        let out_point = self.fresh_out_point(random_bytes32());
        let cell = CellOutput::new(capacity, script, None);
        assert(cell@ == wanted.output);
        let data: Vec<u8> = Vec::new();
        assert(data@ =~= wanted.data);
        self.create_cell_with_outpoint(out_point, cell, data);
        out_point
    }

    /// Deploys the data of `cell` in that cell under a fresh reference with
    /// a random transaction id, unless content with the same hash is
    /// deployed already. Returns the reference under which the content is
    /// found.
    pub fn deploy_cell(&mut self, cell: &CellOutputWithData) -> (out_point: OutPoint)
        requires
            old(self).wf(),
            old(self).has_room(),
        ensures
            final(self).wf(),
            old(self)@.consistent() ==> final(self)@.consistent(),
            out_point == old(self)@.deployed_at(cell.1@, out_point),
            final(self)@ == old(self)@.deploy_cell_output(cell.1@, cell.0@, out_point),
            final(self)@.cells_by_data_hash.contains_key(data_hash(cell.1@)),
            final(self)@.cells_by_data_hash[data_hash(cell.1@)] == out_point,
            !old(self)@.deployed(cell.1@) ==> !old(self)@.cells.contains_key(out_point),
    {
        self.deploy_cell_output(clone_bytes(&cell.1), cell.0.clone())
    }

    /// Deploys the code cell of `lock` as `deploy_cell_output` does, and
    /// sets the cell in which the code is found as the default lock.
    pub fn set_default_lock<A: BytesConversion, D: BytesConversion>(&mut self, lock: &Contract<A, D>)
        requires
            old(self).wf(),
            old(self).has_room(),
        ensures
            final(self).wf(),
            old(self)@.consistent() ==> final(self)@.consistent(),
            final(self)@.default_lock is Some,
            final(self)@.default_lock->Some_0 == old(self)@.deployed_at(
                lock.code_cell().data,
                final(self)@.default_lock->Some_0,
            ),
            final(self)@ == (ChainView {
                default_lock: final(self)@.default_lock,
                ..old(self)@.deploy_cell_output(
                    lock.code_cell().data,
                    lock.code_cell().output,
                    final(self)@.default_lock->Some_0,
                )
            }),
            !old(self)@.deployed(lock.code_cell().data) ==> !old(self)@.cells.contains_key(
                final(self)@.default_lock->Some_0,
            ),
    {
        let cell = lock.as_code_cell();
        let out_point = self.deploy_cell_output(cell.1, cell.0);
        assert(self@.cells.contains_key(out_point));
        assert(self.cells@.contains_key(out_point));
        self.default_lock = Some(out_point);
    }

    /// A cell with no capacity and no type script, locked by the default
    /// lock with `lock_args`.
    pub fn generate_cell_with_default_lock(&self, lock_args: Vec<u8>) -> (cell: CellOutput)
        requires
            self.wf(),
            self@.default_lock is Some,
        ensures
            cell@ == self@.default_locked_cell(0, lock_args@).output,
    {
        let default_lock = self.get_default_script_outpoint();
        let script = match self.build_script(&default_lock, lock_args) {
            Some(script) => script,
            None => vstd::pervasive::unreached(),
        };
        CellOutput::new(0, script, None)
    }

    /// Checks what can be checked of `tx` without running its scripts: that
    /// every output comes with its data.
    pub fn verify_tx_consensus(&self, tx: &Transaction) -> (checked: Result<(), ChainError>)
        ensures
            checked is Ok <==> tx@.outputs.len() == tx@.outputs_data.len(),
            checked is Err ==> checked->Err_0 == ChainError::OutputsDataLengthMismatch(
                tx.outputs@.len() as usize,
                tx.outputs_data@.len() as usize,
            ),
    {
        if tx.outputs.len() != tx.outputs_data.len() {
            return Err(
                ChainError::OutputsDataLengthMismatch(tx.outputs.len(), tx.outputs_data.len()),
            );
        }
        Ok(())
    }

    /// The data of the cell at `out_point`, if the ledger holds one.
    pub fn get_cell_data(&self, out_point: &OutPoint) -> (data: Option<Vec<u8>>)
        requires
            self.wf(),
        ensures
            match data {
                Some(d) => self@.cells.contains_key(*out_point) && d@
                    == self@.cells[*out_point].data,
                None => !self@.cells.contains_key(*out_point),
            },
    {
        match self.cells.get(out_point) {
            Some(cell) => Some(clone_bytes(&cell.1)),
            None => None,
        }
    }

    /// The content hash of the cell at `out_point`, if the ledger holds one.
    pub fn get_cell_data_hash(&self, out_point: &OutPoint) -> (hash: Option<[u8; 32]>)
        requires
            self.wf(),
        ensures
            match hash {
                Some(h) => self@.cells.contains_key(*out_point) && h
                    == self@.cells[*out_point].data_hash(),
                None => !self@.cells.contains_key(*out_point),
            },
    {
        match self.cells.get(out_point) {
            Some(cell) => Some(calc_data_hash(cell.1.as_slice())),
            None => None,
        }
    }

    /// The data of a materialised cell: the data that it carries, or else
    /// the data of the ledger's cell at its reference.
    pub fn load_cell_data(&self, cell: &CellMeta) -> (data: Option<Vec<u8>>)
        requires
            self.wf(),
        ensures
            match data {
                Some(d) => match cell@.mem_cell_data {
                    Some(carried) => d@ == carried,
                    None => self@.cells.contains_key(cell@.out_point) && d@
                        == self@.cells[cell@.out_point].data,
                },
                None => cell@.mem_cell_data is None && !self@.cells.contains_key(
                    cell@.out_point,
                ),
            },
    {
        match &cell.mem_cell_data {
            Some(data) => Some(clone_bytes(data)),
            None => self.get_cell_data(&cell.out_point),
        }
    }

    /// The header recorded under `block_hash`, if any.
    pub fn get_header(&self, block_hash: &[u8; 32]) -> (header: Option<HeaderView>)
        requires
            self.wf(),
        ensures
            match header {
                Some(h) => self@.headers.contains_key(*block_hash) && h
                    == self@.headers[*block_hash],
                None => !self@.headers.contains_key(*block_hash),
            },
    {
        match self.headers.get(block_hash) {
            Some(header) => Some(*header),
            None => None,
        }
    }

    pub fn get_cell(&self, out_point: &OutPoint) -> (cell: Option<CellOutputWithData>)
        requires
            self.wf(),
        ensures
            match cell {
                Some(c) => self@.cells.contains_key(*out_point) && cell_view(c)
                    == self@.cells[*out_point],
                None => !self@.cells.contains_key(*out_point),
            },
    {
        match self.cells.get(out_point) {
            Some(cell) => Some(clone_cell(cell)),
            None => None,
        }
    }

    pub fn get_cell_by_data_hash(&self, data_hash: &[u8; 32]) -> (out_point: Option<OutPoint>)
        requires
            self.wf(),
        ensures
            match out_point {
                Some(p) => self@.cells_by_data_hash.contains_key(*data_hash)
                    && p == self@.cells_by_data_hash[*data_hash],
                None => !self@.cells_by_data_hash.contains_key(*data_hash),
            },
    {
        match self.cells_by_data_hash.get(data_hash) {
            Some(out_point) => Some(*out_point),
            None => None,
        }
    }

    pub fn get_cells_by_lock_hash(&self, hash: [u8; 32]) -> (cells: Option<Vec<OutPoint>>)
        requires
            self.wf(),
        ensures
            match cells {
                Some(list) => self@.cells_by_lock_hash.contains_key(hash) && list@
                    == self@.cells_by_lock_hash[hash],
                None => !self@.cells_by_lock_hash.contains_key(hash),
            },
            self@.consistent() && cells is Some ==> forall|i: int|
                0 <= i < cells->Some_0@.len() ==> {
                    &&& self@.cells.contains_key(#[trigger] cells->Some_0@[i])
                    &&& self@.cells[cells->Some_0@[i]].output.lock_hash() == hash
                },
    {
        match self.cells_by_lock_hash.get(&hash) {
            Some(list) => {
                let copy = clone_plain(list);
                proof {
                    if self@.consistent() {
                        assert forall|i: int| 0 <= i < copy@.len() implies {
                            &&& self@.cells.contains_key(#[trigger] copy@[i])
                            &&& self@.cells[copy@[i]].output.lock_hash() == hash
                        } by {
                            assert(copy@[i] == self@.cells_by_lock_hash[hash][i]);
                        }
                    }
                }
                Some(copy)
            },
            None => None,
        }
    }

    pub fn get_cells_by_type_hash(&self, hash: [u8; 32]) -> (cells: Option<Vec<OutPoint>>)
        requires
            self.wf(),
        ensures
            match cells {
                Some(list) => self@.cells_by_type_hash.contains_key(hash) && list@
                    == self@.cells_by_type_hash[hash],
                None => !self@.cells_by_type_hash.contains_key(hash),
            },
            self@.consistent() && cells is Some ==> forall|i: int|
                0 <= i < cells->Some_0@.len() ==> {
                    &&& self@.cells.contains_key(#[trigger] cells->Some_0@[i])
                    &&& self@.cells[cells->Some_0@[i]].output.has_type_hash(hash)
                },
    {
        match self.cells_by_type_hash.get(&hash) {
            Some(list) => {
                let copy = clone_plain(list);
                proof {
                    if self@.consistent() {
                        assert forall|i: int| 0 <= i < copy@.len() implies {
                            &&& self@.cells.contains_key(#[trigger] copy@[i])
                            &&& self@.cells[copy@[i]].output.has_type_hash(hash)
                        } by {
                            assert(copy@[i] == self@.cells_by_type_hash[hash][i]);
                        }
                    }
                }
                Some(copy)
            },
            None => None,
        }
    }
}

/// Calls nothing: copies the constant `ckb_always_success_script::ALWAYS_SUCCESS`,
/// the code of a script that accepts everything. Its type fixes its length.
#[verifier::external_body]
pub(crate) fn always_success_code() -> (code: Vec<u8>)
    ensures
        code@.len() == 7184,
{
    ckb_always_success_script::ALWAYS_SUCCESS.to_vec()
}

/// The value behind a reference to a plain value.
pub fn copy_of<T: Copy>(value: &T) -> (copy: T)
    ensures
        copy == *value,
{
    *value
}

impl Clone for MockChain {
    /// A ledger of its own with the same cells, indices and records.
    fn clone(&self) -> (copy: MockChain)
        ensures
            self.wf() ==> copy.wf() && copy@ == self@ && copy.cells.keys() == self.cells.keys(),
    {
        let cells = self.cells.clone_with(clone_cell);
        let outpoint_txs = self.outpoint_txs.clone_with(copy_of::<TransactionInfo>);
        let headers = self.headers.clone_with(copy_of::<HeaderView>);
        let cells_by_data_hash = self.cells_by_data_hash.clone_with(copy_of::<OutPoint>);
        let cells_by_lock_hash = self.cells_by_lock_hash.clone_with(clone_plain::<OutPoint>);
        let cells_by_type_hash = self.cells_by_type_hash.clone_with(clone_plain::<OutPoint>);
        let copy = MockChain {
            cells,
            outpoint_txs,
            headers,
            cells_by_data_hash,
            cells_by_lock_hash,
            cells_by_type_hash,
            default_lock: self.default_lock,
            debug: self.debug,
            messages: self.captured_messages(),
        };
        proof {
            if self.wf() {
                assert(copy@.cells =~= self@.cells);
                assert(copy@.outpoint_txs =~= self@.outpoint_txs);
                assert(copy@.headers =~= self@.headers);
                assert(copy@.cells_by_data_hash =~= self@.cells_by_data_hash);
                assert(copy@.cells_by_lock_hash =~= self@.cells_by_lock_hash);
                assert(copy@.cells_by_type_hash =~= self@.cells_by_type_hash);
            }
        }
        copy
    }
}

impl Default for MockChain {
    /// A ledger that holds the always-accepting script alone, deployed under
    /// a random transaction id and set as the default lock.
    fn default() -> (chain: MockChain)
        ensures
            chain.wf(),
            chain.has_room(),
            chain@.consistent(),
            chain@.default_lock is Some,
            chain@.cells.contains_key(chain@.default_lock->Some_0),
            chain@.cells[chain@.default_lock->Some_0].data.len() == 7184,
            chain@ == (ChainView {
                default_lock: chain@.default_lock,
                ..ChainView::empty().deploy_cell_with_data(
                    chain@.cells[chain@.default_lock->Some_0].data,
                    chain@.default_lock->Some_0,
                )
            }),
    {
        MockChain::with_default_lock(always_success_code(), random_bytes32())
    }
}

/// A ledger that answers queries and takes transactions.
pub struct MockChainTxProvider {
    pub chain: MockChain,
}

impl MockChain {
    /// A provider over a copy of the ledger as it is now.
    pub fn inner(&self) -> (provider: MockChainTxProvider)
        requires
            self.wf(),
        ensures
            provider.chain.wf(),
            provider.chain@ == self@,
            provider.chain.cells.keys() == self.cells.keys(),
    {
        MockChainTxProvider::new(self.clone())
    }
}

impl MockChainTxProvider {
    pub fn new(chain: MockChain) -> (provider: MockChainTxProvider)
        ensures
            provider.chain == chain,
    {
        MockChainTxProvider { chain }
    }
}

} // verus!
