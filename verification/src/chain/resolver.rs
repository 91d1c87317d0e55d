use crate::bytes::clone_bytes;
use crate::chain::dep_set::{
    dep_from_key, dep_key, dep_of_key, dep_set_contains, dep_set_insert, dep_set_into_vec,
    dep_set_items, dep_set_new, key_of_dep, DepKey,
};
use crate::chain::mock_chain::MockChain;
use crate::chain::model::{first_seen, references, ChainError, ChainView, VerifierError};
use crate::hashing::calc_data_hash;
use crate::types::cell::{CellMeta, CellOutput};
use crate::types::script::{Script, ScriptHashType};
use crate::types::transaction::{ResolvedTransaction, Transaction};
use crate::types::{CellDep, OutPoint};
use ckb_util::LinkedHashSet;
use vstd::prelude::*;

verus! {

/// The plain values that stand for the dependencies of `deps`, in order.
pub open spec fn keys_of(deps: Seq<CellDep>) -> Seq<DepKey> {
    Seq::new(deps.len(), |i: int| dep_key(deps[i]))
}

/// Enters `dep` in `set` unless it is there. With `set` holding the
/// dependencies of `seen` at their first places, it then holds those of
/// `seen` followed by `dep`.
fn note_dep(set: &mut LinkedHashSet<DepKey>, dep: CellDep, Ghost(seen): Ghost<Seq<CellDep>>)
    requires
        dep_set_items(*old(set)) == keys_of(first_seen(seen)),
    ensures
        dep_set_items(*final(set)) == keys_of(first_seen(seen.push(dep))),
{
    let key = key_of_dep(&dep);
    let ghost before = first_seen(seen);
    proof {
        assert(seen.push(dep).drop_last() =~= seen);
        if keys_of(before).contains(key) {
            let i = choose|i: int| 0 <= i < before.len() && keys_of(before)[i] == key;
            assert(dep_of_key(dep_key(before[i])) == before[i]);
            assert(before[i] == dep);
        }
        if before.contains(dep) {
            let i = choose|i: int| 0 <= i < before.len() && before[i] == dep;
            assert(keys_of(before)[i] == key);
        }
        assert(keys_of(before.push(dep)) =~= keys_of(before).push(key));
    }
    if !dep_set_contains(set, &key) {
        dep_set_insert(set, key);
    }
}

impl MockChain {
    /// A script that runs the code deployed at `outp`, named by its content
    /// hash, with `args`. Scripts that name their code otherwise are not
    /// supported; where no cell is held at `outp` there is no script.
    pub fn build_script_with_hash_type(&self, outp: &OutPoint, typ: ScriptHashType, args: Vec<u8>) -> (script:
        Result<Option<Script>, ChainError>)
        requires
            self.wf(),
        ensures
            !typ.by_content() ==> script is Err && script->Err_0 is UnsupportedScriptAddressing,
            typ.by_content() && !self@.cells.contains_key(*outp) ==> script is Ok
                && script->Ok_0 is None,
            typ.by_content() && self@.cells.contains_key(*outp) ==> {
                &&& script is Ok
                &&& script->Ok_0 is Some
                &&& script->Ok_0->Some_0@.code_hash == self@.cells[*outp].data_hash()
                &&& script->Ok_0->Some_0@.hash_type == typ
                &&& script->Ok_0->Some_0@.args == args@
                &&& script->Ok_0->Some_0@.valid()
            },
    {
        if !typ.is_by_content() {
            return Err(ChainError::UnsupportedScriptAddressing);
        }
        match self.cells.get(outp) {
            Some(cell) => {
                let hash = calc_data_hash(cell.1.as_slice());
                Ok(Some(Script::new(hash, typ, args)))
            },
            None => Ok(None),
        }
    }

    /// A script that runs the code deployed at `outp` on the newer machine,
    /// with `args`; none where no cell is held at `outp`.
    pub fn build_script(&self, outp: &OutPoint, args: Vec<u8>) -> (script: Option<Script>)
        requires
            self.wf(),
        ensures
            script is Some == self@.cells.contains_key(*outp),
            script is Some ==> {
                &&& script->Some_0@.code_hash == self@.cells[*outp].data_hash()
                &&& script->Some_0@.hash_type == ScriptHashType::Data1
                &&& script->Some_0@.args == args@
                &&& script->Some_0@.valid()
            },
    {
        match self.build_script_with_hash_type(outp, ScriptHashType::Data1, args) {
            Ok(script) => script,
            Err(_) => None,
        }
    }

    /// The code dependency that `script` calls for. Scripts that name their
    /// code otherwise than by its content hash are not supported; where no
    /// content of that hash is deployed there is no dependency.
    pub fn find_cell_dep_for_script(&self, script: &Script) -> (dep: Result<
        Option<CellDep>,
        ChainError,
    >)
        requires
            self.wf(),
        ensures
            !script@.hash_type.by_content() ==> dep is Err
                && dep->Err_0 is UnsupportedScriptAddressing,
            script@.hash_type.by_content() ==> dep is Ok && match dep->Ok_0 {
                Some(d) => self@.code_dep(script@) == seq![d],
                None => self@.code_dep(script@) == Seq::<CellDep>::empty(),
            },
    {
        if !script.hash_type.is_by_content() {
            return Err(ChainError::UnsupportedScriptAddressing);
        }
        match self.cells_by_data_hash.get(&script.code_hash) {
            Some(out_point) => Ok(Some(CellDep::code(*out_point))),
            None => Ok(None),
        }
    }

    /// Enters the code dependency of `script` in `set`.
    fn note_script(
        &self,
        set: &mut LinkedHashSet<DepKey>,
        script: &Script,
        Ghost(seen): Ghost<Seq<CellDep>>,
    )
        requires
            self.wf(),
            dep_set_items(*old(set)) == keys_of(first_seen(seen)),
        ensures
            dep_set_items(*final(set)) == keys_of(first_seen(seen + self@.code_dep(script@))),
    {
        match self.find_cell_dep_for_script(script) {
            Ok(Some(dep)) => {
                assert(seen + self@.code_dep(script@) =~= seen.push(dep));
                note_dep(set, dep, Ghost(seen));
            },
            _ => {
                assert(seen + self@.code_dep(script@) =~= seen);
            },
        }
    }

    /// Enters the code dependencies of `output` in `set`: that of its lock,
    /// then that of its type script.
    fn note_output(
        &self,
        set: &mut LinkedHashSet<DepKey>,
        output: &CellOutput,
        Ghost(seen): Ghost<Seq<CellDep>>,
    )
        requires
            self.wf(),
            dep_set_items(*old(set)) == keys_of(first_seen(seen)),
        ensures
            dep_set_items(*final(set)) == keys_of(first_seen(seen + self@.output_deps(output@))),
    {
        self.note_script(set, &output.lock, Ghost(seen));
        let ghost locked = seen + self@.code_dep(output.lock@);
        match &output.type_ {
            Some(script) => {
                self.note_script(set, script, Ghost(locked));
                assert(locked + self@.code_dep(script@) =~= seen + self@.output_deps(output@));
            },
            None => {
                assert(locked =~= seen + self@.output_deps(output@));
            },
        }
    }

    /// Completes the dependencies of `tx`: to the ones it names it adds the
    /// code cell of every script, on a cell it consumes or creates, that
    /// names its code by content hash and whose code is deployed. Each
    /// dependency stands once, where it was first wanted.
    pub fn complete_tx(&self, tx: Transaction) -> (completed: Transaction)
        requires
            self.wf(),
        ensures
            completed@ == self@.complete_tx(tx@),
            completed@.cell_deps.no_duplicates(),
            forall|i: int|
                0 <= i < tx@.cell_deps.len() ==> completed@.cell_deps.contains(
                    #[trigger] tx@.cell_deps[i],
                ),
    {
        proof {
            crate::chain::laws::lemma_complete_tx_keeps_named_deps(self@, tx@);
        }
        let mut set = dep_set_new();
        let ghost mut seen: Seq<CellDep> = Seq::empty();
        let mut i: usize = 0;
        while i < tx.cell_deps.len()
            invariant
                i <= tx.cell_deps@.len(),
                seen == tx.cell_deps@.take(i as int),
                dep_set_items(set) == keys_of(first_seen(seen)),
            decreases tx.cell_deps@.len() - i,
        {
            note_dep(&mut set, tx.cell_deps[i], Ghost(seen));
            proof {
                assert(tx.cell_deps@.take(i + 1) =~= seen.push(tx.cell_deps@[i as int]));
                seen = seen.push(tx.cell_deps@[i as int]);
            }
            i += 1;
        }
        assert(seen =~= tx@.cell_deps + self@.inputs_deps(tx@.inputs, 0));
        let mut i: usize = 0;
        while i < tx.inputs.len()
            invariant
                self.wf(),
                i <= tx.inputs@.len(),
                seen == tx@.cell_deps + self@.inputs_deps(tx@.inputs, i as nat),
                dep_set_items(set) == keys_of(first_seen(seen)),
            decreases tx.inputs@.len() - i,
        {
            let ghost more = self@.input_deps(tx@.inputs[i as int]);
            match self.cells.get(&tx.inputs[i].previous_output) {
                Some(cell) => {
                    self.note_output(&mut set, &cell.0, Ghost(seen));
                },
                None => {
                    assert(seen + more =~= seen);
                },
            }
            proof {
                assert(seen + more =~= tx@.cell_deps + self@.inputs_deps(
                    tx@.inputs,
                    (i + 1) as nat,
                ));
                seen = seen + more;
            }
            i += 1;
        }
        let ghost named = tx@.cell_deps + self@.inputs_deps(tx@.inputs, tx@.inputs.len());
        assert(seen =~= named + self@.outputs_deps(tx@.outputs, 0));
        let mut i: usize = 0;
        while i < tx.outputs.len()
            invariant
                self.wf(),
                i <= tx.outputs@.len(),
                named == tx@.cell_deps + self@.inputs_deps(tx@.inputs, tx@.inputs.len()),
                seen == named + self@.outputs_deps(tx@.outputs, i as nat),
                dep_set_items(set) == keys_of(first_seen(seen)),
            decreases tx.outputs@.len() - i,
        {
            let ghost more = self@.output_deps(tx@.outputs[i as int]);
            self.note_output(&mut set, &tx.outputs[i], Ghost(seen));
            proof {
                assert(seen + more =~= named + self@.outputs_deps(tx@.outputs, (i + 1) as nat));
                seen = seen + more;
            }
            i += 1;
        }
        assert(seen == self@.wanted_deps(tx@));
        let keys = dep_set_into_vec(set);
        let ghost wanted = first_seen(seen);
        let mut cell_deps: Vec<CellDep> = Vec::new();
        let mut i: usize = 0;
        while i < keys.len()
            invariant
                i <= keys@.len(),
                keys@ == keys_of(wanted),
                cell_deps@ == wanted.take(i as int),
            decreases keys@.len() - i,
        {
            let dep = dep_from_key(&keys[i]);
            assert(dep_of_key(dep_key(wanted[i as int])) == wanted[i as int]);
            cell_deps.push(dep);
            assert(cell_deps@ =~= wanted.take(i + 1));
            i += 1;
        }
        assert(cell_deps@ =~= wanted);
        tx.set_cell_deps(cell_deps)
    }

    /// The materialised cell at `out_point`, if the ledger holds one.
    fn resolve(&self, out_point: &OutPoint) -> (meta: Option<CellMeta>)
        requires
            self.wf(),
        ensures
            match meta {
                Some(m) => self@.cells.contains_key(*out_point) && m@ == self@.resolve(*out_point),
                None => !self@.cells.contains_key(*out_point),
            },
    {
        match self.cells.get(out_point) {
            Some(cell) => {
                let info = match self.outpoint_txs.get(out_point) {
                    Some(info) => Some(*info),
                    None => None,
                };
                Some(CellMeta::from_cell_output(cell, *out_point, info))
            },
            None => None,
        }
    }

    /// Looks up the cell behind every input and every dependency of `tx`,
    /// inputs first. Fails on the first reference that the ledger does not
    /// hold, and names it.
    pub fn build_resolved_tx(&self, tx: &Transaction) -> (resolved: Result<
        ResolvedTransaction,
        ChainError,
    >)
        requires
            self.wf(),
        ensures
            resolved is Ok <==> self@.resolvable(tx@),
            resolved is Ok ==> resolved->Ok_0@ == self@.build_resolved_tx(tx@),
            resolved is Err ==> resolved->Err_0 is UnresolvedReference && self@.first_missing(
                tx@,
                resolved->Err_0->UnresolvedReference_0,
            ),
    {
        let ghost refs = references(tx@);
        let mut resolved_inputs: Vec<CellMeta> = Vec::new();
        let mut i: usize = 0;
        while i < tx.inputs.len()
            invariant
                self.wf(),
                refs == references(tx@),
                i <= tx.inputs@.len(),
                resolved_inputs@.len() == i,
                forall|j: int| 0 <= j < i ==> self@.cells.contains_key(#[trigger] refs[j]),
                forall|j: int|
                    0 <= j < i ==> (#[trigger] resolved_inputs@[j])@ == self@.resolve(
                        tx.inputs@[j].previous_output,
                    ),
            decreases tx.inputs@.len() - i,
        {
            let out_point = tx.inputs[i].previous_output;
            assert(refs[i as int] == out_point);
            match self.resolve(&out_point) {
                Some(meta) => {
                    resolved_inputs.push(meta);
                },
                None => {
                    return Err(ChainError::UnresolvedReference(out_point));
                },
            }
            i += 1;
        }
        let mut resolved_cell_deps: Vec<CellMeta> = Vec::new();
        let mut i: usize = 0;
        while i < tx.cell_deps.len()
            invariant
                self.wf(),
                refs == references(tx@),
                i <= tx.cell_deps@.len(),
                resolved_cell_deps@.len() == i,
                forall|j: int|
                    0 <= j < tx.inputs@.len() + i ==> self@.cells.contains_key(#[trigger] refs[j]),
                forall|j: int|
                    0 <= j < i ==> (#[trigger] resolved_cell_deps@[j])@ == self@.resolve(
                        tx.cell_deps@[j].out_point,
                    ),
            decreases tx.cell_deps@.len() - i,
        {
            let out_point = tx.cell_deps[i].out_point;
            assert(refs[tx.inputs@.len() + i] == out_point);
            match self.resolve(&out_point) {
                Some(meta) => {
                    resolved_cell_deps.push(meta);
                },
                None => {
                    return Err(ChainError::UnresolvedReference(out_point));
                },
            }
            i += 1;
        }
        let resolved = ResolvedTransaction {
            transaction: tx.clone(),
            resolved_cell_deps,
            resolved_inputs,
            resolved_dep_groups: Vec::new(),
        };
        proof {
            let expected = self@.build_resolved_tx(tx@);
            assert(resolved@.resolved_inputs =~= expected.resolved_inputs);
            assert(resolved@.resolved_cell_deps =~= expected.resolved_cell_deps);
            assert(resolved@.resolved_dep_groups =~= expected.resolved_dep_groups);
        }
        Ok(resolved)
    }

    /// Takes a transaction with the verifier's verdict on it. An accepted
    /// transaction has its outputs stored, in output order, each under the
    /// transaction's id and its own index, and its id handed back. A refused
    /// one leaves the ledger as it is, and the verifier's reason is handed on.
    pub fn receive_tx(
        &mut self,
        tx: &Transaction,
        tx_hash: [u8; 32],
        verdict: Result<u64, VerifierError>,
    ) -> (received: Result<[u8; 32], ChainError>)
        requires
            old(self).wf(),
            tx@.outputs.len() <= u32::MAX,
        ensures
            final(self).wf(),
            old(self)@.consistent() ==> final(self)@.consistent(),
            verdict is Ok ==> received == Ok::<[u8; 32], ChainError>(tx_hash) && final(self)@
                == old(self)@.with_outputs(tx_hash, tx@, ChainView::paired_outputs(tx@)),
            verdict is Err ==> received == Err::<[u8; 32], ChainError>(
                ChainError::Verification(verdict->Err_0),
            ) && final(self)@ == old(self)@,
    {
        match verdict {
            Ok(_) => {},
            Err(e) => {
                return Err(ChainError::Verification(e));
            },
        }
        let paired = if tx.outputs.len() <= tx.outputs_data.len() {
            tx.outputs.len()
        } else {
            tx.outputs_data.len()
        };
        let mut i: usize = 0;
        while i < paired
            invariant
                self.wf(),
                i <= paired,
                paired == ChainView::paired_outputs(tx@),
                paired <= u32::MAX,
                old(self)@.consistent() ==> self@.consistent(),
                self@ == old(self)@.with_outputs(tx_hash, tx@, i as nat),
            decreases paired - i,
        {
            let out_point = OutPoint::new(tx_hash, i as u32);
            self.create_cell_with_outpoint(
                out_point,
                tx.outputs[i].clone(),
                clone_bytes(&tx.outputs_data[i]),
            );
            i += 1;
        }
        Ok(tx_hash)
    }
}

} // verus!
