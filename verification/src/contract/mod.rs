pub mod builtins;
pub mod generator;
pub mod schema;

use crate::bytes::{byte_strings, clone_bytes, same_hash};
use crate::contract::generator::{
    CellMetaTransaction, CellMetaTransactionView, CellQuery, CellQueryAttributeView,
    CellQueryView, GeneratorError, GeneratorMiddleware, QueryStatementView,
};
use crate::contract::schema::{BytesConversion, SchemaDecodeError};
use crate::hashing::{blake2b_256, blake2b_256_digest, packed_script_hash, zero_hash};
use crate::types::cell::{cell_view, CellOutput, CellOutputView, CellOutputWithData, CellView};
use crate::types::script::{Script, ScriptHashType, ScriptView};
use crate::types::transaction::{Transaction, TransactionView};
use crate::types::{views, CellDep, DepType, OutPoint};
use vstd::prelude::*;

verus! {

/// Where the code of a contract comes from.
#[derive(Debug)]
pub enum ContractSource {
    /// A file, by its path.
    LocalPath(String),
    /// The code itself.
    Immediate(Vec<u8>),
    /// A cell of the chain.
    Chain(OutPoint),
}

/// The parts of a cell that a rule can be bound to.
#[derive(Clone, Copy, Debug, PartialEq, Eq, Structural)]
pub enum ContractCellFieldSelector {
    Args,
    Data,
    LockScript,
    TypeScript,
    Capacity,
}

/// A part of a cell, as a rule receives and returns it: the arguments and
/// the data as values of the contract's schemas.
pub enum ContractCellField<A, D> {
    Args(A),
    Data(D),
    LockScript(Script),
    TypeScript(Script),
    Capacity(u64),
}

/// The mathematical value of a [`ContractCellField`]: the arguments and the
/// data by their on-chain bytes.
pub enum FieldView {
    Args(Seq<u8>),
    Data(Seq<u8>),
    LockScript(ScriptView),
    TypeScript(ScriptView),
    Capacity(u64),
}

impl<A: BytesConversion, D: BytesConversion> ContractCellField<A, D> {
    pub open spec fn model(&self) -> FieldView {
        match self {
            ContractCellField::Args(a) => FieldView::Args(a.encoding()),
            ContractCellField::Data(d) => FieldView::Data(d.encoding()),
            ContractCellField::LockScript(s) => FieldView::LockScript(s@),
            ContractCellField::TypeScript(s) => FieldView::TypeScript(s@),
            ContractCellField::Capacity(c) => FieldView::Capacity(*c),
        }
    }
}

/// The value of what a rule returned.
pub open spec fn outcome_model<A: BytesConversion, D: BytesConversion>(
    out: Option<ContractCellField<A, D>>,
) -> Option<FieldView> {
    match out {
        Some(field) => Some(field.model()),
        None => None,
    }
}

/// A rule that replaces a part of a cell; it may fail. Unless an
/// implementation says otherwise, its contract is that it returns what it
/// received.
pub trait OutputRule<A: BytesConversion, D: BytesConversion> {
    /// What the rule returns for `field`; `None` where it fails.
    open spec fn outcome(&self, field: FieldView) -> Option<FieldView> {
        Some(field)
    }

    fn apply(&self, field: ContractCellField<A, D>) -> (out: Option<ContractCellField<A, D>>)
        ensures
            outcome_model(out) == self.outcome(field.model()),
    ;
}

/// A rule that asks for input cells on seeing a transaction. Unless an
/// implementation says otherwise, its contract is that it asks for the
/// cell with the zero content hash, and for none of them.
pub trait InputRule {
    /// The query that the rule makes for `tx`.
    open spec fn query_for(&self, tx: TransactionView) -> CellQueryView {
        CellQueryView {
            _query: QueryStatementView::Single(CellQueryAttributeView::DataHash(zero_hash())),
            _limit: 0,
        }
    }

    fn query(&self, tx: &Transaction) -> (query: CellQuery)
        ensures
            query@ == self.query_for(tx@),
    ;
}

/// A cell's declarations and data, as the rules of a contract work on them.
pub struct OutputState {
    pub output: CellOutputView,
    pub data: Seq<u8>,
}

/// What a rule, or a run of rules, makes of a cell.
pub enum Applied {
    /// The cell that was made.
    Made(OutputState),
    /// The bytes that a rule was to read do not have the schema's shape.
    Unreadable,
    /// A rule failed.
    Refused,
}

impl Applied {
    /// The cell that was made, if one was.
    pub open spec fn made(self) -> Option<OutputState> {
        match self {
            Applied::Made(state) => Some(state),
            _ => None,
        }
    }

    /// Whether `error` is the error that stands for this failure.
    pub open spec fn reported_as(self, error: GeneratorError) -> bool {
        match self {
            Applied::Made(_) => false,
            Applied::Unreadable => error is SchemaDecodeError,
            Applied::Refused => error is RuleFailed,
        }
    }
}

/// What a rule's answer makes of a cell: `made` where the rule returned the
/// part it was given, the cell as it was where it returned another part,
/// and a failure where it failed.
pub open spec fn answered(answer: Option<FieldView>, made: Option<OutputState>, state: OutputState) -> Applied {
    match answer {
        None => Applied::Refused,
        Some(_) => match made {
            Some(next) => Applied::Made(next),
            None => Applied::Made(state),
        },
    }
}

/// A contract: code with the schemas of its arguments and data, and the
/// rules by which it shapes the cells that run it.
#[verifier::reject_recursive_types(A)]
#[verifier::reject_recursive_types(D)]
pub struct Contract<A, D> {
    pub source: Option<ContractSource>,
    pub data: D,
    pub args: A,
    pub lock: Option<Script>,
    pub type_: Option<Script>,
    pub code: Option<Vec<u8>>,
    pub output_rules: Vec<(ContractCellFieldSelector, Box<dyn OutputRule<A, D>>)>,
    pub input_rules: Vec<Box<dyn InputRule>>,
}

/// `script` with `args` for its arguments and its hash recorded anew.
pub open spec fn with_args(script: ScriptView, args: Seq<u8>) -> ScriptView {
    ScriptView {
        args,
        script_hash: packed_script_hash(script.code_hash, script.hash_type.byte(), args),
        ..script
    }
}

impl<A: BytesConversion, D: BytesConversion> Contract<A, D> {
    /// The hash of the contract's code, where it has code.
    pub open spec fn code_hash(&self) -> Option<[u8; 32]> {
        match self.code {
            Some(code) => Some(blake2b_256_digest(code@)),
            None => None,
        }
    }

    /// The script by which cells run this contract: its code by content
    /// hash, on the newer machine, with the contract's arguments.
    pub open spec fn script(&self) -> Option<ScriptView> {
        match self.code_hash() {
            Some(code_hash) => Some(
                with_args(
                    ScriptView {
                        args: Seq::empty(),
                        code_hash,
                        hash_type: ScriptHashType::Data1,
                        script_hash: zero_hash(),
                    },
                    self.args.encoding(),
                ),
            ),
            None => None,
        }
    }

    /// The cell that holds the contract's code: its data is the code, its
    /// capacity is the length of the code, its lock is the contract's lock
    /// or else the default script, and its type script is the contract's.
    pub open spec fn code_cell(&self) -> CellView {
        let data = match self.code {
            Some(code) => code@,
            None => Seq::empty(),
        };
        CellView {
            output: CellOutputView {
                capacity: data.len() as u64,
                lock: match self.lock {
                    Some(lock) => lock@,
                    None => crate::chain::model::default_script(),
                },
                type_: match self.type_ {
                    Some(script) => Some(script@),
                    None => None,
                },
            },
            data,
        }
    }

    /// The hash of the contract's script.
    pub open spec fn identity(&self) -> Option<[u8; 32]> {
        match self.script() {
            Some(script) => Some(script.hash()),
            None => None,
        }
    }

    /// Whether `output` runs this contract, as its type script or its lock.
    pub open spec fn owns(&self, output: CellOutputView) -> bool {
        &&& self.identity() is Some
        &&& (output.has_type_hash(self.identity()->Some_0) || output.lock_hash()
            == self.identity()->Some_0)
    }

    /// Whether the type script of `output`, rather than its lock, is the one
    /// whose arguments a rule on arguments works on.
    pub open spec fn args_in_type(&self, output: CellOutputView) -> bool {
        self.identity() is Some && output.has_type_hash(self.identity()->Some_0)
    }

    /// What the rule at place `k` makes of a cell. The rule is given the
    /// part that it is bound to and the cell takes what it returns. A rule
    /// that returns another part than the one it was given changes nothing,
    /// and so does a rule on the type script of a cell without one. Bytes
    /// that the rule is to read and that do not have the schema's shape are
    /// a failure, and so is a failure of the rule.
    pub open spec fn rule_outcome(&self, k: int, state: OutputState) -> Applied {
        let rule = self.output_rules@[k].1;
        match self.output_rules@[k].0 {
            ContractCellFieldSelector::Data => if D::well_shaped(state.data) {
                let answer = rule.outcome(FieldView::Data(state.data));
                answered(
                    answer,
                    match answer {
                        Some(FieldView::Data(data)) => Some(OutputState { data, ..state }),
                        _ => None,
                    },
                    state,
                )
            } else {
                Applied::Unreadable
            },
            ContractCellFieldSelector::Args => {
                let script = if self.args_in_type(state.output) {
                    state.output.type_->Some_0
                } else {
                    state.output.lock
                };
                if A::well_shaped(script.args) {
                    let answer = rule.outcome(FieldView::Args(script.args));
                    answered(
                        answer,
                        match answer {
                            Some(FieldView::Args(args)) => Some(
                                OutputState {
                                    output: if self.args_in_type(state.output) {
                                        CellOutputView {
                                            type_: Some(with_args(script, args)),
                                            ..state.output
                                        }
                                    } else {
                                        CellOutputView {
                                            lock: with_args(script, args),
                                            ..state.output
                                        }
                                    },
                                    ..state
                                },
                            ),
                            _ => None,
                        },
                        state,
                    )
                } else {
                    Applied::Unreadable
                }
            },
            ContractCellFieldSelector::LockScript => {
                let answer = rule.outcome(FieldView::LockScript(state.output.lock));
                answered(
                    answer,
                    match answer {
                        Some(FieldView::LockScript(lock)) => Some(
                            OutputState { output: CellOutputView { lock, ..state.output }, ..state },
                        ),
                        _ => None,
                    },
                    state,
                )
            },
            ContractCellFieldSelector::TypeScript => match state.output.type_ {
                Some(script) => {
                    let answer = rule.outcome(FieldView::TypeScript(script));
                    answered(
                        answer,
                        match answer {
                            Some(FieldView::TypeScript(type_)) => Some(
                                OutputState {
                                    output: CellOutputView { type_: Some(type_), ..state.output },
                                    ..state
                                },
                            ),
                            _ => None,
                        },
                        state,
                    )
                },
                None => Applied::Made(state),
            },
            ContractCellFieldSelector::Capacity => {
                let answer = rule.outcome(FieldView::Capacity(state.output.capacity));
                answered(
                    answer,
                    match answer {
                        Some(FieldView::Capacity(capacity)) => Some(
                            OutputState {
                                output: CellOutputView { capacity, ..state.output },
                                ..state
                            },
                        ),
                        _ => None,
                    },
                    state,
                )
            },
        }
    }

    /// What the first `n` rules, each working on what the one before it
    /// made, make of a cell; the failure of the first rule that fails, where
    /// one does.
    pub open spec fn rules_outcome(&self, n: nat, state: OutputState) -> Applied
        decreases n,
    {
        if n == 0 {
            Applied::Made(state)
        } else {
            match self.rules_outcome((n - 1) as nat, state) {
                Applied::Made(before) => self.rule_outcome(n - 1, before),
                failure => failure,
            }
        }
    }

    /// What the contract makes of a cell: a cell that runs the contract goes
    /// through all the rules in the order of their registration; any other
    /// cell stays as it is.
    pub open spec fn output_outcome(&self, state: OutputState) -> Applied {
        if self.owns(state.output) {
            self.rules_outcome(self.output_rules@.len(), state)
        } else {
            Applied::Made(state)
        }
    }

    /// The cell that the contract makes of a cell; `None` where it fails.
    pub open spec fn output_piped(&self, state: OutputState) -> Option<OutputState> {
        self.output_outcome(state).made()
    }

    /// Whether the output at place `i` is the first output of `tx` on which
    /// the contract fails.
    pub open spec fn fails_first_at(&self, tx: TransactionView, i: int) -> bool {
        &&& 0 <= i < Self::paired(tx)
        &&& self.output_piped(Self::output_at(tx, i)) is None
        &&& forall|j: int|
            0 <= j < i ==> (#[trigger] self.output_piped(Self::output_at(tx, j))) is Some
    }

    /// The output at place `i` of `tx` with its data.
    pub open spec fn output_at(tx: TransactionView, i: int) -> OutputState {
        OutputState { output: tx.outputs[i], data: tx.outputs_data[i] }
    }

    /// How many outputs of `tx` come with their data.
    pub open spec fn paired(tx: TransactionView) -> int {
        if tx.outputs.len() <= tx.outputs_data.len() {
            tx.outputs.len() as int
        } else {
            tx.outputs_data.len() as int
        }
    }

    /// What the contract makes of a transaction: each output that comes with
    /// its data is replaced by what the contract makes of it; nothing else
    /// changes. `None` where the contract fails on one of the outputs.
    pub open spec fn tx_piped(&self, tx: TransactionView) -> Option<TransactionView> {
        if forall|i: int|
            0 <= i < Self::paired(tx) ==> (#[trigger] self.output_piped(Self::output_at(tx, i)))
                is Some {
            Some(
                TransactionView {
                    outputs: Seq::new(
                        tx.outputs.len(),
                        |i: int|
                            if i < Self::paired(tx) {
                                self.output_piped(Self::output_at(tx, i))->Some_0.output
                            } else {
                                tx.outputs[i]
                            },
                    ),
                    outputs_data: Seq::new(
                        tx.outputs_data.len(),
                        |i: int|
                            if i < Self::paired(tx) {
                                self.output_piped(Self::output_at(tx, i))->Some_0.data
                            } else {
                                tx.outputs_data[i]
                            },
                    ),
                    ..tx
                },
            )
        } else {
            None
        }
    }

    /// The queries that the input rules make for `tx`, in the order of
    /// their registration.
    pub open spec fn input_queries(&self, tx: TransactionView) -> Seq<CellQueryView> {
        Seq::new(self.input_rules@.len(), |i: int| self.input_rules@[i].query_for(tx))
    }
}

impl<A: BytesConversion, D: BytesConversion> Contract<A, D> {
    /// A contract with the given arguments and data, and with no code, no
    /// scripts on its code cell and no rules.
    pub fn new(args: A, data: D) -> (contract: Self)
        ensures
            contract.args == args,
            contract.data == data,
            contract.source is None,
            contract.lock is None,
            contract.type_ is None,
            contract.code is None,
            contract.output_rules@.len() == 0,
            contract.input_rules@.len() == 0,
    {
        Contract {
            source: None,
            data,
            args,
            lock: None,
            type_: None,
            code: None,
            output_rules: Vec::new(),
            input_rules: Vec::new(),
        }
    }

    /// Sets the lock script of the cell that holds the contract's code.
    pub fn lock(self, lock: Script) -> (contract: Self)
        ensures
            contract.lock == Some(lock),
            contract.source == self.source,
            contract.data == self.data,
            contract.args == self.args,
            contract.type_ == self.type_,
            contract.code == self.code,
            contract.output_rules == self.output_rules,
            contract.input_rules == self.input_rules,
    {
        let mut contract = self;
        contract.lock = Some(lock);
        contract
    }

    /// Sets the type script of the cell that holds the contract's code.
    pub fn type_(self, type_: Script) -> (contract: Self)
        ensures
            contract.type_ == Some(type_),
            contract.source == self.source,
            contract.data == self.data,
            contract.args == self.args,
            contract.lock == self.lock,
            contract.code == self.code,
            contract.output_rules == self.output_rules,
            contract.input_rules == self.input_rules,
    {
        let mut contract = self;
        contract.type_ = Some(type_);
        contract
    }

    /// Sets the contract's code.
    pub fn code(self, code: Vec<u8>) -> (contract: Self)
        ensures
            contract.code == Some(code),
            contract.source == self.source,
            contract.data == self.data,
            contract.args == self.args,
            contract.lock == self.lock,
            contract.type_ == self.type_,
            contract.output_rules == self.output_rules,
            contract.input_rules == self.input_rules,
    {
        let mut contract = self;
        contract.code = Some(code);
        contract
    }

    /// The hash of the contract's code; none where it has no code.
    pub fn data_hash(&self) -> (hash: Option<[u8; 32]>)
        ensures
            hash == self.code_hash(),
    {
        match &self.code {
            Some(code) => Some(blake2b_256(code.as_slice())),
            None => None,
        }
    }

    /// The script by which other cells run this contract; none where the
    /// contract has no code.
    pub fn as_script(&self) -> (script: Option<Script>)
        ensures
            match script {
                Some(s) => self.script() == Some(s@),
                None => self.script() is None,
            },
    {
        match self.data_hash() {
            Some(code_hash) => Some(
                Script::new(code_hash, ScriptHashType::Data1, self.args.to_bytes()),
            ),
            None => None,
        }
    }

    /// The cell that holds the contract's code.
    pub fn as_code_cell(&self) -> (cell: CellOutputWithData)
        ensures
            cell_view(cell) == self.code_cell(),
    {
        let data: Vec<u8> = match &self.code {
            Some(code) => clone_bytes(code),
            None => Vec::new(),
        };
        let lock = match &self.lock {
            Some(lock) => lock.clone(),
            None => Script::default(),
        };
        let type_ = match &self.type_ {
            Some(script) => Some(script.clone()),
            None => None,
        };
        (CellOutput::new(data.len() as u64, lock, type_), data)
    }

    /// The hash of the contract's script; none where it has no code.
    pub fn script_hash(&self) -> (hash: Option<[u8; 32]>)
        ensures
            hash == self.identity(),
    {
        match self.as_script() {
            Some(script) => Some(script.calc_script_hash()),
            None => None,
        }
    }

    /// A code dependency on the cell at `out_point`.
    pub fn as_cell_dep(&self, out_point: OutPoint) -> (dep: CellDep)
        ensures
            dep == (CellDep { out_point, dep_type: DepType::Code }),
    {
        CellDep::code(out_point)
    }

    /// Sets the data from its on-chain bytes. Bytes that do not have the
    /// shape of the schema are refused, and the data stays as it was.
    pub fn set_raw_data(&mut self, data: Vec<u8>) -> (set: Result<(), SchemaDecodeError>)
        ensures
            set is Ok <==> D::well_shaped(data@),
            set is Ok ==> final(self).data.encoding() == data@,
            set is Err ==> final(self).data == old(self).data,
            final(self).args == old(self).args,
            final(self).code == old(self).code,
            final(self).lock == old(self).lock,
            final(self).type_ == old(self).type_,
            final(self).source == old(self).source,
            final(self).output_rules == old(self).output_rules,
            final(self).input_rules == old(self).input_rules,
    {
        match D::from_bytes(data) {
            Ok(data) => {
                self.data = data;
                Ok(())
            },
            Err(e) => Err(e),
        }
    }

    pub fn set_data(&mut self, data: D)
        ensures
            final(self).data == data,
            final(self).args == old(self).args,
            final(self).code == old(self).code,
            final(self).lock == old(self).lock,
            final(self).type_ == old(self).type_,
            final(self).source == old(self).source,
            final(self).output_rules == old(self).output_rules,
            final(self).input_rules == old(self).input_rules,
    {
        self.data = data;
    }

    /// Sets the arguments from their on-chain bytes. Bytes that do not have
    /// the shape of the schema are refused, and the arguments stay as they
    /// were.
    pub fn set_raw_args(&mut self, args: Vec<u8>) -> (set: Result<(), SchemaDecodeError>)
        ensures
            set is Ok <==> A::well_shaped(args@),
            set is Ok ==> final(self).args.encoding() == args@,
            set is Err ==> final(self).args == old(self).args,
            final(self).data == old(self).data,
            final(self).code == old(self).code,
            final(self).lock == old(self).lock,
            final(self).type_ == old(self).type_,
            final(self).source == old(self).source,
            final(self).output_rules == old(self).output_rules,
            final(self).input_rules == old(self).input_rules,
    {
        match A::from_bytes(args) {
            Ok(args) => {
                self.args = args;
                Ok(())
            },
            Err(e) => Err(e),
        }
    }

    pub fn set_args(&mut self, args: A)
        ensures
            final(self).args == args,
            final(self).data == old(self).data,
            final(self).code == old(self).code,
            final(self).lock == old(self).lock,
            final(self).type_ == old(self).type_,
            final(self).source == old(self).source,
            final(self).output_rules == old(self).output_rules,
            final(self).input_rules == old(self).input_rules,
    {
        self.args = args;
    }

    /// The contract's data, read back from its on-chain bytes.
    pub fn read_data(&self) -> (data: Result<D, SchemaDecodeError>)
        ensures
            data is Ok <==> D::well_shaped(self.data.encoding()),
            data is Ok ==> data->Ok_0.encoding() == self.data.encoding(),
    {
        D::from_bytes(self.data.to_bytes())
    }

    /// The contract's arguments, read back from their on-chain bytes.
    pub fn read_args(&self) -> (args: Result<A, SchemaDecodeError>)
        ensures
            args is Ok <==> A::well_shaped(self.args.encoding()),
            args is Ok ==> args->Ok_0.encoding() == self.args.encoding(),
    {
        A::from_bytes(self.args.to_bytes())
    }

    /// Data of the contract's schema, read from on-chain bytes.
    pub fn read_raw_data(&self, data: Vec<u8>) -> (read: Result<D, SchemaDecodeError>)
        ensures
            read is Ok <==> D::well_shaped(data@),
            read is Ok ==> read->Ok_0.encoding() == data@,
    {
        D::from_bytes(data)
    }

    /// Arguments of the contract's schema, read from on-chain bytes.
    pub fn read_raw_args(&self, args: Vec<u8>) -> (read: Result<A, SchemaDecodeError>)
        ensures
            read is Ok <==> A::well_shaped(args@),
            read is Ok ==> read->Ok_0.encoding() == args@,
    {
        A::from_bytes(args)
    }

    /// Registers a rule on a part of the cells that run this contract,
    /// after the rules registered before.
    pub fn add_output_rule(
        &mut self,
        field: ContractCellFieldSelector,
        transform_func: Box<dyn OutputRule<A, D>>,
    )
        ensures
            final(self).output_rules@ == old(self).output_rules@.push((field, transform_func)),
            final(self).input_rules == old(self).input_rules,
            final(self).data == old(self).data,
            final(self).args == old(self).args,
            final(self).code == old(self).code,
            final(self).lock == old(self).lock,
            final(self).type_ == old(self).type_,
            final(self).source == old(self).source,
    {
        self.output_rules.push((field, transform_func));
    }

    /// Registers a rule that asks for input cells, after the rules
    /// registered before.
    pub fn add_input_rule(&mut self, query_func: Box<dyn InputRule>)
        ensures
            final(self).input_rules@ == old(self).input_rules@.push(query_func),
            final(self).output_rules == old(self).output_rules,
            final(self).data == old(self).data,
            final(self).args == old(self).args,
            final(self).code == old(self).code,
            final(self).lock == old(self).lock,
            final(self).type_ == old(self).type_,
            final(self).source == old(self).source,
    {
        self.input_rules.push(query_func);
    }

    /// Applies the rule at place `k` to a cell.
    fn apply_rule(&self, k: usize, output: CellOutput, data: Vec<u8>, id: &[u8; 32]) -> (out: Result<
        CellOutputWithData,
        GeneratorError,
    >)
        requires
            k < self.output_rules@.len(),
            self.identity() == Some(*id),
        ensures
            match out {
                Ok(cell) => self.rule_outcome(
                    k as int,
                    OutputState { output: output@, data: data@ },
                ) == Applied::Made(OutputState { output: cell.0@, data: cell.1@ }),
                Err(e) => self.rule_outcome(
                    k as int,
                    OutputState { output: output@, data: data@ },
                ).reported_as(e),
            },
    {
        let rule = &self.output_rules[k].1;
        match self.output_rules[k].0 {
            ContractCellFieldSelector::Data => {
                let typed = match D::from_bytes(clone_bytes(&data)) {
                    Ok(typed) => typed,
                    Err(_) => {
                        return Err(GeneratorError::SchemaDecodeError);
                    },
                };
                match rule.apply(ContractCellField::Data(typed)) {
                    Some(ContractCellField::Data(new_data)) => Ok((output, new_data.to_bytes())),
                    Some(_) => Ok((output, data)),
                    None => Err(GeneratorError::RuleFailed),
                }
            },
            ContractCellFieldSelector::Args => {
                let in_type = match &output.type_ {
                    Some(script) => same_hash(&script.calc_script_hash(), id),
                    None => false,
                };
                let script = match (&output.type_, in_type) {
                    (Some(script), true) => script.clone(),
                    _ => output.lock.clone(),
                };
                let typed = match A::from_bytes(clone_bytes(&script.args)) {
                    Ok(typed) => typed,
                    Err(_) => {
                        return Err(GeneratorError::SchemaDecodeError);
                    },
                };
                match rule.apply(ContractCellField::Args(typed)) {
                    Some(ContractCellField::Args(new_args)) => {
                        let replaced = Script::new(
                            script.code_hash,
                            script.hash_type,
                            new_args.to_bytes(),
                        );
                        if in_type {
                            Ok((CellOutput::new(output.capacity, output.lock, Some(replaced)), data))
                        } else {
                            Ok((CellOutput::new(output.capacity, replaced, output.type_), data))
                        }
                    },
                    Some(_) => Ok((output, data)),
                    None => Err(GeneratorError::RuleFailed),
                }
            },
            ContractCellFieldSelector::LockScript => {
                match rule.apply(ContractCellField::LockScript(output.lock.clone())) {
                    Some(ContractCellField::LockScript(lock)) => Ok(
                        (CellOutput::new(output.capacity, lock, output.type_), data),
                    ),
                    Some(_) => Ok((output, data)),
                    None => Err(GeneratorError::RuleFailed),
                }
            },
            ContractCellFieldSelector::TypeScript => {
                let script = match &output.type_ {
                    Some(script) => script.clone(),
                    None => {
                        return Ok((output, data));
                    },
                };
                match rule.apply(ContractCellField::TypeScript(script)) {
                    Some(ContractCellField::TypeScript(type_)) => Ok(
                        (CellOutput::new(output.capacity, output.lock, Some(type_)), data),
                    ),
                    Some(_) => Ok((output, data)),
                    None => Err(GeneratorError::RuleFailed),
                }
            },
            ContractCellFieldSelector::Capacity => {
                match rule.apply(ContractCellField::Capacity(output.capacity)) {
                    Some(ContractCellField::Capacity(capacity)) => Ok(
                        (CellOutput::new(capacity, output.lock, output.type_), data),
                    ),
                    Some(_) => Ok((output, data)),
                    None => Err(GeneratorError::RuleFailed),
                }
            },
        }
    }

    /// Takes a cell through the contract: through all the rules, in the
    /// order of their registration, where the cell runs the contract.
    fn pipe_output(&self, output: CellOutput, data: Vec<u8>, id: &[u8; 32]) -> (out: Result<
        CellOutputWithData,
        GeneratorError,
    >)
        requires
            self.identity() == Some(*id),
        ensures
            match out {
                Ok(cell) => self.output_outcome(OutputState { output: output@, data: data@ })
                    == Applied::Made(OutputState { output: cell.0@, data: cell.1@ }),
                Err(e) => self.output_outcome(
                    OutputState { output: output@, data: data@ },
                ).reported_as(e),
            },
    {
        let by_type = match &output.type_ {
            Some(script) => same_hash(&script.calc_script_hash(), id),
            None => false,
        };
        if !by_type && !same_hash(&output.calc_lock_hash(), id) {
            return Ok((output, data));
        }
        let ghost start = OutputState { output: output@, data: data@ };
        let mut current: CellOutputWithData = (output, data);
        let mut k: usize = 0;
        while k < self.output_rules.len()
            invariant
                k <= self.output_rules@.len(),
                self.identity() == Some(*id),
                self.owns(start.output),
                start == (OutputState { output: output@, data: data@ }),
                self.rules_outcome(k as nat, start) == Applied::Made(
                    OutputState { output: current.0@, data: current.1@ },
                ),
            decreases self.output_rules@.len() - k,
        {
            match self.apply_rule(k, current.0, current.1, id) {
                Ok(next) => {
                    current = next;
                },
                Err(e) => {
                    proof {
                        assert(self.rules_outcome((k + 1) as nat, start).reported_as(e));
                        self.lemma_rules_stop(start, (k + 1) as nat, self.output_rules@.len());
                    }
                    return Err(e);
                },
            }
            k += 1;
        }
        Ok(current)
    }

    /// Once a rule fails, the rules have failed, with the failure of that
    /// rule.
    pub proof fn lemma_rules_stop(&self, state: OutputState, n: nat, m: nat)
        requires
            n <= m,
            !(self.rules_outcome(n, state) is Made),
        ensures
            self.rules_outcome(m, state) == self.rules_outcome(n, state),
        decreases m,
    {
        if m > n {
            self.lemma_rules_stop(state, n, (m - 1) as nat);
        }
    }
}

impl<A: BytesConversion, D: BytesConversion> GeneratorMiddleware for Contract<A, D> {
    /// A contract can run once it has code.
    open spec fn ready(&self) -> bool {
        self.code is Some
    }

    open spec fn queries(&self, tx: CellMetaTransactionView) -> Seq<CellQueryView> {
        self.input_queries(tx.tx)
    }

    open spec fn piped(&self, tx: CellMetaTransactionView) -> Option<CellMetaTransactionView> {
        match self.tx_piped(tx.tx) {
            Some(piped) => Some(CellMetaTransactionView { tx: piped, ..tx }),
            None => None,
        }
    }

    /// Takes every output that runs this contract through the rules, in the
    /// order of their registration, and leaves the rest of the transaction
    /// as it is.
    fn pipe(&self, tx: CellMetaTransaction) -> (out: Result<CellMetaTransaction, GeneratorError>)
        ensures
            out is Err ==> exists|i: int|
                self.fails_first_at(tx@.tx, i) && (#[trigger] self.output_outcome(
                    Self::output_at(tx@.tx, i),
                )).reported_as(out->Err_0),
    {
        let id = match self.script_hash() {
            Some(id) => id,
            None => vstd::pervasive::unreached(),
        };
        let ghost before = tx@.tx;
        let paired = if tx.tx.outputs.len() <= tx.tx.outputs_data.len() {
            tx.tx.outputs.len()
        } else {
            tx.tx.outputs_data.len()
        };
        let mut outputs: Vec<CellOutput> = Vec::new();
        let mut outputs_data: Vec<Vec<u8>> = Vec::new();
        let mut i: usize = 0;
        while i < paired
            invariant
                self.identity() == Some(id),
                before == tx@.tx,
                paired == Self::paired(before),
                i <= paired,
                outputs@.len() == i,
                outputs_data@.len() == i,
                forall|j: int|
                    0 <= j < i ==> #[trigger] self.output_piped(Self::output_at(before, j))
                        == Some(OutputState { output: outputs@[j]@, data: outputs_data@[j]@ }),
            decreases paired - i,
        {
            let output = tx.tx.outputs[i].clone();
            let data = clone_bytes(&tx.tx.outputs_data[i]);
            assert(OutputState { output: output@, data: data@ } == Self::output_at(
                before,
                i as int,
            ));
            match self.pipe_output(output, data, &id) {
                Ok(cell) => {
                    outputs.push(cell.0);
                    outputs_data.push(cell.1);
                },
                Err(e) => {
                    assert(self.fails_first_at(before, i as int));
                    assert(self.output_outcome(Self::output_at(before, i as int)).reported_as(e));
                    return Err(e);
                },
            }
            i += 1;
        }
        while i < tx.tx.outputs.len()
            invariant
                before == tx@.tx,
                paired == Self::paired(before),
                paired <= i <= tx.tx.outputs@.len(),
                outputs@.len() == i,
                forall|j: int|
                    0 <= j < paired ==> #[trigger] self.output_piped(Self::output_at(before, j))
                        is Some && self.output_piped(Self::output_at(before, j))->Some_0.output
                        == outputs@[j]@,
                forall|j: int| paired <= j < i ==> outputs@[j]@ == before.outputs[j],
            decreases tx.tx.outputs@.len() - i,
        {
            outputs.push(tx.tx.outputs[i].clone());
            i += 1;
        }
        let mut i: usize = paired;
        while i < tx.tx.outputs_data.len()
            invariant
                before == tx@.tx,
                paired == Self::paired(before),
                paired <= i <= tx.tx.outputs_data@.len(),
                outputs_data@.len() == i,
                forall|j: int|
                    0 <= j < paired ==> #[trigger] self.output_piped(Self::output_at(before, j))
                        is Some && self.output_piped(Self::output_at(before, j))->Some_0.data
                        == outputs_data@[j]@,
                forall|j: int| paired <= j < i ==> outputs_data@[j]@ == before.outputs_data[j],
            decreases tx.tx.outputs_data@.len() - i,
        {
            outputs_data.push(clone_bytes(&tx.tx.outputs_data[i]));
            i += 1;
        }
        proof {
            let expected = self.tx_piped(before)->Some_0;
            assert(views(outputs@) =~= expected.outputs);
            assert(byte_strings(outputs_data@) =~= expected.outputs_data);
        }
        Ok(CellMetaTransaction { tx: tx.tx.set_outputs(outputs, outputs_data), inputs: tx.inputs })
    }

    /// Registers the query of every input rule, in the order of their
    /// registration.
    fn update_query_register(&self, tx: &CellMetaTransaction, query_register: &mut Vec<CellQuery>) {
        let mut i: usize = 0;
        while i < self.input_rules.len()
            invariant
                i <= self.input_rules@.len(),
                views(query_register@) == views(old(query_register)@) + self.input_queries(
                    tx@.tx,
                ).take(i as int),
            decreases self.input_rules@.len() - i,
        {
            let ghost before = views(query_register@);
            let query = self.input_rules[i].query(&tx.tx);
            query_register.push(query);
            assert(views(query_register@) =~= before.push(query@));
            assert(views(query_register@) =~= views(old(query_register)@) + self.input_queries(
                tx@.tx,
            ).take(i + 1));
            i += 1;
        }
        assert(self.input_queries(tx@.tx).take(i as int) =~= self.input_queries(tx@.tx));
    }
}

} // verus!
