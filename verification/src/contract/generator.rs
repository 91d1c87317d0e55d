use crate::types::cell::{clone_cell_metas, CellMeta, CellMetaView};
use crate::types::script::{Script, ScriptView};
use crate::types::transaction::{Transaction, TransactionView};
use crate::types::{views, CellInput, OutPoint};
use vstd::prelude::*;

verus! {

/// A transaction under construction, with the cells behind its inputs.
#[derive(Debug)]
pub struct CellMetaTransaction {
    pub tx: Transaction,
    pub inputs: Vec<CellMeta>,
}

/// The mathematical value of a [`CellMetaTransaction`].
pub struct CellMetaTransactionView {
    pub tx: TransactionView,
    pub inputs: Seq<CellMetaView>,
}

impl View for CellMetaTransaction {
    type V = CellMetaTransactionView;

    open spec fn view(&self) -> CellMetaTransactionView {
        CellMetaTransactionView { tx: self.tx@, inputs: views(self.inputs@) }
    }
}

impl Clone for CellMetaTransaction {
    fn clone(&self) -> (copy: CellMetaTransaction)
        ensures
            copy@ == self@,
    {
        CellMetaTransaction { tx: self.tx.clone(), inputs: clone_cell_metas(&self.inputs) }
    }
}

impl CellMetaTransaction {
    /// A transaction under construction with none of its inputs resolved.
    pub fn from_tx(tx: Transaction) -> (built: CellMetaTransaction)
        ensures
            built@ == (CellMetaTransactionView { tx: tx@, inputs: Seq::empty() }),
    {
        let built = CellMetaTransaction { tx, inputs: Vec::new() };
        assert(built@.inputs =~= Seq::empty());
        built
    }

    /// Replaces the transaction.
    pub fn tx(self, tx: Transaction) -> (built: CellMetaTransaction)
        ensures
            built@ == (CellMetaTransactionView { tx: tx@, ..self@ }),
    {
        CellMetaTransaction { tx, inputs: self.inputs }
    }

    /// Replaces the resolved inputs.
    pub fn inputs(self, inputs: Vec<CellMeta>) -> (built: CellMetaTransaction)
        ensures
            built@ == (CellMetaTransactionView { inputs: views(inputs@), ..self@ }),
    {
        CellMetaTransaction { tx: self.tx, inputs }
    }
}

/// One thing that a query asks of a cell.
#[derive(Debug)]
pub enum CellQueryAttribute {
    LockHash([u8; 32]),
    LockScript(Script),
    TypeScript(Script),
    MinCapacity(u64),
    MaxCapacity(u64),
    DataHash([u8; 32]),
}

/// The mathematical value of a [`CellQueryAttribute`].
pub enum CellQueryAttributeView {
    LockHash([u8; 32]),
    LockScript(ScriptView),
    TypeScript(ScriptView),
    MinCapacity(u64),
    MaxCapacity(u64),
    DataHash([u8; 32]),
}

impl View for CellQueryAttribute {
    type V = CellQueryAttributeView;

    open spec fn view(&self) -> CellQueryAttributeView {
        match self {
            CellQueryAttribute::LockHash(h) => CellQueryAttributeView::LockHash(*h),
            CellQueryAttribute::LockScript(s) => CellQueryAttributeView::LockScript(s@),
            CellQueryAttribute::TypeScript(s) => CellQueryAttributeView::TypeScript(s@),
            CellQueryAttribute::MinCapacity(c) => CellQueryAttributeView::MinCapacity(*c),
            CellQueryAttribute::MaxCapacity(c) => CellQueryAttributeView::MaxCapacity(*c),
            CellQueryAttribute::DataHash(h) => CellQueryAttributeView::DataHash(*h),
        }
    }
}

impl Clone for CellQueryAttribute {
    fn clone(&self) -> (copy: CellQueryAttribute)
        ensures
            copy@ == self@,
    {
        match self {
            CellQueryAttribute::LockHash(h) => CellQueryAttribute::LockHash(*h),
            CellQueryAttribute::LockScript(s) => CellQueryAttribute::LockScript(s.clone()),
            CellQueryAttribute::TypeScript(s) => CellQueryAttribute::TypeScript(s.clone()),
            CellQueryAttribute::MinCapacity(c) => CellQueryAttribute::MinCapacity(*c),
            CellQueryAttribute::MaxCapacity(c) => CellQueryAttribute::MaxCapacity(*c),
            CellQueryAttribute::DataHash(h) => CellQueryAttribute::DataHash(*h),
        }
    }
}

/// A fresh copy of a list of attributes.
pub fn clone_attributes(list: &Vec<CellQueryAttribute>) -> (copy: Vec<CellQueryAttribute>)
    ensures
        views(copy@) == views(list@),
{
    let mut copy: Vec<CellQueryAttribute> = Vec::new();
    let mut i: usize = 0;
    while i < list.len()
        invariant
            i <= list@.len(),
            copy@.len() == i,
            forall|j: int| 0 <= j < i ==> copy@[j]@ == list@[j]@,
        decreases list@.len() - i,
    {
        copy.push(list[i].clone());
        i += 1;
    }
    assert(views(copy@) =~= views(list@));
    copy
}

/// What a query asks: one attribute, a filter on the matches of another,
/// any of several, or all of several.
#[derive(Debug)]
pub enum QueryStatement {
    Single(CellQueryAttribute),
    FilterFrom(CellQueryAttribute, CellQueryAttribute),
    Any(Vec<CellQueryAttribute>),
    All(Vec<CellQueryAttribute>),
}

/// The mathematical value of a [`QueryStatement`].
pub enum QueryStatementView {
    Single(CellQueryAttributeView),
    FilterFrom(CellQueryAttributeView, CellQueryAttributeView),
    Any(Seq<CellQueryAttributeView>),
    All(Seq<CellQueryAttributeView>),
}

impl View for QueryStatement {
    type V = QueryStatementView;

    open spec fn view(&self) -> QueryStatementView {
        match self {
            QueryStatement::Single(a) => QueryStatementView::Single(a@),
            QueryStatement::FilterFrom(a, b) => QueryStatementView::FilterFrom(a@, b@),
            QueryStatement::Any(list) => QueryStatementView::Any(views(list@)),
            QueryStatement::All(list) => QueryStatementView::All(views(list@)),
        }
    }
}

impl Clone for QueryStatement {
    fn clone(&self) -> (copy: QueryStatement)
        ensures
            copy@ == self@,
    {
        match self {
            QueryStatement::Single(a) => QueryStatement::Single(a.clone()),
            QueryStatement::FilterFrom(a, b) => QueryStatement::FilterFrom(a.clone(), b.clone()),
            QueryStatement::Any(list) => QueryStatement::Any(clone_attributes(list)),
            QueryStatement::All(list) => QueryStatement::All(clone_attributes(list)),
        }
    }
}

/// A request for cells: what is asked of them, and how many are wanted at
/// most.
#[derive(Debug)]
pub struct CellQuery {
    pub _query: QueryStatement,
    pub _limit: u64,
}

/// The mathematical value of a [`CellQuery`].
pub struct CellQueryView {
    pub _query: QueryStatementView,
    pub _limit: u64,
}

impl View for CellQuery {
    type V = CellQueryView;

    open spec fn view(&self) -> CellQueryView {
        CellQueryView { _query: self._query@, _limit: self._limit }
    }
}

impl Clone for CellQuery {
    fn clone(&self) -> (copy: CellQuery)
        ensures
            copy@ == self@,
    {
        CellQuery { _query: self._query.clone(), _limit: self._limit }
    }
}

/// Why a generation pass failed.
#[derive(Debug)]
pub enum GeneratorError {
    /// No cells were found for a registered query.
    QueryUnsatisfied(CellQuery),
    /// The bytes of a cell do not have the shape of the schema.
    SchemaDecodeError,
    /// A rule of a middleware failed.
    RuleFailed,
}

/// A ledger as a generation pass needs it: it completes the dependencies of
/// a transaction. Unless an implementation says otherwise, its contract is
/// that it leaves them as they are.
pub trait TransactionProvider {
    /// Whether the ledger is in a state to be asked.
    open spec fn ready(&self) -> bool {
        true
    }

    /// The transaction with the dependencies that this ledger adds to it.
    open spec fn completed(&self, tx: TransactionView) -> TransactionView {
        tx
    }

    fn complete_tx(&self, tx: Transaction) -> (completed: Transaction)
        requires
            self.ready(),
        ensures
            completed@ == self.completed(tx@),
    ;
}

/// What runs in a generation pass: it registers queries for the cells it
/// wants as inputs, and transforms the transaction once they are found.
/// Unless an implementation says otherwise, its contract is that it
/// registers nothing and leaves the transaction as it is.
pub trait GeneratorMiddleware {
    /// Whether the middleware is in a state to be run.
    open spec fn ready(&self) -> bool {
        true
    }

    /// The queries that the middleware registers on seeing `tx`.
    open spec fn queries(&self, tx: CellMetaTransactionView) -> Seq<CellQueryView> {
        Seq::empty()
    }

    /// What the middleware makes of `tx`; `None` where it fails.
    open spec fn piped(&self, tx: CellMetaTransactionView) -> Option<CellMetaTransactionView> {
        Some(tx)
    }

    fn pipe(&self, tx: CellMetaTransaction) -> (out: Result<CellMetaTransaction, GeneratorError>)
        requires
            self.ready(),
        ensures
            match out {
                Ok(t) => self.piped(tx@) == Some(t@),
                Err(e) => self.piped(tx@) is None && !(e is QueryUnsatisfied),
            },
    ;

    fn update_query_register(&self, tx: &CellMetaTransaction, query_register: &mut Vec<CellQuery>)
        requires
            self.ready(),
        ensures
            views(final(query_register)@) == views(old(query_register)@) + self.queries(tx@),
    ;
}

/// What answers queries for cells. Unless an implementation says otherwise,
/// its contract is that it has no answer to any query.
pub trait QueryProvider {
    /// Whether the provider is in a state to be asked.
    open spec fn ready(&self) -> bool {
        true
    }

    /// The references of the cells found for `query`, in order; `None`
    /// where the query cannot be answered.
    open spec fn found(&self, query: CellQueryView) -> Option<Seq<OutPoint>> {
        None
    }

    /// The cells found for `query`, in order; `None` where the query cannot
    /// be answered.
    open spec fn found_cells(&self, query: CellQueryView) -> Option<Seq<CellMetaView>> {
        None
    }

    fn query(&self, query: CellQuery) -> (found: Option<Vec<OutPoint>>)
        requires
            self.ready(),
        ensures
            match found {
                Some(list) => self.found(query@) == Some(list@),
                None => self.found(query@) is None,
            },
    ;

    fn query_cell_meta(&self, query: CellQuery) -> (found: Option<Vec<CellMeta>>)
        requires
            self.ready(),
        ensures
            match found {
                Some(list) => self.found_cells(query@) == Some(views(list@)),
                None => self.found_cells(query@) is None,
            },
    ;
}

/// The queries that the first `n` of `middleware` register on seeing `tx`,
/// in the order of the pipeline.
pub open spec fn contributed(
    middleware: Seq<&dyn GeneratorMiddleware>,
    tx: CellMetaTransactionView,
    n: nat,
) -> Seq<CellQueryView>
    decreases n,
{
    if n == 0 {
        Seq::empty()
    } else {
        contributed(middleware, tx, (n - 1) as nat) + middleware[n - 1].queries(tx)
    }
}

/// The cells found for the first `n` of `queries`, those of one query after
/// those of the queries before it; `None` where one of them is unanswered.
pub open spec fn drained(
    provider: Option<&dyn QueryProvider>,
    queries: Seq<CellQueryView>,
    n: nat,
) -> Option<Seq<CellMetaView>>
    decreases n,
{
    if n == 0 {
        Some(Seq::empty())
    } else {
        match (drained(provider, queries, (n - 1) as nat), provider) {
            (Some(before), Some(p)) => match p.found_cells(queries[n - 1]) {
                Some(cells) => Some(before + cells),
                None => None,
            },
            _ => None,
        }
    }
}

/// What the first `n` of `middleware` make of `tx`, each working on what the
/// one before it made; `None` where one of them fails.
pub open spec fn folded(
    middleware: Seq<&dyn GeneratorMiddleware>,
    tx: CellMetaTransactionView,
    n: nat,
) -> Option<CellMetaTransactionView>
    decreases n,
{
    if n == 0 {
        Some(tx)
    } else {
        match folded(middleware, tx, (n - 1) as nat) {
            Some(before) => middleware[n - 1].piped(before),
            None => None,
        }
    }
}

/// The inputs that consume `cells`, in order.
pub open spec fn inputs_of(cells: Seq<CellMetaView>) -> Seq<CellInput> {
    Seq::new(cells.len(), |i: int| CellInput { previous_output: cells[i].out_point, since: 0 })
}

/// `tx` with `cells` as its inputs.
pub open spec fn with_inputs(tx: CellMetaTransactionView, cells: Seq<CellMetaView>) -> CellMetaTransactionView {
    CellMetaTransactionView {
        tx: TransactionView { inputs: inputs_of(cells), ..tx.tx },
        inputs: cells,
    }
}

/// `tx` with its dependencies completed by `chain`, where there is one.
pub open spec fn finalized(
    chain: Option<&dyn TransactionProvider>,
    tx: CellMetaTransactionView,
) -> CellMetaTransactionView {
    match chain {
        Some(chain) => CellMetaTransactionView { tx: chain.completed(tx.tx), ..tx },
        None => tx,
    }
}

/// The outcome of a generation pass.
pub enum Generated {
    /// The query at this place of the registry found no answer.
    Unsatisfied(int),
    /// A middleware failed on the transaction with its inputs.
    Failed,
    /// The transaction that the pass made.
    Made(CellMetaTransactionView),
}

/// A generation pass over `tx` with `queries` registered: the cells found
/// for the queries, in order, become the inputs; each middleware in turn
/// works on the transaction; the dependencies are completed.
pub open spec fn pass(
    middleware: Seq<&dyn GeneratorMiddleware>,
    chain: Option<&dyn TransactionProvider>,
    provider: Option<&dyn QueryProvider>,
    tx: CellMetaTransactionView,
    queries: Seq<CellQueryView>,
) -> Generated {
    let answered = answered_queries(provider, queries);
    if answered < queries.len() {
        Generated::Unsatisfied(answered as int)
    } else {
        let cells = drained(provider, queries, queries.len())->Some_0;
        match folded(middleware, with_inputs(tx, cells), middleware.len()) {
            Some(made) => Generated::Made(finalized(chain, made)),
            None => Generated::Failed,
        }
    }
}

/// How many of `queries`, from the first on, are answered one after
/// another before one is not.
pub open spec fn answered_queries(provider: Option<&dyn QueryProvider>, queries: Seq<CellQueryView>) -> nat {
    answered_below(provider, queries, queries.len())
}

/// How many of the first `n` of `queries`, from the first on, are answered
/// one after another before one is not.
pub open spec fn answered_below(
    provider: Option<&dyn QueryProvider>,
    queries: Seq<CellQueryView>,
    n: nat,
) -> nat
    decreases n,
{
    if n == 0 {
        0
    } else {
        let before = answered_below(provider, queries, (n - 1) as nat);
        if before == n - 1 && provider is Some && provider->Some_0.found_cells(queries[n - 1])
            is Some {
            n
        } else {
            before
        }
    }
}

/// Queries are answered from the first on: once one is unanswered, the
/// count of answered queries stays where it is.
pub proof fn lemma_answered_stops(
    provider: Option<&dyn QueryProvider>,
    queries: Seq<CellQueryView>,
    n: nat,
    m: nat,
)
    requires
        n <= m,
        answered_below(provider, queries, n) < n,
    ensures
        answered_below(provider, queries, m) == answered_below(provider, queries, n),
    decreases m,
{
    lemma_answered_bound(provider, queries, n);
    if m > n {
        lemma_answered_stops(provider, queries, n, (m - 1) as nat);
    }
}

/// No more queries are answered than are asked.
pub proof fn lemma_answered_bound(provider: Option<&dyn QueryProvider>, queries: Seq<CellQueryView>, n: nat)
    ensures
        answered_below(provider, queries, n) <= n,
    decreases n,
{
    if n > 0 {
        lemma_answered_bound(provider, queries, (n - 1) as nat);
    }
}

/// Builds a transaction by running an ordered list of middleware over it.
pub struct Generator<'a, 'b> {
    pub middleware: Vec<&'a dyn GeneratorMiddleware>,
    pub chain_service: Option<&'b dyn TransactionProvider>,
    pub query_service: Option<&'b dyn QueryProvider>,
    pub tx: Option<CellMetaTransaction>,
    pub query_queue: Vec<CellQuery>,
}

impl<'a, 'b> Generator<'a, 'b> {
    /// Whether the generator holds a transaction to start from, and its
    /// middleware and services are in a state to be used.
    pub open spec fn ready(&self) -> bool {
        &&& self.tx is Some
        &&& forall|i: int| 0 <= i < self.middleware@.len() ==> (#[trigger] self.middleware@[i]).ready()
        &&& self.chain_service is Some ==> self.chain_service->Some_0.ready()
        &&& self.query_service is Some ==> self.query_service->Some_0.ready()
    }

    /// The queries registered once every middleware has seen `tx`, with
    /// `registered` there before.
    pub open spec fn registered(&self, tx: CellMetaTransactionView, registered: Seq<CellQueryView>) -> Seq<
        CellQueryView,
    > {
        registered + contributed(self.middleware@, tx, self.middleware@.len())
    }

    /// The outcome of a pass of this generator over `tx`, with `registered`
    /// in the registry before.
    pub open spec fn outcome(&self, tx: CellMetaTransactionView, registered: Seq<CellQueryView>) -> Generated {
        pass(
            self.middleware@,
            self.chain_service,
            self.query_service,
            tx,
            self.registered(tx, registered),
        )
    }

    /// A generator with no middleware and no services, starting from the
    /// empty transaction.
    pub fn new() -> (generator: Generator<'a, 'b>)
        ensures
            generator.ready(),
            generator.middleware@.len() == 0,
            generator.chain_service is None,
            generator.query_service is None,
            generator.tx is Some,
            generator.tx->Some_0@ == (CellMetaTransactionView {
                tx: TransactionView::empty(),
                inputs: Seq::empty(),
            }),
            generator.query_queue@.len() == 0,
    {
        Generator {
            middleware: Vec::new(),
            chain_service: None,
            query_service: None,
            tx: Some(CellMetaTransaction::from_tx(Transaction::new())),
            query_queue: Vec::new(),
        }
    }

    /// Sets the middleware, in the order in which they are to run.
    pub fn pipeline(self, pipes: Vec<&'a dyn GeneratorMiddleware>) -> (generator: Generator<'a, 'b>)
        ensures
            generator.middleware == pipes,
            generator.chain_service == self.chain_service,
            generator.query_service == self.query_service,
            generator.tx == self.tx,
            generator.query_queue == self.query_queue,
    {
        Generator {
            middleware: pipes,
            chain_service: self.chain_service,
            query_service: self.query_service,
            tx: self.tx,
            query_queue: self.query_queue,
        }
    }

    /// Sets the ledger that completes the dependencies.
    pub fn chain_service(self, chain_service: &'b dyn TransactionProvider) -> (generator: Generator<
        'a,
        'b,
    >)
        ensures
            generator.middleware == self.middleware,
            generator.chain_service == Some(chain_service),
            generator.query_service == self.query_service,
            generator.tx == self.tx,
            generator.query_queue == self.query_queue,
    {
        let chain_service = Some(chain_service);
        Generator {
            middleware: self.middleware,
            chain_service,
            query_service: self.query_service,
            tx: self.tx,
            query_queue: self.query_queue,
        }
    }

    /// Sets the provider that answers the queries.
    pub fn query_service(self, query_service: &'b dyn QueryProvider) -> (generator: Generator<
        'a,
        'b,
    >)
        ensures
            generator.middleware == self.middleware,
            generator.chain_service == self.chain_service,
            generator.query_service == Some(query_service),
            generator.tx == self.tx,
            generator.query_queue == self.query_queue,
    {
        let query_service = Some(query_service);
        Generator {
            middleware: self.middleware,
            chain_service: self.chain_service,
            query_service,
            tx: self.tx,
            query_queue: self.query_queue,
        }
    }

    /// The cells found for `query`; none where there is no provider or the
    /// provider has no answer.
    pub fn query(&self, query: CellQuery) -> (found: Option<Vec<CellMeta>>)
        requires
            self.query_service is Some ==> self.query_service->Some_0.ready(),
        ensures
            match found {
                Some(list) => self.query_service is Some
                    && self.query_service->Some_0.found_cells(query@) == Some(views(list@)),
                None => self.query_service is None || self.query_service->Some_0.found_cells(
                    query@,
                ) is None,
            },
    {
        match self.query_service {
            Some(provider) => provider.query_cell_meta(query),
            None => None,
        }
    }

    /// Lets every middleware, in the order of the pipeline, register its
    /// queries on seeing `tx`.
    pub fn update_query_register(&self, tx: &CellMetaTransaction, query_register: &mut Vec<CellQuery>)
        requires
            self.ready(),
        ensures
            views(final(query_register)@) == self.registered(tx@, views(old(query_register)@)),
    {
        let mut i: usize = 0;
        assert(views(query_register@) =~= views(old(query_register)@) + contributed(
            self.middleware@,
            tx@,
            0,
        ));
        while i < self.middleware.len()
            invariant
                self.ready(),
                i <= self.middleware@.len(),
                views(query_register@) == views(old(query_register)@) + contributed(
                    self.middleware@,
                    tx@,
                    i as nat,
                ),
            decreases self.middleware@.len() - i,
        {
            let ghost before = views(query_register@);
            self.middleware[i].update_query_register(tx, query_register);
            assert(before + self.middleware@[i as int].queries(tx@) =~= views(old(query_register)@)
                + contributed(self.middleware@, tx@, (i + 1) as nat));
            i += 1;
        }
    }

    /// Answers the registered queries in the order of their registration and
    /// hands back the cells found, those of one query after those of the
    /// queries before it. Fails on the first query without an answer, and
    /// names it.
    pub fn resolve_queries(&self, query_register: &Vec<CellQuery>) -> (cells: Result<
        Vec<CellMeta>,
        GeneratorError,
    >)
        requires
            self.query_service is Some ==> self.query_service->Some_0.ready(),
        ensures
            match cells {
                Ok(list) => {
                    &&& answered_queries(self.query_service, views(query_register@))
                        == query_register@.len()
                    &&& drained(
                        self.query_service,
                        views(query_register@),
                        query_register@.len() as nat,
                    ) == Some(views(list@))
                },
                Err(e) => {
                    &&& answered_queries(self.query_service, views(query_register@))
                        < query_register@.len()
                    &&& e is QueryUnsatisfied
                    &&& e->QueryUnsatisfied_0@ == views(query_register@)[answered_queries(
                        self.query_service,
                        views(query_register@),
                    ) as int]
                },
            },
    {
        let ghost queries = views(query_register@);
        let mut cells: Vec<CellMeta> = Vec::new();
        let mut i: usize = 0;
        assert(views(cells@) =~= Seq::empty());
        while i < query_register.len()
            invariant
                self.query_service is Some ==> self.query_service->Some_0.ready(),
                queries == views(query_register@),
                i <= query_register@.len(),
                answered_below(self.query_service, queries, i as nat) == i,
                drained(self.query_service, queries, i as nat) == Some(views(cells@)),
            decreases query_register@.len() - i,
        {
            let query = query_register[i].clone();
            assert(query@ == queries[i as int]);
            match self.query(query) {
                Some(mut list) => {
                    let ghost before = views(cells@);
                    let ghost more = views(list@);
                    cells.append(&mut list);
                    assert(views(cells@) =~= before + more);
                },
                None => {
                    proof {
                        assert(answered_below(self.query_service, queries, (i + 1) as nat) == i);
                        lemma_answered_stops(
                            self.query_service,
                            queries,
                            (i + 1) as nat,
                            queries.len(),
                        );
                    }
                    return Err(GeneratorError::QueryUnsatisfied(query_register[i].clone()));
                },
            }
            i += 1;
        }
        Ok(cells)
    }

    /// One generation pass over `tx`. Every middleware registers its
    /// queries; the registered queries are answered in order and the cells
    /// found become the inputs; every middleware, in order, works on the
    /// transaction; the dependencies are completed. The registry is empty
    /// afterwards, whatever the outcome.
    pub fn pipe(&self, tx: CellMetaTransaction, query_register: &mut Vec<CellQuery>) -> (out: Result<
        CellMetaTransaction,
        GeneratorError,
    >)
        requires
            self.ready(),
        ensures
            final(query_register)@.len() == 0,
            match self.outcome(tx@, views(old(query_register)@)) {
                Generated::Unsatisfied(i) => {
                    &&& out is Err
                    &&& out->Err_0 is QueryUnsatisfied
                    &&& 0 <= i < self.registered(tx@, views(old(query_register)@)).len()
                    &&& out->Err_0->QueryUnsatisfied_0@ == self.registered(
                        tx@,
                        views(old(query_register)@),
                    )[i]
                },
                Generated::Failed => out is Err && !(out->Err_0 is QueryUnsatisfied),
                Generated::Made(made) => out is Ok && out->Ok_0@ == made,
            },
    {
        self.update_query_register(&tx, query_register);
        let ghost queries = views(query_register@);
        let resolved = self.resolve_queries(query_register);
        query_register.clear();
        let cells = match resolved {
            Ok(cells) => cells,
            Err(e) => {
                return Err(e);
            },
        };
        let mut inputs: Vec<CellInput> = Vec::new();
        let mut i: usize = 0;
        while i < cells.len()
            invariant
                i <= cells@.len(),
                inputs@.len() == i,
                forall|j: int|
                    0 <= j < i ==> inputs@[j] == (CellInput {
                        previous_output: cells@[j].out_point,
                        since: 0,
                    }),
            decreases cells@.len() - i,
        {
            inputs.push(CellInput::new(cells[i].out_point));
            i += 1;
        }
        assert(inputs@ =~= inputs_of(views(cells@)));
        let ghost found = views(cells@);
        let ghost start = with_inputs(tx@, found);
        let mut current = CellMetaTransaction { tx: tx.tx.set_inputs(inputs), inputs: cells };
        assert(current@ == start);
        let mut i: usize = 0;
        while i < self.middleware.len()
            invariant
                self.ready(),
                i <= self.middleware@.len(),
                query_register@.len() == 0,
                queries == self.registered(tx@, views(old(query_register)@)),
                answered_queries(self.query_service, queries) == queries.len(),
                drained(self.query_service, queries, queries.len()) == Some(found),
                start == with_inputs(tx@, found),
                folded(self.middleware@, start, i as nat) == Some(current@),
            decreases self.middleware@.len() - i,
        {
            let ghost before = current@;
            match self.middleware[i].pipe(current) {
                Ok(next) => {
                    current = next;
                },
                Err(e) => {
                    proof {
                        assert(self.middleware@[i as int].piped(before) is None);
                        assert(folded(self.middleware@, start, (i + 1) as nat) is None);
                        lemma_folded_stops(
                            self.middleware@,
                            start,
                            (i + 1) as nat,
                            self.middleware@.len(),
                        );
                    }
                    return Err(e);
                },
            }
            i += 1;
        }
        match self.chain_service {
            Some(chain) => {
                let completed = chain.complete_tx(current.tx);
                Ok(CellMetaTransaction { tx: completed, inputs: current.inputs })
            },
            None => Ok(current),
        }
    }

    /// One generation pass over the generator's own transaction and
    /// registry.
    pub fn generate(&self) -> (out: Result<CellMetaTransaction, GeneratorError>)
        requires
            self.ready(),
        ensures
            match self.outcome(self.tx->Some_0@, views(self.query_queue@)) {
                Generated::Unsatisfied(i) => {
                    &&& out is Err
                    &&& out->Err_0 is QueryUnsatisfied
                    &&& 0 <= i < self.registered(self.tx->Some_0@, views(self.query_queue@)).len()
                    &&& out->Err_0->QueryUnsatisfied_0@ == self.registered(
                        self.tx->Some_0@,
                        views(self.query_queue@),
                    )[i]
                },
                Generated::Failed => out is Err && !(out->Err_0 is QueryUnsatisfied),
                Generated::Made(made) => out is Ok && out->Ok_0@ == made,
            },
    {
        let tx = match &self.tx {
            Some(tx) => tx.clone(),
            None => vstd::pervasive::unreached(),
        };
        let mut query_register = clone_queries(&self.query_queue);
        self.pipe(tx, &mut query_register)
    }
}

/// Once a middleware fails, the fold has failed.
pub proof fn lemma_folded_stops(
    middleware: Seq<&dyn GeneratorMiddleware>,
    tx: CellMetaTransactionView,
    n: nat,
    m: nat,
)
    requires
        n <= m,
        folded(middleware, tx, n) is None,
    ensures
        folded(middleware, tx, m) is None,
    decreases m,
{
    if m > n {
        lemma_folded_stops(middleware, tx, n, (m - 1) as nat);
    }
}

/// A fresh copy of a list of queries.
pub fn clone_queries(list: &Vec<CellQuery>) -> (copy: Vec<CellQuery>)
    ensures
        views(copy@) == views(list@),
{
    let mut copy: Vec<CellQuery> = Vec::new();
    let mut i: usize = 0;
    while i < list.len()
        invariant
            i <= list@.len(),
            copy@.len() == i,
            forall|j: int| 0 <= j < i ==> copy@[j]@ == list@[j]@,
        decreases list@.len() - i,
    {
        copy.push(list[i].clone());
        i += 1;
    }
    assert(views(copy@) =~= views(list@));
    copy
}

/// What the first `n` middleware of a pipeline make of a transaction
/// depends on those `n` alone.
pub proof fn lemma_folded_prefix(
    one: Seq<&dyn GeneratorMiddleware>,
    other: Seq<&dyn GeneratorMiddleware>,
    tx: CellMetaTransactionView,
    n: nat,
)
    requires
        n <= one.len(),
        n <= other.len(),
        forall|i: int| 0 <= i < n ==> one[i] == other[i],
    ensures
        folded(one, tx, n) == folded(other, tx, n),
    decreases n,
{
    if n > 0 {
        lemma_folded_prefix(one, other, tx, (n - 1) as nat);
    }
}

/// The order of the pipeline is the order in which the middleware work: a
/// pipeline makes of a transaction what its last middleware makes of what
/// the pipeline before it made.
pub proof fn lemma_pipeline_extends(
    middleware: Seq<&dyn GeneratorMiddleware>,
    tx: CellMetaTransactionView,
)
    requires
        middleware.len() > 0,
    ensures
        folded(middleware, tx, middleware.len()) == match folded(
            middleware.drop_last(),
            tx,
            (middleware.len() - 1) as nat,
        ) {
            Some(made) => middleware.last().piped(made),
            None => None,
        },
{
    lemma_folded_prefix(middleware, middleware.drop_last(), tx, (middleware.len() - 1) as nat);
}

/// The order of a pipeline is observable. A pipeline of two middleware
/// makes of a transaction what the second makes of what the first made of
/// it, so the same two in the other order give a different result wherever
/// the two middleware, applied one after the other, do.
pub proof fn lemma_pipeline_order(
    one: Seq<&dyn GeneratorMiddleware>,
    other: Seq<&dyn GeneratorMiddleware>,
    tx: CellMetaTransactionView,
)
    requires
        one.len() == 2,
        other.len() == 2,
        other[0] == one[1],
        other[1] == one[0],
    ensures
        folded(one, tx, 2) == match one[0].piped(tx) {
            Some(made) => one[1].piped(made),
            None => None,
        },
        folded(other, tx, 2) == match one[1].piped(tx) {
            Some(made) => one[0].piped(made),
            None => None,
        },
{
    reveal_with_fuel(folded, 3);
}

/// Queries are registered in the order of the pipeline: a pipeline
/// registers, after the queries of the pipeline before its last middleware,
/// the queries of that middleware.
pub proof fn lemma_contributed_extends(
    middleware: Seq<&dyn GeneratorMiddleware>,
    tx: CellMetaTransactionView,
)
    requires
        middleware.len() > 0,
    ensures
        contributed(middleware, tx, middleware.len()) == contributed(
            middleware.drop_last(),
            tx,
            (middleware.len() - 1) as nat,
        ) + middleware.last().queries(tx),
{
    lemma_contributed_prefix(
        middleware,
        middleware.drop_last(),
        tx,
        (middleware.len() - 1) as nat,
    );
}

/// The queries that the first `n` middleware of a pipeline register depend
/// on those `n` alone.
pub proof fn lemma_contributed_prefix(
    one: Seq<&dyn GeneratorMiddleware>,
    other: Seq<&dyn GeneratorMiddleware>,
    tx: CellMetaTransactionView,
    n: nat,
)
    requires
        n <= one.len(),
        n <= other.len(),
        forall|i: int| 0 <= i < n ==> one[i] == other[i],
    ensures
        contributed(one, tx, n) == contributed(other, tx, n),
    decreases n,
{
    if n > 0 {
        lemma_contributed_prefix(one, other, tx, (n - 1) as nat);
    }
}

/// Inputs follow the order of the queries: with one more query registered
/// at the end, the cells found are those found before followed by the
/// cells found for that query.
pub proof fn lemma_drained_extends(
    provider: Option<&dyn QueryProvider>,
    queries: Seq<CellQueryView>,
    last: CellQueryView,
)
    ensures
        drained(provider, queries.push(last), queries.len() + 1) == match (
            drained(provider, queries, queries.len()),
            provider,
        ) {
            (Some(before), Some(p)) => match p.found_cells(last) {
                Some(cells) => Some(before + cells),
                None => None,
            },
            _ => None,
        },
{
    lemma_drained_prefix(provider, queries.push(last), queries, queries.len());
}

/// The cells found for the first `n` queries depend on those `n` alone.
pub proof fn lemma_drained_prefix(
    provider: Option<&dyn QueryProvider>,
    one: Seq<CellQueryView>,
    other: Seq<CellQueryView>,
    n: nat,
)
    requires
        n <= one.len(),
        n <= other.len(),
        forall|i: int| 0 <= i < n ==> one[i] == other[i],
    ensures
        drained(provider, one, n) == drained(provider, other, n),
    decreases n,
{
    if n > 0 {
        lemma_drained_prefix(provider, one, other, (n - 1) as nat);
    }
}

} // verus!
