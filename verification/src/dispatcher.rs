//! The query dispatcher: the single entry point that admits a query
//! under a fixed concurrency limit, builds its session, parses it, and
//! drives each statement through planning and execution in order.
//!
//! Admission is a non-blocking counting semaphore sized once at
//! construction: a query that finds no free permit is rejected
//! immediately with the request-limit error, and the permit a running
//! query holds is released on every exit path.  A failing statement
//! aborts the rest of its query; the caller receives the full ordered
//! output list or a single typed error, never a partial list.

use vstd::prelude::*;
use std::sync::Arc;
use crate::catalog::Catalog;
use crate::ast::ExtStatement;
use crate::ddl::DDLExecution;
use crate::errors::QueryError;
use crate::execution::Output;
use crate::lifecycle::{QueryState, QueryStateMachine};
use crate::plan::{Plan, QueryPlan};
use crate::protocol::{Query, QueryId, SessionCtx, SessionCtxFactory};

verus! {

/// The statement parser collaborator: raw text in, ordered statements
/// out, or its own error text.
pub trait Parser {
    /// Parse the query text into its ordered statements.
    fn parse(&self, content: &str) -> Result<Vec<ExtStatement>, String>;
}

/// The logical-optimization collaborator of the execution engine.
pub trait Optimizer {
    /// Optimize a planned query, or fail with the engine's cause.
    fn optimize(&self, plan: &QueryPlan) -> Result<QueryPlan, String>;
}

/// The scheduling/execution handle of the execution engine.
pub trait Scheduler {
    /// Run a planned query to one output, or fail with the engine's
    /// cause.
    fn schedule(&self, plan: QueryPlan) -> Result<Output, String>;
}

/// tokio's counting semaphore, the admission pool; opaque here.
#[verifier::external_type_specification]
#[verifier::external_body]
pub struct ExSemaphore(tokio::sync::Semaphore);

/// tokio's owned permit; dropping it returns the permit to its pool.
#[verifier::external_type_specification]
#[verifier::external_body]
pub struct ExOwnedSemaphorePermit(tokio::sync::OwnedSemaphorePermit);

/// The number of permits an admission pool was created with.
pub uninterp spec fn spec_pool_permits(semaphore: Arc<tokio::sync::Semaphore>) -> nat;

/// Relies on tokio::sync::Semaphore::new: a pool holding exactly
/// `permits` permits.  tokio caps a semaphore at `usize::MAX >> 3`
/// permits and panics above it, so that input is excluded here.
#[verifier::external_body]
fn semaphore_new(permits: usize) -> (r: Arc<tokio::sync::Semaphore>)
    requires
        permits <= usize::MAX >> 3,
    ensures
        spec_pool_permits(r) == permits,
{
    Arc::new(tokio::sync::Semaphore::new(permits))
}

/// Relies on tokio::sync::Semaphore::try_acquire_owned: one permit
/// leaves the pool and is held until the returned value drops; no
/// permit is handed out when the pool is empty.  Whether a permit is
/// free depends on every concurrent holder, so nothing is promised of
/// the outcome.
#[verifier::external_body]
fn try_acquire_permit(semaphore: &Arc<tokio::sync::Semaphore>) -> Option<
    tokio::sync::OwnedSemaphorePermit,
> {
    match Arc::clone(semaphore).try_acquire_owned() {
        Ok(permit) => Some(permit),
        Err(_) => None,
    }
}

/// The admission decision over whatever the pool handed back: no free
/// permit is exactly the request-limit rejection, a hard reject before
/// any session, parse or plan work; a permit admits the query.
pub fn admission_outcome(permit: Option<tokio::sync::OwnedSemaphorePermit>) -> (r: Result<
    tokio::sync::OwnedSemaphorePermit,
    QueryError,
>)
    ensures
        permit matches Some(p) ==> (r matches Ok(held) && held == p),
        permit is None ==> r == Err::<tokio::sync::OwnedSemaphorePermit, QueryError>(
            QueryError::RequestLimit,
        ),
{
    match permit {
        Some(p) => Ok(p),
        None => Err(QueryError::RequestLimit),
    }
}

/// What parsing yields for the whole query: the ordered statements, or
/// the parser's failure surfaced as the parse-error kind, wrapped and
/// never swallowed; a parse failure aborts the query before any
/// statement lifecycle begins.
pub fn parse_outcome(parsed: Result<Vec<ExtStatement>, String>) -> (r: Result<
    Vec<ExtStatement>,
    QueryError,
>)
    ensures
        parsed matches Ok(statements) ==> r == Ok::<Vec<ExtStatement>, QueryError>(statements),
        parsed matches Err(e) ==> r == Err::<Vec<ExtStatement>, QueryError>(
            QueryError::Parser { source: e },
        ),
{
    match parsed {
        Ok(statements) => Ok(statements),
        Err(e) => Err(QueryError::Parser { source: e }),
    }
}

/// What planning yields for one statement: the plan, or the planner's
/// failure surfaced as the logical-planning kind, its cause kept.
pub fn plan_outcome(planned: Result<Plan, String>) -> (r: Result<Plan, QueryError>)
    ensures
        planned matches Ok(p) ==> r == Ok::<Plan, QueryError>(p),
        planned matches Err(e) ==> r == Err::<Plan, QueryError>(
            QueryError::LogicalPlanner { source: e },
        ),
{
    match planned {
        Ok(p) => Ok(p),
        Err(e) => Err(QueryError::LogicalPlanner { source: e }),
    }
}

/// What logical optimization yields: the optimized plan, or the
/// engine's failure surfaced as the logical-optimization kind.
pub fn optimize_outcome(optimized: Result<QueryPlan, String>) -> (r: Result<QueryPlan, QueryError>)
    ensures
        optimized matches Ok(p) ==> r == Ok::<QueryPlan, QueryError>(p),
        optimized matches Err(e) ==> r == Err::<QueryPlan, QueryError>(
            QueryError::LogicalOptimize { source: e },
        ),
{
    match optimized {
        Ok(p) => Ok(p),
        Err(e) => Err(QueryError::LogicalOptimize { source: e }),
    }
}

/// What scheduling yields: the output, or the engine's failure
/// surfaced as the scheduling kind.
pub fn schedule_outcome(scheduled: Result<Output, String>) -> (r: Result<Output, QueryError>)
    ensures
        scheduled matches Ok(o) ==> r == Ok::<Output, QueryError>(o),
        scheduled matches Err(e) ==> r == Err::<Output, QueryError>(
            QueryError::Schedule { source: e },
        ),
{
    match scheduled {
        Ok(o) => Ok(o),
        Err(e) => Err(QueryError::Schedule { source: e }),
    }
}

/// Routes one planned statement to its execution: an administrative
/// plan runs in the DDL executor; a query plan is optimized and
/// scheduled on the execution engine.
#[derive(Debug)]
pub struct SqlQueryExecutionFactory<O, S> {
    pub optimizer: O,
    pub scheduler: S,
}

impl<O: Optimizer, S: Scheduler> SqlQueryExecutionFactory<O, S> {
    /// A factory over the engine's optimizer and scheduler handles.
    pub fn new(optimizer: O, scheduler: S) -> (r: SqlQueryExecutionFactory<O, S>)
        ensures
            r.optimizer == optimizer,
            r.scheduler == scheduler,
    {
        SqlQueryExecutionFactory { optimizer, scheduler }
    }

    /// Execute one planned statement.  The tracker enters `Executing`
    /// before the engine or task runs and ends in `Succeeded` exactly
    /// when an output came back, in `Failed` otherwise; optimizer,
    /// scheduler and task failures come back as their own error kinds.
    pub fn create_query_execution<C: Catalog>(
        &self,
        logical_plan: Plan,
        catalog: &C,
        session: &SessionCtx,
        query_state_machine: &mut QueryStateMachine,
    ) -> (r: Result<Output, QueryError>)
        requires
            old(query_state_machine).wf(),
            old(query_state_machine).state == QueryState::Analyzed,
        ensures
            final(query_state_machine).wf(),
            r is Ok ==> final(query_state_machine).state == QueryState::Succeeded,
            r is Err ==> final(query_state_machine).state == QueryState::Failed,
            r matches Err(e) ==> (e is LogicalOptimize || e is Schedule || e is Execution),
    {
        match logical_plan {
            Plan::DDL(ddl_plan) => DDLExecution::new(ddl_plan).start(
                catalog,
                session,
                query_state_machine,
            ),
            Plan::Query(query_plan) => {
                query_state_machine.begin_execute();
                let optimized = match optimize_outcome(self.optimizer.optimize(&query_plan)) {
                    Ok(p) => p,
                    Err(e) => {
                        query_state_machine.finish_failed();
                        return Err(e);
                    },
                };
                match schedule_outcome(self.scheduler.schedule(optimized)) {
                    Ok(output) => {
                        query_state_machine.finish_succeeded();
                        Ok(output)
                    },
                    Err(e) => {
                        query_state_machine.finish_failed();
                        Err(e)
                    },
                }
            },
        }
    }
}

/// The query dispatcher: admission control, session construction,
/// parsing, and strictly sequential per-statement execution.
#[derive(Debug)]
pub struct SimpleQueryDispatcher<C, P, O, S> {
    pub metadata: C,
    pub session_factory: SessionCtxFactory,
    pub parser: P,
    pub query_execution_factory: SqlQueryExecutionFactory<O, S>,
    pub queries_limit_semaphore: Arc<tokio::sync::Semaphore>,
    pub query_id_counter: std::sync::atomic::AtomicU64,
}

impl<C: Catalog, P: Parser, O: Optimizer, S: Scheduler> SimpleQueryDispatcher<C, P, O, S> {
    /// Starting the dispatcher is deliberately a no-op: queries are
    /// admitted as they arrive.
    pub fn start(&self) {
    }

    /// Stopping is deliberately a no-op; in-flight queries run out.
    pub fn stop(&self) {
    }

    /// A fresh, monotonically issued query identifier.
    pub fn create_query_id(&self) -> QueryId {
        QueryId::new(self.query_id_counter.fetch_add(1, std::sync::atomic::Ordering::Relaxed))
    }

    /// Querying live state is deliberately a no-op control surface.
    pub fn get_query_info(&self, _id: &QueryId) {
    }

    /// Cancellation is a deliberate no-op: the control surface exists,
    /// but an in-flight query is never interrupted by this core.
    pub fn cancel_query(&self, _id: &QueryId) {
    }

    /// Execute one query: admit it or reject it immediately with the
    /// request-limit error, build its session and scoped catalog view,
    /// parse it, and run its statements strictly in order.  The permit
    /// is held for the whole run and released on every exit path.  A
    /// failure is always a run-stage kind, never the build kind: the
    /// admission branch is `admission_outcome`, the parse branch
    /// `parse_outcome`, and each statement's stages carry their own
    /// kinds through `execute_statements`.
    pub fn execute_query(&self, _id: QueryId, query: &Query) -> (r: Result<
        Vec<Output>,
        QueryError,
    >)
        ensures
            r matches Err(e) ==> (e is RequestLimit || e is Parser || e is LogicalPlanner
                || e is LogicalOptimize || e is Schedule || e is Execution),
    {
        let _permit = match admission_outcome(
            try_acquire_permit(&self.queries_limit_semaphore),
        ) {
            Ok(permit) => permit,
            Err(e) => {
                return Err(e);
            },
        };
        let session = self.session_factory.create_session_ctx(query.context());
        let metadata = self.metadata.scoped(
            session.catalog().as_str(),
            session.database().as_str(),
        );
        let statements = match parse_outcome(self.parser.parse(query.content().as_str())) {
            Ok(statements) => statements,
            Err(e) => {
                return Err(e);
            },
        };
        self.execute_statements(&statements, &session, &metadata, query)
    }

    /// Run the statements of one query strictly in order.  A full
    /// result holds exactly one output per statement; the first
    /// failure aborts the remaining statements and surfaces alone,
    /// with the outputs already produced discarded.
    pub fn execute_statements(
        &self,
        statements: &Vec<ExtStatement>,
        session: &SessionCtx,
        metadata: &C,
        query: &Query,
    ) -> (r: Result<Vec<Output>, QueryError>)
        ensures
            r matches Ok(outputs) ==> outputs@.len() == statements@.len(),
            r matches Err(e) ==> (e is LogicalPlanner || e is LogicalOptimize || e is Schedule
                || e is Execution),
    {
        let mut results: Vec<Output> = Vec::new();
        let n = statements.len();
        let mut i: usize = 0;
        while i < n
            invariant
                n == statements@.len(),
                0 <= i <= n,
                results@.len() == i,
            decreases n - i,
        {
            let mut query_state_machine = QueryStateMachine::begin(
                query.clone(),
                session.clone(),
            );
            match self.execute_statement(&statements[i], metadata, session, &mut query_state_machine) {
                Ok(output) => results.push(output),
                Err(e) => {
                    return Err(e);
                },
            }
            i = i + 1;
        }
        Ok(results)
    }

    /// Drive one statement through its lifecycle: mark analysis around
    /// the planner, then hand the plan to the execution factory.  The
    /// tracker ends in `Succeeded` exactly when an output came back
    /// and in `Failed` otherwise; a planner failure surfaces as the
    /// logical-planning error kind.
    pub fn execute_statement(
        &self,
        stmt: &ExtStatement,
        metadata: &C,
        session: &SessionCtx,
        query_state_machine: &mut QueryStateMachine,
    ) -> (r: Result<Output, QueryError>)
        requires
            old(query_state_machine).wf(),
            old(query_state_machine).state == QueryState::Created,
        ensures
            final(query_state_machine).wf(),
            r is Ok ==> final(query_state_machine).state == QueryState::Succeeded,
            r is Err ==> final(query_state_machine).state == QueryState::Failed,
            r matches Err(e) ==> (e is LogicalPlanner || e is LogicalOptimize || e is Schedule
                || e is Execution),
    {
        query_state_machine.begin_analyze();
        let logical_plan = match plan_outcome(metadata.create_logical_plan(stmt, session)) {
            Ok(plan) => plan,
            Err(e) => {
                query_state_machine.finish_failed();
                return Err(e);
            },
        };
        query_state_machine.end_analyze();
        self.query_execution_factory.create_query_execution(
            logical_plan,
            metadata,
            session,
            query_state_machine,
        )
    }
}

/// Assembles a dispatcher from its required collaborators.  Every
/// collaborator is required: finalization fails fast, naming the first
/// missing one, and never substitutes a default.
#[derive(Debug)]
pub struct SimpleQueryDispatcherBuilder<C, P, O, S> {
    pub metadata: Option<C>,
    pub session_factory: Option<SessionCtxFactory>,
    pub parser: Option<P>,
    pub optimizer: Option<O>,
    pub scheduler: Option<S>,
    pub queries_limit: usize,
}

impl<C: Catalog, P: Parser, O: Optimizer, S: Scheduler> SimpleQueryDispatcherBuilder<C, P, O, S> {
    /// An empty builder: no collaborators, and a concurrency limit of
    /// zero until one is configured.
    pub fn new() -> (r: SimpleQueryDispatcherBuilder<C, P, O, S>)
        ensures
            r.metadata is None,
            r.session_factory is None,
            r.parser is None,
            r.optimizer is None,
            r.scheduler is None,
            r.queries_limit == 0,
    {
        SimpleQueryDispatcherBuilder {
            metadata: None,
            session_factory: None,
            parser: None,
            optimizer: None,
            scheduler: None,
            queries_limit: 0,
        }
    }

    /// Set the catalog view.
    pub fn with_metadata(self, meta: C) -> (r: Self)
        ensures
            r.metadata == Some(meta),
            r.session_factory == self.session_factory,
            r.parser == self.parser,
            r.optimizer == self.optimizer,
            r.scheduler == self.scheduler,
            r.queries_limit == self.queries_limit,
    {
        SimpleQueryDispatcherBuilder { metadata: Some(meta), ..self }
    }

    /// Set the session factory.
    pub fn with_session_factory(self, session_factory: SessionCtxFactory) -> (r: Self)
        ensures
            r.session_factory == Some(session_factory),
            r.metadata == self.metadata,
            r.parser == self.parser,
            r.optimizer == self.optimizer,
            r.scheduler == self.scheduler,
            r.queries_limit == self.queries_limit,
    {
        SimpleQueryDispatcherBuilder { session_factory: Some(session_factory), ..self }
    }

    /// Set the parser.
    pub fn with_parser(self, parser: P) -> (r: Self)
        ensures
            r.parser == Some(parser),
            r.metadata == self.metadata,
            r.session_factory == self.session_factory,
            r.optimizer == self.optimizer,
            r.scheduler == self.scheduler,
            r.queries_limit == self.queries_limit,
    {
        SimpleQueryDispatcherBuilder { parser: Some(parser), ..self }
    }

    /// Set the optimizer handle.
    pub fn with_optimizer(self, optimizer: O) -> (r: Self)
        ensures
            r.optimizer == Some(optimizer),
            r.metadata == self.metadata,
            r.session_factory == self.session_factory,
            r.parser == self.parser,
            r.scheduler == self.scheduler,
            r.queries_limit == self.queries_limit,
    {
        SimpleQueryDispatcherBuilder { optimizer: Some(optimizer), ..self }
    }

    /// Set the scheduler handle.
    pub fn with_scheduler(self, scheduler: S) -> (r: Self)
        ensures
            r.scheduler == Some(scheduler),
            r.metadata == self.metadata,
            r.session_factory == self.session_factory,
            r.parser == self.parser,
            r.optimizer == self.optimizer,
            r.queries_limit == self.queries_limit,
    {
        SimpleQueryDispatcherBuilder { scheduler: Some(scheduler), ..self }
    }

    /// Set the concurrent-query limit the admission pool is sized by.
    pub fn with_queries_limit(self, limit: u32) -> (r: Self)
        ensures
            r.queries_limit == limit as usize,
            r.metadata == self.metadata,
            r.session_factory == self.session_factory,
            r.parser == self.parser,
            r.optimizer == self.optimizer,
            r.scheduler == self.scheduler,
    {
        SimpleQueryDispatcherBuilder { queries_limit: limit as usize, ..self }
    }

    /// Assemble the dispatcher.  Fails with a configuration error
    /// naming the first missing collaborator, in the fixed order
    /// metadata, session factory, parser, optimizer, scheduler; with
    /// all present, the dispatcher is built from exactly these
    /// collaborators and an admission pool of exactly `queries_limit`
    /// permits.  The limit is capped by the pool implementation, which
    /// holds at most `usize::MAX >> 3` permits; the `u32` setter stays
    /// within it on 64-bit targets.
    pub fn build(self) -> (r: Result<SimpleQueryDispatcher<C, P, O, S>, QueryError>)
        requires
            self.queries_limit <= usize::MAX >> 3,
        ensures
            self.metadata is None ==> (r matches Err(QueryError::BuildQueryDispatcher { err })
                && err@ == "lost of metadata"@),
            self.metadata is Some && self.session_factory is None ==> (r matches Err(
                QueryError::BuildQueryDispatcher { err },
            ) && err@ == "lost of session_factory"@),
            self.metadata is Some && self.session_factory is Some && self.parser is None ==> (
            r matches Err(QueryError::BuildQueryDispatcher { err }) && err@ == "lost of parser"@),
            self.metadata is Some && self.session_factory is Some && self.parser is Some
                && self.optimizer is None ==> (r matches Err(
                QueryError::BuildQueryDispatcher { err },
            ) && err@ == "lost of optimizer"@),
            self.metadata is Some && self.session_factory is Some && self.parser is Some
                && self.optimizer is Some && self.scheduler is None ==> (r matches Err(
                QueryError::BuildQueryDispatcher { err },
            ) && err@ == "lost of scheduler"@),
            self.metadata is Some && self.session_factory is Some && self.parser is Some
                && self.optimizer is Some && self.scheduler is Some ==> (r matches Ok(d) && {
                &&& d.metadata == self.metadata->Some_0
                &&& d.session_factory == self.session_factory->Some_0
                &&& d.parser == self.parser->Some_0
                &&& d.query_execution_factory.optimizer == self.optimizer->Some_0
                &&& d.query_execution_factory.scheduler == self.scheduler->Some_0
                &&& spec_pool_permits(d.queries_limit_semaphore) == self.queries_limit
            }),
    {
        let metadata = match self.metadata {
            Some(m) => m,
            None => {
                return Err(
                    QueryError::BuildQueryDispatcher {
                        err: String::from_str("lost of metadata"),
                    },
                );
            },
        };
        let session_factory = match self.session_factory {
            Some(f) => f,
            None => {
                return Err(
                    QueryError::BuildQueryDispatcher {
                        err: String::from_str("lost of session_factory"),
                    },
                );
            },
        };
        let parser = match self.parser {
            Some(p) => p,
            None => {
                return Err(
                    QueryError::BuildQueryDispatcher { err: String::from_str("lost of parser") },
                );
            },
        };
        let optimizer = match self.optimizer {
            Some(o) => o,
            None => {
                return Err(
                    QueryError::BuildQueryDispatcher {
                        err: String::from_str("lost of optimizer"),
                    },
                );
            },
        };
        let scheduler = match self.scheduler {
            Some(s) => s,
            None => {
                return Err(
                    QueryError::BuildQueryDispatcher {
                        err: String::from_str("lost of scheduler"),
                    },
                );
            },
        };
        let query_execution_factory = SqlQueryExecutionFactory::new(optimizer, scheduler);
        let queries_limit_semaphore = semaphore_new(self.queries_limit);
        Ok(
            SimpleQueryDispatcher {
                metadata,
                session_factory,
                parser,
                query_execution_factory,
                queries_limit_semaphore,
                query_id_counter: std::sync::atomic::AtomicU64::new(0),
            },
        )
    }
}

impl<C: Catalog, P: Parser, O: Optimizer, S: Scheduler> Default for SimpleQueryDispatcherBuilder<
    C,
    P,
    O,
    S,
> {
    /// The empty builder.
    fn default() -> (r: Self)
        ensures
            r.metadata is None,
            r.session_factory is None,
            r.parser is None,
            r.optimizer is None,
            r.scheduler is None,
            r.queries_limit == 0,
    {
        SimpleQueryDispatcherBuilder::new()
    }
}

} // verus!
