use std::collections::HashMap;
use std::sync::{Arc, Barrier, Mutex};

use tsdb_core::ast::ExtStatement;
use tsdb_core::catalog::Catalog;
use tsdb_core::dispatcher::{
    Optimizer, Parser, Scheduler, SimpleQueryDispatcher, SimpleQueryDispatcherBuilder,
};
use tsdb_core::errors::QueryError;
use tsdb_core::execution::Output;
use tsdb_core::external::TableSchema;
use tsdb_core::plan::{CreateDatabasePlan, DDLPlan, Plan, QueryPlan};
use tsdb_core::ast::ObjectType;
use tsdb_core::ddl::{CreateDatabaseTask, DDLExecution};
use tsdb_core::lifecycle::{QueryState, QueryStateMachine};
use tsdb_core::plan::DropPlan;
use tsdb_core::protocol::{Query, QueryContext, SessionCtx, SessionCtxFactory};
use tsdb_core::schema::{DatabaseOptions, DatabaseSchema};

#[derive(Default)]
struct CatalogState {
    databases: HashMap<String, DatabaseSchema>,
    tables: HashMap<String, TableSchema>,
}

#[derive(Clone, Default)]
struct MemCatalog {
    inner: Arc<Mutex<CatalogState>>,
}

impl Catalog for MemCatalog {
    fn scoped(&self, _catalog: &str, _database: &str) -> Self {
        self.clone()
    }

    fn create_logical_plan(
        &self,
        stmt: &ExtStatement,
        _session: &SessionCtx,
    ) -> Result<Plan, String> {
        match stmt {
            ExtStatement::CreateDatabase(c) => Ok(Plan::DDL(DDLPlan::CreateDatabase(
                CreateDatabasePlan {
                    name: c.name.clone(),
                    if_not_exists: c.if_not_exists,
                    options: DatabaseOptions::default(),
                },
            ))),
            ExtStatement::ShowDatabases() => Ok(Plan::DDL(DDLPlan::ShowDatabases())),
            ExtStatement::SqlStatement(text) => {
                if text.contains("PLANFAIL") {
                    Err(format!("no plan for statement: {text}"))
                } else {
                    Ok(Plan::Query(QueryPlan { query: text.clone() }))
                }
            }
            _ => Err("unsupported statement".to_string()),
        }
    }

    fn create_database(&self, schema: &DatabaseSchema) -> Result<(), String> {
        let mut state = self.inner.lock().unwrap();
        state.databases.insert(schema.name.clone(), schema.clone());
        Ok(())
    }

    fn create_table(&self, schema: &TableSchema) -> Result<(), String> {
        let mut state = self.inner.lock().unwrap();
        state.tables.insert(schema.name(), schema.clone_for_test());
        Ok(())
    }

    fn drop_database(&self, name: &str) -> Result<(), String> {
        let mut state = self.inner.lock().unwrap();
        match state.databases.remove(name) {
            Some(_) => Ok(()),
            None => Err(format!("database not found: {name}")),
        }
    }

    fn drop_table(&self, name: &str) -> Result<(), String> {
        let mut state = self.inner.lock().unwrap();
        match state.tables.remove(name) {
            Some(_) => Ok(()),
            None => Err(format!("table not found: {name}")),
        }
    }

    fn database(&self, name: &str) -> Option<DatabaseSchema> {
        self.inner.lock().unwrap().databases.get(name).cloned()
    }

    fn table(&self, name: &str) -> Option<TableSchema> {
        self.inner.lock().unwrap().tables.get(name).map(|t| t.clone_for_test())
    }

    fn database_names(&self) -> Vec<String> {
        let mut names: Vec<String> =
            self.inner.lock().unwrap().databases.keys().cloned().collect();
        names.sort();
        names
    }

    fn table_names(&self, _database: &str) -> Result<Vec<String>, String> {
        let mut names: Vec<String> = self.inner.lock().unwrap().tables.keys().cloned().collect();
        names.sort();
        Ok(names)
    }
}

trait CloneForTest {
    fn clone_for_test(&self) -> Self;
}

impl CloneForTest for TableSchema {
    fn clone_for_test(&self) -> Self {
        match self {
            TableSchema::TsKvTableSchema(s) => TableSchema::TsKvTableSchema(s.clone()),
            TableSchema::ExternalTableSchema(s) => TableSchema::ExternalTableSchema(s.clone()),
        }
    }
}

struct TextParser;

impl Parser for TextParser {
    fn parse(&self, content: &str) -> Result<Vec<ExtStatement>, String> {
        if content.contains("SYNTAX") {
            return Err(format!("syntax error in: {content}"));
        }
        let mut statements = Vec::new();
        for piece in content.split(';') {
            let piece = piece.trim();
            if piece.is_empty() {
                continue;
            }
            if let Some(name) = piece.strip_prefix("CREATE DATABASE ") {
                statements.push(ExtStatement::CreateDatabase(tsdb_core::ast::CreateDatabase {
                    name: name.to_string(),
                    if_not_exists: false,
                    options: tsdb_core::ast::DatabaseOptions::default(),
                }));
            } else if piece == "SHOW DATABASES" {
                statements.push(ExtStatement::ShowDatabases());
            } else {
                statements.push(ExtStatement::SqlStatement(piece.to_string()));
            }
        }
        Ok(statements)
    }
}

struct PassOptimizer;

impl Optimizer for PassOptimizer {
    fn optimize(&self, plan: &QueryPlan) -> Result<QueryPlan, String> {
        if plan.query.contains("OPTFAIL") {
            Err(format!("cannot optimize: {}", plan.query))
        } else {
            Ok(plan.clone())
        }
    }
}

#[derive(Clone, Default)]
struct TestScheduler {
    gate: Option<(Arc<Barrier>, Arc<Barrier>)>,
}

impl Scheduler for TestScheduler {
    fn schedule(&self, plan: QueryPlan) -> Result<Output, String> {
        if let Some((enter, leave)) = &self.gate {
            enter.wait();
            leave.wait();
        }
        if plan.query.contains("SCHEDFAIL") {
            Err(format!("cannot schedule: {}", plan.query))
        } else {
            Ok(Output::Nil)
        }
    }
}

type TestDispatcher = SimpleQueryDispatcher<MemCatalog, TextParser, PassOptimizer, TestScheduler>;

fn dispatcher_with(limit: u32, scheduler: TestScheduler) -> (TestDispatcher, MemCatalog) {
    let catalog = MemCatalog::default();
    let dispatcher = SimpleQueryDispatcherBuilder::new()
        .with_metadata(catalog.clone())
        .with_session_factory(SessionCtxFactory::new())
        .with_parser(TextParser)
        .with_optimizer(PassOptimizer)
        .with_scheduler(scheduler)
        .with_queries_limit(limit)
        .build()
        .unwrap();
    (dispatcher, catalog)
}

fn query(text: &str) -> Query {
    let context = QueryContext {
        catalog: "cnos".to_string(),
        database: "public".to_string(),
        user: "root".to_string(),
    };
    Query::new(context, text.to_string())
}

fn build_error_names(
    builder: SimpleQueryDispatcherBuilder<MemCatalog, TextParser, PassOptimizer, TestScheduler>,
) -> String {
    match builder.build() {
        Err(QueryError::BuildQueryDispatcher { err }) => err,
        other => panic!("expected a build error, got {:?}", other.is_ok()),
    }
}

#[test]
fn build_names_the_first_missing_collaborator() {
    let b = SimpleQueryDispatcherBuilder::<MemCatalog, TextParser, PassOptimizer, TestScheduler>::new();
    assert_eq!(build_error_names(b), "lost of metadata");

    let b = SimpleQueryDispatcherBuilder::new().with_metadata(MemCatalog::default());
    assert_eq!(build_error_names(b), "lost of session_factory");

    let b = SimpleQueryDispatcherBuilder::new()
        .with_metadata(MemCatalog::default())
        .with_session_factory(SessionCtxFactory::new());
    assert_eq!(build_error_names(b), "lost of parser");

    let b = SimpleQueryDispatcherBuilder::new()
        .with_metadata(MemCatalog::default())
        .with_session_factory(SessionCtxFactory::new())
        .with_parser(TextParser);
    assert_eq!(build_error_names(b), "lost of optimizer");

    let b = SimpleQueryDispatcherBuilder::new()
        .with_metadata(MemCatalog::default())
        .with_session_factory(SessionCtxFactory::new())
        .with_parser(TextParser)
        .with_optimizer(PassOptimizer);
    assert_eq!(build_error_names(b), "lost of scheduler");
}

#[test]
fn one_output_per_statement_in_order() {
    let (dispatcher, catalog) = dispatcher_with(1, TestScheduler::default());
    let id = dispatcher.create_query_id();
    let outputs = dispatcher
        .execute_query(id, &query("CREATE DATABASE db1; SELECT 1; SHOW DATABASES"))
        .unwrap();
    assert_eq!(outputs.len(), 3);
    assert_eq!(outputs[0], Output::Nil);
    assert_eq!(outputs[1], Output::Nil);
    match &outputs[2] {
        Output::Table(t) => {
            assert_eq!(t.column_names, vec!["Database".to_string()]);
            assert_eq!(t.rows, vec![vec!["db1".to_string()]]);
        }
        other => panic!("expected a table, got {other:?}"),
    }
    assert!(catalog.database("db1").is_some());
}

#[test]
fn parse_failure_aborts_the_whole_query() {
    let (dispatcher, _catalog) = dispatcher_with(1, TestScheduler::default());
    let id = dispatcher.create_query_id();
    let result = dispatcher.execute_query(id, &query("SYNTAX ERROR HERE"));
    assert!(matches!(result, Err(QueryError::Parser { .. })));
}

#[test]
fn failing_statement_aborts_later_statements_without_partial_results() {
    let (dispatcher, catalog) = dispatcher_with(1, TestScheduler::default());
    let id = dispatcher.create_query_id();
    let result = dispatcher.execute_query(id, &query("CREATE DATABASE db1; PLANFAIL now"));
    match result {
        Err(QueryError::LogicalPlanner { source }) => {
            assert!(source.contains("PLANFAIL"));
        }
        other => panic!("expected a planner error, got ok={:?}", other.is_ok()),
    }
    // The first statement had already run; no output list leaks out.
    assert!(catalog.database("db1").is_some());
}

#[test]
fn optimizer_and_scheduler_failures_keep_their_kinds() {
    let (dispatcher, _catalog) = dispatcher_with(1, TestScheduler::default());
    let id = dispatcher.create_query_id();
    let r = dispatcher.execute_query(id, &query("SELECT OPTFAIL"));
    assert!(matches!(r, Err(QueryError::LogicalOptimize { .. })));
    let r = dispatcher.execute_query(id, &query("SELECT SCHEDFAIL"));
    assert!(matches!(r, Err(QueryError::Schedule { .. })));
}

#[test]
fn limit_zero_rejects_every_query() {
    let (dispatcher, _catalog) = dispatcher_with(0, TestScheduler::default());
    let id = dispatcher.create_query_id();
    let result = dispatcher.execute_query(id, &query("SELECT 1"));
    assert!(matches!(result, Err(QueryError::RequestLimit)));
}

#[test]
fn permits_are_released_on_success_and_on_failure() {
    let (dispatcher, _catalog) = dispatcher_with(1, TestScheduler::default());
    let id = dispatcher.create_query_id();
    assert!(dispatcher.execute_query(id, &query("SELECT 1")).is_ok());
    assert!(dispatcher.execute_query(id, &query("PLANFAIL")).is_err());
    assert!(dispatcher.execute_query(id, &query("SELECT 2")).is_ok());
}

#[test]
fn concurrent_queries_beyond_the_limit_see_exactly_one_rejection() {
    let limit = 2usize;
    let enter = Arc::new(Barrier::new(limit + 1));
    let leave = Arc::new(Barrier::new(limit + 1));
    let scheduler = TestScheduler { gate: Some((enter.clone(), leave.clone())) };
    let (dispatcher, _catalog) = dispatcher_with(limit as u32, scheduler);
    let dispatcher = Arc::new(dispatcher);

    let runtime = tokio::runtime::Builder::new_multi_thread()
        .worker_threads(limit + 1)
        .build()
        .unwrap();
    let mut workers = Vec::new();
    for _ in 0..limit {
        let d = dispatcher.clone();
        workers.push(runtime.spawn_blocking(move || {
            let id = d.create_query_id();
            d.execute_query(id, &query("SELECT 1"))
        }));
    }

    // Wait until every admitted query holds its permit inside the engine.
    enter.wait();
    let id = dispatcher.create_query_id();
    let rejected = dispatcher.execute_query(id, &query("SELECT 1"));
    assert!(matches!(rejected, Err(QueryError::RequestLimit)));
    leave.wait();

    let mut ok = 0;
    for w in workers {
        if runtime.block_on(w).unwrap().is_ok() {
            ok += 1;
        }
    }
    assert_eq!(ok, limit);
}

#[test]
fn dispatcher_control_surface_is_a_no_op() {
    let (dispatcher, _catalog) = dispatcher_with(1, TestScheduler::default());
    let id = dispatcher.create_query_id();
    dispatcher.start();
    dispatcher.get_query_info(&id);
    dispatcher.cancel_query(&id);
    dispatcher.stop();
    assert!(dispatcher.execute_query(id, &query("SELECT 1")).is_ok());
}

#[test]
fn ddl_execution_wraps_task_failures_and_drives_the_tracker() {
    let catalog = MemCatalog::default();
    let session = SessionCtx { catalog: "cnos".to_string(), database: "public".to_string() };
    let mut qsm = QueryStateMachine::begin(query("DROP TABLE missing"), session.clone());
    qsm.begin_analyze();
    qsm.end_analyze();
    let failing = DDLExecution::new(DDLPlan::Drop(DropPlan {
        object_name: "missing".to_string(),
        if_exist: false,
        obj_type: ObjectType::Table,
    }));
    let result = failing.start(&catalog, &session, &mut qsm);
    match result {
        Err(QueryError::Execution { source }) => assert!(source.message.contains("missing")),
        other => panic!("expected an execution error, got ok={:?}", other.is_ok()),
    }
    assert_eq!(qsm.state, QueryState::Failed);

    let mut qsm = QueryStateMachine::begin(query("DROP TABLE missing"), session.clone());
    qsm.begin_analyze();
    qsm.end_analyze();
    let tolerated = DDLExecution::new(DDLPlan::Drop(DropPlan {
        object_name: "missing".to_string(),
        if_exist: true,
        obj_type: ObjectType::Table,
    }));
    assert_eq!(tolerated.start(&catalog, &session, &mut qsm), Ok(Output::Nil));
    assert_eq!(qsm.state, QueryState::Succeeded);
}

#[test]
fn a_query_with_no_statements_yields_no_outputs() {
    let (dispatcher, _catalog) = dispatcher_with(1, TestScheduler::default());
    let id = dispatcher.create_query_id();
    let outputs = dispatcher.execute_query(id, &query("")).unwrap();
    assert!(outputs.is_empty());
}

#[test]
fn create_database_honors_if_not_exists() {
    let catalog = MemCatalog::default();
    let session = SessionCtx { catalog: "cnos".to_string(), database: "public".to_string() };
    let strict = CreateDatabaseTask::new(CreateDatabasePlan {
        name: "db1".to_string(),
        if_not_exists: false,
        options: DatabaseOptions::default(),
    });
    assert_eq!(strict.execute(&catalog, &session), Ok(Output::Nil));
    match strict.execute(&catalog, &session) {
        Err(e) => assert!(e.message.contains("db1")),
        other => panic!("expected an existing-object error, got {other:?}"),
    }
    let tolerant = CreateDatabaseTask::new(CreateDatabasePlan {
        name: "db1".to_string(),
        if_not_exists: true,
        options: DatabaseOptions::default(),
    });
    assert_eq!(tolerant.execute(&catalog, &session), Ok(Output::Nil));
}
