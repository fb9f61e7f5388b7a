//! The DDL execution subsystem: one task per administrative plan
//! variant, a factory that maps each plan to its task, and the
//! execution shell that drives a task and wraps its failure into the
//! single execution-error kind.

use vstd::prelude::*;
use vstd::pervasive::cloned;
use vstd::string::*;
use crate::ast::ObjectType;
use crate::catalog::Catalog;
use crate::codec::spec_encoding_text;
use crate::duration::{spec_duration_text, spec_precision_text};
use crate::errors::QueryError;
use crate::execution::{ExecutionError, Output, TableResult};
use crate::external::{ExternalTableSchema, TableSchema};
use crate::lifecycle::{QueryState, QueryStateMachine};
use crate::plan::{
    CreateDatabasePlan, CreateExternalTablePlan, CreateTablePlan, DDLPlan, DescribeDatabasePlan,
    DescribeTablePlan, DropPlan, ShowTablesPlan,
};
use crate::protocol::SessionCtx;
use crate::schema::{
    distinct_names, spec_physical_text, spec_type_text, string_eq, DatabaseSchema, TableColumn,
    TskvTableSchema,
};
use crate::text::{bool_to_str, spec_bool_text, spec_dec_chars, u64_to_dec_string};

verus! {

/// The concatenation of a fixed prefix and a name, for error causes.
pub fn prefixed(prefix: &str, name: &str) -> (r: String)
    ensures
        r@ == prefix@ + name@,
{
    let mut s = prefix.to_owned();
    s.append(name);
    s
}

/// Whether the column names of `cols` are pairwise distinct.
pub fn columns_distinct(cols: &Vec<TableColumn>) -> (r: bool)
    ensures
        r == distinct_names(cols@),
{
    let n = cols.len();
    let mut i: usize = 0;
    while i < n
        invariant
            n == cols@.len(),
            0 <= i <= n,
            forall|x: int, y: int|
                0 <= x < y < i ==> (#[trigger] cols@[x].name)@ != (#[trigger] cols@[y].name)@,
        decreases n - i,
    {
        let mut j: usize = 0;
        while j < i
            invariant
                n == cols@.len(),
                0 <= j <= i < n,
                forall|x: int, y: int|
                    0 <= x < y < i ==> (#[trigger] cols@[x].name)@ != (#[trigger] cols@[y].name)@,
                forall|x: int| 0 <= x < j ==> (#[trigger] cols@[x].name)@ != (cols@[i as int].name)@,
            decreases i - j,
        {
            if string_eq(&cols[j].name, &cols[i].name) {
                proof {
                    assert(!distinct_names(cols@)) by {
                        assert((cols@[j as int].name)@ == (cols@[i as int].name)@);
                    }
                }
                return false;
            }
            j = j + 1;
        }
        i = i + 1;
    }
    true
}

/// A one-column table listing `values` under `title`, row per value.
pub fn single_column_output(title: &str, values: Vec<String>) -> (r: Output)
    ensures
        r matches Output::Table(t) && (t.column_names@.len() == 1 && t.column_names@[0]@ == title@
            && t.rows@.len() == values@.len() && (forall|i: int|
            0 <= i < values@.len() ==> (#[trigger] t.rows@[i])@.len() == 1 && t.rows@[i]@[0]
                == values@[i])),
{
    let mut column_names: Vec<String> = Vec::new();
    column_names.push(title.to_owned());
    let n = values.len();
    let mut rows: Vec<Vec<String>> = Vec::new();
    let mut i: usize = 0;
    while i < n
        invariant
            n == values@.len(),
            0 <= i <= n,
            rows@.len() == i,
            forall|j: int|
                0 <= j < i ==> (#[trigger] rows@[j])@.len() == 1 && rows@[j]@[0] == values@[j],
        decreases n - i,
    {
        let mut row: Vec<String> = Vec::new();
        row.push(values[i].clone());
        rows.push(row);
        i = i + 1;
    }
    Output::Table(TableResult { column_names, rows })
}

/// The tabular description of a database: its five options, as text,
/// in one row.
pub fn describe_database_output(schema: &DatabaseSchema) -> (r: Output)
    ensures
        r matches Output::Table(t) && (t.column_names@.len() == 5 && t.column_names@[0]@ == "TTL"@
            && t.column_names@[1]@ == "SHARD"@ && t.column_names@[2]@ == "VNODE_DURATION"@
            && t.column_names@[3]@ == "REPLICA"@ && t.column_names@[4]@ == "PRECISION"@
            && t.rows@.len() == 1 && (t.rows@[0]@.len() == 5 && t.rows@[0]@[0]@
            == spec_duration_text(schema.config.ttl) && t.rows@[0]@[1]@ == spec_dec_chars(
            schema.config.shard_num as nat,
        ) && t.rows@[0]@[2]@ == spec_duration_text(schema.config.vnode_duration)
            && t.rows@[0]@[3]@ == spec_dec_chars(schema.config.replica as nat) && t.rows@[0]@[4]@
            == spec_precision_text(schema.config.precision))),
{
    let mut column_names: Vec<String> = Vec::new();
    column_names.push(String::from_str("TTL"));
    column_names.push(String::from_str("SHARD"));
    column_names.push(String::from_str("VNODE_DURATION"));
    column_names.push(String::from_str("REPLICA"));
    column_names.push(String::from_str("PRECISION"));
    let mut row: Vec<String> = Vec::new();
    row.push(schema.config.ttl.to_text());
    row.push(u64_to_dec_string(schema.config.shard_num));
    row.push(schema.config.vnode_duration.to_text());
    row.push(u64_to_dec_string(schema.config.replica));
    row.push(schema.config.precision.as_str().to_owned());
    let mut rows: Vec<Vec<String>> = Vec::new();
    rows.push(row);
    Output::Table(TableResult { column_names, rows })
}

/// The tabular description of a time-series table: name, type, tag
/// flag and encoding of each column, in declaration order.
pub fn describe_tskv_table_output(schema: &TskvTableSchema) -> (r: Output)
    ensures
        r matches Output::Table(t) && (t.column_names@.len() == 4 && t.column_names@[0]@
            == "FIELDNAME"@ && t.column_names@[1]@ == "TYPE"@ && t.column_names@[2]@ == "ISTAG"@
            && t.column_names@[3]@ == "COMPRESSION"@ && t.rows@.len()
            == schema.spec_columns().len() && (forall|i: int|
            0 <= i < schema.spec_columns().len() ==> (#[trigger] t.rows@[i])@.len() == 4
                && t.rows@[i]@[0]@ == schema.spec_columns()[i].name@ && t.rows@[i]@[1]@
                == spec_type_text(schema.spec_columns()[i].column_type) && t.rows@[i]@[2]@
                == spec_bool_text(schema.spec_columns()[i].column_type is Tag) && t.rows@[i]@[3]@
                == spec_encoding_text(schema.spec_columns()[i].encoding))),
{
    let mut column_names: Vec<String> = Vec::new();
    column_names.push(String::from_str("FIELDNAME"));
    column_names.push(String::from_str("TYPE"));
    column_names.push(String::from_str("ISTAG"));
    column_names.push(String::from_str("COMPRESSION"));
    let cols = schema.columns();
    let n = cols.len();
    let mut rows: Vec<Vec<String>> = Vec::new();
    let mut i: usize = 0;
    while i < n
        invariant
            n == cols@.len(),
            cols@ == schema.spec_columns(),
            0 <= i <= n,
            rows@.len() == i,
            forall|j: int|
                0 <= j < i ==> (#[trigger] rows@[j])@.len() == 4 && rows@[j]@[0]@
                    == cols@[j].name@ && rows@[j]@[1]@ == spec_type_text(cols@[j].column_type)
                    && rows@[j]@[2]@ == spec_bool_text(cols@[j].column_type is Tag)
                    && rows@[j]@[3]@ == spec_encoding_text(cols@[j].encoding),
        decreases n - i,
    {
        let c = &cols[i];
        let mut row: Vec<String> = Vec::new();
        row.push(c.name.clone());
        row.push(c.column_type.as_str().to_owned());
        row.push(bool_to_str(c.column_type.is_tag()).to_owned());
        row.push(c.encoding.as_str().to_owned());
        rows.push(row);
        i = i + 1;
    }
    Output::Table(TableResult { column_names, rows })
}

/// The tabular description of an external table: name, physical type
/// and nullability of each physical field.
pub fn describe_external_table_output(schema: &ExternalTableSchema) -> (r: Output)
    ensures
        r matches Output::Table(t) && (t.column_names@.len() == 3 && t.column_names@[0]@
            == "FIELDNAME"@ && t.column_names@[1]@ == "TYPE"@ && t.column_names@[2]@ == "NULLABLE"@
            && t.rows@.len() == schema.schema@.len() && (forall|i: int|
            0 <= i < schema.schema@.len() ==> (#[trigger] t.rows@[i])@.len() == 3 && t.rows@[i]@[0]@
                == schema.schema@[i].name@ && t.rows@[i]@[1]@ == spec_physical_text(
                schema.schema@[i].data_type,
            ) && t.rows@[i]@[2]@ == spec_bool_text(schema.schema@[i].nullable))),
{
    let mut column_names: Vec<String> = Vec::new();
    column_names.push(String::from_str("FIELDNAME"));
    column_names.push(String::from_str("TYPE"));
    column_names.push(String::from_str("NULLABLE"));
    let n = schema.schema.len();
    let mut rows: Vec<Vec<String>> = Vec::new();
    let mut i: usize = 0;
    while i < n
        invariant
            n == schema.schema@.len(),
            0 <= i <= n,
            rows@.len() == i,
            forall|j: int|
                0 <= j < i ==> (#[trigger] rows@[j])@.len() == 3 && rows@[j]@[0]@
                    == schema.schema@[j].name@ && rows@[j]@[1]@ == spec_physical_text(
                    schema.schema@[j].data_type,
                ) && rows@[j]@[2]@ == spec_bool_text(schema.schema@[j].nullable),
        decreases n - i,
    {
        let f = &schema.schema[i];
        let mut row: Vec<String> = Vec::new();
        row.push(f.name.clone());
        row.push(f.data_type.as_str().to_owned());
        row.push(bool_to_str(f.nullable).to_owned());
        rows.push(row);
        i = i + 1;
    }
    Output::Table(TableResult { column_names, rows })
}

/// The create tasks' decision on an object the catalog already holds:
/// tolerated with a plain status exactly under the `if_not_exists`
/// flag, an error naming the object otherwise.
pub fn existing_object_outcome(if_not_exists: bool, cause: &str, name: &str) -> (r: Result<
    Output,
    ExecutionError,
>)
    ensures
        if_not_exists ==> r == Ok::<Output, ExecutionError>(Output::Nil),
        !if_not_exists ==> (r matches Err(e) && e.message@ == cause@ + name@),
{
    if if_not_exists {
        Ok(Output::Nil)
    } else {
        Err(ExecutionError::new(prefixed(cause, name)))
    }
}

/// What a task's run yields at the execution boundary: its output, or
/// its failure wrapped into the single execution-error kind with the
/// original cause kept.
pub fn execution_outcome(run: Result<Output, ExecutionError>) -> (r: Result<Output, QueryError>)
    ensures
        run matches Ok(o) ==> r == Ok::<Output, QueryError>(o),
        run matches Err(e) ==> r == Err::<Output, QueryError>(QueryError::Execution { source: e }),
{
    match run {
        Ok(o) => Ok(o),
        Err(e) => Err(QueryError::Execution { source: e }),
    }
}

/// Create a database, tolerating an existing one when asked to.
#[derive(Debug, PartialEq, Eq)]
pub struct CreateDatabaseTask {
    pub plan: CreateDatabasePlan,
}

impl CreateDatabaseTask {
    /// A task over its plan.
    pub fn new(plan: CreateDatabasePlan) -> (r: CreateDatabaseTask)
        ensures
            r.plan == plan,
    {
        CreateDatabaseTask { plan }
    }

    /// Register the database unless it exists; an existing database is
    /// an error only without the `if_not_exists` flag.  Success is
    /// always a plain status.
    pub fn execute<C: Catalog>(&self, catalog: &C, _session: &SessionCtx) -> (r: Result<
        Output,
        ExecutionError,
    >)
        ensures
            r matches Ok(o) ==> o == Output::Nil,
    {
        match catalog.database(self.plan.name.as_str()) {
            Some(_) => existing_object_outcome(
                self.plan.if_not_exists,
                "database already exists: ",
                self.plan.name.as_str(),
            ),
            None => {
                let schema = DatabaseSchema {
                    name: self.plan.name.clone(),
                    config: self.plan.options,
                };
                match catalog.create_database(&schema) {
                    Ok(_) => Ok(Output::Nil),
                    Err(e) => Err(ExecutionError::new(e)),
                }
            },
        }
    }
}

/// Create a time-series table, tolerating an existing one when asked.
#[derive(Debug, PartialEq, Eq)]
pub struct CreateTableTask {
    pub plan: CreateTablePlan,
}

impl CreateTableTask {
    /// A task over its plan.
    pub fn new(plan: CreateTablePlan) -> (r: CreateTableTask)
        ensures
            r.plan == plan,
    {
        CreateTableTask { plan }
    }

    /// Register the table in the session's database unless it exists;
    /// duplicate column names in the plan are rejected.  Success is
    /// always a plain status.
    pub fn execute<C: Catalog>(&self, catalog: &C, session: &SessionCtx) -> (r: Result<
        Output,
        ExecutionError,
    >)
        ensures
            r matches Ok(o) ==> o == Output::Nil,
    {
        match catalog.table(self.plan.name.as_str()) {
            Some(_) => existing_object_outcome(
                self.plan.if_not_exists,
                "table already exists: ",
                self.plan.name.as_str(),
            ),
            None => {
                if !columns_distinct(&self.plan.schema) {
                    return Err(
                        ExecutionError::new(
                            prefixed("duplicate column names in table: ", self.plan.name.as_str()),
                        ),
                    );
                }
                let cols = self.plan.schema.clone();
                proof {
                    assert(cols@ =~= self.plan.schema@) by {
                        assert forall|i: int| 0 <= i < cols@.len() implies cols@[i]
                            == self.plan.schema@[i] by {
                            assert(cloned::<TableColumn>(self.plan.schema@[i], cols@[i]));
                        }
                    }
                }
                let ts = TskvTableSchema::new(
                    session.database.clone(),
                    self.plan.name.clone(),
                    cols,
                );
                match catalog.create_table(&TableSchema::TsKvTableSchema(ts)) {
                    Ok(_) => Ok(Output::Nil),
                    Err(e) => Err(ExecutionError::new(e)),
                }
            },
        }
    }
}

/// Register an externally-located file as a table.
#[derive(Debug, PartialEq, Eq)]
pub struct CreateExternalTableTask {
    pub plan: CreateExternalTablePlan,
}

impl CreateExternalTableTask {
    /// A task over its plan.
    pub fn new(plan: CreateExternalTablePlan) -> (r: CreateExternalTableTask)
        ensures
            r.plan == plan,
    {
        CreateExternalTableTask { plan }
    }

    /// Register the external table unless one of that name exists.
    /// Success is always a plain status.
    pub fn execute<C: Catalog>(&self, catalog: &C, _session: &SessionCtx) -> (r: Result<
        Output,
        ExecutionError,
    >)
        ensures
            r matches Ok(o) ==> o == Output::Nil,
    {
        match catalog.table(self.plan.schema.name.as_str()) {
            Some(_) => existing_object_outcome(
                self.plan.if_not_exists,
                "table already exists: ",
                self.plan.schema.name.as_str(),
            ),
            None => {
                match catalog.create_table(
                    &TableSchema::ExternalTableSchema(self.plan.schema.clone()),
                ) {
                    Ok(_) => Ok(Output::Nil),
                    Err(e) => Err(ExecutionError::new(e)),
                }
            },
        }
    }
}

/// Drop a table or database; absence is an error only without the
/// `if_exist` flag.
#[derive(Debug, PartialEq, Eq)]
pub struct DropObjectTask {
    pub plan: DropPlan,
}

impl DropObjectTask {
    /// A task over its plan.
    pub fn new(plan: DropPlan) -> (r: DropObjectTask)
        ensures
            r.plan == plan,
    {
        DropObjectTask { plan }
    }

    /// Drop the object of the planned kind.  With the `if_exist` flag
    /// the task always succeeds with a plain status, whatever the
    /// catalog answered.
    pub fn execute<C: Catalog>(&self, catalog: &C, _session: &SessionCtx) -> (r: Result<
        Output,
        ExecutionError,
    >)
        ensures
            self.plan.if_exist ==> r == Ok::<Output, ExecutionError>(Output::Nil),
            r matches Ok(o) ==> o == Output::Nil,
    {
        let dropped = match self.plan.obj_type {
            ObjectType::Table => catalog.drop_table(self.plan.object_name.as_str()),
            ObjectType::Database => catalog.drop_database(self.plan.object_name.as_str()),
        };
        match dropped {
            Ok(_) => Ok(Output::Nil),
            Err(e) => {
                if self.plan.if_exist {
                    Ok(Output::Nil)
                } else {
                    Err(ExecutionError::new(e))
                }
            },
        }
    }
}

/// Describe one database's options.
#[derive(Debug, PartialEq, Eq)]
pub struct DescribeDatabaseTask {
    pub plan: DescribeDatabasePlan,
}

impl DescribeDatabaseTask {
    /// A task over its plan.
    pub fn new(plan: DescribeDatabasePlan) -> (r: DescribeDatabaseTask)
        ensures
            r.plan == plan,
    {
        DescribeDatabaseTask { plan }
    }

    /// The options table of the database, or an error if it is absent.
    /// Whatever schema the catalog holds, success is its one-row,
    /// five-option table.
    pub fn execute<C: Catalog>(&self, catalog: &C, _session: &SessionCtx) -> (r: Result<
        Output,
        ExecutionError,
    >)
        ensures
            r matches Ok(o) ==> (o matches Output::Table(t) && (t.column_names@.len() == 5
                && t.column_names@[0]@ == "TTL"@ && t.rows@.len() == 1)),
    {
        match catalog.database(self.plan.database_name.as_str()) {
            Some(schema) => Ok(describe_database_output(&schema)),
            None => Err(
                ExecutionError::new(
                    prefixed("database not found: ", self.plan.database_name.as_str()),
                ),
            ),
        }
    }
}

/// Describe one table's columns.
#[derive(Debug, PartialEq, Eq)]
pub struct DescribeTableTask {
    pub plan: DescribeTablePlan,
}

impl DescribeTableTask {
    /// A task over its plan.
    pub fn new(plan: DescribeTablePlan) -> (r: DescribeTableTask)
        ensures
            r.plan == plan,
    {
        DescribeTableTask { plan }
    }

    /// The column table of the table, or an error if it is absent.
    /// Whatever schema the catalog holds, success is a table headed by
    /// the field name column.
    pub fn execute<C: Catalog>(&self, catalog: &C, _session: &SessionCtx) -> (r: Result<
        Output,
        ExecutionError,
    >)
        ensures
            r matches Ok(o) ==> (o matches Output::Table(t) && t.column_names@[0]@
                == "FIELDNAME"@),
    {
        match catalog.table(self.plan.table_name.as_str()) {
            Some(TableSchema::TsKvTableSchema(schema)) => Ok(describe_tskv_table_output(&schema)),
            Some(TableSchema::ExternalTableSchema(schema)) => Ok(
                describe_external_table_output(&schema),
            ),
            None => Err(
                ExecutionError::new(prefixed("table not found: ", self.plan.table_name.as_str())),
            ),
        }
    }
}

/// List the tables of a database.
#[derive(Debug, PartialEq, Eq)]
pub struct ShowTablesTask {
    pub plan: ShowTablesPlan,
}

impl ShowTablesTask {
    /// A task over its plan.
    pub fn new(plan: ShowTablesPlan) -> (r: ShowTablesTask)
        ensures
            r.plan == plan,
    {
        ShowTablesTask { plan }
    }

    /// One row per table of the named database, or of the session's
    /// database when none is named.  Whatever the catalog lists, a
    /// successful result is a one-column `Table` listing with one cell
    /// per row.
    pub fn execute<C: Catalog>(&self, catalog: &C, session: &SessionCtx) -> (r: Result<
        Output,
        ExecutionError,
    >)
        ensures
            r matches Ok(o) ==> (o matches Output::Table(t) && (t.column_names@.len() == 1
                && t.column_names@[0]@ == "Table"@ && forall|i: int|
                0 <= i < t.rows@.len() ==> (#[trigger] t.rows@[i])@.len() == 1)),
    {
        let listed = match &self.plan.database_name {
            Some(db) => catalog.table_names(db.as_str()),
            None => catalog.table_names(session.database.as_str()),
        };
        match listed {
            Ok(names) => Ok(single_column_output("Table", names)),
            Err(e) => Err(ExecutionError::new(e)),
        }
    }
}

/// List all databases.
#[derive(Debug, PartialEq, Eq, Structural)]
pub struct ShowDatabasesTask {}

impl ShowDatabasesTask {
    /// The task; listing databases takes no arguments.
    pub fn new() -> (r: ShowDatabasesTask)
        ensures
            r == (ShowDatabasesTask {  }),
    {
        ShowDatabasesTask {  }
    }

    /// One row per database, whatever the catalog lists: always a
    /// one-column `Database` listing with one cell per row.
    pub fn execute<C: Catalog>(&self, catalog: &C, _session: &SessionCtx) -> (r: Result<
        Output,
        ExecutionError,
    >)
        ensures
            r matches Ok(o) && (o matches Output::Table(t) && (t.column_names@.len() == 1
                && t.column_names@[0]@ == "Database"@ && forall|i: int|
                0 <= i < t.rows@.len() ==> (#[trigger] t.rows@[i])@.len() == 1)),
    {
        Ok(single_column_output("Database", catalog.database_names()))
    }
}

/// One constructed task, ready to execute.
#[derive(Debug, PartialEq, Eq)]
pub enum DDLTask {
    CreateExternalTable(CreateExternalTableTask),
    Drop(DropObjectTask),
    CreateTable(CreateTableTask),
    CreateDatabase(CreateDatabaseTask),
    DescribeDatabase(DescribeDatabaseTask),
    DescribeTable(DescribeTableTask),
    ShowTables(ShowTablesTask),
    ShowDatabases(ShowDatabasesTask),
}

impl DDLTask {
    /// Run the task against the catalog collaborator.  Whatever the
    /// catalog answers: a successful create or drop is a plain status;
    /// a tolerated drop always succeeds; a successful listing is a
    /// one-column table; a successful describe is headed as its task
    /// states.
    pub fn execute<C: Catalog>(&self, catalog: &C, session: &SessionCtx) -> (r: Result<
        Output,
        ExecutionError,
    >)
        ensures
            (self is CreateExternalTable || self is CreateTable || self is CreateDatabase
                || self is Drop) && r is Ok ==> r == Ok::<Output, ExecutionError>(Output::Nil),
            self matches DDLTask::Drop(t) && t.plan.if_exist ==> r == Ok::<
                Output,
                ExecutionError,
            >(Output::Nil),
            self is ShowDatabases ==> (r matches Ok(o) && (o matches Output::Table(t) && (
            t.column_names@.len() == 1 && t.column_names@[0]@ == "Database"@ && forall|i: int|
                0 <= i < t.rows@.len() ==> (#[trigger] t.rows@[i])@.len() == 1))),
            self is ShowTables && r is Ok ==> (r->Ok_0 matches Output::Table(t) && (
            t.column_names@.len() == 1 && t.column_names@[0]@ == "Table"@ && forall|i: int|
                0 <= i < t.rows@.len() ==> (#[trigger] t.rows@[i])@.len() == 1)),
            self is DescribeDatabase && r is Ok ==> (r->Ok_0 matches Output::Table(t) && (
            t.column_names@.len() == 5 && t.column_names@[0]@ == "TTL"@ && t.rows@.len() == 1)),
            self is DescribeTable && r is Ok ==> (r->Ok_0 matches Output::Table(t)
                && t.column_names@[0]@ == "FIELDNAME"@),
    {
        match self {
            DDLTask::CreateExternalTable(t) => t.execute(catalog, session),
            DDLTask::Drop(t) => t.execute(catalog, session),
            DDLTask::CreateTable(t) => t.execute(catalog, session),
            DDLTask::CreateDatabase(t) => t.execute(catalog, session),
            DDLTask::DescribeDatabase(t) => t.execute(catalog, session),
            DDLTask::DescribeTable(t) => t.execute(catalog, session),
            DDLTask::ShowTables(t) => t.execute(catalog, session),
            DDLTask::ShowDatabases(t) => t.execute(catalog, session),
        }
    }
}

/// The task each administrative plan variant maps to.  The mapping is
/// total and one-to-one by construction: an exhaustive match over a
/// closed variant set, with no default arm to fall through to.
pub open spec fn spec_create_task(plan: DDLPlan) -> DDLTask {
    match plan {
        DDLPlan::CreateExternalTable(p) => DDLTask::CreateExternalTable(
            CreateExternalTableTask { plan: p },
        ),
        DDLPlan::Drop(p) => DDLTask::Drop(DropObjectTask { plan: p }),
        DDLPlan::CreateTable(p) => DDLTask::CreateTable(CreateTableTask { plan: p }),
        DDLPlan::CreateDatabase(p) => DDLTask::CreateDatabase(CreateDatabaseTask { plan: p }),
        DDLPlan::DescribeDatabase(p) => DDLTask::DescribeDatabase(
            DescribeDatabaseTask { plan: p },
        ),
        DDLPlan::DescribeTable(p) => DDLTask::DescribeTable(DescribeTableTask { plan: p }),
        DDLPlan::ShowTables(p) => DDLTask::ShowTables(ShowTablesTask { plan: p }),
        DDLPlan::ShowDatabases() => DDLTask::ShowDatabases(ShowDatabasesTask {  }),
    }
}

/// Every administrative plan variant is dispatched to exactly the
/// correspondingly-named task, carrying that plan's payload; no
/// variant falls through to any other task.
pub proof fn lemma_ddl_dispatch_total(plan: DDLPlan)
    ensures
        plan matches DDLPlan::CreateExternalTable(p) ==> spec_create_task(plan)
            == DDLTask::CreateExternalTable(CreateExternalTableTask { plan: p }),
        plan matches DDLPlan::Drop(p) ==> spec_create_task(plan) == DDLTask::Drop(
            DropObjectTask { plan: p },
        ),
        plan matches DDLPlan::CreateTable(p) ==> spec_create_task(plan) == DDLTask::CreateTable(
            CreateTableTask { plan: p },
        ),
        plan matches DDLPlan::CreateDatabase(p) ==> spec_create_task(plan)
            == DDLTask::CreateDatabase(CreateDatabaseTask { plan: p }),
        plan matches DDLPlan::DescribeDatabase(p) ==> spec_create_task(plan)
            == DDLTask::DescribeDatabase(DescribeDatabaseTask { plan: p }),
        plan matches DDLPlan::DescribeTable(p) ==> spec_create_task(plan)
            == DDLTask::DescribeTable(DescribeTableTask { plan: p }),
        plan matches DDLPlan::ShowTables(p) ==> spec_create_task(plan) == DDLTask::ShowTables(
            ShowTablesTask { plan: p },
        ),
        plan matches DDLPlan::ShowDatabases() ==> spec_create_task(plan) == DDLTask::ShowDatabases(
            ShowDatabasesTask {  },
        ),
{
}

/// Maps an administrative plan to its task.
#[derive(Debug, PartialEq, Eq)]
pub struct DDLDefinitionTaskFactory {
    pub plan: DDLPlan,
}

impl DDLDefinitionTaskFactory {
    /// The task of this factory's plan variant.  Adding an
    /// administrative operation means adding a plan variant and a task
    /// here; the exhaustive match refuses to build until both exist.
    pub fn create_task(self) -> (r: DDLTask)
        ensures
            r == spec_create_task(self.plan),
    {
        match self.plan {
            DDLPlan::CreateExternalTable(sub_plan) => DDLTask::CreateExternalTable(
                CreateExternalTableTask::new(sub_plan),
            ),
            DDLPlan::Drop(sub_plan) => DDLTask::Drop(DropObjectTask::new(sub_plan)),
            DDLPlan::CreateTable(sub_plan) => DDLTask::CreateTable(CreateTableTask::new(sub_plan)),
            DDLPlan::CreateDatabase(sub_plan) => DDLTask::CreateDatabase(
                CreateDatabaseTask::new(sub_plan),
            ),
            DDLPlan::DescribeDatabase(sub_plan) => DDLTask::DescribeDatabase(
                DescribeDatabaseTask::new(sub_plan),
            ),
            DDLPlan::DescribeTable(sub_plan) => DDLTask::DescribeTable(
                DescribeTableTask::new(sub_plan),
            ),
            DDLPlan::ShowTables(sub_plan) => DDLTask::ShowTables(ShowTablesTask::new(sub_plan)),
            DDLPlan::ShowDatabases() => DDLTask::ShowDatabases(ShowDatabasesTask::new()),
        }
    }
}

/// Executes one administrative plan: builds its task, drives the
/// lifecycle tracker through the execution phase, and wraps a task
/// failure into the single execution-error kind, keeping its cause.
#[derive(Debug, PartialEq, Eq)]
pub struct DDLExecution {
    pub task_factory: DDLDefinitionTaskFactory,
}

impl DDLExecution {
    /// An execution of `plan`.
    pub fn new(plan: DDLPlan) -> (r: DDLExecution)
        ensures
            r.task_factory.plan == plan,
    {
        DDLExecution { task_factory: DDLDefinitionTaskFactory { plan } }
    }

    /// Run the plan's task.  The tracker enters `Executing` first and
    /// ends in `Succeeded` exactly when the task produced output, in
    /// `Failed` otherwise; a task error comes back as the execution
    /// kind with its cause kept.
    pub fn start<C: Catalog>(
        self,
        catalog: &C,
        session: &SessionCtx,
        query_state_machine: &mut QueryStateMachine,
    ) -> (r: Result<Output, QueryError>)
        requires
            old(query_state_machine).wf(),
            old(query_state_machine).state == QueryState::Analyzed,
        ensures
            final(query_state_machine).wf(),
            r is Ok ==> final(query_state_machine).state == QueryState::Succeeded,
            r is Err ==> final(query_state_machine).state == QueryState::Failed,
            r matches Err(e) ==> e is Execution,
    {
        query_state_machine.begin_execute();
        let task = self.task_factory.create_task();
        match execution_outcome(task.execute(catalog, session)) {
            Ok(output) => {
                query_state_machine.finish_succeeded();
                Ok(output)
            },
            Err(e) => {
                query_state_machine.finish_failed();
                Err(e)
            },
        }
    }
}

} // verus!
