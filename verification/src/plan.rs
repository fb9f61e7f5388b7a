//! Logical plans the planner collaborator produces: either a query
//! plan handed to the execution engine, or one of the eight
//! administrative plans the DDL executor runs itself.

use vstd::prelude::*;
use crate::ast::ObjectType;
use crate::external::ExternalTableSchema;
use crate::schema::{DatabaseOptions, TableColumn};

verus! {

/// A planned data query, as the external planner encodes it.
#[derive(Debug, Clone, PartialEq, Eq)]
pub struct QueryPlan {
    pub query: String,
}

/// Drop a table or database, tolerating absence when asked to.
#[derive(Debug, PartialEq, Eq)]
pub struct DropPlan {
    pub object_name: String,
    pub if_exist: bool,
    pub obj_type: ObjectType,
}

/// Create a time-series table from resolved column definitions.
#[derive(Debug, PartialEq, Eq)]
pub struct CreateTablePlan {
    pub name: String,
    pub if_not_exists: bool,
    pub schema: Vec<TableColumn>,
}

/// Create a database with resolved options.
#[derive(Debug, PartialEq, Eq)]
pub struct CreateDatabasePlan {
    pub name: String,
    pub if_not_exists: bool,
    pub options: DatabaseOptions,
}

/// Describe one database's options.
#[derive(Debug, PartialEq, Eq)]
pub struct DescribeDatabasePlan {
    pub database_name: String,
}

/// Describe one table's columns.
#[derive(Debug, PartialEq, Eq)]
pub struct DescribeTablePlan {
    pub table_name: String,
}

/// List the tables of a database, or of the session's database.
#[derive(Debug, PartialEq, Eq)]
pub struct ShowTablesPlan {
    pub database_name: Option<String>,
}

/// Register an externally-located tabular file as a table.
#[derive(Debug, PartialEq, Eq)]
pub struct CreateExternalTablePlan {
    pub if_not_exists: bool,
    pub schema: ExternalTableSchema,
}

/// One administrative plan.  The set is closed: every variant maps to
/// exactly one task, and a new administrative operation needs both a
/// new variant here and its task.
#[derive(Debug, PartialEq, Eq)]
pub enum DDLPlan {
    CreateExternalTable(CreateExternalTablePlan),
    Drop(DropPlan),
    CreateTable(CreateTablePlan),
    CreateDatabase(CreateDatabasePlan),
    DescribeDatabase(DescribeDatabasePlan),
    DescribeTable(DescribeTablePlan),
    ShowTables(ShowTablesPlan),
    ShowDatabases(),
}

/// What the planner yields for one statement: a data query for the
/// execution engine, or an administrative plan for the DDL executor.
#[derive(Debug, PartialEq, Eq)]
pub enum Plan {
    Query(QueryPlan),
    DDL(DDLPlan),
}

} // verus!
