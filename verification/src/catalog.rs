//! The catalog-mutation/view collaborator the core calls but does not
//! implement: it owns all schema state, assigns schema and column ids,
//! and synchronizes concurrent access itself.

use vstd::prelude::*;
use crate::ast::ExtStatement;
use crate::external::TableSchema;
use crate::plan::Plan;
use crate::protocol::SessionCtx;
use crate::schema::DatabaseSchema;

verus! {

/// A catalog view scoped to one (catalog, database) pair, with the
/// lookups planning needs and the mutations the DDL tasks perform.
/// Implementations live outside this crate; nothing here is promised
/// of their results, and the verified code states what it does for
/// every answer they may give.
pub trait Catalog: Sized {
    /// The same catalog scoped to the given catalog and database names.
    fn scoped(&self, catalog: &str, database: &str) -> Self;

    /// Hand one statement to the logical-planner collaborator, which
    /// consumes this catalog view for its schema lookups.
    fn create_logical_plan(&self, stmt: &ExtStatement, session: &SessionCtx) -> Result<
        Plan,
        String,
    >;

    /// Register a database; the error carries the collaborator's cause.
    fn create_database(&self, schema: &DatabaseSchema) -> Result<(), String>;

    /// Register a table in this view's database.
    fn create_table(&self, schema: &TableSchema) -> Result<(), String>;

    /// Remove a database.
    fn drop_database(&self, name: &str) -> Result<(), String>;

    /// Remove a table of this view's database.
    fn drop_table(&self, name: &str) -> Result<(), String>;

    /// The schema of a database, if it exists.
    fn database(&self, name: &str) -> Option<DatabaseSchema>;

    /// The schema of a table of this view's database, if it exists.
    fn table(&self, name: &str) -> Option<TableSchema>;

    /// The names of all databases.
    fn database_names(&self) -> Vec<String>;

    /// The names of the tables of a database.
    fn table_names(&self, database: &str) -> Result<Vec<String>, String>;
}

} // verus!
