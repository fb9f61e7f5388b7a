//! Catalog and query-dispatch layer of a distributed time-series database.
//!
//! The crate models namespaces, databases and tables of a typed catalog,
//! turns administrative statements into typed execution tasks, and governs
//! how many queries may run concurrently against the underlying engine.

use vstd::prelude::*;

pub mod arrow;
pub mod ast;
pub mod catalog;
pub mod clock;
pub mod codec;
pub mod ddl;
pub mod dispatcher;
pub mod duration;
pub mod errors;
pub mod execution;
pub mod external;
pub mod lifecycle;
pub mod plan;
pub mod protocol;
pub mod schema;
pub mod text;

verus! {

/// Identifier of a column, unique within its owning table.
pub type ColumnId = u64;

/// Revision number of a table schema, assigned by the catalog collaborator.
pub type SchemaId = u64;

/// The primitive type a field column stores.
#[derive(Debug, Clone, Copy, PartialEq, Eq, Hash, Structural)]
pub enum ValueType {
    Unknown,
    Float,
    Integer,
    Unsigned,
    Boolean,
    String,
}

} // verus!

