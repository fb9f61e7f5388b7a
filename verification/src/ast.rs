//! Statement representations the parser collaborator hands the
//! dispatcher.  Object names, identifiers and data types arrive as the
//! plain values the core reads; a plain SQL statement keeps its raw
//! text for the planner.

use vstd::prelude::*;
use crate::codec::Encoding;
use crate::schema::ColumnType;

verus! {

/// Kind of object a drop or describe statement addresses.
#[derive(Debug, Clone, Copy, PartialEq, Eq, Hash, Structural)]
pub enum ObjectType {
    Table,
    Database,
}

impl ObjectType {
    /// Canonical upper-case text of the object kind.
    pub fn as_str(&self) -> (r: &'static str)
        ensures
            *self == ObjectType::Table ==> r@ == "TABLE"@,
            *self == ObjectType::Database ==> r@ == "DATABASE"@,
    {
        match self {
            ObjectType::Table => "TABLE",
            ObjectType::Database => "DATABASE",
        }
    }
}

/// A `DROP` statement: the object, whether absence is tolerated, and
/// the object kind.
#[derive(Debug, Clone, PartialEq, Eq)]
pub struct DropObject {
    pub object_name: String,
    pub if_exist: bool,
    pub obj_type: ObjectType,
}

/// A `DESCRIBE` statement addressed by object kind.
#[derive(Debug, Clone, PartialEq, Eq)]
pub struct DescribeObject {
    pub object_name: String,
    pub obj_type: ObjectType,
}

/// A `DROP USER` statement; user management carries no payload here.
#[derive(Debug, Clone, PartialEq, Eq, Structural)]
pub struct DropUser {}

/// A `CREATE USER` statement; user management carries no payload here.
#[derive(Debug, Clone, PartialEq, Eq, Structural)]
pub struct CreateUser {}

/// Textual database options as parsed; absent entries fall back to the
/// catalog defaults only when the plan is built.
#[derive(Debug, Clone, PartialEq, Eq, Default)]
pub struct DatabaseOptions {
    pub ttl: Option<String>,
    pub shard_num: Option<u64>,
    pub vnode_duration: Option<String>,
    pub replica: Option<u64>,
    pub precision: Option<String>,
}

/// A `CREATE DATABASE` statement.
#[derive(Debug, Clone, PartialEq, Eq)]
pub struct CreateDatabase {
    pub name: String,
    pub if_not_exists: bool,
    pub options: DatabaseOptions,
}

/// One column definition of a `CREATE TABLE` statement.
#[derive(Debug, Clone, PartialEq, Eq)]
pub struct ColumnOption {
    pub name: String,
    pub is_tag: bool,
    pub data_type: ColumnType,
    pub encoding: Encoding,
}

/// A `CREATE TABLE` statement.
#[derive(Debug, Clone, PartialEq, Eq)]
pub struct CreateTable {
    pub name: String,
    pub if_not_exists: bool,
    pub columns: Vec<ColumnOption>,
}

/// A `CREATE EXTERNAL TABLE` statement: where the file lives and how
/// it is read.
#[derive(Debug, Clone, PartialEq, Eq)]
pub struct CreateExternalTable {
    pub name: String,
    pub if_not_exists: bool,
    pub location: String,
    pub file_type: String,
    pub file_compression_type: String,
    pub has_header: bool,
    pub delimiter: u8,
    pub table_partition_cols: Vec<String>,
}

/// A `DESCRIBE TABLE` statement.
#[derive(Debug, Clone, PartialEq, Eq)]
pub struct DescribeTable {
    pub table_name: String,
}

/// A `DESCRIBE DATABASE` statement.
#[derive(Debug, Clone, PartialEq, Eq)]
pub struct DescribeDatabase {
    pub database_name: String,
}

/// A `SHOW TABLES` statement scoped to one database.
#[derive(Debug, Clone, PartialEq, Eq)]
pub struct ShowTables {
    pub database_name: String,
}

/// One parsed statement, as the parser collaborator delivers it: an
/// administrative statement in typed form, or a plain SQL statement
/// kept as raw text for the planner.
#[derive(Debug, Clone, PartialEq, Eq)]
pub enum ExtStatement {
    SqlStatement(String),
    CreateExternalTable(CreateExternalTable),
    CreateTable(CreateTable),
    CreateDatabase(CreateDatabase),
    CreateUser(CreateUser),
    Drop(DropObject),
    DropUser(DropUser),
    DescribeTable(DescribeTable),
    DescribeDatabase(DescribeDatabase),
    ShowDatabases(),
    ShowTables(Option<String>),
}

} // verus!
