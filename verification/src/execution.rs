//! What executing one statement yields: a status or a small table of
//! text cells, and the error a task wraps its cause in.

use vstd::prelude::*;

verus! {

/// A tabular result: one name per column and rows of text cells.
#[derive(Debug, PartialEq, Eq)]
pub struct TableResult {
    pub column_names: Vec<String>,
    pub rows: Vec<Vec<String>>,
}

/// Output of one statement: nothing (a status) or a table.
#[derive(Debug, PartialEq, Eq)]
pub enum Output {
    Nil,
    Table(TableResult),
}

/// Failure of a task or of the execution engine, with its cause kept.
#[derive(Debug, PartialEq, Eq)]
pub struct ExecutionError {
    pub message: String,
}

impl ExecutionError {
    /// An execution error carrying `message` as its cause.
    pub fn new(message: String) -> (r: ExecutionError)
        ensures
            r.message == message,
    {
        ExecutionError { message }
    }
}

} // verus!
