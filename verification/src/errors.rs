//! The error taxonomy of the query surface.  Every collaborator
//! failure is wrapped into exactly one of these kinds and returned;
//! nothing is swallowed and nothing is recovered locally.  Admission
//! rejection has its own kind so callers can retry that case alone.

use vstd::prelude::*;
use crate::execution::ExecutionError;

verus! {

/// One typed error of the query surface, identifying the failing stage.
#[derive(Debug, PartialEq, Eq)]
pub enum QueryError {
    /// The dispatcher could not be assembled; names what is missing.
    BuildQueryDispatcher { err: String },
    /// The logical planner failed.
    LogicalPlanner { source: String },
    /// Logical optimization failed.
    LogicalOptimize { source: String },
    /// Physical planning failed.
    PhysicalPlaner { source: String },
    /// The statement text could not be parsed.
    Parser { source: String },
    /// Analysis failed.
    Analyzer { err: String },
    /// The optimizer collaborator failed.
    Optimizer { source: String },
    /// Scheduling on the execution engine failed.
    Schedule { source: String },
    /// A task or the execution engine failed; the cause is kept.
    Execution { source: ExecutionError },
    /// Admission control found no free permit: a hard reject.
    RequestLimit,
}

} // verus!
