//! Per-statement lifecycle tracker.
//!
//! A statement moves strictly forward through
//! `Created -> Analyzing -> Analyzed -> Executing -> Succeeded | Failed`,
//! never backward and never skipping; a failure at any stage jumps
//! directly to `Failed`, which is terminal, as is `Succeeded` — no
//! transition accepts a terminal state.  Each transition stamps a
//! timestamp no earlier than the previous one.

use vstd::prelude::*;
use crate::clock::now_millis;
use crate::protocol::{Query, SessionCtx};

verus! {

/// Phase of a statement's lifecycle.
#[derive(Debug, Clone, Copy, PartialEq, Eq, Hash, Structural)]
pub enum QueryState {
    Created,
    Analyzing,
    Analyzed,
    Executing,
    Succeeded,
    Failed,
}

/// Lifecycle tracker of one statement: the query and session it was
/// created for, the current phase, and one timestamp per phase entered.
#[derive(Debug)]
pub struct QueryStateMachine {
    pub query: Query,
    pub session: SessionCtx,
    pub state: QueryState,
    pub ts_created: u64,
    pub ts_analyzing: Option<u64>,
    pub ts_analyzed: Option<u64>,
    pub ts_executing: Option<u64>,
    pub ts_terminal: Option<u64>,
}

impl QueryStateMachine {
    /// Timestamps are present exactly for the phases entered so far and
    /// never decrease along the phase order.
    pub open spec fn wf(self) -> bool {
        &&& (match self.state {
            QueryState::Created => self.ts_analyzing is None && self.ts_analyzed is None
                && self.ts_executing is None && self.ts_terminal is None,
            QueryState::Analyzing => self.ts_analyzing is Some && self.ts_analyzed is None
                && self.ts_executing is None && self.ts_terminal is None,
            QueryState::Analyzed => self.ts_analyzing is Some && self.ts_analyzed is Some
                && self.ts_executing is None && self.ts_terminal is None,
            QueryState::Executing => self.ts_analyzing is Some && self.ts_analyzed is Some
                && self.ts_executing is Some && self.ts_terminal is None,
            QueryState::Succeeded => self.ts_analyzing is Some && self.ts_analyzed is Some
                && self.ts_executing is Some && self.ts_terminal is Some,
            QueryState::Failed => self.ts_terminal is Some,
        })
        &&& (self.ts_analyzed is Some ==> self.ts_analyzing is Some)
        &&& (self.ts_executing is Some ==> self.ts_analyzed is Some)
        &&& (self.ts_analyzing matches Some(t) ==> self.ts_created <= t)
        &&& (self.ts_analyzed matches Some(t) ==> spec_some_le(self.ts_analyzing, t))
        &&& (self.ts_executing matches Some(t) ==> spec_some_le(self.ts_analyzed, t))
        &&& (self.ts_terminal matches Some(t) ==> {
            &&& self.ts_created <= t
            &&& (self.ts_analyzing matches Some(u) ==> u <= t)
            &&& (self.ts_analyzed matches Some(u) ==> u <= t)
            &&& (self.ts_executing matches Some(u) ==> u <= t)
        })
    }

    /// A fresh tracker for one statement of `query`, in `Created`.
    pub fn begin(query: Query, session: SessionCtx) -> (r: QueryStateMachine)
        ensures
            r.wf(),
            r.state == QueryState::Created,
            r.query == query,
            r.session == session,
    {
        QueryStateMachine {
            query,
            session,
            state: QueryState::Created,
            ts_created: now_millis(),
            ts_analyzing: None,
            ts_analyzed: None,
            ts_executing: None,
            ts_terminal: None,
        }
    }

    /// The latest timestamp recorded so far.
    fn last_ts(&self) -> (r: u64)
        requires
            self.wf(),
        ensures
            self.ts_created <= r,
            self.ts_analyzing matches Some(t) ==> t <= r,
            self.ts_analyzed matches Some(t) ==> t <= r,
            self.ts_executing matches Some(t) ==> t <= r,
            self.ts_terminal matches Some(t) ==> t <= r,
    {
        let mut r = self.ts_created;
        if let Some(t) = self.ts_analyzing {
            if t > r {
                r = t;
            }
        }
        if let Some(t) = self.ts_analyzed {
            if t > r {
                r = t;
            }
        }
        if let Some(t) = self.ts_executing {
            if t > r {
                r = t;
            }
        }
        if let Some(t) = self.ts_terminal {
            if t > r {
                r = t;
            }
        }
        r
    }

    /// A clock reading clamped to never fall behind what was recorded.
    fn stamp(&self) -> (r: u64)
        requires
            self.wf(),
        ensures
            self.ts_created <= r,
            self.ts_analyzing matches Some(t) ==> t <= r,
            self.ts_analyzed matches Some(t) ==> t <= r,
            self.ts_executing matches Some(t) ==> t <= r,
            self.ts_terminal matches Some(t) ==> t <= r,
    {
        let low = self.last_ts();
        let now = now_millis();
        if now < low {
            low
        } else {
            now
        }
    }

    /// Enter `Analyzing`, immediately before the logical planner runs.
    pub fn begin_analyze(&mut self)
        requires
            old(self).wf(),
            old(self).state == QueryState::Created,
        ensures
            final(self).wf(),
            final(self).state == QueryState::Analyzing,
            final(self).query == old(self).query,
            final(self).session == old(self).session,
            final(self).ts_created == old(self).ts_created,
            final(self).ts_analyzing is Some,
    {
        let t = self.stamp();
        self.ts_analyzing = Some(t);
        self.state = QueryState::Analyzing;
    }

    /// Enter `Analyzed`, immediately after the planner returned.
    pub fn end_analyze(&mut self)
        requires
            old(self).wf(),
            old(self).state == QueryState::Analyzing,
        ensures
            final(self).wf(),
            final(self).state == QueryState::Analyzed,
            final(self).query == old(self).query,
            final(self).session == old(self).session,
            final(self).ts_created == old(self).ts_created,
            final(self).ts_analyzing == old(self).ts_analyzing,
            final(self).ts_analyzed is Some,
    {
        let t = self.stamp();
        self.ts_analyzed = Some(t);
        self.state = QueryState::Analyzed;
    }

    /// Enter `Executing`, immediately before the execution engine runs.
    pub fn begin_execute(&mut self)
        requires
            old(self).wf(),
            old(self).state == QueryState::Analyzed,
        ensures
            final(self).wf(),
            final(self).state == QueryState::Executing,
            final(self).query == old(self).query,
            final(self).session == old(self).session,
            final(self).ts_created == old(self).ts_created,
            final(self).ts_analyzing == old(self).ts_analyzing,
            final(self).ts_analyzed == old(self).ts_analyzed,
            final(self).ts_executing is Some,
    {
        let t = self.stamp();
        self.ts_executing = Some(t);
        self.state = QueryState::Executing;
    }

    /// Enter the terminal `Succeeded`, after execution produced output.
    pub fn finish_succeeded(&mut self)
        requires
            old(self).wf(),
            old(self).state == QueryState::Executing,
        ensures
            final(self).wf(),
            final(self).state == QueryState::Succeeded,
            final(self).query == old(self).query,
            final(self).session == old(self).session,
            final(self).ts_created == old(self).ts_created,
            final(self).ts_analyzing == old(self).ts_analyzing,
            final(self).ts_analyzed == old(self).ts_analyzed,
            final(self).ts_executing == old(self).ts_executing,
            final(self).ts_terminal is Some,
    {
        let t = self.stamp();
        self.ts_terminal = Some(t);
        self.state = QueryState::Succeeded;
    }

    /// Enter the terminal `Failed`, from whichever non-terminal phase
    /// the failure struck in.
    pub fn finish_failed(&mut self)
        requires
            old(self).wf(),
            old(self).state != QueryState::Succeeded,
            old(self).state != QueryState::Failed,
        ensures
            final(self).wf(),
            final(self).state == QueryState::Failed,
            final(self).query == old(self).query,
            final(self).session == old(self).session,
            final(self).ts_created == old(self).ts_created,
            final(self).ts_analyzing == old(self).ts_analyzing,
            final(self).ts_analyzed == old(self).ts_analyzed,
            final(self).ts_executing == old(self).ts_executing,
            final(self).ts_terminal is Some,
    {
        let t = self.stamp();
        self.ts_terminal = Some(t);
        self.state = QueryState::Failed;
    }

    /// How long analysis took, from entering `Analyzing` to entering
    /// `Analyzed`; nothing before both phases were entered.
    pub fn analyze_duration(&self) -> (r: Option<u64>)
        requires
            self.wf(),
        ensures
            match (self.ts_analyzing, self.ts_analyzed) {
                (Some(a), Some(b)) => r == Some((b - a) as u64),
                _ => r is None,
            },
    {
        match (self.ts_analyzing, self.ts_analyzed) {
            (Some(a), Some(b)) => Some(b - a),
            _ => None,
        }
    }

    /// How long execution took, from entering `Executing` to the
    /// terminal phase; nothing before both phases were entered.
    pub fn execute_duration(&self) -> (r: Option<u64>)
        requires
            self.wf(),
        ensures
            match (self.ts_executing, self.ts_terminal) {
                (Some(a), Some(b)) => r == Some((b - a) as u64),
                _ => r is None,
            },
    {
        match (self.ts_executing, self.ts_terminal) {
            (Some(a), Some(b)) => Some(b - a),
            _ => None,
        }
    }
}

/// Whether `o` holds a value at most `t`.
pub open spec fn spec_some_le(o: Option<u64>, t: u64) -> bool {
    o matches Some(u) && u <= t
}

/// The phases a tracker has entered, in the order it entered them.
pub open spec fn visited_states(m: QueryStateMachine) -> Seq<QueryState> {
    let head = seq![QueryState::Created];
    let a = if m.ts_analyzing is Some {
        head.push(QueryState::Analyzing)
    } else {
        head
    };
    let b = if m.ts_analyzed is Some {
        a.push(QueryState::Analyzed)
    } else {
        a
    };
    let c = if m.ts_executing is Some {
        b.push(QueryState::Executing)
    } else {
        b
    };
    if m.state == QueryState::Succeeded {
        c.push(QueryState::Succeeded)
    } else if m.state == QueryState::Failed {
        c.push(QueryState::Failed)
    } else {
        c
    }
}

/// The timestamps a tracker has recorded, in the order it entered the
/// phases they stamp.
pub open spec fn visited_timestamps(m: QueryStateMachine) -> Seq<u64> {
    let head = seq![m.ts_created];
    let a = if m.ts_analyzing is Some {
        head.push(m.ts_analyzing->Some_0)
    } else {
        head
    };
    let b = if m.ts_analyzed is Some {
        a.push(m.ts_analyzed->Some_0)
    } else {
        a
    };
    let c = if m.ts_executing is Some {
        b.push(m.ts_executing->Some_0)
    } else {
        b
    };
    if m.ts_terminal is Some {
        c.push(m.ts_terminal->Some_0)
    } else {
        c
    }
}

/// A successful statement was observed in exactly the order `Created`,
/// `Analyzing`, `Analyzed`, `Executing`, `Succeeded`, with
/// non-decreasing timestamps.  A failed one ends at `Failed` from
/// whichever phase it failed in and never shows `Succeeded`; no
/// transition leaves a terminal phase, so the order is final.
pub proof fn lemma_lifecycle_order(m: QueryStateMachine)
    requires
        m.wf(),
    ensures
        m.state == QueryState::Succeeded ==> visited_states(m) =~= seq![
            QueryState::Created,
            QueryState::Analyzing,
            QueryState::Analyzed,
            QueryState::Executing,
            QueryState::Succeeded,
        ],
        m.state == QueryState::Failed ==> visited_states(m).last() == QueryState::Failed
            && !visited_states(m).contains(QueryState::Succeeded),
        forall|i: int, j: int|
            0 <= i <= j < visited_timestamps(m).len() ==> visited_timestamps(m)[i]
                <= visited_timestamps(m)[j],
{
    let ts = visited_timestamps(m);
    assert forall|i: int, j: int| 0 <= i <= j < ts.len() implies ts[i] <= ts[j] by {
    }
    if m.state == QueryState::Failed {
        let vs = visited_states(m);
        assert forall|i: int| 0 <= i < vs.len() implies vs[i] != QueryState::Succeeded by {
        }
        if vs.contains(QueryState::Succeeded) {
            let i = choose|i: int| 0 <= i < vs.len() && vs[i] == QueryState::Succeeded;
        }
    }
}

} // verus!
