use tsdb_core::lifecycle::{QueryState, QueryStateMachine};
use tsdb_core::protocol::{Query, QueryContext, SessionCtx};

fn fresh_machine() -> QueryStateMachine {
    let context = QueryContext {
        catalog: "cnos".to_string(),
        database: "public".to_string(),
        user: "root".to_string(),
    };
    let query = Query::new(context, "SELECT 1".to_string());
    let session = SessionCtx { catalog: "cnos".to_string(), database: "public".to_string() };
    QueryStateMachine::begin(query, session)
}

#[test]
fn successful_statement_walks_every_phase_in_order() {
    let mut m = fresh_machine();
    assert_eq!(m.state, QueryState::Created);
    assert!(m.ts_analyzing.is_none());

    m.begin_analyze();
    assert_eq!(m.state, QueryState::Analyzing);
    m.end_analyze();
    assert_eq!(m.state, QueryState::Analyzed);
    m.begin_execute();
    assert_eq!(m.state, QueryState::Executing);
    m.finish_succeeded();
    assert_eq!(m.state, QueryState::Succeeded);

    let a = m.ts_analyzing.unwrap();
    let b = m.ts_analyzed.unwrap();
    let c = m.ts_executing.unwrap();
    let d = m.ts_terminal.unwrap();
    assert!(m.ts_created <= a);
    assert!(a <= b);
    assert!(b <= c);
    assert!(c <= d);
}

#[test]
fn failure_during_analysis_is_terminal_and_skips_later_phases() {
    let mut m = fresh_machine();
    m.begin_analyze();
    m.finish_failed();
    assert_eq!(m.state, QueryState::Failed);
    assert!(m.ts_analyzed.is_none());
    assert!(m.ts_executing.is_none());
    let t = m.ts_terminal.unwrap();
    assert!(m.ts_created <= t);
    assert!(m.ts_analyzing.unwrap() <= t);
}

#[test]
fn failure_before_any_phase_is_possible() {
    let mut m = fresh_machine();
    m.finish_failed();
    assert_eq!(m.state, QueryState::Failed);
    assert!(m.ts_analyzing.is_none());
    assert!(m.ts_terminal.is_some());
}

#[test]
fn durations_come_from_adjacent_timestamps() {
    let mut m = fresh_machine();
    assert_eq!(m.analyze_duration(), None);
    m.begin_analyze();
    m.end_analyze();
    let analyze = m.analyze_duration().unwrap();
    assert_eq!(analyze, m.ts_analyzed.unwrap() - m.ts_analyzing.unwrap());
    assert_eq!(m.execute_duration(), None);
    m.begin_execute();
    m.finish_succeeded();
    let execute = m.execute_duration().unwrap();
    assert_eq!(execute, m.ts_terminal.unwrap() - m.ts_executing.unwrap());
}
