use aiolibsql::connection::{Connection, EndKind};
use aiolibsql::cursor::{batch_totals, Cursor, ExecOutcome, FetchKind};
use aiolibsql::error::DriverError;
use aiolibsql::pipeline::{Action, EngineEvent, Execution, Phase};
use aiolibsql::policy::AutocommitMode;

/// A row stream that counts the reads made of it.
struct Stream {
    rows: Vec<i64>,
    next: usize,
    reads: usize,
}

impl Stream {
    fn new(n: i64) -> Stream {
        Stream { rows: (1..=n).collect(), next: 0, reads: 0 }
    }
    fn read(&mut self) -> Option<i64> {
        self.reads += 1;
        let r = self.rows.get(self.next).copied();
        if r.is_some() {
            self.next += 1;
        }
        r
    }
}

fn fetch(cursor: &mut Cursor, stream: &mut Stream, kind: FetchKind) -> Vec<i64> {
    let mut f = cursor.start_fetch::<i64>(kind);
    while f.wants_row() {
        let r = stream.read();
        f.accept(cursor, r);
    }
    f.into_rows()
}

fn query_cursor() -> Cursor {
    let mut c = Cursor::new(AutocommitMode::On, None);
    c.statement_prepared(vec!["id".to_string()]);
    c.statement_ran(true);
    c
}

#[test]
fn pagination_matches_full_drain() {
    let mut paged = query_cursor();
    let mut s1 = Stream::new(5);
    let mut pages = vec![];
    while !paged.done {
        pages.extend(fetch(&mut paged, &mut s1, FetchKind::Many(Some(2))));
    }
    let mut full = query_cursor();
    let mut s2 = Stream::new(5);
    let all = fetch(&mut full, &mut s2, FetchKind::All);
    assert_eq!(pages, vec![1, 2, 3, 4, 5]);
    assert_eq!(pages, all);
    assert!(full.done);
}

#[test]
fn pagination_with_exact_multiple() {
    let mut c = query_cursor();
    let mut s = Stream::new(4);
    assert_eq!(fetch(&mut c, &mut s, FetchKind::Many(Some(2))), vec![1, 2]);
    assert_eq!(fetch(&mut c, &mut s, FetchKind::Many(Some(2))), vec![3, 4]);
    assert!(!c.done);
    assert_eq!(fetch(&mut c, &mut s, FetchKind::Many(Some(2))), Vec::<i64>::new());
    assert!(c.done);
    assert_eq!(s.reads, 5);
}

#[test]
fn fetchmany_defaults_to_arraysize() {
    let mut c = query_cursor();
    c.arraysize = 3;
    let mut s = Stream::new(5);
    assert_eq!(fetch(&mut c, &mut s, FetchKind::Many(None)), vec![1, 2, 3]);
    assert_eq!(fetch(&mut c, &mut s, FetchKind::Many(Some(0))), Vec::<i64>::new());
    assert_eq!(fetch(&mut c, &mut s, FetchKind::One), vec![4]);
}

#[test]
fn exhausted_cursor_reads_nothing() {
    let mut c = query_cursor();
    let mut s = Stream::new(1);
    assert_eq!(fetch(&mut c, &mut s, FetchKind::One), vec![1]);
    assert_eq!(fetch(&mut c, &mut s, FetchKind::One), Vec::<i64>::new());
    assert!(c.done);
    let reads = s.reads;
    assert_eq!(fetch(&mut c, &mut s, FetchKind::One), Vec::<i64>::new());
    assert_eq!(fetch(&mut c, &mut s, FetchKind::Many(Some(10))), Vec::<i64>::new());
    assert_eq!(fetch(&mut c, &mut s, FetchKind::All), Vec::<i64>::new());
    assert_eq!(s.reads, reads);
}

#[test]
fn no_rows_without_query() {
    let mut c = Cursor::new(AutocommitMode::On, None);
    let mut s = Stream::new(3);
    assert_eq!(fetch(&mut c, &mut s, FetchKind::All), Vec::<i64>::new());
    assert_eq!(s.reads, 0);
}

#[test]
fn batch_totals_sum_changes_and_keep_last_rowid() {
    let outcomes = vec![
        ExecOutcome { changes: 1, last_rowid: 1 },
        ExecOutcome { changes: 2, last_rowid: 3 },
        ExecOutcome { changes: 0, last_rowid: 3 },
        ExecOutcome { changes: 4, last_rowid: 9 },
    ];
    let t = batch_totals(&outcomes);
    assert_eq!(t, ExecOutcome { changes: 7, last_rowid: 9 });
    let mut c = Cursor::new(AutocommitMode::On, None);
    c.record(t);
    assert_eq!(c.rowcount(), 7);
    assert_eq!(c.lastrowid(), 9);
    assert_eq!(batch_totals(&vec![]), ExecOutcome { changes: 0, last_rowid: 0 });
}

/// Steps an execution with scripted engine answers; returns the actions.
fn drive(exec: &mut Execution, cursor: &mut Cursor, events: Vec<EngineEvent>) -> Vec<Action> {
    let mut actions = vec![];
    for ev in events {
        assert!(exec.accepts(&ev));
        actions.push(exec.advance(cursor, ev));
    }
    actions
}

#[test]
fn closed_connection_fails_execute() {
    let conn = Connection::new(Some("DEFERRED".to_string()), -1);
    let mut cursor = conn.cursor();
    let mut exec = Execution::new(&cursor, "INSERT INTO t(v) VALUES (?)");
    let actions = drive(
        &mut exec,
        &mut cursor,
        vec![EngineEvent::Acquired { open: false, engine_autocommit: true }],
    );
    assert!(matches!(actions[0], Action::Fail(DriverError::ConnectionClosed)));
    assert_eq!(exec.phase, Phase::Failed);
}

#[test]
fn legacy_mode_begins_before_first_dml_only() {
    let conn = Connection::new(Some("DEFERRED".to_string()), -1);
    assert_eq!(conn.autocommit(), 0);
    let mut cursor = conn.cursor();
    let mut exec = Execution::new(&cursor, "insert into t(v) values (?)");
    let a = drive(
        &mut exec,
        &mut cursor,
        vec![
            EngineEvent::Acquired { open: true, engine_autocommit: true },
            EngineEvent::Began,
            EngineEvent::Prepared { columns: vec![] },
            EngineEvent::Ran,
            EngineEvent::Counters { changes: 1, last_rowid: 1 },
        ],
    );
    assert!(matches!(a[0], Action::Begin));
    assert!(matches!(a[1], Action::Prepare));
    assert!(matches!(a[2], Action::Execute));
    assert!(matches!(a[3], Action::ReadCounters));
    assert!(matches!(a[4], Action::Finish(ExecOutcome { changes: 1, last_rowid: 1 })));
    let mut second = Execution::new(&cursor, "INSERT INTO t(v) VALUES (?)");
    let b = drive(
        &mut second,
        &mut cursor,
        vec![EngineEvent::Acquired { open: true, engine_autocommit: false }],
    );
    assert!(matches!(b[0], Action::Prepare));
}

#[test]
fn queries_never_begin() {
    for flag in [-1, 0, 1] {
        for iso in [None, Some("DEFERRED".to_string())] {
            let conn = Connection::new(iso, flag);
            let mut cursor = conn.cursor();
            let mut exec = Execution::new(&cursor, "SELECT id FROM t");
            let a = drive(
                &mut exec,
                &mut cursor,
                vec![
                    EngineEvent::Acquired { open: true, engine_autocommit: true },
                    EngineEvent::Prepared { columns: vec!["id".to_string()] },
                    EngineEvent::Ran,
                ],
            );
            assert!(matches!(a[0], Action::Prepare));
            assert!(matches!(a[1], Action::Query));
            assert!(cursor.rows_active);
            assert_eq!(cursor.description(), Some(vec!["id".to_string()]));
        }
    }
}

#[test]
fn autocommit_on_never_begins() {
    let conn = Connection::new(Some("DEFERRED".to_string()), 1);
    let mut cursor = conn.cursor();
    let mut exec = Execution::new(&cursor, "INSERT INTO t VALUES (1)");
    let a = drive(
        &mut exec,
        &mut cursor,
        vec![EngineEvent::Acquired { open: true, engine_autocommit: true }],
    );
    assert!(matches!(a[0], Action::Prepare));
}

#[test]
fn engine_failure_is_passed_on() {
    let conn = Connection::new(None, -1);
    let mut cursor = conn.cursor();
    let mut exec = Execution::new(&cursor, "SELEC 1");
    let a = drive(
        &mut exec,
        &mut cursor,
        vec![
            EngineEvent::Acquired { open: true, engine_autocommit: true },
            EngineEvent::Failed("near \"SELEC\": syntax error".to_string()),
        ],
    );
    match &a[1] {
        Action::Fail(DriverError::Engine(m)) => assert_eq!(m, "near \"SELEC\": syntax error"),
        _ => panic!("expected an engine error"),
    }
    assert!(!exec.accepts(&EngineEvent::Ran));
}

#[test]
fn new_statement_resets_exhaustion() {
    let mut c = query_cursor();
    let mut s = Stream::new(0);
    assert_eq!(fetch(&mut c, &mut s, FetchKind::All), Vec::<i64>::new());
    assert!(c.done);
    let mut exec = Execution::new(&c, "SELECT id FROM t");
    drive(
        &mut exec,
        &mut c,
        vec![
            EngineEvent::Acquired { open: true, engine_autocommit: true },
            EngineEvent::Prepared { columns: vec!["id".to_string()] },
            EngineEvent::Ran,
        ],
    );
    assert!(!c.done);
    let mut s2 = Stream::new(2);
    assert_eq!(fetch(&mut c, &mut s2, FetchKind::All), vec![1, 2]);
}

#[test]
fn two_commits_without_transaction_are_noops() {
    let conn = Connection::new(None, -1);
    assert_eq!(conn.commit(true, true), Ok(None));
    assert_eq!(conn.commit(true, true), Ok(None));
    assert_eq!(conn.commit(true, false), Ok(Some(EndKind::Commit)));
    assert_eq!(conn.rollback(true, false), Ok(Some(EndKind::Rollback)));
    assert_eq!(conn.rollback(true, true), Ok(None));
    assert_eq!(conn.commit(false, false), Err(DriverError::ConnectionClosed));
}

#[test]
fn scoped_exit_commits_or_rolls_back() {
    let conn = Connection::new(Some("DEFERRED".to_string()), -1);
    assert_eq!(conn.exit(true, false, false), Some(EndKind::Commit));
    assert_eq!(conn.exit(true, false, true), Some(EndKind::Rollback));
    assert_eq!(conn.exit(true, true, true), None);
    assert_eq!(conn.exit(false, false, false), None);
}

#[test]
fn in_transaction_and_autocommit_setter() {
    let mut conn = Connection::new(None, -1);
    assert_eq!(conn.autocommit(), 1);
    assert_eq!(conn.isolation_level(), None);
    assert!(!conn.in_transaction(true, true));
    assert!(conn.in_transaction(true, false));
    conn.set_autocommit(0);
    assert!(conn.in_transaction(true, true));
    assert!(!conn.in_transaction(false, true));
    conn.set_autocommit(-1);
    assert_eq!(conn.autocommit(), -1);
}

#[test]
fn script_resets_cursor_or_fails_when_closed() {
    let mut c = query_cursor();
    assert_eq!(c.begin_script(false), Err(DriverError::ConnectionClosed));
    assert!(c.rows_active);
    assert_eq!(c.begin_script(true), Ok(()));
    assert!(!c.rows_active);
    assert_eq!(c.description(), None);
}
