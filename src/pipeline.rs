//! The execution of one statement, stepped through by the engine runner:
//! acquire the connection, begin an implicit transaction if the policy asks
//! for one, prepare, execute or query by the column count, read the counters.
use vstd::prelude::*;
use crate::cursor::{Cursor, ExecOutcome};
use crate::error::DriverError;
use crate::policy::{autocommit_spec, begin_needed, determine_autocommit, should_begin, stmt_is_dml, stmt_is_dml_spec};

verus! {

/// Where an execution stands.
#[derive(Clone, Copy, Debug, PartialEq, Eq, Structural)]
pub enum Phase {
    /// Waiting for exclusive access to the connection.
    Acquiring,
    /// An implicit BEGIN was asked for.
    Beginning,
    /// Preparation of the statement was asked for.
    Preparing,
    /// The statement runs; `query` tells whether it yields rows.
    Running { query: bool },
    /// The engine's counters were asked for.
    Counting,
    /// The execution completed.
    Finished,
    /// The execution failed.
    Failed,
}

/// What the engine runner reports back.
#[derive(Clone, Debug)]
pub enum EngineEvent {
    /// Exclusive access was obtained; `open` tells whether the connection is
    /// still open, `engine_autocommit` whether the engine has no transaction
    /// open.
    Acquired { open: bool, engine_autocommit: bool },
    /// The implicit BEGIN succeeded.
    Began,
    /// The statement was prepared; these are its column names.
    Prepared { columns: Vec<String> },
    /// The statement ran (or its query started).
    Ran,
    /// The engine's change count and last inserted row id.
    Counters { changes: i64, last_rowid: i64 },
    /// The engine reported a failure.
    Failed(String),
}

/// What the engine runner does next.
#[derive(Clone, Debug)]
pub enum Action {
    /// Issue `BEGIN`.
    Begin,
    /// Prepare the statement text.
    Prepare,
    /// Execute the prepared statement with the parameters.
    Execute,
    /// Run the prepared statement as a query and keep its row stream.
    Query,
    /// Read the change count and last inserted row id.
    ReadCounters,
    /// The execution is complete.
    Finish(ExecOutcome),
    /// The execution failed with this condition.
    Fail(DriverError),
}

/// One statement's execution.
#[derive(Clone, Copy, Debug)]
pub struct Execution {
    /// Whether the policy runs statements in autocommit.
    pub autocommit: bool,
    /// Whether the statement modifies data.
    pub dml: bool,
    pub phase: Phase,
}

/// Whether an execution in `phase` takes `ev`: the event answering the last
/// action, or an engine failure while not yet ended.
pub open spec fn accepts_spec(phase: Phase, ev: EngineEvent) -> bool {
    match ev {
        EngineEvent::Acquired { .. } => phase == Phase::Acquiring,
        EngineEvent::Began => phase == Phase::Beginning,
        EngineEvent::Prepared { .. } => phase == Phase::Preparing,
        EngineEvent::Ran => phase is Running,
        EngineEvent::Counters { .. } => phase == Phase::Counting,
        EngineEvent::Failed(_) => phase != Phase::Finished && phase != Phase::Failed,
    }
}

impl Execution {
    /// An execution of `sql` on a cursor, with the cursor's policy.
    pub fn new(cursor: &Cursor, sql: &str) -> (r: Execution)
        ensures
            r.autocommit == autocommit_spec(cursor.autocommit, cursor.isolation_level.is_some()),
            r.dml == stmt_is_dml_spec(sql@),
            r.phase == Phase::Acquiring,
    {
        Execution {
            autocommit: determine_autocommit(cursor.autocommit, &cursor.isolation_level),
            dml: stmt_is_dml(sql),
            phase: Phase::Acquiring,
        }
    }

    /// Whether the execution takes `ev` now.
    pub fn accepts(&self, ev: &EngineEvent) -> (r: bool)
        ensures
            r == accepts_spec(self.phase, *ev),
    {
        match ev {
            EngineEvent::Acquired { .. } => self.phase == Phase::Acquiring,
            EngineEvent::Began => self.phase == Phase::Beginning,
            EngineEvent::Prepared { .. } => self.phase == Phase::Preparing,
            EngineEvent::Ran => matches!(self.phase, Phase::Running { .. }),
            EngineEvent::Counters { .. } => self.phase == Phase::Counting,
            EngineEvent::Failed(_) => self.phase != Phase::Finished && self.phase != Phase::Failed,
        }
    }

    /// Takes the engine's answer and says what to do next. A closed
    /// connection fails the execution before any engine call; BEGIN is asked
    /// for only on acquisition and only when the policy needs one; a statement
    /// with columns is run as a query; engine failures are passed on verbatim.
    pub fn advance(&mut self, cursor: &mut Cursor, ev: EngineEvent) -> (a: Action)
        requires
            accepts_spec(old(self).phase, ev),
        ensures
            final(self).autocommit == old(self).autocommit,
            final(self).dml == old(self).dml,
            (a is Begin) ==> old(self).phase == Phase::Acquiring,
            final(self).phase != Phase::Acquiring,
            match ev {
                EngineEvent::Acquired { open, engine_autocommit } => if !open {
                    a == Action::Fail(DriverError::ConnectionClosed) && final(self).phase
                        == Phase::Failed
                } else if begin_needed(old(self).autocommit, old(self).dml, engine_autocommit) {
                    a is Begin && final(self).phase == Phase::Beginning
                } else {
                    a is Prepare && final(self).phase == Phase::Preparing
                },
                EngineEvent::Began => a is Prepare && final(self).phase == Phase::Preparing,
                EngineEvent::Prepared { columns } => (if columns@.len() > 0 {
                    a is Query
                } else {
                    a is Execute
                }) && final(self).phase == (Phase::Running { query: columns@.len() > 0 }),
                EngineEvent::Ran => a is ReadCounters && final(self).phase == Phase::Counting,
                EngineEvent::Counters { changes, last_rowid } => a == Action::Finish(
                    ExecOutcome { changes, last_rowid },
                ) && final(self).phase == Phase::Finished,
                EngineEvent::Failed(m) => a == Action::Fail(DriverError::Engine(m))
                    && final(self).phase == Phase::Failed,
            },
            match ev {
                EngineEvent::Prepared { columns } => final(cursor).columns == Some(columns)
                    && !final(cursor).rows_active && !final(cursor).done,
                EngineEvent::Ran => final(cursor).rows_active == (old(self).phase
                    == Phase::Running { query: true }) && !final(cursor).done
                    && final(cursor).columns == old(cursor).columns,
                _ => *final(cursor) == *old(cursor),
            },
            final(cursor).rowcount == old(cursor).rowcount,
            final(cursor).lastrowid == old(cursor).lastrowid,
            final(cursor).arraysize == old(cursor).arraysize,
            final(cursor).autocommit == old(cursor).autocommit,
            final(cursor).isolation_level == old(cursor).isolation_level,
    {
        match ev {
            EngineEvent::Acquired { open, engine_autocommit } => {
                if !open {
                    self.phase = Phase::Failed;
                    Action::Fail(DriverError::ConnectionClosed)
                } else if should_begin(self.autocommit, self.dml, engine_autocommit) {
                    self.phase = Phase::Beginning;
                    Action::Begin
                } else {
                    self.phase = Phase::Preparing;
                    Action::Prepare
                }
            },
            EngineEvent::Began => {
                self.phase = Phase::Preparing;
                Action::Prepare
            },
            EngineEvent::Prepared { columns } => {
                let query = columns.len() > 0;
                cursor.statement_prepared(columns);
                self.phase = Phase::Running { query };
                if query {
                    Action::Query
                } else {
                    Action::Execute
                }
            },
            EngineEvent::Ran => {
                let query = self.phase == Phase::Running { query: true };
                cursor.statement_ran(query);
                self.phase = Phase::Counting;
                Action::ReadCounters
            },
            EngineEvent::Counters { changes, last_rowid } => {
                self.phase = Phase::Finished;
                Action::Finish(ExecOutcome { changes, last_rowid })
            },
            EngineEvent::Failed(m) => {
                self.phase = Phase::Failed;
                Action::Fail(DriverError::Engine(m))
            },
        }
    }
}

} // verus!
