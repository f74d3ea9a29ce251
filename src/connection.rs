//! Connection state: the transaction policy it was opened with, and the
//! decisions of commit, rollback and scoped-transaction exit.
use vstd::prelude::*;
use crate::cursor::Cursor;
use crate::error::DriverError;
use crate::policy::{AutocommitMode, resolve_autocommit, resolve_spec};

verus! {

/// A statement that ends a transaction.
#[derive(Clone, Copy, Debug, PartialEq, Eq, Structural)]
pub enum EndKind {
    Commit,
    Rollback,
}

/// The driver-side state of a connection. The engine handle, present until
/// the connection is closed, is held by the runner beside it.
#[derive(Clone, Debug)]
pub struct Connection {
    /// Configured isolation level; none means autocommit by default.
    pub isolation_level: Option<String>,
    /// Autocommit mode, with the legacy setting resolved at open.
    pub autocommit: AutocommitMode,
}

/// The statement that ends an open transaction, if one is open.
pub open spec fn end_spec(engine_autocommit: bool, kind: EndKind) -> Option<EndKind> {
    if engine_autocommit {
        None
    } else {
        Some(kind)
    }
}

impl Connection {
    /// The state of a newly opened connection: the legacy autocommit flag is
    /// replaced by the mode it stands for under the isolation level.
    pub fn new(isolation_level: Option<String>, autocommit_flag: i32) -> (r: Connection)
        ensures
            r.autocommit == resolve_spec(
                AutocommitMode::of_flag(autocommit_flag as int),
                isolation_level.is_some(),
            ),
            r.isolation_level == isolation_level,
    {
        let autocommit = resolve_autocommit(AutocommitMode::from_flag(autocommit_flag), &isolation_level);
        Connection { isolation_level, autocommit }
    }

    /// A new cursor sharing this connection's policy.
    pub fn cursor(&self) -> (r: Cursor)
        ensures
            r.arraysize == 1,
            r.columns.is_none(),
            !r.rows_active,
            !r.done,
            r.rowcount == 0,
            r.lastrowid == 0,
            r.autocommit == self.autocommit,
            r.isolation_level == self.isolation_level,
    {
        let iso = match &self.isolation_level {
            Some(s) => Some(s.clone()),
            None => None,
        };
        Cursor::new(self.autocommit, iso)
    }

    /// The configured isolation level.
    pub fn isolation_level(&self) -> (r: Option<String>)
        ensures
            r == self.isolation_level,
    {
        match &self.isolation_level {
            Some(s) => Some(s.clone()),
            None => None,
        }
    }

    /// The autocommit mode in its integer form.
    pub fn autocommit(&self) -> (r: i32)
        ensures
            r == self.autocommit.flag_spec(),
    {
        self.autocommit.flag()
    }

    /// Sets the autocommit mode from its integer form.
    pub fn set_autocommit(&mut self, flag: i32)
        ensures
            final(self).autocommit == AutocommitMode::of_flag(flag as int),
            final(self).isolation_level == old(self).isolation_level,
    {
        self.autocommit = AutocommitMode::from_flag(flag);
    }

    /// Whether a transaction counts as open: the connection is open and the
    /// engine has one open, or autocommit is off.
    pub fn in_transaction(&self, open: bool, engine_autocommit: bool) -> (r: bool)
        ensures
            r == (open && (!engine_autocommit || self.autocommit == AutocommitMode::Off)),
    {
        open && (!engine_autocommit || self.autocommit == AutocommitMode::Off)
    }

    /// Decides a commit: it fails on a closed connection and issues `COMMIT`
    /// only when the engine has a transaction open.
    pub fn commit(&self, open: bool, engine_autocommit: bool) -> (r: Result<
        Option<EndKind>,
        DriverError,
    >)
        ensures
            !open ==> r == Err::<Option<EndKind>, DriverError>(DriverError::ConnectionClosed),
            open ==> r == Ok::<Option<EndKind>, DriverError>(
                end_spec(engine_autocommit, EndKind::Commit),
            ),
    {
        end_transaction(open, engine_autocommit, EndKind::Commit)
    }

    /// Decides a rollback: it fails on a closed connection and issues
    /// `ROLLBACK` only when the engine has a transaction open.
    pub fn rollback(&self, open: bool, engine_autocommit: bool) -> (r: Result<
        Option<EndKind>,
        DriverError,
    >)
        ensures
            !open ==> r == Err::<Option<EndKind>, DriverError>(DriverError::ConnectionClosed),
            open ==> r == Ok::<Option<EndKind>, DriverError>(
                end_spec(engine_autocommit, EndKind::Rollback),
            ),
    {
        end_transaction(open, engine_autocommit, EndKind::Rollback)
    }

    /// Decides the end of a scoped transaction: rollback when an error is
    /// propagating, commit otherwise, and nothing when the connection is closed
    /// or no transaction is open.
    pub fn exit(&self, open: bool, engine_autocommit: bool, error_propagating: bool) -> (r:
        Option<EndKind>)
        ensures
            !open ==> r.is_none(),
            open ==> r == end_spec(
                engine_autocommit,
                if error_propagating {
                    EndKind::Rollback
                } else {
                    EndKind::Commit
                },
            ),
    {
        if !open || engine_autocommit {
            None
        } else if error_propagating {
            Some(EndKind::Rollback)
        } else {
            Some(EndKind::Commit)
        }
    }
}

fn end_transaction(open: bool, engine_autocommit: bool, kind: EndKind) -> (r: Result<
    Option<EndKind>,
    DriverError,
>)
    ensures
        !open ==> r == Err::<Option<EndKind>, DriverError>(DriverError::ConnectionClosed),
        open ==> r == Ok::<Option<EndKind>, DriverError>(end_spec(engine_autocommit, kind)),
{
    if !open {
        Err(DriverError::ConnectionClosed)
    } else if engine_autocommit {
        Ok(None)
    } else {
        Ok(Some(kind))
    }
}

} // verus!
