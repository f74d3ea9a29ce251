//! Cursor state: the statement and result-set slots, pagination of the
//! result set, and the counters of the last execution.
use vstd::prelude::*;
use crate::error::DriverError;
use crate::policy::AutocommitMode;

verus! {

/// The driver-side state of a cursor. The engine's statement and row stream
/// are held by the runner beside it; this state decides what is read.
#[derive(Clone, Debug)]
pub struct Cursor {
    /// Default number of rows of `fetchmany`.
    pub arraysize: usize,
    /// Column names of the last prepared statement, if any.
    pub columns: Option<Vec<String>>,
    /// Whether the last statement was a query whose row stream is held.
    pub rows_active: bool,
    /// Whether the row stream has yielded its end.
    pub done: bool,
    /// Change count of the last execution.
    pub rowcount: i64,
    /// Row id of the last insertion.
    pub lastrowid: i64,
    /// Autocommit mode of the owning connection.
    pub autocommit: AutocommitMode,
    /// Isolation level of the owning connection.
    pub isolation_level: Option<String>,
}

/// The result of one execution: the engine's change count and last row id.
#[derive(Clone, Copy, Debug, PartialEq, Eq, Structural)]
pub struct ExecOutcome {
    pub changes: i64,
    pub last_rowid: i64,
}

/// How many rows a fetch asks for.
#[derive(Clone, Copy, Debug, PartialEq, Eq, Structural)]
pub enum FetchKind {
    /// At most one row.
    One,
    /// At most the given number of rows, or the cursor's `arraysize`.
    Many(Option<usize>),
    /// Every remaining row.
    All,
}

/// A fetch in progress: the rows taken so far and whether reading stopped.
#[derive(Clone, Debug)]
pub struct Fetch<R> {
    limit: Option<usize>,
    rows: Vec<R>,
    stopped: bool,
}

/// The mathematical state of a fetch.
pub struct FetchModel<R> {
    pub limit: Option<nat>,
    pub rows: Seq<R>,
    pub stopped: bool,
}

/// Whether a fetch in state `m` reads one more row from the engine.
pub open spec fn wants_spec<R>(m: FetchModel<R>) -> bool {
    !m.stopped && match m.limit {
        Some(n) => m.rows.len() < n,
        None => true,
    }
}

/// A fetch as it starts: nothing is read when no row stream is held or the
/// stream is exhausted.
pub open spec fn start_spec<R>(active: bool, done: bool, limit: Option<nat>) -> FetchModel<R> {
    FetchModel { limit, rows: Seq::empty(), stopped: !active || done }
}

/// One read: a row is taken, or the end of the stream stops the fetch and
/// marks the cursor exhausted.
pub open spec fn accept_spec<R>(m: FetchModel<R>, done: bool, row: Option<R>) -> (
    FetchModel<R>,
    bool,
) {
    match row {
        Some(r) => (FetchModel { limit: m.limit, rows: m.rows.push(r), stopped: m.stopped }, done),
        None => (FetchModel { limit: m.limit, rows: m.rows, stopped: true }, true),
    }
}

/// Runs a fetch against a row stream until it wants no more rows: the final
/// fetch, the exhaustion flag and the rows left in the stream.
pub open spec fn drive<R>(m: FetchModel<R>, done: bool, stream: Seq<R>) -> (
    FetchModel<R>,
    bool,
    Seq<R>,
)
    decreases stream.len(), if m.stopped {
        0nat
    } else {
        1nat
    },
{
    if !wants_spec(m) {
        (m, done, stream)
    } else if stream.len() == 0 {
        let (m2, d2) = accept_spec(m, done, None);
        drive(m2, d2, stream)
    } else {
        let (m2, d2) = accept_spec(m, done, Some(stream[0]));
        drive(m2, d2, stream.drop_first())
    }
}

/// The rows, exhaustion flag and rest of the stream of one fetch, in closed
/// form.
pub open spec fn fetch_result<R>(active: bool, done: bool, limit: Option<nat>, stream: Seq<R>) -> (
    Seq<R>,
    bool,
    Seq<R>,
) {
    if !active || done {
        (Seq::empty(), done, stream)
    } else {
        match limit {
            None => (stream, true, Seq::empty()),
            Some(n) => if stream.len() < n {
                (stream, true, Seq::empty())
            } else {
                (stream.take(n as int), false, stream.skip(n as int))
            },
        }
    }
}

/// Rows obtained by fetching `n` rows at a time until the cursor is exhausted.
/// A fetch that neither takes a row nor exhausts the cursor (`n == 0`) ends
/// the sequence.
pub open spec fn paginate<R>(done: bool, n: nat, stream: Seq<R>) -> Seq<R>
    decreases stream.len(), if done {
        0nat
    } else {
        1nat
    },
{
    if done || n == 0 {
        Seq::empty()
    } else {
        let (rows, d2, rest) = fetch_result(true, false, Some(n), stream);
        if rest.len() < stream.len() || d2 {
            rows + paginate(d2, n, rest)
        } else {
            rows
        }
    }
}

impl<R> Fetch<R> {
    /// The mathematical state of this fetch.
    pub closed spec fn view(&self) -> FetchModel<R> {
        FetchModel {
            limit: match self.limit {
                Some(n) => Some(n as nat),
                None => None,
            },
            rows: self.rows@,
            stopped: self.stopped,
        }
    }

    /// Whether the runner reads one more row from the engine.
    pub fn wants_row(&self) -> (r: bool)
        ensures
            r == wants_spec(self.view()),
    {
        !self.stopped && match self.limit {
            Some(n) => self.rows.len() < n,
            None => true,
        }
    }

    /// Takes the result of one read: a row, or the end of the stream.
    pub fn accept(&mut self, cursor: &mut Cursor, row: Option<R>)
        requires
            wants_spec(old(self).view()),
        ensures
            (final(self).view(), final(cursor).done) == accept_spec(
                old(self).view(),
                old(cursor).done,
                row,
            ),
            final(cursor).rows_active == old(cursor).rows_active,
            final(cursor).columns == old(cursor).columns,
            final(cursor).rowcount == old(cursor).rowcount,
            final(cursor).lastrowid == old(cursor).lastrowid,
            final(cursor).arraysize == old(cursor).arraysize,
            final(cursor).autocommit == old(cursor).autocommit,
            final(cursor).isolation_level == old(cursor).isolation_level,
    {
        match row {
            Some(r) => {
                self.rows.push(r);
            },
            None => {
                self.stopped = true;
                cursor.done = true;
            },
        }
    }

    /// The rows taken, in the order read.
    pub fn into_rows(self) -> (r: Vec<R>)
        ensures
            r@ == self.view().rows,
    {
        self.rows
    }
}

/// The change count of a batch: the sum of the per-statement counts.
pub open spec fn sum_changes(s: Seq<ExecOutcome>) -> int
    decreases s.len(),
{
    if s.len() == 0 {
        0
    } else {
        sum_changes(s.drop_last()) + s.last().changes
    }
}

/// The row id of a batch: that of its last statement, 0 for none.
pub open spec fn last_rowid_of(s: Seq<ExecOutcome>) -> i64 {
    if s.len() == 0 {
        0
    } else {
        s.last().last_rowid
    }
}

/// Totals of a batch of executions: the sum of their change counts and the
/// row id of the last one.
pub fn batch_totals(outcomes: &Vec<ExecOutcome>) -> (r: ExecOutcome)
    requires
        forall|i: int|
            0 <= i <= outcomes@.len() ==> i64::MIN <= #[trigger] sum_changes(outcomes@.take(i))
                <= i64::MAX,
    ensures
        r.changes == sum_changes(outcomes@),
        r.last_rowid == last_rowid_of(outcomes@),
{
    let mut total: i64 = 0;
    let mut last: i64 = 0;
    let mut i: usize = 0;
    while i < outcomes.len()
        invariant
            i <= outcomes@.len(),
            total == sum_changes(outcomes@.take(i as int)),
            last == last_rowid_of(outcomes@.take(i as int)),
            forall|i: int|
                0 <= i <= outcomes@.len() ==> i64::MIN <= #[trigger] sum_changes(outcomes@.take(i))
                    <= i64::MAX,
        decreases outcomes@.len() - i,
    {
        proof {
            assert(outcomes@.take(i + 1).drop_last() =~= outcomes@.take(i as int));
            assert(i64::MIN <= sum_changes(outcomes@.take(i + 1)) <= i64::MAX);
        }
        total = total + outcomes[i].changes;
        last = outcomes[i].last_rowid;
        i = i + 1;
    }
    assert(outcomes@.take(i as int) =~= outcomes@);
    ExecOutcome { changes: total, last_rowid: last }
}

/// The counters of a batch run in two parts: the change counts add up, and
/// the row id is that of the later part's last statement, or of the earlier
/// part when the later one is empty.
pub proof fn lemma_batch_parts(a: Seq<ExecOutcome>, b: Seq<ExecOutcome>)
    ensures
        sum_changes(a + b) == sum_changes(a) + sum_changes(b),
        last_rowid_of(a + b) == if b.len() > 0 {
            last_rowid_of(b)
        } else {
            last_rowid_of(a)
        },
    decreases b.len(),
{
    if b.len() > 0 {
        lemma_batch_parts(a, b.drop_last());
        assert((a + b).drop_last() =~= a + b.drop_last());
    } else {
        assert(a + b =~= a);
    }
}

/// After a batch of `k >= 1` executions, the change count is the count of
/// the first `k - 1` plus that of the last, and the row id is the last one's.
pub proof fn lemma_batch_last_statement(s: Seq<ExecOutcome>)
    requires
        s.len() >= 1,
    ensures
        sum_changes(s) == sum_changes(s.take(s.len() - 1)) + s[s.len() - 1].changes,
        last_rowid_of(s) == s[s.len() - 1].last_rowid,
{
    assert(s.drop_last() =~= s.take(s.len() - 1));
}

/// The row limit of a fetch of the given kind.
pub open spec fn limit_spec(kind: FetchKind, arraysize: usize) -> Option<nat> {
    match kind {
        FetchKind::One => Some(1),
        FetchKind::Many(Some(n)) => Some(n as nat),
        FetchKind::Many(None) => Some(arraysize as nat),
        FetchKind::All => None,
    }
}

impl Cursor {
    /// A cursor with no statement run yet, sharing the connection's policy.
    pub fn new(autocommit: AutocommitMode, isolation_level: Option<String>) -> (r: Cursor)
        ensures
            r.arraysize == 1,
            r.columns.is_none(),
            !r.rows_active,
            !r.done,
            r.rowcount == 0,
            r.lastrowid == 0,
            r.autocommit == autocommit,
            r.isolation_level == isolation_level,
    {
        Cursor {
            arraysize: 1,
            columns: None,
            rows_active: false,
            done: false,
            rowcount: 0,
            lastrowid: 0,
            autocommit,
            isolation_level,
        }
    }

    /// Starts a fetch of the given kind. Nothing is read when the last
    /// statement was not a query or its rows are exhausted.
    pub fn start_fetch<R>(&self, kind: FetchKind) -> (r: Fetch<R>)
        ensures
            r.view() == start_spec::<R>(
                self.rows_active,
                self.done,
                limit_spec(kind, self.arraysize),
            ),
    {
        let limit = match kind {
            FetchKind::One => Some(1),
            FetchKind::Many(Some(n)) => Some(n),
            FetchKind::Many(None) => Some(self.arraysize),
            FetchKind::All => None,
        };
        let r = Fetch { limit, rows: Vec::new(), stopped: !self.rows_active || self.done };
        assert(r.view().rows =~= Seq::<R>::empty());
        r
    }

    /// Records a newly prepared statement: its columns replace the old ones
    /// and the result-set slot is emptied.
    pub fn statement_prepared(&mut self, columns: Vec<String>)
        ensures
            final(self).columns == Some(columns),
            !final(self).rows_active,
            !final(self).done,
            final(self).rowcount == old(self).rowcount,
            final(self).lastrowid == old(self).lastrowid,
            final(self).arraysize == old(self).arraysize,
            final(self).autocommit == old(self).autocommit,
            final(self).isolation_level == old(self).isolation_level,
    {
        self.columns = Some(columns);
        self.rows_active = false;
        self.done = false;
    }

    /// Records that the prepared statement ran: a query leaves a row stream
    /// in the result-set slot, any other statement leaves it empty.
    pub fn statement_ran(&mut self, query: bool)
        ensures
            final(self).rows_active == query,
            !final(self).done,
            final(self).columns == old(self).columns,
            final(self).rowcount == old(self).rowcount,
            final(self).lastrowid == old(self).lastrowid,
            final(self).arraysize == old(self).arraysize,
            final(self).autocommit == old(self).autocommit,
            final(self).isolation_level == old(self).isolation_level,
    {
        self.rows_active = query;
        self.done = false;
    }

    /// Stores the counters of a finished execution or batch.
    pub fn record(&mut self, outcome: ExecOutcome)
        ensures
            final(self).rowcount == outcome.changes,
            final(self).lastrowid == outcome.last_rowid,
            final(self).columns == old(self).columns,
            final(self).rows_active == old(self).rows_active,
            final(self).done == old(self).done,
            final(self).arraysize == old(self).arraysize,
            final(self).autocommit == old(self).autocommit,
            final(self).isolation_level == old(self).isolation_level,
    {
        self.rowcount = outcome.changes;
        self.lastrowid = outcome.last_rowid;
    }

    /// Starts a script: it fails when the connection is closed, and otherwise
    /// empties the statement and result-set slots.
    pub fn begin_script(&mut self, connection_open: bool) -> (r: Result<(), DriverError>)
        ensures
            !connection_open ==> r == Err::<(), DriverError>(DriverError::ConnectionClosed),
            connection_open ==> r == Ok::<(), DriverError>(()),
            !connection_open ==> *final(self) == *old(self),
            connection_open ==> final(self).columns.is_none() && !final(self).rows_active
                && !final(self).done && final(self).rowcount == old(self).rowcount
                && final(self).lastrowid == old(self).lastrowid && final(self).arraysize
                == old(self).arraysize && final(self).autocommit == old(self).autocommit
                && final(self).isolation_level == old(self).isolation_level,
    {
        if !connection_open {
            return Err(DriverError::ConnectionClosed);
        }
        self.columns = None;
        self.rows_active = false;
        self.done = false;
        Ok(())
    }

    /// Releases the statement and result-set slots.
    pub fn close(&mut self)
        ensures
            final(self).columns.is_none(),
            !final(self).rows_active,
            final(self).done == old(self).done,
            final(self).rowcount == old(self).rowcount,
            final(self).lastrowid == old(self).lastrowid,
            final(self).arraysize == old(self).arraysize,
            final(self).autocommit == old(self).autocommit,
            final(self).isolation_level == old(self).isolation_level,
    {
        self.columns = None;
        self.rows_active = false;
    }

    /// Column names of the last prepared statement.
    pub fn description(&self) -> (r: Option<Vec<String>>)
        ensures
            r.is_some() == self.columns.is_some(),
            r matches Some(v) ==> v@ == self.columns.unwrap()@,
    {
        match &self.columns {
            Some(c) => Some(clone_names(c)),
            None => None,
        }
    }

    /// Change count of the last execution or batch.
    pub fn rowcount(&self) -> (r: i64)
        ensures
            r == self.rowcount,
    {
        self.rowcount
    }

    /// Row id of the last insertion of the last execution or batch.
    pub fn lastrowid(&self) -> (r: i64)
        ensures
            r == self.lastrowid,
    {
        self.lastrowid
    }
}

fn clone_names(names: &Vec<String>) -> (r: Vec<String>)
    ensures
        r@ == names@,
{
    let mut r: Vec<String> = Vec::new();
    let mut i: usize = 0;
    while i < names.len()
        invariant
            i <= names@.len(),
            r@ == names@.take(i as int),
        decreases names@.len() - i,
    {
        let n = names[i].clone();
        assert(n == names@[i as int]) by {
        }
        r.push(n);
        assert(r@ =~= names@.take(i + 1));
        i = i + 1;
    }
    assert(r@ =~= names@);
    r
}

/// The closed form of a fetch that is open: rows `t` taken so far and limit
/// `limit`, run against `stream`.
pub open spec fn drive_open_result<R>(m: FetchModel<R>, done: bool, stream: Seq<R>) -> (
    FetchModel<R>,
    bool,
    Seq<R>,
) {
    match m.limit {
        None => (FetchModel { limit: m.limit, rows: m.rows + stream, stopped: true }, true, Seq::empty()),
        Some(n) => {
            let k = n - m.rows.len();
            if stream.len() < k {
                (FetchModel { limit: m.limit, rows: m.rows + stream, stopped: true }, true, Seq::empty())
            } else {
                (
                    FetchModel { limit: m.limit, rows: m.rows + stream.take(k), stopped: false },
                    done,
                    stream.skip(k),
                )
            }
        },
    }
}

proof fn lemma_drive_open<R>(m: FetchModel<R>, done: bool, stream: Seq<R>)
    requires
        !m.stopped,
        m.limit matches Some(n) ==> m.rows.len() <= n,
    ensures
        drive(m, done, stream) == drive_open_result(m, done, stream),
    decreases stream.len(),
{
    if !wants_spec(m) {
        assert(m.rows + stream.take(0) =~= m.rows);
        assert(stream.skip(0) =~= stream);
        assert(drive(m, done, stream) == drive_open_result(m, done, stream));
    } else if stream.len() == 0 {
        let (m2, d2) = accept_spec(m, done, None);
        assert(drive(m2, d2, stream) == (m2, d2, stream));
        assert(m.rows + stream =~= m.rows);
        assert(stream =~= Seq::<R>::empty());
        assert(drive(m, done, stream) == drive_open_result(m, done, stream));
    } else {
        let (m2, d2) = accept_spec(m, done, Some(stream[0]));
        lemma_drive_open(m2, d2, stream.drop_first());
        let rest = stream.drop_first();
        assert(m2.rows + rest =~= m.rows + stream);
        match m.limit {
            None => {},
            Some(n) => {
                let k = n - m.rows.len();
                if stream.len() >= k {
                    assert(m2.rows + rest.take(k - 1) =~= m.rows + stream.take(k));
                    assert(rest.skip(k - 1) =~= stream.skip(k));
                }
            },
        }
    }
}

/// Running a fetch against a row stream gives the closed form
/// [`fetch_result`]: its rows, exhaustion flag and the rows left.
pub proof fn lemma_fetch_closed_form<R>(
    active: bool,
    done: bool,
    limit: Option<nat>,
    stream: Seq<R>,
)
    ensures
        ({
            let (m, d, rest) = drive(start_spec::<R>(active, done, limit), done, stream);
            (m.rows, d, rest) == fetch_result(active, done, limit, stream)
        }),
{
    let m0 = start_spec::<R>(active, done, limit);
    if active && !done {
        lemma_drive_open(m0, done, stream);
        assert(m0.rows + stream =~= stream);
        match limit {
            None => {},
            Some(n) => {
                assert(m0.rows + stream.take(n as int) =~= stream.take(n as int));
            },
        }
    }
}

/// Once the cursor is exhausted, a fetch of any kind reads no row and takes
/// nothing: the stream is left as it was.
pub proof fn lemma_exhausted_reads_nothing<R>(active: bool, limit: Option<nat>, stream: Seq<R>)
    ensures
        !wants_spec(start_spec::<R>(active, true, limit)),
        drive(start_spec::<R>(active, true, limit), true, stream) == (
            start_spec::<R>(active, true, limit),
            true,
            stream,
        ),
        start_spec::<R>(active, true, limit).rows.len() == 0,
{
}

/// Fetching `n` rows at a time until exhaustion yields the same rows, in the
/// same order, as draining the stream with one fetch of every row.
pub proof fn lemma_pages_match_full_drain<R>(stream: Seq<R>, n: nat)
    requires
        n >= 1,
    ensures
        paginate(false, n, stream) == drive(start_spec::<R>(true, false, None), false, stream).0.rows,
    decreases stream.len(),
{
    lemma_fetch_closed_form::<R>(true, false, None, stream);
    assert(paginate(true, n, Seq::<R>::empty()) == Seq::<R>::empty());
    if stream.len() < n {
        assert(stream + Seq::<R>::empty() =~= stream);
    } else {
        assert(fetch_result(true, false, Some(n), stream) == (
            stream.take(n as int),
            false,
            stream.skip(n as int),
        ));
        lemma_pages_match_full_drain(stream.skip(n as int), n);
        lemma_fetch_closed_form::<R>(true, false, None, stream.skip(n as int));
        assert(stream.take(n as int) + stream.skip(n as int) =~= stream);
    }
}

} // verus!
