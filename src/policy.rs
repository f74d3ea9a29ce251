//! Transaction policy: when a statement is wrapped in an implicit transaction.
use vstd::prelude::*;

verus! {

/// The autocommit setting of a connection.
#[derive(Clone, Copy, Debug, PartialEq, Eq, Structural)]
pub enum AutocommitMode {
    /// Derive autocommit from whether an isolation level is configured.
    Legacy,
    /// Autocommit is off: data-modifying statements open a transaction.
    Off,
    /// Autocommit is on: every statement stands alone.
    On,
}

/// The integer flag that selects [`AutocommitMode::Legacy`].
pub const LEGACY_TRANSACTION_CONTROL: i32 = -1;

impl AutocommitMode {
    /// The mode that an integer flag selects.
    pub open spec fn of_flag(flag: int) -> AutocommitMode {
        if flag == LEGACY_TRANSACTION_CONTROL as int {
            AutocommitMode::Legacy
        } else if flag == 0 {
            AutocommitMode::Off
        } else {
            AutocommitMode::On
        }
    }

    /// Reads the integer form: -1 is legacy, 0 is off, anything else is on.
    pub fn from_flag(flag: i32) -> (r: AutocommitMode)
        ensures
            r == Self::of_flag(flag as int),
    {
        if flag == LEGACY_TRANSACTION_CONTROL {
            AutocommitMode::Legacy
        } else if flag == 0 {
            AutocommitMode::Off
        } else {
            AutocommitMode::On
        }
    }

    /// The integer flag of a mode.
    pub open spec fn flag_spec(self) -> i32 {
        match self {
            AutocommitMode::Legacy => LEGACY_TRANSACTION_CONTROL,
            AutocommitMode::Off => 0,
            AutocommitMode::On => 1,
        }
    }

    /// The integer form of the mode.
    pub fn flag(&self) -> (r: i32)
        ensures
            r == self.flag_spec(),
            Self::of_flag(r as int) == *self,
    {
        match self {
            AutocommitMode::Legacy => LEGACY_TRANSACTION_CONTROL,
            AutocommitMode::Off => 0,
            AutocommitMode::On => 1,
        }
    }
}

/// Whether statements run in autocommit, given the mode and whether an
/// isolation level is configured.
pub open spec fn autocommit_spec(mode: AutocommitMode, has_isolation_level: bool) -> bool {
    match mode {
        AutocommitMode::Legacy => !has_isolation_level,
        AutocommitMode::Off => false,
        AutocommitMode::On => true,
    }
}

/// Decides whether statements run in autocommit.
pub fn determine_autocommit(mode: AutocommitMode, isolation_level: &Option<String>) -> (r: bool)
    ensures
        r == autocommit_spec(mode, isolation_level.is_some()),
{
    match mode {
        AutocommitMode::Legacy => isolation_level.is_none(),
        AutocommitMode::Off => false,
        AutocommitMode::On => true,
    }
}

/// The mode a connection keeps once opened: the legacy setting is replaced by
/// the explicit mode it stands for.
pub open spec fn resolve_spec(mode: AutocommitMode, has_isolation_level: bool) -> AutocommitMode {
    match mode {
        AutocommitMode::Legacy => if has_isolation_level {
            AutocommitMode::Off
        } else {
            AutocommitMode::On
        },
        _ => mode,
    }
}

/// Replaces the legacy setting by the explicit mode it stands for.
pub fn resolve_autocommit(mode: AutocommitMode, isolation_level: &Option<String>) -> (r:
    AutocommitMode)
    ensures
        r == resolve_spec(mode, isolation_level.is_some()),
        r != AutocommitMode::Legacy,
        autocommit_spec(r, isolation_level.is_some()) == autocommit_spec(
            mode,
            isolation_level.is_some(),
        ),
{
    match mode {
        AutocommitMode::Legacy => if isolation_level.is_some() {
            AutocommitMode::Off
        } else {
            AutocommitMode::On
        },
        _ => mode,
    }
}

/// What `str::trim` returns for a text.
pub uninterp spec fn trimmed_of(s: Seq<char>) -> Seq<char>;

/// What `str::to_uppercase` returns for a text.
pub uninterp spec fn upper_of(s: Seq<char>) -> Seq<char>;

/// Relies on `str::trim`: the text without leading and trailing white space,
/// a function of the text alone.
#[verifier::external_body]
fn trim_text(s: &str) -> (r: &str)
    ensures
        r@ == trimmed_of(s@),
{
    s.trim()
}

/// Relies on `str::to_uppercase`: the upper-case mapping of the text, a
/// function of the text alone.
#[verifier::external_body]
fn uppercase_text(s: &str) -> (r: String)
    ensures
        r@ == upper_of(s@),
{
    s.to_uppercase()
}

/// Whether `t` begins with `p`.
pub open spec fn has_prefix(t: Seq<char>, p: Seq<char>) -> bool {
    p.len() <= t.len() && t.subrange(0, p.len() as int) == p
}

/// Whether `t` begins with `p`.
pub fn starts_with(t: &str, p: &str) -> (r: bool)
    ensures
        r == has_prefix(t@, p@),
{
    let tl = t.unicode_len();
    let pl = p.unicode_len();
    if pl > tl {
        return false;
    }
    let mut i: usize = 0;
    while i < pl
        invariant
            i <= pl,
            pl <= tl,
            tl == t@.len(),
            pl == p@.len(),
            forall|j: int| 0 <= j < i ==> t@[j] == p@[j],
        decreases pl - i,
    {
        if t.get_char(i) != p.get_char(i) {
            return false;
        }
        i = i + 1;
    }
    assert(t@.subrange(0, pl as int) =~= p@);
    true
}

/// Whether already trimmed and upper-cased statement text is data-modifying:
/// it begins with INSERT, UPDATE, DELETE or REPLACE.
pub open spec fn is_dml_text(t: Seq<char>) -> bool {
    has_prefix(t, "INSERT"@) || has_prefix(t, "UPDATE"@) || has_prefix(t, "DELETE"@)
        || has_prefix(t, "REPLACE"@)
}

/// Whether a statement is data-modifying, judged on its trimmed upper-case text.
pub open spec fn stmt_is_dml_spec(sql: Seq<char>) -> bool {
    is_dml_text(upper_of(trimmed_of(sql)))
}

/// Classifies text that is already trimmed and upper-cased.
pub fn is_dml_folded(t: &str) -> (r: bool)
    ensures
        r == is_dml_text(t@),
{
    starts_with(t, "INSERT") || starts_with(t, "UPDATE") || starts_with(t, "DELETE")
        || starts_with(t, "REPLACE")
}

/// Classifies a statement as data-modifying by the prefix of its trimmed,
/// upper-cased text.
pub fn stmt_is_dml(sql: &str) -> (r: bool)
    ensures
        r == stmt_is_dml_spec(sql@),
{
    let trimmed = trim_text(sql);
    let upper = uppercase_text(trimmed);
    is_dml_folded(upper.as_str())
}

/// Whether an implicit BEGIN precedes a statement: the policy is not
/// autocommit, the statement modifies data and the engine has no transaction
/// open.
pub open spec fn begin_needed(autocommit: bool, dml: bool, engine_autocommit: bool) -> bool {
    !autocommit && dml && engine_autocommit
}

/// Decides whether an implicit BEGIN precedes a statement.
pub fn should_begin(autocommit: bool, dml: bool, engine_autocommit: bool) -> (r: bool)
    ensures
        r == begin_needed(autocommit, dml, engine_autocommit),
{
    !autocommit && dml && engine_autocommit
}

/// With the legacy mode and an isolation level configured, a data-modifying
/// statement is preceded by BEGIN exactly when the engine reports that no
/// transaction is open; once one is open, no further BEGIN is issued.
pub proof fn lemma_legacy_begins_once(sql: Seq<char>, engine_autocommit: bool)
    requires
        stmt_is_dml_spec(sql),
    ensures
        begin_needed(
            autocommit_spec(AutocommitMode::Legacy, true),
            stmt_is_dml_spec(sql),
            engine_autocommit,
        ) == engine_autocommit,
        !begin_needed(
            autocommit_spec(AutocommitMode::Legacy, true),
            stmt_is_dml_spec(sql),
            false,
        ),
{
}

/// Implicit BEGINs over a run of statements with no commit or rollback
/// between them, given whether each modifies data and whether the engine is
/// in autocommit before the first: the number issued, and whether the engine
/// is in autocommit after the last. A BEGIN opens a transaction; the
/// statements themselves leave the engine's state as it was.
pub open spec fn begins_over(autocommit: bool, dml: Seq<bool>, engine_autocommit: bool) -> (
    nat,
    bool,
)
    decreases dml.len(),
{
    if dml.len() == 0 {
        (0, engine_autocommit)
    } else {
        let b = begin_needed(autocommit, dml[0], engine_autocommit);
        let (n, e) = begins_over(
            autocommit,
            dml.drop_first(),
            if b {
                false
            } else {
                engine_autocommit
            },
        );
        (if b {
            n + 1
        } else {
            n
        }, e)
    }
}

proof fn lemma_begins_over_all_dml(dml: Seq<bool>, engine_autocommit: bool)
    requires
        dml.len() >= 1,
        forall|i: int| 0 <= i < dml.len() ==> dml[i],
    ensures
        begins_over(false, dml, engine_autocommit) == (
            if engine_autocommit {
                1nat
            } else {
                0nat
            },
            false,
        ),
    decreases dml.len(),
{
    let rest = dml.drop_first();
    assert(dml[0]);
    if dml.len() > 1 {
        assert forall|i: int| 0 <= i < rest.len() implies rest[i] by {
            assert(rest[i] == dml[i + 1]);
        }
        lemma_begins_over_all_dml(rest, false);
    } else {
        assert(begins_over(false, rest, false) == (0nat, false));
    }
}

/// With the legacy mode and an isolation level configured, a run of
/// `k >= 1` data-modifying statements with no commit or rollback between them
/// issues exactly one implicit BEGIN when the engine starts in autocommit
/// (that is, after a commit or rollback, or on a fresh connection) and none
/// when a transaction is already open; the engine is left in a transaction.
pub proof fn lemma_legacy_begins_once_over_run(sqls: Seq<Seq<char>>, engine_autocommit: bool)
    requires
        sqls.len() >= 1,
        forall|i: int| 0 <= i < sqls.len() ==> #[trigger] stmt_is_dml_spec(sqls[i]),
    ensures
        begins_over(
            autocommit_spec(AutocommitMode::Legacy, true),
            sqls.map_values(|s: Seq<char>| stmt_is_dml_spec(s)),
            engine_autocommit,
        ) == (
            if engine_autocommit {
                1nat
            } else {
                0nat
            },
            false,
        ),
{
    let dml = sqls.map_values(|s: Seq<char>| stmt_is_dml_spec(s));
    assert forall|i: int| 0 <= i < dml.len() implies dml[i] by {
        assert(stmt_is_dml_spec(sqls[i]));
    }
    lemma_begins_over_all_dml(dml, engine_autocommit);
}

/// A statement that does not modify data is never preceded by an implicit
/// BEGIN, whatever the mode, isolation level or engine state.
pub proof fn lemma_no_begin_without_dml(
    sql: Seq<char>,
    mode: AutocommitMode,
    has_isolation_level: bool,
    engine_autocommit: bool,
)
    requires
        !stmt_is_dml_spec(sql),
    ensures
        !begin_needed(
            autocommit_spec(mode, has_isolation_level),
            stmt_is_dml_spec(sql),
            engine_autocommit,
        ),
{
}

} // verus!
