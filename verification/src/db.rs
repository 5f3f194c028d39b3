//! The versioned schema: detecting a store's version, the append-only
//! registry of migration steps, the migration runner (backup first,
//! then all pending steps inside one transaction), and fresh-store
//! initialization.

use vstd::prelude::*;
use vstd::string::*;
use crate::clock;
use crate::store;
use crate::text::{all_dec_chars, dec_digits, dec_val, parse_u32, u32_to_dec};
use crate::DlogError;
use crate::MAX_BACKUP_ENTRIES;
use crate::TARGET_DB_VERSION;

verus! {

/// The index of the last occurrence of `c` in `s`, or -1 when `c`
/// does not occur.
pub open spec fn last_ix(s: Seq<char>, c: char) -> int
    decreases s.len(),
{
    if s.len() == 0 {
        -1
    } else if s.last() == c {
        s.len() - 1
    } else {
        last_ix(s.drop_last(), c)
    }
}

proof fn lemma_last_ix_bound(s: Seq<char>, c: char)
    ensures
        -1 <= last_ix(s, c) < s.len(),
    decreases s.len(),
{
    if s.len() > 0 && s.last() != c {
        lemma_last_ix_bound(s.drop_last(), c);
    }
}

fn find_last(s: &str, c: char) -> (r: Option<usize>)
    ensures
        r is Some <==> last_ix(s@, c) >= 0,
        r matches Some(j) ==> j as int == last_ix(s@, c) && j < s@.len(),
        r is None ==> last_ix(s@, c) == -1,
{
    proof {
        lemma_last_ix_bound(s@, c);
    }
    let len = s.unicode_len();
    let mut i: usize = len;
    proof {
        assert(s@.subrange(0, len as int) =~= s@);
    }
    while i > 0
        invariant
            0 <= i <= len,
            len == s@.len(),
            last_ix(s@, c) == last_ix(s@.subrange(0, i as int), c),
        decreases i,
    {
        let ch = s.get_char(i - 1);
        proof {
            assert(s@.subrange(0, i as int).last() == s@[i - 1]);
            assert(s@.subrange(0, i as int).drop_last() =~= s@.subrange(0, i as int - 1));
        }
        if ch == c {
            proof {
                lemma_last_ix_bound(s@, c);
            }
            return Some(i - 1);
        }
        i = i - 1;
    }
    proof {
        assert(s@.subrange(0, 0) =~= Seq::<char>::empty());
    }
    None
}

/// The name of the pre-migration copy of the store at `p`, for a
/// given clock stamp: the stem gains "_bak_" and the stamp, the
/// extension is kept ("db" when there is none).
pub open spec fn backup_path_spec(p: Seq<char>, st: Seq<char>) -> Seq<char> {
    let start = last_ix(p, '/') + 1;
    let base = p.subrange(start, p.len() as int);
    let d = last_ix(base, '.');
    if d > 0 {
        p.subrange(0, start) + base.subrange(0, d) + "_bak_"@ + st + "."@ + base.subrange(
            d + 1,
            base.len() as int,
        )
    } else {
        p.subrange(0, start) + base + "_bak_"@ + st + "."@ + "db"@
    }
}

/// The backup name is strictly longer than the store name, so the
/// copy can never overwrite the live store.
pub proof fn lemma_backup_path_distinct(p: Seq<char>, st: Seq<char>)
    ensures
        backup_path_spec(p, st).len() > p.len(),
        backup_path_spec(p, st) != p,
{
    lemma_last_ix_bound(p, '/');
    let start = last_ix(p, '/') + 1;
    let base = p.subrange(start, p.len() as int);
    lemma_last_ix_bound(base, '.');
    reveal_strlit("_bak_");
    reveal_strlit(".");
    reveal_strlit("db");
    let d = last_ix(base, '.');
    assert(base.len() == p.len() - start);
    if d > 0 {
        assert(backup_path_spec(p, st).len() == start + d + 5 + st.len() + 1 + (base.len() - d
            - 1));
    } else {
        assert(backup_path_spec(p, st).len() == start + base.len() + 5 + st.len() + 1 + 2);
    }
}

/// Builds the backup file name for the store at `p` and clock stamp
/// `stamp`.
pub fn backup_path_for(p: &str, stamp: &str) -> (r: String)
    ensures
        r@ == backup_path_spec(p@, stamp@),
{
    let len = p.unicode_len();
    let start = match find_last(p, '/') {
        Some(j) => j + 1,
        None => 0,
    };
    proof {
        assert(start as int == last_ix(p@, '/') + 1);
    }
    let base = p.substring_char(start, len);
    let blen = base.unicode_len();
    let mut out = p.substring_char(0, start).to_owned();
    match find_last(base, '.') {
        Some(j) if j > 0 => {
            out.append(base.substring_char(0, j));
            out.append("_bak_");
            out.append(stamp);
            out.append(".");
            out.append(base.substring_char(j + 1, blen));
            proof {
                assert(out@ == backup_path_spec(p@, stamp@));
            }
        },
        _ => {
            out.append(base);
            out.append("_bak_");
            out.append(stamp);
            out.append(".");
            out.append("db");
            proof {
                assert(out@ == backup_path_spec(p@, stamp@));
            }
        },
    }
    out
}

/// Query text of the three tables and the archive-trimming trigger.
pub open spec fn create_logs_sql() -> Seq<char> {
    "CREATE TABLE IF NOT EXISTS logs (id INTEGER PRIMARY KEY, timestamp TEXT NOT NULL, directory TEXT NOT NULL, content TEXT NOT NULL, tags TEXT, metadata TEXT, level TEXT)"@
}

pub open spec fn create_backup_sql() -> Seq<char> {
    "CREATE TABLE IF NOT EXISTS backup (id INTEGER PRIMARY KEY, timestamp TEXT NOT NULL, directory TEXT NOT NULL, content TEXT NOT NULL, tags TEXT, metadata TEXT, level TEXT)"@
}

pub open spec fn create_configs_sql() -> Seq<char> {
    "CREATE TABLE IF NOT EXISTS configs (key TEXT PRIMARY KEY, value TEXT NOT NULL)"@
}

/// Records version `v` in the configuration table. The value is a
/// library constant rendered in decimal, never caller text.
pub open spec fn set_version_sql(v: u32) -> Seq<char> {
    "INSERT OR REPLACE INTO configs (key, value) VALUES ('db_version', '"@ + dec_digits(v as nat)
        + "')"@
}

/// The trigger that enforces the archive bound on every insert:
/// beyond `cap` archived records, the oldest by timestamp are
/// deleted.
pub open spec fn trim_trigger_sql(cap: u32) -> Seq<char> {
    "CREATE TRIGGER IF NOT EXISTS trim_backup_logs AFTER INSERT ON backup WHEN (SELECT COUNT(*) FROM backup) > "@
        + dec_digits(cap as nat)
        + " BEGIN DELETE FROM backup WHERE id IN (SELECT id FROM backup ORDER BY timestamp ASC LIMIT (SELECT COUNT(*) - "@
        + dec_digits(cap as nat) + " FROM backup)); END;"@
}

fn build_set_version_sql(v: u32) -> (r: String)
    ensures
        r@ == set_version_sql(v),
{
    let mut s = "INSERT OR REPLACE INTO configs (key, value) VALUES ('db_version', '".to_owned();
    s.append(u32_to_dec(v).as_str());
    s.append("')");
    s
}

fn build_trim_trigger_sql(cap: u32) -> (r: String)
    ensures
        r@ == trim_trigger_sql(cap),
{
    let mut s =
        "CREATE TRIGGER IF NOT EXISTS trim_backup_logs AFTER INSERT ON backup WHEN (SELECT COUNT(*) FROM backup) > ".to_owned();
    s.append(u32_to_dec(cap).as_str());
    s.append(
        " BEGIN DELETE FROM backup WHERE id IN (SELECT id FROM backup ORDER BY timestamp ASC LIMIT (SELECT COUNT(*) - ",
    );
    s.append(u32_to_dec(cap).as_str());
    s.append(" FROM backup)); END;");
    s
}

/// Query text of the version probe: whether the configuration table
/// exists at all.
pub open spec fn configs_probe_sql() -> Seq<char> {
    "SELECT EXISTS (SELECT 1 FROM sqlite_master WHERE type='table' AND name='configs')"@
}

/// Query text that reads the recorded version value.
pub open spec fn version_read_sql() -> Seq<char> {
    "SELECT value FROM configs WHERE key = 'db_version'"@
}

fn configs_probe_stmt() -> (r: &'static str)
    ensures
        r@ == configs_probe_sql(),
{
    "SELECT EXISTS (SELECT 1 FROM sqlite_master WHERE type='table' AND name='configs')"
}

fn version_read_stmt() -> (r: &'static str)
    ensures
        r@ == version_read_sql(),
{
    "SELECT value FROM configs WHERE key = 'db_version'"
}

/// One migration step: the version it produces, and the statements
/// that produce it. Steps are immutable descriptions; the registry
/// only ever grows.
pub struct MigrationStep {
    pub target: u32,
    pub ddl: Vec<String>,
}

/// Well-formedness of the step that produces version 2: it creates
/// the archive and configuration tables, records version 2, and
/// installs the archive-trimming trigger.
pub open spec fn step_v2_wf(s: MigrationStep) -> bool {
    &&& s.target == 2
    &&& s.ddl@.len() == 4
    &&& s.ddl@[0]@ == create_backup_sql()
    &&& s.ddl@[1]@ == create_configs_sql()
    &&& s.ddl@[2]@ == set_version_sql(2)
    &&& s.ddl@[3]@ == trim_trigger_sql(MAX_BACKUP_ENTRIES)
}

fn make_step_v2() -> (s: MigrationStep)
    ensures
        step_v2_wf(s),
{
    let mut ddl: Vec<String> = Vec::new();
    ddl.push("CREATE TABLE IF NOT EXISTS backup (id INTEGER PRIMARY KEY, timestamp TEXT NOT NULL, directory TEXT NOT NULL, content TEXT NOT NULL, tags TEXT, metadata TEXT, level TEXT)".to_owned());
    ddl.push(
        "CREATE TABLE IF NOT EXISTS configs (key TEXT PRIMARY KEY, value TEXT NOT NULL)".to_owned(),
    );
    ddl.push(build_set_version_sql(2));
    ddl.push(build_trim_trigger_sql(MAX_BACKUP_ENTRIES));
    MigrationStep { target: 2, ddl }
}

/// The ordered pending migration steps for a store at version `cur`:
/// exactly the registered steps with a target above `cur`, ascending,
/// ending at the target version; none when the store is current.
pub fn steps_after(cur: u32) -> (r: Vec<MigrationStep>)
    ensures
        cur >= TARGET_DB_VERSION ==> r@.len() == 0,
        cur < TARGET_DB_VERSION ==> r@.len() > 0 && r@.last().target == TARGET_DB_VERSION,
        forall|i: int| 0 <= i < r@.len() ==> (#[trigger] r@[i].target) > cur,
        forall|i: int, j: int| 0 <= i < j < r@.len() ==> r@[i].target < r@[j].target,
        forall|i: int| 0 <= i < r@.len() ==> step_v2_wf(#[trigger] r@[i]),
{
    let mut r: Vec<MigrationStep> = Vec::new();
    if cur < 2 {
        r.push(make_step_v2());
    }
    r
}

/// The version a store reaches when the pending steps all apply: the
/// last step's target, or its current version when nothing is
/// pending.
pub open spec fn final_version(cur: u32, targets: Seq<u32>) -> u32 {
    if targets.len() == 0 {
        cur
    } else {
        targets.last()
    }
}

/// Migration monotonicity at the plan level: a store below the
/// target version has pending steps that end exactly at the target;
/// a store at or above it has none, and keeps its version.
pub proof fn lemma_migration_monotonic(cur: u32, steps: Seq<MigrationStep>)
    requires
        cur >= TARGET_DB_VERSION ==> steps.len() == 0,
        cur < TARGET_DB_VERSION ==> steps.len() > 0 && steps.last().target == TARGET_DB_VERSION,
    ensures
        cur < TARGET_DB_VERSION ==> final_version(cur, steps.map_values(|s: MigrationStep| s.target))
            == TARGET_DB_VERSION,
        cur >= TARGET_DB_VERSION ==> final_version(
            cur,
            steps.map_values(|s: MigrationStep| s.target),
        ) == cur,
{
    let targets = steps.map_values(|s: MigrationStep| s.target);
    if cur < TARGET_DB_VERSION {
        assert(targets.last() == steps.last().target);
    }
}

/// The version a configuration read means: 1 when the configuration
/// table is absent, the recorded value is missing, or the value does
/// not parse as a decimal integer in range; else the value itself.
pub open spec fn spec_version_from(table_exists: bool, value: Option<Seq<char>>) -> nat {
    if !table_exists {
        1
    } else {
        match value {
            None => 1,
            Some(v) => if v.len() > 0 && all_dec_chars(v) && dec_val(v) <= u32::MAX {
                dec_val(v)
            } else {
                1
            },
        }
    }
}

/// Interprets what the configuration table held as a schema version;
/// any absence or parse failure means the oldest version, never a
/// process failure.
pub fn version_from_config(table_exists: bool, value: Option<String>) -> (r: u32)
    ensures
        r as nat == spec_version_from(
            table_exists,
            match value {
                Some(v) => Some(v@),
                None => None,
            },
        ),
{
    if !table_exists {
        return 1;
    }
    match value {
        None => 1,
        Some(v) => match parse_u32(v.as_str()) {
            Some(n) => n,
            None => 1,
        },
    }
}

/// Reads the store's schema version: 1 when the configuration table
/// is absent or unreadable, else the recorded value under the
/// `db_version` key, interpreted by `version_from_config`.
pub fn get_db_version(conn: &rusqlite::Connection) -> (r: Result<u32, DlogError>)
    ensures
        r matches Err(e) ==> e is QueryFailed,
{
    let no_params: Vec<crate::filter::Param> = Vec::new();
    let cnt = store::query_count(conn, configs_probe_stmt(), &no_params)?;
    if cnt == 0 {
        return Ok(1);
    }
    match store::query_opt_text(conn, version_read_stmt(), &no_params) {
        Err(_) => Ok(1),
        Ok(value) => Ok(version_from_config(true, value)),
    }
}

fn as_step_failure(e: DlogError) -> (r: DlogError)
    ensures
        r is MigrationStepFailed,
{
    match e {
        DlogError::StoreUnavailable(m) => DlogError::MigrationStepFailed(m),
        DlogError::BackupFailed(m) => DlogError::MigrationStepFailed(m),
        DlogError::MigrationStepFailed(m) => DlogError::MigrationStepFailed(m),
        DlogError::QueryFailed(m) => DlogError::MigrationStepFailed(m),
        DlogError::MissingConfirmation => DlogError::MigrationStepFailed(String::new()),
    }
}

/// Applies a step sequence inside one transaction: begins, runs every
/// statement of every step in order, and commits; on any failure the
/// transaction is rolled back in full before the error is surfaced,
/// so the store is left exactly as it was.
pub fn apply_steps_tx(conn: &rusqlite::Connection, steps: &Vec<MigrationStep>) -> (r: Result<
    (),
    DlogError,
>)
    ensures
        r matches Err(e) ==> e is MigrationStepFailed,
{
    let no_params: Vec<crate::filter::Param> = Vec::new();
    match store::exec_sql(conn, "BEGIN", &no_params) {
        Err(e) => {
            return Err(as_step_failure(e));
        },
        Ok(_) => {},
    }
    let mut si: usize = 0;
    while si < steps.len()
        decreases steps.len() - si,
    {
        let step = &steps[si];
        let mut k: usize = 0;
        while k < step.ddl.len()
            decreases step.ddl.len() - k,
        {
            match store::exec_sql(conn, step.ddl[k].as_str(), &no_params) {
                Err(e) => {
                    let _ = store::exec_sql(conn, "ROLLBACK", &no_params);
                    return Err(as_step_failure(e));
                },
                Ok(_) => {},
            }
            k = k + 1;
        }
        si = si + 1;
    }
    match store::exec_sql(conn, "COMMIT", &no_params) {
        Err(e) => {
            let _ = store::exec_sql(conn, "ROLLBACK", &no_params);
            Err(as_step_failure(e))
        },
        Ok(_) => Ok(()),
    }
}

/// What one migration run did.
#[derive(Debug)]
pub enum MigrationOutcome {
    /// The store was already at the target version; nothing was
    /// touched and no backup was made.
    NoMigration,
    /// The store was migrated from `from` to the target version,
    /// after a full copy was written beside it.
    Migrated { from: u32, backup_path: String },
}

/// The migration runner. Reads the current version; below the target
/// it first writes a timestamped full copy of the store (aborting as
/// `BackupFailed` when the copy cannot be made), then applies every
/// pending step inside one transaction. At or above the target it is
/// a no-op.
pub fn run_migrations(conn: &rusqlite::Connection, db_path: &str) -> (r: Result<
    MigrationOutcome,
    DlogError,
>)
    ensures
        r matches Ok(MigrationOutcome::Migrated { from, backup_path }) ==> from
            < TARGET_DB_VERSION && backup_path@ != db_path@ && (exists|st: Seq<char>|
            backup_path@ == backup_path_spec(db_path@, st)),
        r matches Err(e) ==> e is BackupFailed || e is MigrationStepFailed || e is QueryFailed,
{
    let cur = get_db_version(conn)?;
    if cur >= TARGET_DB_VERSION {
        return Ok(MigrationOutcome::NoMigration);
    }
    let stamp = clock::now_backup_stamp();
    let bpath = backup_path_for(db_path, stamp.as_str());
    let mut bconn = match store::open_path(bpath.as_str()) {
        Err(e) => {
            return Err(as_backup_failure(e));
        },
        Ok(c) => c,
    };
    match store::backup_into(conn, &mut bconn) {
        Err(e) => {
            return Err(as_backup_failure(e));
        },
        Ok(_) => {},
    }
    let steps = steps_after(cur);
    apply_steps_tx(conn, &steps)?;
    proof {
        lemma_backup_path_distinct(db_path@, stamp@);
    }
    Ok(MigrationOutcome::Migrated { from: cur, backup_path: bpath })
}

fn as_backup_failure(e: DlogError) -> (r: DlogError)
    ensures
        r is BackupFailed,
{
    match e {
        DlogError::StoreUnavailable(m) => DlogError::BackupFailed(m),
        DlogError::BackupFailed(m) => DlogError::BackupFailed(m),
        DlogError::MigrationStepFailed(m) => DlogError::BackupFailed(m),
        DlogError::QueryFailed(m) => DlogError::BackupFailed(m),
        DlogError::MissingConfirmation => DlogError::BackupFailed(String::new()),
    }
}

/// The statements that lay out a fresh store, in execution order:
/// the record and archive tables, the configuration table, the
/// recorded version already at the target, and the archive-trimming
/// trigger.
pub open spec fn init_statements() -> Seq<Seq<char>> {
    seq![
        create_logs_sql(),
        create_backup_sql(),
        create_configs_sql(),
        set_version_sql(TARGET_DB_VERSION),
        trim_trigger_sql(MAX_BACKUP_ENTRIES),
    ]
}

/// Builds exactly the fresh-store statements of `init_statements`.
pub fn make_init_statements() -> (r: Vec<String>)
    ensures
        r@.map_values(|s: String| s@) == init_statements(),
{
    let mut stmts: Vec<String> = Vec::new();
    stmts.push("CREATE TABLE IF NOT EXISTS logs (id INTEGER PRIMARY KEY, timestamp TEXT NOT NULL, directory TEXT NOT NULL, content TEXT NOT NULL, tags TEXT, metadata TEXT, level TEXT)".to_owned());
    stmts.push("CREATE TABLE IF NOT EXISTS backup (id INTEGER PRIMARY KEY, timestamp TEXT NOT NULL, directory TEXT NOT NULL, content TEXT NOT NULL, tags TEXT, metadata TEXT, level TEXT)".to_owned());
    stmts.push(
        "CREATE TABLE IF NOT EXISTS configs (key TEXT PRIMARY KEY, value TEXT NOT NULL)".to_owned(),
    );
    stmts.push(build_set_version_sql(TARGET_DB_VERSION));
    stmts.push(build_trim_trigger_sql(MAX_BACKUP_ENTRIES));
    proof {
        assert(stmts@.map_values(|s: String| s@) =~= init_statements());
    }
    stmts
}

/// Creates the full current-version layout in an empty store by
/// handing the engine exactly the statements of `init_statements`.
/// Every statement creates only what is absent, so running it again
/// changes nothing.
pub fn initialize_db(conn: &rusqlite::Connection) -> (r: Result<(), DlogError>)
    ensures
        r matches Err(e) ==> e is QueryFailed,
{
    let no_params: Vec<crate::filter::Param> = Vec::new();
    let stmts = make_init_statements();
    let mut i: usize = 0;
    while i < stmts.len()
        decreases stmts@.len() - i,
    {
        store::exec_sql(conn, stmts[i].as_str(), &no_params)?;
        i = i + 1;
    }
    Ok(())
}

/// What `init` decides to do.
#[derive(Debug, PartialEq, Eq, Structural)]
pub enum InitPlan {
    /// The store already exists: nothing is created or altered.
    AlreadyInitialized,
    /// The store is absent: it is created at the target version.
    Created,
}

/// The `init` decision as a function of the store's existence.
pub open spec fn spec_init_plan(store_exists: bool) -> InitPlan {
    if store_exists {
        InitPlan::AlreadyInitialized
    } else {
        InitPlan::Created
    }
}

/// Decides what `init` does: an existing store is left untouched
/// (running `init` twice can therefore never alter a store), an
/// absent one is created.
pub fn init_plan(store_exists: bool) -> (r: InitPlan)
    ensures
        r == spec_init_plan(store_exists),
        r is AlreadyInitialized <==> store_exists,
{
    if store_exists {
        InitPlan::AlreadyInitialized
    } else {
        InitPlan::Created
    }
}

/// The `init` command: an existing store is reported as already
/// initialized before any store access, so a second run can never
/// alter an initialized store's version or contents; an absent one
/// is created at the target version.
pub fn handle_init(conn: &rusqlite::Connection, store_exists: bool) -> (r: Result<
    InitPlan,
    DlogError,
>)
    ensures
        store_exists <==> r matches Ok(InitPlan::AlreadyInitialized),
        r matches Ok(InitPlan::Created) ==> !store_exists,
        r matches Err(e) ==> !store_exists && e is QueryFailed,
{
    match init_plan(store_exists) {
        InitPlan::AlreadyInitialized => Ok(InitPlan::AlreadyInitialized),
        InitPlan::Created => {
            initialize_db(conn)?;
            Ok(InitPlan::Created)
        },
    }
}

} // verus!
