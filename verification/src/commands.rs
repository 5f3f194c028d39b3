//! The command cores: recording a note, and the retrieval conductor
//! that selects matched identifiers and applies at most one action
//! (tag-append, relocate, archive) or hydrates the records.

use vstd::prelude::*;
use vstd::string::*;
use std::collections::hash_map::DefaultHasher;
use std::hash::{Hash, Hasher};
use crate::args::GetArgs;
use crate::clock;
use crate::filter::Param;
use crate::filter::ParamV;
use crate::query::{build_in_clause, get_logs_by_ids, id_params, id_params_of, in_clause,
    select_log_ids};
use crate::record::{short_hash_of, spec_short_hash, Log};
use crate::store;
use crate::tags::append_tag;
use crate::text::{hex_digits, u64_to_hex};
use crate::DlogError;

verus! {

pub uninterp spec fn hash_of(s: Seq<char>) -> u64;

/// Relies on std's DefaultHasher: instances made by `new` are
/// identical and keyless, so the digest — named `hash_of` — depends
/// on the hashed characters alone; the algorithm itself is
/// unspecified and may change between standard-library releases.
#[verifier::external_body]
pub fn calculate_hash(t: &String) -> (r: u64)
    ensures
        r == hash_of(t@),
{
    let mut s = DefaultHasher::new();
    t.hash(&mut s);
    s.finish()
}

/// What the `log` command did.
pub enum LogOutcome {
    /// The content was empty after trimming: nothing was inserted.
    Cancelled,
    /// One record was inserted; `short_hash` is its user-facing
    /// identifier.
    Recorded { short_hash: String },
}

/// The directory a record is filed under: the sentinel "global", or
/// the working directory.
pub open spec fn log_directory(global: bool, cwd: Seq<char>) -> Seq<char> {
    if global {
        "global"@
    } else {
        cwd
    }
}

/// The tag text stored with a record: the tags as given, or empty.
pub open spec fn stored_tags(tags: Option<Seq<char>>) -> Seq<char> {
    match tags {
        Some(t) => t,
        None => Seq::empty(),
    }
}

/// The record-insert statement.
pub open spec fn insert_log_sql() -> Seq<char> {
    "INSERT INTO logs (timestamp, directory, content, tags, metadata) VALUES (?1, ?2, ?3, ?4, ?5)"@
}

fn insert_log_stmt() -> (r: &'static str)
    ensures
        r@ == insert_log_sql(),
{
    "INSERT INTO logs (timestamp, directory, content, tags, metadata) VALUES (?1, ?2, ?3, ?4, ?5)"
}

/// The bound parameters of one record insert, in statement order:
/// timestamp, directory, content, tags, digest.
pub open spec fn insert_log_params(
    ts: Seq<char>,
    global: bool,
    cwd: Seq<char>,
    content: Seq<char>,
    tags: Option<Seq<char>>,
    metadata: Seq<char>,
) -> Seq<ParamV> {
    seq![
        ParamV::Text(ts),
        ParamV::Text(log_directory(global, cwd)),
        ParamV::Text(content),
        ParamV::Text(stored_tags(tags)),
        ParamV::Text(metadata),
    ]
}

/// Builds exactly the insert parameters of `insert_log_params`.
fn build_insert_log_params(
    timestamp: String,
    global: bool,
    cwd: &String,
    content: &String,
    tags: &Option<String>,
    metadata: String,
) -> (r: Vec<Param>)
    ensures
        r@.map_values(|p: Param| p@) == insert_log_params(
            timestamp@,
            global,
            cwd@,
            content@,
            match tags {
                Some(t) => Some(t@),
                None => None,
            },
            metadata@,
        ),
{
    let directory = if global {
        "global".to_owned()
    } else {
        cwd.clone()
    };
    let tag_text = match tags {
        Some(t) => t.clone(),
        None => String::new(),
    };
    let mut params: Vec<Param> = Vec::new();
    params.push(Param::Text(timestamp));
    params.push(Param::Text(directory));
    params.push(Param::Text(content.clone()));
    params.push(Param::Text(tag_text));
    params.push(Param::Text(metadata));
    proof {
        assert(params@.map_values(|p: Param| p@) =~= insert_log_params(
            timestamp@,
            global,
            cwd@,
            content@,
            match tags {
                Some(t) => Some(t@),
                None => None,
            },
            metadata@,
        ));
    }
    params
}

/// What recording content `c` at clock value `ts` reports back: the
/// short form of the content digest, rendered in hex.
pub open spec fn recorded_short(ts: Seq<char>, c: Seq<char>, short: Seq<char>) -> bool {
    short == spec_short_hash(hex_digits(hash_of(ts + c) as nat))
}

/// Records one note. Empty content cancels the operation without any
/// insert. Otherwise the engine is handed exactly the
/// `insert_log_sql` statement with the `insert_log_params` values:
/// the clock's UTC timestamp, the directory (the sentinel "global"
/// when asked, else the working directory), the content, the tags as
/// given or empty, and the content digest in lowercase hex; the
/// digest's short form is reported back.
pub fn handle_log(
    conn: &rusqlite::Connection,
    content: &String,
    tags: &Option<String>,
    global: bool,
    cwd: &String,
) -> (r: Result<LogOutcome, DlogError>)
    ensures
        content@.len() == 0 <==> r matches Ok(LogOutcome::Cancelled),
        r matches Ok(LogOutcome::Recorded { short_hash }) ==> content@.len() > 0
            && short_hash@.len() <= 7 && (exists|ts: Seq<char>|
            #[trigger] recorded_short(ts, content@, short_hash@)),
        r matches Err(e) ==> e is QueryFailed && content@.len() > 0,
{
    if content.as_str().is_empty() {
        return Ok(LogOutcome::Cancelled);
    }
    let timestamp = clock::now_utc_rfc3339();
    let ghost ts_view = timestamp@;
    let mut hash_input = timestamp.clone();
    hash_input.append(content.as_str());
    let hash = calculate_hash(&hash_input);
    let metadata = u64_to_hex(hash);
    let short_hash = short_hash_of(metadata.as_str());
    let params = build_insert_log_params(timestamp, global, cwd, content, tags, metadata);
    store::exec_sql(conn, insert_log_stmt(), &params)?;
    proof {
        assert(recorded_short(ts_view, content@, short_hash@));
    }
    Ok(LogOutcome::Recorded { short_hash })
}

/// What the `get` command did.
pub enum GetOutcome {
    /// No record matched the filter: a normal outcome, not an error.
    NoMatches,
    /// The tag was unioned into every matched record.
    Tagged(usize),
    /// The directory of every matched record was overwritten.
    Relocated(usize),
    /// Every matched record was moved to the archive.
    Archived(usize),
    /// No action was requested: the matched records, hydrated.
    Records(Vec<Log>),
}

/// Whether the filter's one requested action is archival.
pub open spec fn wants_delete(args: GetArgs) -> bool {
    args.delete && args.add_tag is None && args.fix_path is None
}

fn rollback(conn: &rusqlite::Connection) {
    let no_params: Vec<Param> = Vec::new();
    let _ = store::exec_sql(conn, "ROLLBACK", &no_params);
}

/// Reads one record's tags, empty when unset.
pub open spec fn select_tags_sql() -> Seq<char> {
    "SELECT COALESCE(tags, '') FROM logs WHERE id = ?1"@
}

/// Overwrites one record's tags.
pub open spec fn update_tags_sql() -> Seq<char> {
    "UPDATE logs SET tags = ?1 WHERE id = ?2"@
}

fn select_tags_stmt() -> (r: &'static str)
    ensures
        r@ == select_tags_sql(),
{
    "SELECT COALESCE(tags, '') FROM logs WHERE id = ?1"
}

fn update_tags_stmt() -> (r: &'static str)
    ensures
        r@ == update_tags_sql(),
{
    "UPDATE logs SET tags = ?1 WHERE id = ?2"
}

fn one_id_params(id: i64) -> (r: Vec<Param>)
    ensures
        r@.map_values(|p: Param| p@) == seq![ParamV::Int(id as int)],
{
    let mut params: Vec<Param> = Vec::new();
    params.push(Param::Int(id));
    proof {
        assert(params@.map_values(|p: Param| p@) =~= seq![ParamV::Int(id as int)]);
    }
    params
}

fn tag_update_params(merged: String, id: i64) -> (r: Vec<Param>)
    ensures
        r@.map_values(|p: Param| p@) == seq![ParamV::Text(merged@), ParamV::Int(id as int)],
{
    let mut params: Vec<Param> = Vec::new();
    params.push(Param::Text(merged));
    params.push(Param::Int(id));
    proof {
        assert(params@.map_values(|p: Param| p@) =~= seq![
            ParamV::Text(merged@),
            ParamV::Int(id as int),
        ]);
    }
    params
}

/// Unions `tag` into the tags of every listed record, inside one
/// transaction; a record already carrying the tag as a whole element
/// is left as it is. Each record's tags are read with
/// `select_tags_sql`, merged by `append_tag`, and written back with
/// `update_tags_sql`, the merged text and identifier bound as
/// parameters.
pub fn apply_add_tag(conn: &rusqlite::Connection, ids: &Vec<i64>, tag: &String) -> (r: Result<
    usize,
    DlogError,
>)
    ensures
        r matches Ok(n) ==> n == ids@.len(),
        r matches Err(e) ==> e is QueryFailed,
{
    let no_params: Vec<Param> = Vec::new();
    store::exec_sql(conn, "BEGIN", &no_params)?;
    let mut i: usize = 0;
    while i < ids.len()
        decreases ids@.len() - i,
    {
        let sel = one_id_params(ids[i]);
        let existing = match store::query_opt_text(conn, select_tags_stmt(), &sel) {
            Err(e) => {
                rollback(conn);
                return Err(e);
            },
            Ok(Some(t)) => t,
            Ok(None) => String::new(),
        };
        let merged = append_tag(existing.as_str(), tag.as_str());
        let upd = tag_update_params(merged, ids[i]);
        match store::exec_sql(conn, update_tags_stmt(), &upd) {
            Err(e) => {
                rollback(conn);
                return Err(e);
            },
            Ok(_) => {},
        }
        i = i + 1;
    }
    match store::exec_sql(conn, "COMMIT", &no_params) {
        Err(e) => {
            rollback(conn);
            Err(e)
        },
        Ok(_) => Ok(ids.len()),
    }
}

/// The relocation statement for `n` identifiers: the new directory
/// first, then one placeholder per identifier.
pub open spec fn relocate_sql(n: nat) -> Seq<char> {
    "UPDATE logs SET directory = ?1 WHERE id IN ("@ + in_clause(n) + ")"@
}

fn build_relocate_sql(n: usize) -> (r: String)
    ensures
        r@ == relocate_sql(n as nat),
{
    let mut sql = "UPDATE logs SET directory = ?1 WHERE id IN (".to_owned();
    sql.append(build_in_clause(n).as_str());
    sql.append(")");
    sql
}

fn relocate_params(path: &String, ids: &Vec<i64>) -> (r: Vec<Param>)
    ensures
        r@.map_values(|p: Param| p@) == seq![ParamV::Text(path@)] + id_params_of(ids@),
{
    let mut params: Vec<Param> = Vec::new();
    params.push(Param::Text(path.clone()));
    let mut idp = id_params(ids);
    params.append(&mut idp);
    proof {
        assert(params@.map_values(|p: Param| p@) =~= seq![ParamV::Text(path@)] + id_params_of(
            ids@,
        ));
    }
    params
}

/// Overwrites the directory of every listed record, as one batch:
/// the engine is handed exactly the `relocate_sql` statement, with
/// the new directory and the identifiers bound as parameters.
pub fn apply_fix_path(conn: &rusqlite::Connection, ids: &Vec<i64>, path: &String) -> (r: Result<
    usize,
    DlogError,
>)
    ensures
        r matches Ok(n) ==> n == ids@.len(),
        r matches Err(e) ==> e is QueryFailed,
{
    if ids.len() == 0 {
        return Ok(0);
    }
    let sql = build_relocate_sql(ids.len());
    let params = relocate_params(path, ids);
    store::exec_sql(conn, sql.as_str(), &params)?;
    Ok(ids.len())
}

/// The archive-copy statement for `n` identifiers: moves full
/// records into the archive by insert-select.
pub open spec fn archive_copy_sql(n: nat) -> Seq<char> {
    "INSERT INTO backup (id, timestamp, directory, content, tags, metadata, level) SELECT id, timestamp, directory, content, tags, metadata, level FROM logs WHERE id IN ("@
        + in_clause(n) + ")"@
}

/// The archive-delete statement for `n` identifiers: removes the
/// copied records from the primary set.
pub open spec fn archive_delete_sql(n: nat) -> Seq<char> {
    "DELETE FROM logs WHERE id IN ("@ + in_clause(n) + ")"@
}

fn build_archive_copy_sql(n: usize) -> (r: String)
    ensures
        r@ == archive_copy_sql(n as nat),
{
    let mut sql =
        "INSERT INTO backup (id, timestamp, directory, content, tags, metadata, level) SELECT id, timestamp, directory, content, tags, metadata, level FROM logs WHERE id IN (".to_owned();
    sql.append(build_in_clause(n).as_str());
    sql.append(")");
    sql
}

fn build_archive_delete_sql(n: usize) -> (r: String)
    ensures
        r@ == archive_delete_sql(n as nat),
{
    let mut sql = "DELETE FROM logs WHERE id IN (".to_owned();
    sql.append(build_in_clause(n).as_str());
    sql.append(")");
    sql
}

/// Moves every listed record into the archive and out of the primary
/// set, as one atomic batch: inside one transaction the engine is
/// handed exactly the `archive_copy_sql` and `archive_delete_sql`
/// statements, the identifiers bound as parameters. Requires the
/// caller's explicit confirmation: without it the request is refused
/// before any store access. An empty identifier list is a no-op that
/// succeeds with zero records moved.
pub fn archive_records(conn: &rusqlite::Connection, ids: &Vec<i64>, force: bool) -> (r: Result<
    usize,
    DlogError,
>)
    ensures
        !force <==> (r matches Err(e) && e is MissingConfirmation),
        force && ids@.len() == 0 ==> (r matches Ok(n) && n == 0),
        r matches Ok(n) ==> n == ids@.len(),
{
    if !force {
        return Err(DlogError::MissingConfirmation);
    }
    if ids.len() == 0 {
        return Ok(0);
    }
    let no_params: Vec<Param> = Vec::new();
    store::exec_sql(conn, "BEGIN", &no_params)?;
    let params = id_params(ids);
    let copy_sql = build_archive_copy_sql(ids.len());
    match store::exec_sql(conn, copy_sql.as_str(), &params) {
        Err(e) => {
            rollback(conn);
            return Err(e);
        },
        Ok(_) => {},
    }
    let del_sql = build_archive_delete_sql(ids.len());
    match store::exec_sql(conn, del_sql.as_str(), &params) {
        Err(e) => {
            rollback(conn);
            return Err(e);
        },
        Ok(_) => {},
    }
    match store::exec_sql(conn, "COMMIT", &no_params) {
        Err(e) => {
            rollback(conn);
            Err(e)
        },
        Ok(_) => Ok(ids.len()),
    }
}

/// The retrieval conductor. Refuses unconfirmed archival before any
/// store access; otherwise selects the matched identifiers, reports
/// an empty match as a normal outcome, applies the one requested
/// action (tag-append over relocate over archive) to every matched
/// record, or, with no action, hydrates and returns the records.
pub fn handle_get(conn: &rusqlite::Connection, args: &GetArgs, cwd: &String) -> (r: Result<
    GetOutcome,
    DlogError,
>)
    ensures
        wants_delete(*args) && !args.force ==> (r matches Err(e) && e is MissingConfirmation),
        (r matches Err(e) && e is MissingConfirmation) ==> wants_delete(*args) && !args.force,
        r matches Ok(GetOutcome::Tagged(_)) ==> args.add_tag is Some,
        r matches Ok(GetOutcome::Relocated(_)) ==> args.fix_path is Some && args.add_tag is None,
        r matches Ok(GetOutcome::Archived(_)) ==> wants_delete(*args) && args.force,
        r matches Ok(GetOutcome::Records(_)) ==> args.add_tag is None && args.fix_path is None
            && !args.delete,
{
    if args.delete && args.add_tag.is_none() && args.fix_path.is_none() && !args.force {
        return Err(DlogError::MissingConfirmation);
    }
    let ids = select_log_ids(conn, args, cwd)?;
    if ids.len() == 0 {
        return Ok(GetOutcome::NoMatches);
    }
    if let Some(tag) = &args.add_tag {
        let n = apply_add_tag(conn, &ids, tag)?;
        Ok(GetOutcome::Tagged(n))
    } else if let Some(path) = &args.fix_path {
        let n = apply_fix_path(conn, &ids, path)?;
        Ok(GetOutcome::Relocated(n))
    } else if args.delete {
        let n = archive_records(conn, &ids, args.force)?;
        Ok(GetOutcome::Archived(n))
    } else {
        let order = if args.reverse {
            crate::filter::Order::Asc
        } else {
            crate::filter::Order::Desc
        };
        let logs = get_logs_by_ids(conn, &ids, order)?;
        Ok(GetOutcome::Records(logs))
    }
}

} // verus!
