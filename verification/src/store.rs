//! Trusted boundary to the storage engine. Every call into rusqlite
//! goes through exactly one wrapper here; what a query returns
//! depends on what is on disk, so the wrappers promise nothing about
//! result contents, and the verified callers state what holds of
//! every outcome.

use vstd::prelude::*;
use rusqlite::OptionalExtension;
use crate::filter::Param;
use crate::record::Log;
use crate::DlogError;

verus! {

#[verifier::external_type_specification]
#[verifier::external_body]
pub struct ExConnection(rusqlite::Connection);

#[verifier::external_type_specification]
#[verifier::external_body]
pub struct ExValue(rusqlite::types::Value);

/// Relies on rusqlite::types::Value: the library's bound parameters
/// as engine values, converted one for one, in order.
#[verifier::external_body]
fn to_values(params: &Vec<Param>) -> (r: Vec<rusqlite::types::Value>)
{
    params.iter().map(|p| match p {
        Param::Int(n) => rusqlite::types::Value::Integer(*n),
        Param::Text(t) => rusqlite::types::Value::Text(t.clone()),
    }).collect()
}

/// Relies on rusqlite::Connection::open: opens (creating if absent)
/// the database file at `path`.
#[verifier::external_body]
pub fn open_path(path: &str) -> (r: Result<rusqlite::Connection, DlogError>)
    ensures
        r matches Err(e) ==> e is StoreUnavailable,
{
    rusqlite::Connection::open(path).map_err(|e| DlogError::StoreUnavailable(e.to_string()))
}

/// Relies on rusqlite::Connection::open_in_memory: opens a fresh
/// store not backed by any file.
#[verifier::external_body]
pub fn open_memory() -> (r: Result<rusqlite::Connection, DlogError>)
    ensures
        r matches Err(e) ==> e is StoreUnavailable,
{
    rusqlite::Connection::open_in_memory().map_err(|e| DlogError::StoreUnavailable(e.to_string()))
}

/// Relies on rusqlite::Connection::execute: runs one statement with
/// the given bound parameters and returns the changed-row count.
#[verifier::external_body]
pub fn exec_sql(conn: &rusqlite::Connection, sql: &str, params: &Vec<Param>) -> (r: Result<
    usize,
    DlogError,
>)
    ensures
        r matches Err(e) ==> e is QueryFailed,
{
    let vals = to_values(params);
    conn.execute(sql, rusqlite::params_from_iter(vals))
        .map_err(|e| DlogError::QueryFailed(e.to_string()))
}

/// Relies on rusqlite::Statement::query_map: runs an
/// identifier-selection query and collects the first column of every
/// row.
#[verifier::external_body]
pub fn query_ids(conn: &rusqlite::Connection, sql: &str, params: &Vec<Param>) -> (r: Result<
    Vec<i64>,
    DlogError,
>)
    ensures
        r matches Err(e) ==> e is QueryFailed,
{
    let vals = to_values(params);
    let mut stmt = conn.prepare(sql).map_err(|e| DlogError::QueryFailed(e.to_string()))?;
    let rows = stmt.query_map(rusqlite::params_from_iter(vals), |row| row.get(0))
        .map_err(|e| DlogError::QueryFailed(e.to_string()))?;
    rows.collect::<Result<Vec<i64>, _>>().map_err(|e| DlogError::QueryFailed(e.to_string()))
}

/// Relies on rusqlite::Connection::query_row: runs a query expected
/// to yield one integer (a count or an EXISTS result).
#[verifier::external_body]
pub fn query_count(conn: &rusqlite::Connection, sql: &str, params: &Vec<Param>) -> (r: Result<
    i64,
    DlogError,
>)
    ensures
        r matches Err(e) ==> e is QueryFailed,
{
    let vals = to_values(params);
    conn.query_row(sql, rusqlite::params_from_iter(vals), |row| row.get(0))
        .map_err(|e| DlogError::QueryFailed(e.to_string()))
}

/// Relies on rusqlite::Connection::query_row with OptionalExtension:
/// runs a query expected to yield at most one text value; no row is
/// `None`, not an error.
#[verifier::external_body]
pub fn query_opt_text(conn: &rusqlite::Connection, sql: &str, params: &Vec<Param>) -> (r: Result<
    Option<String>,
    DlogError,
>)
    ensures
        r matches Err(e) ==> e is QueryFailed,
{
    let vals = to_values(params);
    conn.query_row(sql, rusqlite::params_from_iter(vals), |row| row.get(0))
        .optional()
        .map_err(|e| DlogError::QueryFailed(e.to_string()))
}

/// Relies on rusqlite::Statement::query_map: runs a full-record query
/// over the seven record columns, in the order id, timestamp,
/// directory, content, tags, metadata, level.
#[verifier::external_body]
pub fn query_logs(conn: &rusqlite::Connection, sql: &str, params: &Vec<Param>) -> (r: Result<
    Vec<Log>,
    DlogError,
>)
    ensures
        r matches Err(e) ==> e is QueryFailed,
{
    let vals = to_values(params);
    let mut stmt = conn.prepare(sql).map_err(|e| DlogError::QueryFailed(e.to_string()))?;
    let rows = stmt.query_map(rusqlite::params_from_iter(vals), |row| Ok(Log {
        id: row.get(0)?, timestamp: row.get(1)?, directory: row.get(2)?,
        content: row.get(3)?, tags: row.get(4)?, metadata: row.get(5)?, level: row.get(6)?,
    })).map_err(|e| DlogError::QueryFailed(e.to_string()))?;
    rows.collect::<Result<Vec<Log>, _>>().map_err(|e| DlogError::QueryFailed(e.to_string()))
}

/// Relies on rusqlite::backup::Backup: copies the whole contents of
/// `src` into `dst`, replacing what `dst` held.
#[verifier::external_body]
pub fn backup_into(src: &rusqlite::Connection, dst: &mut rusqlite::Connection) -> (r: Result<
    (),
    DlogError,
>)
    ensures
        r matches Err(e) ==> e is BackupFailed,
{
    let b = rusqlite::backup::Backup::new(src, dst)
        .map_err(|e| DlogError::BackupFailed(e.to_string()))?;
    b.run_to_completion(64, core::time::Duration::from_millis(20), None)
        .map_err(|e| DlogError::BackupFailed(e.to_string()))
}

} // verus!
