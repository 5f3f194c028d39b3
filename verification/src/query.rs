//! The record selector: runs a compiled predicate to obtain matched
//! identifiers, and hydrates identifiers into full records.

use vstd::prelude::*;
use vstd::string::*;
use crate::args::GetArgs;
use crate::filter::{build_params, build_select_sql, compile, Order, Param};
use crate::record::Log;
use crate::store;
use crate::DlogError;

verus! {

/// The positional placeholders of an identifier list: one `?` per
/// identifier, comma-separated.
pub open spec fn in_clause(n: nat) -> Seq<char>
    decreases n,
{
    if n == 0 {
        Seq::empty()
    } else if n == 1 {
        "?"@
    } else {
        in_clause((n - 1) as nat) + ",?"@
    }
}

/// The hydration query text for `n` identifiers, ordered by
/// timestamp the same way the selection was, so the hydrated records
/// come back in the selected order.
pub open spec fn hydrate_sql(n: nat, order: Order) -> Seq<char> {
    "SELECT id, timestamp, directory, content, tags, metadata, level FROM logs WHERE id IN ("@
        + in_clause(n) + ")"@ + (match order {
        Order::Desc => " ORDER BY timestamp DESC"@,
        Order::Asc => " ORDER BY timestamp ASC"@,
    })
}

/// Builds the placeholder list for `n` identifiers.
pub fn build_in_clause(n: usize) -> (r: String)
    ensures
        r@ == in_clause(n as nat),
{
    let mut s = String::new();
    let mut i: usize = 0;
    while i < n
        invariant
            0 <= i <= n,
            s@ == in_clause(i as nat),
        decreases n - i,
    {
        if i == 0 {
            s.append("?");
        } else {
            s.append(",?");
        }
        i = i + 1;
    }
    s
}

/// Selects the identifiers of every record matching the filter, in
/// the compiled order, capped at the requested count. The query text
/// and parameters are exactly what the predicate compiler states;
/// what comes back is whatever the store holds.
pub fn select_log_ids(conn: &rusqlite::Connection, args: &GetArgs, cwd: &String) -> (r: Result<
    Vec<i64>,
    DlogError,
>)
    ensures
        r matches Err(e) ==> e is QueryFailed,
{
    let q = compile(args, cwd);
    let sql = build_select_sql(&q);
    let params = build_params(&q);
    store::query_ids(conn, sql.as_str(), &params)
}

/// Hydrates identifiers into full records, in the given timestamp
/// order. Fails closed: an empty identifier list yields an empty
/// record list without touching the store.
pub fn get_logs_by_ids(conn: &rusqlite::Connection, ids: &Vec<i64>, order: Order) -> (r: Result<
    Vec<Log>,
    DlogError,
>)
    ensures
        ids@.len() == 0 ==> (r matches Ok(v) && v@.len() == 0),
        r matches Err(e) ==> e is QueryFailed,
{
    if ids.len() == 0 {
        return Ok(Vec::new());
    }
    let mut sql =
        "SELECT id, timestamp, directory, content, tags, metadata, level FROM logs WHERE id IN (".to_owned();
    sql.append(build_in_clause(ids.len()).as_str());
    sql.append(")");
    match order {
        Order::Desc => sql.append(" ORDER BY timestamp DESC"),
        Order::Asc => sql.append(" ORDER BY timestamp ASC"),
    }
    proof {
        assert(sql@ == hydrate_sql(ids@.len(), order));
    }
    let params = id_params(ids);
    store::query_logs(conn, sql.as_str(), &params)
}

/// The views of a list of identifier parameters.
pub open spec fn id_params_of(ids: Seq<i64>) -> Seq<crate::filter::ParamV> {
    ids.map_values(|i: i64| crate::filter::ParamV::Int(i as int))
}

/// The identifiers as integer parameters, in order.
pub fn id_params(ids: &Vec<i64>) -> (r: Vec<Param>)
    ensures
        r@.map_values(|p: Param| p@) == id_params_of(ids@),
{
    let mut params: Vec<Param> = Vec::new();
    let mut i: usize = 0;
    while i < ids.len()
        invariant
            0 <= i <= ids@.len(),
            params@.len() == i,
            forall|j: int| 0 <= j < i ==> (#[trigger] params@[j])@ == crate::filter::ParamV::Int(
                ids@[j] as int,
            ),
        decreases ids@.len() - i,
    {
        params.push(Param::Int(ids[i]));
        i = i + 1;
    }
    proof {
        assert(params@.map_values(|p: Param| p@) =~= id_params_of(ids@));
    }
    params
}

} // verus!
