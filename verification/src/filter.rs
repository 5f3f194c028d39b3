//! The predicate compiler: turns the independent, optional filter
//! dimensions of a retrieval into a tagged list of conditions with
//! bound values, plus ordering and a result cap. The query text is a
//! function of the condition shapes alone; every caller-supplied value
//! travels as a bound parameter, never as query text.

use vstd::prelude::*;
use vstd::string::*;
use crate::args::GetArgs;
use crate::record::LogV;
use crate::text::{dec_digits, u32_to_dec};

verus! {

/// One retrieval condition, carrying its bound value.
#[derive(Clone, Debug)]
pub enum Cond {
    /// The record's directory is exactly the given path.
    DirExact(String),
    /// The directory is the given path or the sentinel "global".
    DirExactOrGlobal(String),
    /// The directory starts with the given path.
    DirPrefix(String),
    /// The directory starts with the given path, or is "global".
    DirPrefixOrGlobal(String),
    /// The record's date is exactly the given YYYY-MM-DD string.
    DateExact(String),
    /// The record is at most the given number of hours old.
    SinceHours(u32),
    /// The record is at most the given number of minutes old.
    SinceMinutes(u32),
    /// The record's date is the store's current local date.
    Today,
    /// The record's tags contain the given text.
    TagContains(String),
    /// The record's content contains the given text.
    KeywordContains(String),
}

/// Mathematical view of a condition.
pub enum CondV {
    DirExact(Seq<char>),
    DirExactOrGlobal(Seq<char>),
    DirPrefix(Seq<char>),
    DirPrefixOrGlobal(Seq<char>),
    DateExact(Seq<char>),
    SinceHours(u32),
    SinceMinutes(u32),
    Today,
    TagContains(Seq<char>),
    KeywordContains(Seq<char>),
}

impl View for Cond {
    type V = CondV;

    open spec fn view(&self) -> CondV {
        match self {
            Cond::DirExact(d) => CondV::DirExact(d@),
            Cond::DirExactOrGlobal(d) => CondV::DirExactOrGlobal(d@),
            Cond::DirPrefix(d) => CondV::DirPrefix(d@),
            Cond::DirPrefixOrGlobal(d) => CondV::DirPrefixOrGlobal(d@),
            Cond::DateExact(d) => CondV::DateExact(d@),
            Cond::SinceHours(n) => CondV::SinceHours(*n),
            Cond::SinceMinutes(n) => CondV::SinceMinutes(*n),
            Cond::Today => CondV::Today,
            Cond::TagContains(t) => CondV::TagContains(t@),
            Cond::KeywordContains(k) => CondV::KeywordContains(k@),
        }
    }
}

/// Result ordering: newest first unless reversed.
#[derive(Clone, Copy, Debug, PartialEq, Eq, Structural)]
pub enum Order {
    Desc,
    Asc,
}

/// One bound parameter of the compiled query.
#[derive(Clone, Debug)]
pub enum Param {
    Int(i64),
    Text(String),
}

/// Mathematical view of a bound parameter.
pub enum ParamV {
    Int(int),
    Text(Seq<char>),
}

impl View for Param {
    type V = ParamV;

    open spec fn view(&self) -> ParamV {
        match self {
            Param::Int(n) => ParamV::Int(*n as int),
            Param::Text(t) => ParamV::Text(t@),
        }
    }
}

/// A compiled retrieval: the conjunction of conditions, the ordering,
/// and the result cap.
pub struct CompiledQuery {
    pub conds: Vec<Cond>,
    pub order: Order,
    pub limit: u32,
}

/// The views of a condition list.
pub open spec fn views_of(conds: Seq<Cond>) -> Seq<CondV> {
    conds.map_values(|c: Cond| c@)
}

/// The scope conditions a filter asks for: none when all scopes are
/// requested, else exactly one directory condition.
pub open spec fn scope_conds(args: GetArgs, cwd: Seq<char>) -> Seq<CondV> {
    if args.all {
        Seq::empty()
    } else if args.recursive {
        if args.global {
            seq![CondV::DirPrefixOrGlobal(cwd)]
        } else {
            seq![CondV::DirPrefix(cwd)]
        }
    } else {
        if args.global {
            seq![CondV::DirExactOrGlobal(cwd)]
        } else {
            seq![CondV::DirExact(cwd)]
        }
    }
}

/// The time condition a filter asks for; the windows are mutually
/// exclusive, first match winning in the order exact-date,
/// relative-hours, relative-minutes, today.
pub open spec fn time_conds(args: GetArgs) -> Seq<CondV> {
    if args.date is Some {
        seq![CondV::DateExact(args.date->0@)]
    } else if args.hour is Some {
        seq![CondV::SinceHours(args.hour->0)]
    } else if args.minute is Some {
        seq![CondV::SinceMinutes(args.minute->0)]
    } else if args.today {
        seq![CondV::Today]
    } else {
        Seq::empty()
    }
}

/// The content conditions a filter asks for, each independently
/// optional.
pub open spec fn content_conds(args: GetArgs) -> Seq<CondV> {
    (if args.tag is Some {
        seq![CondV::TagContains(args.tag->0@)]
    } else {
        Seq::empty()
    }) + (if args.keyword is Some {
        seq![CondV::KeywordContains(args.keyword->0@)]
    } else {
        Seq::empty()
    })
}

/// Every condition a filter compiles to, in order: scope, time,
/// content.
pub open spec fn spec_conds(args: GetArgs, cwd: Seq<char>) -> Seq<CondV> {
    scope_conds(args, cwd) + time_conds(args) + content_conds(args)
}

/// How many non-default filter options a filter sets.
pub open spec fn count_set_options(args: GetArgs) -> nat {
    (if args.all {
        0nat
    } else {
        1nat
    }) + (if args.date is Some || args.hour is Some || args.minute is Some || args.today {
        1nat
    } else {
        0nat
    }) + (if args.tag is Some {
        1nat
    } else {
        0nat
    }) + (if args.keyword is Some {
        1nat
    } else {
        0nat
    })
}

/// Compiles a filter into conditions, ordering and cap. The condition
/// list is exactly what the filter's set options call for; every
/// user-supplied value is carried inside a condition, to be bound as a
/// parameter.
pub fn compile(args: &GetArgs, cwd: &String) -> (q: CompiledQuery)
    ensures
        views_of(q.conds@) == spec_conds(*args, cwd@),
        q.order == if args.reverse {
            Order::Asc
        } else {
            Order::Desc
        },
        q.limit == args.num,
{
    let mut conds: Vec<Cond> = Vec::new();
    if !args.all {
        if args.recursive {
            if args.global {
                conds.push(Cond::DirPrefixOrGlobal(cwd.clone()));
            } else {
                conds.push(Cond::DirPrefix(cwd.clone()));
            }
        } else {
            if args.global {
                conds.push(Cond::DirExactOrGlobal(cwd.clone()));
            } else {
                conds.push(Cond::DirExact(cwd.clone()));
            }
        }
    }
    assert(views_of(conds@) =~= scope_conds(*args, cwd@));
    if let Some(date) = &args.date {
        conds.push(Cond::DateExact(date.clone()));
    } else if let Some(hour) = &args.hour {
        conds.push(Cond::SinceHours(*hour));
    } else if let Some(minute) = &args.minute {
        conds.push(Cond::SinceMinutes(*minute));
    } else if args.today {
        conds.push(Cond::Today);
    }
    assert(views_of(conds@) =~= scope_conds(*args, cwd@) + time_conds(*args));
    if let Some(tag) = &args.tag {
        conds.push(Cond::TagContains(tag.clone()));
    }
    if let Some(keyword) = &args.keyword {
        conds.push(Cond::KeywordContains(keyword.clone()));
    }
    assert(views_of(conds@) =~= spec_conds(*args, cwd@));
    CompiledQuery {
        conds,
        order: if args.reverse {
            Order::Asc
        } else {
            Order::Desc
        },
        limit: args.num,
    }
}

/// The sentinel directory of records not tied to any directory.
pub open spec fn global_dir() -> Seq<char> {
    "global"@
}

/// Whether `p` is a prefix of `s`.
pub open spec fn is_prefix(p: Seq<char>, s: Seq<char>) -> bool {
    p.len() <= s.len() && s.subrange(0, p.len() as int) == p
}

/// Whether `needle` occurs contiguously inside `hay`.
pub open spec fn contains_sub(hay: Seq<char>, needle: Seq<char>) -> bool {
    exists|i: int|
        0 <= i && i + needle.len() <= hay.len() && #[trigger] hay.subrange(
            i,
            i + needle.len() as int,
        ) == needle
}

/// Lexicographic order on character sequences, the order in which
/// ISO-8601 UTC timestamps sort by time.
pub open spec fn lex_ge(a: Seq<char>, b: Seq<char>) -> bool
    decreases a.len(),
{
    if b.len() == 0 {
        true
    } else if a.len() == 0 {
        false
    } else if a[0] as u32 > b[0] as u32 {
        true
    } else if (a[0] as u32) < b[0] as u32 {
        false
    } else {
        lex_ge(a.drop_first(), b.drop_first())
    }
}

/// The date part of an ISO-8601 timestamp: its first ten characters.
pub open spec fn date_part(ts: Seq<char>) -> Seq<char> {
    if ts.len() <= 10 {
        ts
    } else {
        ts.subrange(0, 10)
    }
}

/// The store's clock as one retrieval sees it: the current local
/// date, and the cutoff timestamp that the query's relative time
/// window (if any) resolves to.
pub struct ClockV {
    pub today: Seq<char>,
    pub cutoff: Seq<char>,
}

/// What it means for a record to satisfy one condition, given the
/// store's clock.
pub open spec fn cond_matches(c: CondV, r: LogV, clk: ClockV) -> bool {
    match c {
        CondV::DirExact(d) => r.directory == d,
        CondV::DirExactOrGlobal(d) => r.directory == d || r.directory == global_dir(),
        CondV::DirPrefix(d) => is_prefix(d, r.directory),
        CondV::DirPrefixOrGlobal(d) => is_prefix(d, r.directory) || r.directory == global_dir(),
        CondV::DateExact(d) => date_part(r.timestamp) == d,
        CondV::SinceHours(_) => lex_ge(r.timestamp, clk.cutoff),
        CondV::SinceMinutes(_) => lex_ge(r.timestamp, clk.cutoff),
        CondV::Today => date_part(r.timestamp) == clk.today,
        CondV::TagContains(t) => r.tags is Some && contains_sub(r.tags->0, t),
        CondV::KeywordContains(k) => contains_sub(r.content, k),
    }
}

/// What it means for a record to satisfy a compiled predicate: the
/// conjunction of all its conditions.
pub open spec fn query_matches(conds: Seq<CondV>, r: LogV, clk: ClockV) -> bool {
    forall|i: int| 0 <= i < conds.len() ==> cond_matches(#[trigger] conds[i], r, clk)
}

/// A filter with no filter fields set compiles to no conditions at
/// all, and its predicate matches every record.
pub proof fn lemma_no_filters_matches_all(args: GetArgs, cwd: Seq<char>, r: LogV, clk: ClockV)
    requires
        args.all,
        args.date is None,
        args.hour is None,
        args.minute is None,
        !args.today,
        args.tag is None,
        args.keyword is None,
    ensures
        spec_conds(args, cwd).len() == 0,
        query_matches(spec_conds(args, cwd), r, clk),
{
}

/// The compiled condition count equals the number of non-default
/// options the filter sets.
pub proof fn lemma_cond_count(args: GetArgs, cwd: Seq<char>)
    ensures
        spec_conds(args, cwd).len() == count_set_options(args),
{
}

proof fn lemma_matches_from_contains(c1: Seq<CondV>, c2: Seq<CondV>, r: LogV, clk: ClockV)
    requires
        forall|x: CondV| c2.contains(x) ==> c1.contains(x),
        query_matches(c1, r, clk),
    ensures
        query_matches(c2, r, clk),
{
    assert forall|i: int| 0 <= i < c2.len() implies cond_matches(#[trigger] c2[i], r, clk) by {
        assert(c2.contains(c2[i]));
        assert(c1.contains(c2[i]));
        let j = choose|j: int| 0 <= j < c1.len() && c1[j] == c2[i];
        assert(cond_matches(c1[j], r, clk));
    }
}

/// The order of AND composition does not affect the matched set: two
/// condition lists holding the same conditions match exactly the same
/// records.
pub proof fn lemma_and_order_irrelevant(c1: Seq<CondV>, c2: Seq<CondV>, r: LogV, clk: ClockV)
    requires
        c1.to_multiset() == c2.to_multiset(),
    ensures
        query_matches(c1, r, clk) == query_matches(c2, r, clk),
{
    broadcast use vstd::seq_lib::group_to_multiset_ensures;

    assert forall|x: CondV| c2.contains(x) implies c1.contains(x) by {
        assert(c2.to_multiset().count(x) > 0);
    }
    assert forall|x: CondV| c1.contains(x) implies c2.contains(x) by {
        assert(c1.to_multiset().count(x) > 0);
    }
    if query_matches(c1, r, clk) {
        lemma_matches_from_contains(c1, c2, r, clk);
    }
    if query_matches(c2, r, clk) {
        lemma_matches_from_contains(c2, c1, r, clk);
    }
}

/// The query-text fragment of one condition: a function of the
/// condition's shape alone, never of its bound value.
pub open spec fn cond_sql(c: CondV) -> Seq<char> {
    match c {
        CondV::DirExact(_) => "directory = ?"@,
        CondV::DirExactOrGlobal(_) => "(directory = ? OR directory = 'global')"@,
        CondV::DirPrefix(_) => "directory LIKE ?"@,
        CondV::DirPrefixOrGlobal(_) => "(directory LIKE ? OR directory = 'global')"@,
        CondV::DateExact(_) => "DATE(timestamp) = ?"@,
        CondV::SinceHours(_) => "timestamp >= datetime('now', ?)"@,
        CondV::SinceMinutes(_) => "timestamp >= datetime('now', ?)"@,
        CondV::Today => "DATE(timestamp) = DATE('now', 'localtime')"@,
        CondV::TagContains(_) => "tags LIKE ?"@,
        CondV::KeywordContains(_) => "content LIKE ?"@,
    }
}

/// The conjunction of the fragments, joined with AND.
pub open spec fn joined_conds(cs: Seq<CondV>) -> Seq<char>
    decreases cs.len(),
{
    if cs.len() == 0 {
        Seq::empty()
    } else if cs.len() == 1 {
        cond_sql(cs[0])
    } else {
        joined_conds(cs.drop_last()) + " AND "@ + cond_sql(cs.last())
    }
}

/// The full identifier-selection query text for a condition list and
/// an ordering.
pub open spec fn select_sql(cs: Seq<CondV>, order: Order) -> Seq<char> {
    "SELECT id FROM logs"@ + (if cs.len() == 0 {
        Seq::<char>::empty()
    } else {
        " WHERE "@ + joined_conds(cs)
    }) + (match order {
        Order::Desc => " ORDER BY timestamp DESC LIMIT ?"@,
        Order::Asc => " ORDER BY timestamp ASC LIMIT ?"@,
    })
}

/// A condition with its bound value erased: only the shape is left.
pub open spec fn shape_of(c: CondV) -> CondV {
    match c {
        CondV::DirExact(_) => CondV::DirExact(Seq::empty()),
        CondV::DirExactOrGlobal(_) => CondV::DirExactOrGlobal(Seq::empty()),
        CondV::DirPrefix(_) => CondV::DirPrefix(Seq::empty()),
        CondV::DirPrefixOrGlobal(_) => CondV::DirPrefixOrGlobal(Seq::empty()),
        CondV::DateExact(_) => CondV::DateExact(Seq::empty()),
        CondV::SinceHours(_) => CondV::SinceHours(0),
        CondV::SinceMinutes(_) => CondV::SinceMinutes(0),
        CondV::Today => CondV::Today,
        CondV::TagContains(_) => CondV::TagContains(Seq::empty()),
        CondV::KeywordContains(_) => CondV::KeywordContains(Seq::empty()),
    }
}

/// No bound value ever reaches the query text: the text of a
/// condition list is exactly the text of the same list with every
/// bound value erased. User-supplied text travels only in the
/// parameters.
pub proof fn lemma_sql_depends_on_shapes_alone(cs: Seq<CondV>, order: Order)
    ensures
        select_sql(cs, order) == select_sql(cs.map_values(|c: CondV| shape_of(c)), order),
{
    let erased = cs.map_values(|c: CondV| shape_of(c));
    lemma_joined_conds_shapes(cs);
    if cs.len() == 0 {
        assert(erased.len() == 0);
    }
}

proof fn lemma_joined_conds_shapes(cs: Seq<CondV>)
    ensures
        joined_conds(cs) == joined_conds(cs.map_values(|c: CondV| shape_of(c))),
    decreases cs.len(),
{
    let erased = cs.map_values(|c: CondV| shape_of(c));
    if cs.len() == 0 {
    } else if cs.len() == 1 {
        assert(erased =~= seq![shape_of(cs[0])]);
        assert(cond_sql(cs[0]) == cond_sql(shape_of(cs[0])));
    } else {
        lemma_joined_conds_shapes(cs.drop_last());
        assert(cs.drop_last().map_values(|c: CondV| shape_of(c)) =~= erased.drop_last());
        assert(erased.last() == shape_of(cs.last()));
        assert(cond_sql(cs.last()) == cond_sql(shape_of(cs.last())));
    }
}

fn cond_sql_frag(c: &Cond) -> (r: &'static str)
    ensures
        r@ == cond_sql(c@),
{
    match c {
        Cond::DirExact(_) => "directory = ?",
        Cond::DirExactOrGlobal(_) => "(directory = ? OR directory = 'global')",
        Cond::DirPrefix(_) => "directory LIKE ?",
        Cond::DirPrefixOrGlobal(_) => "(directory LIKE ? OR directory = 'global')",
        Cond::DateExact(_) => "DATE(timestamp) = ?",
        Cond::SinceHours(_) => "timestamp >= datetime('now', ?)",
        Cond::SinceMinutes(_) => "timestamp >= datetime('now', ?)",
        Cond::Today => "DATE(timestamp) = DATE('now', 'localtime')",
        Cond::TagContains(_) => "tags LIKE ?",
        Cond::KeywordContains(_) => "content LIKE ?",
    }
}

/// Builds the identifier-selection query text of a compiled
/// retrieval. The result is exactly `select_sql` of the condition
/// shapes: no bound value reaches the text.
pub fn build_select_sql(q: &CompiledQuery) -> (r: String)
    ensures
        r@ == select_sql(views_of(q.conds@), q.order),
{
    let ghost cs = views_of(q.conds@);
    let mut sql = "SELECT id FROM logs".to_owned();
    if q.conds.len() > 0 {
        sql.append(" WHERE ");
        let mut i: usize = 0;
        while i < q.conds.len()
            invariant
                0 < q.conds.len(),
                0 <= i <= q.conds.len(),
                cs == views_of(q.conds@),
                cs.len() == q.conds.len(),
                i > 0 ==> sql@ == "SELECT id FROM logs"@ + " WHERE "@ + joined_conds(
                    cs.subrange(0, i as int),
                ),
                i == 0 ==> sql@ == "SELECT id FROM logs"@ + " WHERE "@,
            decreases q.conds.len() - i,
        {
            if i > 0 {
                sql.append(" AND ");
            }
            sql.append(cond_sql_frag(&q.conds[i]));
            proof {
                assert(cs[i as int] == q.conds@[i as int]@);
                if i > 0 {
                    assert(cs.subrange(0, i as int + 1).drop_last() =~= cs.subrange(0, i as int));
                    assert(cs.subrange(0, i as int + 1).last() == cs[i as int]);
                    if i == 1 {
                        assert(joined_conds(cs.subrange(0, 1)) == cond_sql(cs[0]));
                    }
                } else {
                    assert(cs.subrange(0, 1) =~= seq![cs[0]]);
                }
            }
            i = i + 1;
        }
        proof {
            assert(cs.subrange(0, cs.len() as int) =~= cs);
        }
    }
    match q.order {
        Order::Desc => sql.append(" ORDER BY timestamp DESC LIMIT ?"),
        Order::Asc => sql.append(" ORDER BY timestamp ASC LIMIT ?"),
    }
    sql
}

/// The bound parameter of one condition, if it has one: the condition
/// value, wrapped for the engine (prefix and contains conditions gain
/// pattern wildcards; relative windows become engine time modifiers).
pub open spec fn cond_param(c: CondV) -> Option<ParamV> {
    match c {
        CondV::DirExact(d) => Some(ParamV::Text(d)),
        CondV::DirExactOrGlobal(d) => Some(ParamV::Text(d)),
        CondV::DirPrefix(d) => Some(ParamV::Text(d + "%"@)),
        CondV::DirPrefixOrGlobal(d) => Some(ParamV::Text(d + "%"@)),
        CondV::DateExact(d) => Some(ParamV::Text(d)),
        CondV::SinceHours(n) => Some(ParamV::Text("-"@ + dec_digits(n as nat) + " hours"@)),
        CondV::SinceMinutes(n) => Some(ParamV::Text("-"@ + dec_digits(n as nat) + " minutes"@)),
        CondV::Today => None,
        CondV::TagContains(t) => Some(ParamV::Text("%"@ + t + "%"@)),
        CondV::KeywordContains(k) => Some(ParamV::Text("%"@ + k + "%"@)),
    }
}

/// The bound parameters of a condition list, in condition order.
pub open spec fn cond_params(cs: Seq<CondV>) -> Seq<ParamV>
    decreases cs.len(),
{
    if cs.len() == 0 {
        Seq::empty()
    } else {
        cond_params(cs.drop_last()) + (match cond_param(cs.last()) {
            Some(p) => seq![p],
            None => Seq::empty(),
        })
    }
}

/// All bound parameters of a compiled retrieval: the condition
/// parameters, then the result cap.
pub open spec fn params_of(cs: Seq<CondV>, limit: u32) -> Seq<ParamV> {
    cond_params(cs).push(ParamV::Int(limit as int))
}

fn param_for(c: &Cond) -> (r: Option<Param>)
    ensures
        match cond_param(c@) {
            Some(p) => r is Some && r->0@ == p,
            None => r is None,
        },
{
    match c {
        Cond::DirExact(d) => Some(Param::Text(d.clone())),
        Cond::DirExactOrGlobal(d) => Some(Param::Text(d.clone())),
        Cond::DirPrefix(d) => Some(Param::Text(d.clone().concat("%"))),
        Cond::DirPrefixOrGlobal(d) => Some(Param::Text(d.clone().concat("%"))),
        Cond::DateExact(d) => Some(Param::Text(d.clone())),
        Cond::SinceHours(n) => {
            let mut p = "-".to_owned();
            p.append(u32_to_dec(*n).as_str());
            p.append(" hours");
            Some(Param::Text(p))
        },
        Cond::SinceMinutes(n) => {
            let mut p = "-".to_owned();
            p.append(u32_to_dec(*n).as_str());
            p.append(" minutes");
            Some(Param::Text(p))
        },
        Cond::Today => None,
        Cond::TagContains(t) => {
            let mut p = "%".to_owned();
            p.append(t.as_str());
            p.append("%");
            Some(Param::Text(p))
        },
        Cond::KeywordContains(k) => {
            let mut p = "%".to_owned();
            p.append(k.as_str());
            p.append("%");
            Some(Param::Text(p))
        },
    }
}

/// Builds the bound parameters of a compiled retrieval, in the order
/// the query text expects them: one per condition that has one, then
/// the result cap.
pub fn build_params(q: &CompiledQuery) -> (r: Vec<Param>)
    ensures
        r@.map_values(|p: Param| p@) == params_of(views_of(q.conds@), q.limit),
{
    let ghost cs = views_of(q.conds@);
    let mut params: Vec<Param> = Vec::new();
    let mut i: usize = 0;
    while i < q.conds.len()
        invariant
            0 <= i <= q.conds.len(),
            cs == views_of(q.conds@),
            cs.len() == q.conds.len(),
            params@.map_values(|p: Param| p@) == cond_params(cs.subrange(0, i as int)),
        decreases q.conds.len() - i,
    {
        proof {
            assert(cs[i as int] == q.conds@[i as int]@);
            assert(cs.subrange(0, i as int + 1).drop_last() =~= cs.subrange(0, i as int));
            assert(cs.subrange(0, i as int + 1).last() == cs[i as int]);
        }
        match param_for(&q.conds[i]) {
            Some(p) => {
                params.push(p);
                proof {
                    assert(params@.map_values(|p: Param| p@) =~= cond_params(
                        cs.subrange(0, i as int + 1),
                    ));
                }
            },
            None => {
                proof {
                    assert(params@.map_values(|p: Param| p@) =~= cond_params(
                        cs.subrange(0, i as int + 1),
                    ));
                }
            },
        }
        i = i + 1;
    }
    proof {
        assert(cs.subrange(0, cs.len() as int) =~= cs);
    }
    params.push(Param::Int(q.limit as i64));
    proof {
        assert(params@.map_values(|p: Param| p@) =~= params_of(cs, q.limit));
    }
    params
}

} // verus!
