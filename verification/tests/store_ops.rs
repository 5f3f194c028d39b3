use dlog::args::GetArgs;
use dlog::commands::{archive_records, calculate_hash, handle_get, handle_log, GetOutcome,
    LogOutcome};
use dlog::text::u64_to_hex;
use dlog::db::{get_db_version, handle_init, initialize_db, InitPlan};
use dlog::filter::Order;
use dlog::query::get_logs_by_ids;
use dlog::DlogError;
use rusqlite::Connection;

fn fresh_store() -> Connection {
    let conn = Connection::open_in_memory().expect("open in-memory store");
    initialize_db(&conn).expect("initialize");
    conn
}

fn insert_record(conn: &Connection, ts: &str, dir: &str, content: &str, tags: &str) {
    conn.execute(
        "INSERT INTO logs (timestamp, directory, content, tags, metadata) VALUES (?1, ?2, ?3, ?4, 'm')",
        (ts, dir, content, tags),
    )
    .expect("insert");
}

fn args_with(all: bool, recursive: bool, num: u32) -> GetArgs {
    GetArgs {
        add_tag: None,
        fix_path: None,
        delete: false,
        force: false,
        recursive,
        all,
        global: false,
        today: false,
        date: None,
        hour: None,
        minute: None,
        tag: None,
        keyword: None,
        identifier: false,
        tags: false,
        reverse: false,
        num,
    }
}

fn count(conn: &Connection, sql: &str) -> i64 {
    conn.query_row(sql, [], |row| row.get(0)).expect("count")
}

#[test]
fn fresh_store_is_at_target_version() {
    let conn = fresh_store();
    assert_eq!(get_db_version(&conn).expect("version"), 2);
}

#[test]
fn init_twice_changes_nothing() {
    let conn = fresh_store();
    insert_record(&conn, "2024-01-01T00:00:00+00:00", "/a", "kept", "");
    initialize_db(&conn).expect("second run");
    assert_eq!(get_db_version(&conn).expect("version"), 2);
    assert_eq!(count(&conn, "SELECT COUNT(*) FROM logs"), 1);
    let content: String = conn
        .query_row("SELECT content FROM logs", [], |row| row.get(0))
        .expect("row");
    assert_eq!(content, "kept");
}

#[test]
fn init_creates_once_and_then_reports_existing() {
    let conn = Connection::open_in_memory().expect("open in-memory store");
    let created = handle_init(&conn, false).expect("first init");
    assert!(matches!(created, InitPlan::Created));
    assert_eq!(get_db_version(&conn).expect("version"), 2);
    insert_record(&conn, "2024-01-01T00:00:00+00:00", "/a", "kept", "");
    let again = handle_init(&conn, true).expect("second init");
    assert!(matches!(again, InitPlan::AlreadyInitialized));
    assert_eq!(get_db_version(&conn).expect("version"), 2);
    assert_eq!(count(&conn, "SELECT COUNT(*) FROM logs"), 1);
}

#[test]
fn recursive_scope_matches_subdirectories() {
    let conn = fresh_store();
    insert_record(&conn, "2024-01-01T00:00:01+00:00", "/a", "one", "");
    insert_record(&conn, "2024-01-01T00:00:02+00:00", "/a", "two", "");
    insert_record(&conn, "2024-01-01T00:00:03+00:00", "/a", "three", "");
    insert_record(&conn, "2024-01-01T00:00:04+00:00", "/a/b", "four", "");
    insert_record(&conn, "2024-01-01T00:00:05+00:00", "/a/b", "five", "");
    let cwd = String::from("/a");

    let rec = handle_get(&conn, &args_with(false, true, 100), &cwd).expect("recursive get");
    match rec {
        GetOutcome::Records(logs) => assert_eq!(logs.len(), 5),
        other => panic!("unexpected outcome: {:?}", outcome_name(&other)),
    }

    let exact = handle_get(&conn, &args_with(false, false, 100), &cwd).expect("exact get");
    match exact {
        GetOutcome::Records(logs) => assert_eq!(logs.len(), 3),
        other => panic!("unexpected outcome: {:?}", outcome_name(&other)),
    }
}

fn outcome_name(o: &GetOutcome) -> &'static str {
    match o {
        GetOutcome::NoMatches => "NoMatches",
        GetOutcome::Tagged(_) => "Tagged",
        GetOutcome::Relocated(_) => "Relocated",
        GetOutcome::Archived(_) => "Archived",
        GetOutcome::Records(_) => "Records",
    }
}

#[test]
fn no_filters_return_newest_first_capped() {
    let conn = fresh_store();
    insert_record(&conn, "2024-01-01T00:00:01+00:00", "/a", "oldest", "");
    insert_record(&conn, "2024-01-01T00:00:02+00:00", "/b", "middle", "");
    insert_record(&conn, "2024-01-01T00:00:03+00:00", "/c", "newest", "");
    let cwd = String::from("/elsewhere");
    let mut args = args_with(true, false, 2);
    let got = handle_get(&conn, &args, &cwd).expect("get");
    match got {
        GetOutcome::Records(logs) => {
            assert_eq!(logs.len(), 2);
            assert_eq!(logs[0].content, "newest");
            assert_eq!(logs[1].content, "middle");
        },
        other => panic!("unexpected outcome: {:?}", outcome_name(&other)),
    }
    args.reverse = true;
    args.num = 100;
    let asc = handle_get(&conn, &args, &cwd).expect("get ascending");
    match asc {
        GetOutcome::Records(logs) => {
            assert_eq!(logs.len(), 3);
            assert_eq!(logs[0].content, "oldest");
            assert_eq!(logs[2].content, "newest");
        },
        other => panic!("unexpected outcome: {:?}", outcome_name(&other)),
    }
}

#[test]
fn global_scope_includes_sentinel_records() {
    let conn = fresh_store();
    insert_record(&conn, "2024-01-01T00:00:01+00:00", "/a", "local", "");
    insert_record(&conn, "2024-01-01T00:00:02+00:00", "global", "everywhere", "");
    let cwd = String::from("/a");
    let mut args = args_with(false, false, 100);
    args.global = true;
    let got = handle_get(&conn, &args, &cwd).expect("get");
    match got {
        GetOutcome::Records(logs) => assert_eq!(logs.len(), 2),
        other => panic!("unexpected outcome: {:?}", outcome_name(&other)),
    }
}

#[test]
fn date_filter_selects_one_day() {
    let conn = fresh_store();
    insert_record(&conn, "2024-01-01T05:00:00+00:00", "/a", "day one", "");
    insert_record(&conn, "2024-01-02T05:00:00+00:00", "/a", "day two", "");
    let cwd = String::from("/a");
    let mut args = args_with(true, false, 100);
    args.date = Some(String::from("2024-01-01"));
    let got = handle_get(&conn, &args, &cwd).expect("get");
    match got {
        GetOutcome::Records(logs) => {
            assert_eq!(logs.len(), 1);
            assert_eq!(logs[0].content, "day one");
        },
        other => panic!("unexpected outcome: {:?}", outcome_name(&other)),
    }
}

#[test]
fn hour_filter_excludes_old_records() {
    let conn = fresh_store();
    insert_record(&conn, "2000-01-01T00:00:00+00:00", "/a", "ancient", "");
    let now = chrono::Utc::now().to_rfc3339();
    insert_record(&conn, now.as_str(), "/a", "fresh", "");
    let cwd = String::from("/a");
    let mut args = args_with(true, false, 100);
    args.hour = Some(1);
    let got = handle_get(&conn, &args, &cwd).expect("get");
    match got {
        GetOutcome::Records(logs) => {
            assert_eq!(logs.len(), 1);
            assert_eq!(logs[0].content, "fresh");
        },
        other => panic!("unexpected outcome: {:?}", outcome_name(&other)),
    }
}

#[test]
fn tag_and_keyword_filters_match_substrings() {
    let conn = fresh_store();
    insert_record(&conn, "2024-01-01T00:00:01+00:00", "/a", "fixing the parser", "work,urgent");
    insert_record(&conn, "2024-01-01T00:00:02+00:00", "/a", "lunch", "personal");
    let cwd = String::from("/a");
    let mut args = args_with(true, false, 100);
    args.tag = Some(String::from("urg"));
    let by_tag = handle_get(&conn, &args, &cwd).expect("get by tag");
    match by_tag {
        GetOutcome::Records(logs) => {
            assert_eq!(logs.len(), 1);
            assert_eq!(logs[0].content, "fixing the parser");
        },
        other => panic!("unexpected outcome: {:?}", outcome_name(&other)),
    }
    let mut kw = args_with(true, false, 100);
    kw.keyword = Some(String::from("parser"));
    let by_kw = handle_get(&conn, &kw, &cwd).expect("get by keyword");
    match by_kw {
        GetOutcome::Records(logs) => assert_eq!(logs.len(), 1),
        other => panic!("unexpected outcome: {:?}", outcome_name(&other)),
    }
}

#[test]
fn empty_match_is_reported_not_failed() {
    let conn = fresh_store();
    let cwd = String::from("/nowhere");
    let got = handle_get(&conn, &args_with(false, false, 10), &cwd).expect("get");
    assert!(matches!(got, GetOutcome::NoMatches));
}

#[test]
fn log_records_note_and_reports_short_hash() {
    let conn = fresh_store();
    let cwd = String::from("/a");
    let out = handle_log(&conn, &String::from("hello there"), &Some(String::from("x,y")), false, &cwd)
        .expect("log");
    match out {
        LogOutcome::Recorded { short_hash } => assert!(short_hash.len() <= 7),
        LogOutcome::Cancelled => panic!("should have recorded"),
    }
    assert_eq!(count(&conn, "SELECT COUNT(*) FROM logs"), 1);
    let (dir, tags): (String, String) = conn
        .query_row("SELECT directory, tags FROM logs", [], |row| {
            Ok((row.get(0)?, row.get(1)?))
        })
        .expect("row");
    assert_eq!(dir, "/a");
    assert_eq!(tags, "x,y");
}

#[test]
fn stored_metadata_is_hex_of_content_digest() {
    let conn = fresh_store();
    let cwd = String::from("/a");
    let out = handle_log(&conn, &String::from("digest me"), &None, false, &cwd).expect("log");
    let reported = match out {
        LogOutcome::Recorded { short_hash } => short_hash,
        LogOutcome::Cancelled => panic!("should have recorded"),
    };
    let (ts, content, metadata): (String, String, String) = conn
        .query_row("SELECT timestamp, content, metadata FROM logs", [], |row| {
            Ok((row.get(0)?, row.get(1)?, row.get(2)?))
        })
        .expect("row");
    let mut input = ts.clone();
    input.push_str(&content);
    let expected = u64_to_hex(calculate_hash(&input));
    assert_eq!(metadata, expected);
    let cut = if expected.len() < 7 { expected.len() } else { 7 };
    assert_eq!(reported, expected[..cut]);
}

#[test]
fn log_global_uses_sentinel_directory() {
    let conn = fresh_store();
    let cwd = String::from("/a");
    handle_log(&conn, &String::from("note"), &None, true, &cwd).expect("log");
    let dir: String = conn
        .query_row("SELECT directory FROM logs", [], |row| row.get(0))
        .expect("row");
    assert_eq!(dir, "global");
}

#[test]
fn empty_content_cancels_without_insert() {
    let conn = fresh_store();
    let cwd = String::from("/a");
    let out = handle_log(&conn, &String::new(), &None, false, &cwd).expect("log");
    assert!(matches!(out, LogOutcome::Cancelled));
    assert_eq!(count(&conn, "SELECT COUNT(*) FROM logs"), 0);
}

#[test]
fn archiving_empty_set_is_a_noop_success() {
    let conn = fresh_store();
    let none: Vec<i64> = Vec::new();
    let moved = archive_records(&conn, &none, true).expect("archive");
    assert_eq!(moved, 0);
    assert_eq!(count(&conn, "SELECT COUNT(*) FROM backup"), 0);
}

#[test]
fn archiving_without_confirmation_is_refused() {
    let conn = fresh_store();
    insert_record(&conn, "2024-01-01T00:00:01+00:00", "/a", "stay", "");
    let ids = vec![1i64];
    let r = archive_records(&conn, &ids, false);
    assert!(matches!(r, Err(DlogError::MissingConfirmation)));
    assert_eq!(count(&conn, "SELECT COUNT(*) FROM logs"), 1);
    assert_eq!(count(&conn, "SELECT COUNT(*) FROM backup"), 0);
}

#[test]
fn delete_action_moves_matches_to_archive() {
    let conn = fresh_store();
    insert_record(&conn, "2024-01-01T00:00:01+00:00", "/a", "goes", "");
    insert_record(&conn, "2024-01-01T00:00:02+00:00", "/b", "stays", "");
    let cwd = String::from("/a");
    let mut args = args_with(false, false, 100);
    args.delete = true;
    args.force = true;
    let got = handle_get(&conn, &args, &cwd).expect("get");
    match got {
        GetOutcome::Archived(n) => assert_eq!(n, 1),
        other => panic!("unexpected outcome: {:?}", outcome_name(&other)),
    }
    assert_eq!(count(&conn, "SELECT COUNT(*) FROM logs"), 1);
    assert_eq!(count(&conn, "SELECT COUNT(*) FROM backup"), 1);
}

#[test]
fn delete_without_force_refused_before_selection() {
    let conn = fresh_store();
    let cwd = String::from("/a");
    let mut args = args_with(false, false, 100);
    args.delete = true;
    let r = handle_get(&conn, &args, &cwd);
    assert!(matches!(r, Err(DlogError::MissingConfirmation)));
}

#[test]
fn add_tag_action_unions_tag_into_matches() {
    let conn = fresh_store();
    insert_record(&conn, "2024-01-01T00:00:01+00:00", "/a", "one", "work");
    insert_record(&conn, "2024-01-01T00:00:02+00:00", "/a", "two", "");
    let cwd = String::from("/a");
    let mut args = args_with(false, false, 100);
    args.add_tag = Some(String::from("done"));
    let got = handle_get(&conn, &args, &cwd).expect("get");
    match got {
        GetOutcome::Tagged(n) => assert_eq!(n, 2),
        other => panic!("unexpected outcome: {:?}", outcome_name(&other)),
    }
    let t1: String = conn
        .query_row("SELECT tags FROM logs WHERE content = 'one'", [], |row| row.get(0))
        .expect("row");
    assert_eq!(t1, "work,done");
    let t2: String = conn
        .query_row("SELECT tags FROM logs WHERE content = 'two'", [], |row| row.get(0))
        .expect("row");
    assert_eq!(t2, "done");
    let again = handle_get(&conn, &args, &cwd).expect("get again");
    assert!(matches!(again, GetOutcome::Tagged(2)));
    let t1b: String = conn
        .query_row("SELECT tags FROM logs WHERE content = 'one'", [], |row| row.get(0))
        .expect("row");
    assert_eq!(t1b, "work,done");
}

#[test]
fn fix_path_action_relocates_matches() {
    let conn = fresh_store();
    insert_record(&conn, "2024-01-01T00:00:01+00:00", "/old", "m", "");
    let cwd = String::from("/old");
    let mut args = args_with(false, false, 100);
    args.fix_path = Some(String::from("/new"));
    let got = handle_get(&conn, &args, &cwd).expect("get");
    match got {
        GetOutcome::Relocated(n) => assert_eq!(n, 1),
        other => panic!("unexpected outcome: {:?}", outcome_name(&other)),
    }
    let dir: String = conn
        .query_row("SELECT directory FROM logs", [], |row| row.get(0))
        .expect("row");
    assert_eq!(dir, "/new");
}

#[test]
fn hydrating_no_ids_touches_nothing() {
    let conn = fresh_store();
    let none: Vec<i64> = Vec::new();
    let logs = get_logs_by_ids(&conn, &none, Order::Desc).expect("hydrate");
    assert!(logs.is_empty());
}

#[test]
fn archive_bound_evicts_oldest_beyond_capacity() {
    let conn = fresh_store();
    for i in 1..=101 {
        let ts = format!("2024-01-01T00:{:02}:{:02}+00:00", i / 60, i % 60);
        conn.execute(
            "INSERT INTO backup (timestamp, directory, content) VALUES (?1, '/a', ?2)",
            (ts, format!("entry {}", i)),
        )
        .expect("insert archive row");
    }
    assert_eq!(count(&conn, "SELECT COUNT(*) FROM backup"), 100);
    assert_eq!(
        count(&conn, "SELECT COUNT(*) FROM backup WHERE content = 'entry 1'"),
        0
    );
    assert_eq!(
        count(&conn, "SELECT COUNT(*) FROM backup WHERE content = 'entry 2'"),
        1
    );
    assert_eq!(
        count(&conn, "SELECT COUNT(*) FROM backup WHERE content = 'entry 101'"),
        1
    );
}
