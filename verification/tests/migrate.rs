use dlog::args::GetArgs;
use dlog::commands::handle_get;
use dlog::db::{apply_steps_tx, get_db_version, steps_after, MigrationStep};
use dlog::store::{backup_into, open_path};
use dlog::DlogError;
use rusqlite::Connection;

fn old_store() -> Connection {
    let conn = Connection::open_in_memory().expect("open in-memory store");
    conn.execute(
        "CREATE TABLE IF NOT EXISTS logs (id INTEGER PRIMARY KEY, timestamp TEXT NOT NULL, directory TEXT NOT NULL, content TEXT NOT NULL, tags TEXT, metadata TEXT, level TEXT)",
        [],
    )
    .expect("create v1 table");
    conn
}

fn count(conn: &Connection, sql: &str) -> i64 {
    conn.query_row(sql, [], |row| row.get(0)).expect("count")
}

#[test]
fn version_of_old_store_reads_as_one() {
    let conn = old_store();
    assert_eq!(get_db_version(&conn).expect("version"), 1);
}

#[test]
fn pending_steps_stop_at_current_version() {
    let pending = steps_after(1);
    assert_eq!(pending.len(), 1);
    assert_eq!(pending[0].target, 2);
    assert!(steps_after(2).is_empty());
    assert!(steps_after(3).is_empty());
}

#[test]
fn migration_advances_old_store_to_target() {
    let conn = old_store();
    conn.execute(
        "INSERT INTO logs (timestamp, directory, content) VALUES ('2024-01-01T00:00:01+00:00', '/a', 'kept')",
        [],
    )
    .expect("insert");
    let steps = steps_after(get_db_version(&conn).expect("version"));
    apply_steps_tx(&conn, &steps).expect("migrate");
    assert_eq!(get_db_version(&conn).expect("version after"), 2);
    assert_eq!(count(&conn, "SELECT COUNT(*) FROM logs"), 1);
    assert_eq!(count(&conn, "SELECT COUNT(*) FROM backup"), 0);
    let again = steps_after(get_db_version(&conn).expect("version"));
    assert!(again.is_empty());
}

#[test]
fn failing_step_rolls_back_in_full() {
    let conn = old_store();
    let bad = vec![MigrationStep {
        target: 2,
        ddl: vec![
            String::from("CREATE TABLE half_done (id INTEGER PRIMARY KEY)"),
            String::from("THIS IS NOT A STATEMENT"),
        ],
    }];
    let r = apply_steps_tx(&conn, &bad);
    assert!(matches!(r, Err(DlogError::MigrationStepFailed(_))));
    assert_eq!(get_db_version(&conn).expect("version"), 1);
    assert_eq!(
        count(
            &conn,
            "SELECT COUNT(*) FROM sqlite_master WHERE type='table' AND name='half_done'"
        ),
        0
    );
    let steps = steps_after(1);
    apply_steps_tx(&conn, &steps).expect("store still usable");
    assert_eq!(get_db_version(&conn).expect("version"), 2);
}

#[test]
fn query_against_missing_table_reports_failure() {
    let conn = Connection::open_in_memory().expect("open in-memory store");
    let args = GetArgs {
        add_tag: None,
        fix_path: None,
        delete: false,
        force: false,
        recursive: false,
        all: true,
        global: false,
        today: false,
        date: None,
        hour: None,
        minute: None,
        tag: None,
        keyword: None,
        identifier: false,
        tags: false,
        reverse: false,
        num: 1,
    };
    let r = handle_get(&conn, &args, &String::from("/a"));
    assert!(matches!(r, Err(DlogError::QueryFailed(_))));
}

#[test]
fn opening_a_directory_as_store_is_unavailable() {
    let r = open_path(".");
    assert!(matches!(r, Err(DlogError::StoreUnavailable(_))));
}

#[test]
fn backup_copies_whole_store() {
    let conn = old_store();
    conn.execute(
        "INSERT INTO logs (timestamp, directory, content) VALUES ('2024-01-01T00:00:01+00:00', '/a', 'precious')",
        [],
    )
    .expect("insert");
    let mut copy = Connection::open_in_memory().expect("open copy");
    backup_into(&conn, &mut copy).expect("backup");
    assert_eq!(count(&copy, "SELECT COUNT(*) FROM logs"), 1);
    let content: String = copy
        .query_row("SELECT content FROM logs", [], |row| row.get(0))
        .expect("row");
    assert_eq!(content, "precious");
}
