use keba_home_api::storage::{migration_script, plan_migrations, LATEST_SCHEMA_VERSION};
use rusqlite::Connection;

fn schema_version(connection: &Connection) -> u32 {
    connection
        .pragma_query_value(None, "user_version", |row| row.get(0))
        .expect("schema version should be queryable")
}

fn migrate(connection: &mut Connection) {
    let steps = plan_migrations(schema_version(connection)).expect("migration plan");
    let transaction = connection.transaction().expect("transaction");
    for version in steps {
        transaction
            .execute_batch(migration_script(version))
            .expect("migration script should run");
        transaction
            .pragma_update(None, "user_version", version)
            .expect("version update");
    }
    transaction.commit().expect("commit");
}

fn count(connection: &Connection, sql: &str) -> i64 {
    connection
        .query_row(sql, [], |row| row.get(0))
        .expect("count query should succeed")
}

#[test]
fn migrates_fresh_database_to_latest_version() {
    let mut connection = Connection::open_in_memory().expect("db connection should open");
    migrate(&mut connection);

    assert_eq!(schema_version(&connection), LATEST_SCHEMA_VERSION);
    assert_eq!(count(&connection, "SELECT COUNT(*) FROM sqlite_master WHERE type='table' AND name='charging_sessions'"), 1);
    assert_eq!(count(&connection, "SELECT COUNT(*) FROM sqlite_master WHERE type='table' AND name='log_events'"), 1);
    assert_eq!(count(&connection, "SELECT COUNT(*) FROM sqlite_master WHERE type='table' AND name='charging_session_log_events'"), 1);
    assert_eq!(count(&connection, "SELECT COUNT(*) FROM sqlite_master WHERE type='table' AND name='sessions'"), 0);
    assert_eq!(count(&connection, "SELECT \"notnull\" FROM pragma_table_info('charging_sessions') WHERE name = 'started_at'"), 0);
    assert_eq!(count(&connection, "SELECT COUNT(*) FROM sqlite_master WHERE type='index' AND name='idx_charging_sessions_created_at_desc'"), 1);
}

#[test]
fn migrations_are_idempotent() {
    let mut connection = Connection::open_in_memory().expect("db connection should open");
    migrate(&mut connection);
    migrate(&mut connection);
    assert_eq!(schema_version(&connection), LATEST_SCHEMA_VERSION);
}

#[test]
fn keeps_existing_data_when_migrations_rerun() {
    let mut connection = Connection::open_in_memory().expect("db connection should open");
    connection
        .execute_batch(
            r#"
            PRAGMA user_version = 1;
            CREATE TABLE IF NOT EXISTS sessions (
                id INTEGER PRIMARY KEY AUTOINCREMENT,
                plugged_at TEXT NOT NULL,
                unplugged_at TEXT NOT NULL,
                kwh REAL NOT NULL,
                created_at TEXT NOT NULL,
                raw_report2 TEXT,
                raw_report3 TEXT
            );
            "#,
        )
        .expect("legacy schema setup should succeed");
    connection
        .execute(
            "INSERT INTO sessions (plugged_at, unplugged_at, kwh, created_at) VALUES (?1, ?2, ?3, ?4)",
            (
                "2026-02-20T18:12:03.120Z",
                "2026-02-20T22:45:10.002Z",
                10.83_f64,
                "2026-02-20T22:45:10.002Z",
            ),
        )
        .expect("insert should succeed");

    migrate(&mut connection);
    migrate(&mut connection);

    assert_eq!(count(&connection, "SELECT COUNT(*) FROM charging_sessions"), 1);
    assert_eq!(
        count(&connection, "SELECT duration_ms FROM charging_sessions"),
        16_387_000
    );
}

#[test]
fn linking_the_same_pair_twice_keeps_one_row() {
    let mut connection = Connection::open_in_memory().expect("db connection should open");
    migrate(&mut connection);
    connection
        .execute(
            "INSERT INTO charging_sessions (id, started_at, finished_at, duration_ms, energy_kwh, source, status,
             started_reason, finished_reason, poll_interval_ms, debounce_samples, error_count_during_session, created_at)
             VALUES ('s1', NULL, '2026-02-20T11:00:00.000Z', 0, 0.0, 'udp', 'completed', 'plug_state_transition',
             'plug_state_transition', 1000, 2, 0, '2026-02-20T11:00:00.000Z')",
            [],
        )
        .expect("session insert");
    connection
        .execute(
            "INSERT INTO log_events (id, created_at, level, code, message, source)
             VALUES ('l1', '2026-02-20T10:10:00.000Z', 'warn', 'poll.fetch_report2', 'failed', 'udp')",
            [],
        )
        .expect("log insert");
    for _ in 0..2 {
        connection
            .execute(
                "INSERT OR IGNORE INTO charging_session_log_events (session_id, log_event_id) VALUES (?1, ?2)",
                ("s1", "l1"),
            )
            .expect("link insert");
    }
    assert_eq!(count(&connection, "SELECT COUNT(*) FROM charging_session_log_events"), 1);
}
