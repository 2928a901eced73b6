use keba_home_api::errors::{
    is_debug_replay_finished, is_retryable_db_contention, poller_error_code, AppError, DbError,
    IoErrorKind, KebaClientError, PollerError, ServiceError, SqliteErrorCode,
};
use keba_home_api::keba_payload::ParseError;

#[test]
fn maps_logging_init_error_message() {
    let err = AppError::logging_init("subscriber already set");
    assert_eq!(
        err.to_string(),
        "failed to initialize logging: subscriber already set"
    );
}

#[test]
fn retries_only_for_sqlite_busy_or_locked_errors() {
    let busy_error = ServiceError::Database(DbError::Sqlite {
        code: SqliteErrorCode::DatabaseBusy,
        message: "database is locked".to_string(),
    });
    let locked_error = ServiceError::Database(DbError::Sqlite {
        code: SqliteErrorCode::DatabaseLocked,
        message: "database table is locked".to_string(),
    });
    let other_error = ServiceError::Database(DbError::Sqlite {
        code: SqliteErrorCode::Other,
        message: "Execute returned results - did you mean to call query?".to_string(),
    });

    assert!(is_retryable_db_contention(&busy_error));
    assert!(is_retryable_db_contention(&locked_error));
    assert!(!is_retryable_db_contention(&other_error));
    assert!(!is_retryable_db_contention(&ServiceError::DbLockPoisoned));
}

#[test]
fn error_messages_name_their_cause() {
    assert_eq!(
        AppError::config("KEBA_IP is required").to_string(),
        "invalid configuration: KEBA_IP is required"
    );
    assert_eq!(
        AppError::database_init("x").to_string(),
        "database initialization failed: x"
    );
    assert_eq!(AppError::runtime("y").to_string(), "runtime failure: y");
    let fetch = PollerError::FetchReport2(KebaClientError::Io {
        kind: IoErrorKind::TimedOut,
        message: "timeout".to_string(),
    });
    assert_eq!(
        fetch.to_string(),
        "failed to fetch report 2: transport communication failed: timeout"
    );
    assert_eq!(poller_error_code(&fetch), "poll.fetch_report2");
    let parse = PollerError::ParseReport2(ParseError::MissingField("Plug|State"));
    assert_eq!(
        parse.to_string(),
        "failed to parse report 2: missing required field: Plug|State"
    );
    assert_eq!(poller_error_code(&parse), "poll.parse_report2");
    let version = PollerError::Database(DbError::UnsupportedSchemaVersion {
        current: 17,
        latest: 5,
    });
    assert_eq!(
        version.to_string(),
        "database write failed: unsupported schema version 17; latest supported is 5"
    );
    assert_eq!(poller_error_code(&PollerError::DbLockPoisoned), "poll.db_lock_poisoned");
    assert_eq!(
        poller_error_code(&PollerError::ResultsIo("disk full".to_string())),
        "poll.results_io"
    );
}

#[test]
fn replay_end_is_an_unexpected_eof_on_plug_report() {
    let eof = PollerError::FetchReport2(KebaClientError::Io {
        kind: IoErrorKind::UnexpectedEof,
        message: "debug replay finished".to_string(),
    });
    assert!(is_debug_replay_finished(&eof));
    let timeout = PollerError::FetchReport2(KebaClientError::Io {
        kind: IoErrorKind::TimedOut,
        message: "timeout".to_string(),
    });
    assert!(!is_debug_replay_finished(&timeout));
    assert!(!is_debug_replay_finished(&PollerError::DbLockPoisoned));
}
