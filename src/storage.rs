use vstd::prelude::*;

use crate::errors::DbError;

verus! {

/// The schema version that the migrations below lead to.
pub const LATEST_SCHEMA_VERSION: u32 = 5;

/// The first schema: a plain sessions table.
pub const SCHEMA_V1_LEGACY_SESSIONS: &'static str = r#"
CREATE TABLE IF NOT EXISTS sessions (
    id INTEGER PRIMARY KEY AUTOINCREMENT,
    plugged_at TEXT NOT NULL,
    unplugged_at TEXT NOT NULL,
    kwh REAL NOT NULL,
    created_at TEXT NOT NULL,
    raw_report2 TEXT,
    raw_report3 TEXT
);

CREATE INDEX IF NOT EXISTS idx_sessions_created_at_desc
ON sessions (created_at DESC);
"#;

/// Charging sessions with outcome and provenance columns; legacy rows are carried over.
pub const SCHEMA_V2_CHARGING_SESSIONS: &'static str = r#"
CREATE TABLE IF NOT EXISTS charging_sessions (
    id INTEGER PRIMARY KEY AUTOINCREMENT,
    started_at TEXT NOT NULL,
    finished_at TEXT NOT NULL,
    duration_ms INTEGER NOT NULL,
    energy_kwh REAL NOT NULL,
    source TEXT NOT NULL,
    status TEXT NOT NULL,
    started_reason TEXT NOT NULL,
    finished_reason TEXT NOT NULL,
    poll_interval_ms INTEGER NOT NULL,
    debounce_samples INTEGER NOT NULL,
    error_count_during_session INTEGER NOT NULL,
    station_id TEXT,
    created_at TEXT NOT NULL,
    raw_report2_start TEXT,
    raw_report3_start TEXT,
    raw_report2_end TEXT,
    raw_report3_end TEXT
);

INSERT INTO charging_sessions (
    started_at,
    finished_at,
    duration_ms,
    energy_kwh,
    source,
    status,
    started_reason,
    finished_reason,
    poll_interval_ms,
    debounce_samples,
    error_count_during_session,
    station_id,
    created_at,
    raw_report2_start,
    raw_report3_start,
    raw_report2_end,
    raw_report3_end
)
SELECT
    plugged_at,
    unplugged_at,
    MAX((CAST(strftime('%s', unplugged_at) AS INTEGER) - CAST(strftime('%s', plugged_at) AS INTEGER)) * 1000, 0),
    kwh,
    'udp',
    'completed',
    'plug_state_transition',
    'plug_state_transition',
    1000,
    2,
    0,
    NULL,
    created_at,
    NULL,
    NULL,
    raw_report2,
    raw_report3
FROM sessions;

DROP TABLE sessions;

CREATE INDEX IF NOT EXISTS idx_charging_sessions_created_at_desc
ON charging_sessions (created_at DESC);

CREATE INDEX IF NOT EXISTS idx_charging_sessions_station_created_at_desc
ON charging_sessions (station_id, created_at DESC);
"#;

/// Log events and their links to sessions.
pub const SCHEMA_V3_LOG_EVENTS: &'static str = r#"
CREATE TABLE IF NOT EXISTS log_events (
    id INTEGER PRIMARY KEY AUTOINCREMENT,
    created_at TEXT NOT NULL,
    level TEXT NOT NULL,
    code TEXT NOT NULL,
    message TEXT NOT NULL,
    source TEXT NOT NULL,
    station_id TEXT,
    details_json TEXT
);

CREATE INDEX IF NOT EXISTS idx_log_events_created_at_desc
ON log_events (created_at DESC);

CREATE INDEX IF NOT EXISTS idx_log_events_code_created_at_desc
ON log_events (code, created_at DESC);

CREATE TABLE IF NOT EXISTS charging_session_log_events (
    session_id INTEGER NOT NULL,
    log_event_id INTEGER NOT NULL,
    PRIMARY KEY (session_id, log_event_id),
    FOREIGN KEY (session_id) REFERENCES charging_sessions(id) ON DELETE CASCADE,
    FOREIGN KEY (log_event_id) REFERENCES log_events(id) ON DELETE CASCADE
);

CREATE INDEX IF NOT EXISTS idx_charging_session_log_events_log_event
ON charging_session_log_events (log_event_id);
"#;

/// Text identifiers for sessions and log events; existing rows keep theirs with a prefix.
pub const SCHEMA_V4_TEXT_IDS: &'static str = r#"
CREATE TABLE IF NOT EXISTS charging_sessions_v2 (
    id TEXT PRIMARY KEY,
    started_at TEXT NOT NULL,
    finished_at TEXT NOT NULL,
    duration_ms INTEGER NOT NULL,
    energy_kwh REAL NOT NULL,
    source TEXT NOT NULL,
    status TEXT NOT NULL,
    started_reason TEXT NOT NULL,
    finished_reason TEXT NOT NULL,
    poll_interval_ms INTEGER NOT NULL,
    debounce_samples INTEGER NOT NULL,
    error_count_during_session INTEGER NOT NULL,
    station_id TEXT,
    created_at TEXT NOT NULL,
    raw_report2_start TEXT,
    raw_report3_start TEXT,
    raw_report2_end TEXT,
    raw_report3_end TEXT
);

INSERT INTO charging_sessions_v2 (
    id, started_at, finished_at, duration_ms, energy_kwh, source, status, started_reason, finished_reason,
    poll_interval_ms, debounce_samples, error_count_during_session, station_id, created_at,
    raw_report2_start, raw_report3_start, raw_report2_end, raw_report3_end
)
SELECT
    'legacy-session-' || id, started_at, finished_at, duration_ms, energy_kwh, source, status, started_reason, finished_reason,
    poll_interval_ms, debounce_samples, error_count_during_session, station_id, created_at,
    raw_report2_start, raw_report3_start, raw_report2_end, raw_report3_end
FROM charging_sessions;

CREATE TABLE IF NOT EXISTS log_events_v2 (
    id TEXT PRIMARY KEY,
    created_at TEXT NOT NULL,
    level TEXT NOT NULL,
    code TEXT NOT NULL,
    message TEXT NOT NULL,
    source TEXT NOT NULL,
    station_id TEXT,
    details_json TEXT
);

INSERT INTO log_events_v2 (id, created_at, level, code, message, source, station_id, details_json)
SELECT
    'legacy-log-' || id, created_at, level, code, message, source, station_id, details_json
FROM log_events;

CREATE TABLE IF NOT EXISTS charging_session_log_events_v2 (
    session_id TEXT NOT NULL,
    log_event_id TEXT NOT NULL,
    PRIMARY KEY (session_id, log_event_id),
    FOREIGN KEY (session_id) REFERENCES charging_sessions_v2(id) ON DELETE CASCADE,
    FOREIGN KEY (log_event_id) REFERENCES log_events_v2(id) ON DELETE CASCADE
);

INSERT INTO charging_session_log_events_v2 (session_id, log_event_id)
SELECT
    'legacy-session-' || session_id,
    'legacy-log-' || log_event_id
FROM charging_session_log_events;

DROP TABLE charging_session_log_events;
DROP TABLE log_events;
DROP TABLE charging_sessions;

ALTER TABLE charging_sessions_v2 RENAME TO charging_sessions;
ALTER TABLE log_events_v2 RENAME TO log_events;
ALTER TABLE charging_session_log_events_v2 RENAME TO charging_session_log_events;

CREATE INDEX IF NOT EXISTS idx_charging_sessions_created_at_desc
ON charging_sessions (created_at DESC);

CREATE INDEX IF NOT EXISTS idx_charging_sessions_station_created_at_desc
ON charging_sessions (station_id, created_at DESC);

CREATE INDEX IF NOT EXISTS idx_log_events_created_at_desc
ON log_events (created_at DESC);

CREATE INDEX IF NOT EXISTS idx_log_events_code_created_at_desc
ON log_events (code, created_at DESC);

CREATE INDEX IF NOT EXISTS idx_charging_session_log_events_log_event
ON charging_session_log_events (log_event_id);
"#;

/// `started_at` may be unknown.
pub const SCHEMA_V5_NULLABLE_STARTED_AT: &'static str = r#"
CREATE TABLE IF NOT EXISTS charging_sessions_v3 (
    id TEXT PRIMARY KEY,
    started_at TEXT,
    finished_at TEXT NOT NULL,
    duration_ms INTEGER NOT NULL,
    energy_kwh REAL NOT NULL,
    source TEXT NOT NULL,
    status TEXT NOT NULL,
    started_reason TEXT NOT NULL,
    finished_reason TEXT NOT NULL,
    poll_interval_ms INTEGER NOT NULL,
    debounce_samples INTEGER NOT NULL,
    error_count_during_session INTEGER NOT NULL,
    station_id TEXT,
    created_at TEXT NOT NULL,
    raw_report2_start TEXT,
    raw_report3_start TEXT,
    raw_report2_end TEXT,
    raw_report3_end TEXT
);

INSERT INTO charging_sessions_v3 (
    id, started_at, finished_at, duration_ms, energy_kwh, source, status, started_reason, finished_reason,
    poll_interval_ms, debounce_samples, error_count_during_session, station_id, created_at,
    raw_report2_start, raw_report3_start, raw_report2_end, raw_report3_end
)
SELECT
    id, started_at, finished_at, duration_ms, energy_kwh, source, status, started_reason, finished_reason,
    poll_interval_ms, debounce_samples, error_count_during_session, station_id, created_at,
    raw_report2_start, raw_report3_start, raw_report2_end, raw_report3_end
FROM charging_sessions;

DROP TABLE charging_sessions;
ALTER TABLE charging_sessions_v3 RENAME TO charging_sessions;

CREATE INDEX IF NOT EXISTS idx_charging_sessions_created_at_desc
ON charging_sessions (created_at DESC);

CREATE INDEX IF NOT EXISTS idx_charging_sessions_station_created_at_desc
ON charging_sessions (station_id, created_at DESC);
"#;

/// The script that takes the schema to `version`, for the versions of the migration list.
pub fn migration_script(version: u32) -> (r: &'static str)
    requires
        1 <= version <= LATEST_SCHEMA_VERSION,
    ensures
        version == 1 ==> r@ == SCHEMA_V1_LEGACY_SESSIONS@,
        version == 2 ==> r@ == SCHEMA_V2_CHARGING_SESSIONS@,
        version == 3 ==> r@ == SCHEMA_V3_LOG_EVENTS@,
        version == 4 ==> r@ == SCHEMA_V4_TEXT_IDS@,
        version == 5 ==> r@ == SCHEMA_V5_NULLABLE_STARTED_AT@,
{
    if version == 1 {
        SCHEMA_V1_LEGACY_SESSIONS
    } else if version == 2 {
        SCHEMA_V2_CHARGING_SESSIONS
    } else if version == 3 {
        SCHEMA_V3_LOG_EVENTS
    } else if version == 4 {
        SCHEMA_V4_TEXT_IDS
    } else {
        SCHEMA_V5_NULLABLE_STARTED_AT
    }
}

/// The versions still to apply, in order, to a store at `current`; a store newer than
/// the latest known version is refused.
pub open spec fn pending_versions(current: u32) -> Result<Seq<u32>, DbError> {
    if current > LATEST_SCHEMA_VERSION {
        Err(DbError::UnsupportedSchemaVersion { current, latest: LATEST_SCHEMA_VERSION })
    } else {
        Ok(Seq::new((LATEST_SCHEMA_VERSION - current) as nat, |i: int| (current + 1 + i) as u32))
    }
}

/// The version a store at `current` has once its pending migrations are applied.
pub open spec fn version_after(current: u32) -> u32 {
    match pending_versions(current) {
        Ok(steps) => if steps.len() == 0 { current } else { steps.last() },
        Err(_) => current,
    }
}

/// Plans a migration run: the versions to apply, oldest first.
pub fn plan_migrations(current: u32) -> (r: Result<Vec<u32>, DbError>)
    ensures
        match (r, pending_versions(current)) {
            (Ok(v), Ok(s)) => v@ == s,
            (Err(e), Err(f)) => e == f,
            _ => false,
        },
{
    if current > LATEST_SCHEMA_VERSION {
        return Err(DbError::UnsupportedSchemaVersion { current, latest: LATEST_SCHEMA_VERSION });
    }
    let mut steps: Vec<u32> = Vec::new();
    let mut version: u32 = current;
    while version < LATEST_SCHEMA_VERSION
        invariant
            current <= version <= LATEST_SCHEMA_VERSION,
            steps@ == Seq::new((version - current) as nat, |i: int| (current + 1 + i) as u32),
        decreases LATEST_SCHEMA_VERSION - version,
    {
        version = version + 1;
        steps.push(version);
        assert(steps@ =~= Seq::new((version - current) as nat, |i: int| (current + 1 + i) as u32));
    }
    Ok(steps)
}

/// Running the migrations a second time changes nothing: the first run leaves the store
/// at the latest version, where no step is pending, so the version and the rows stay.
pub proof fn lemma_migrations_idempotent(current: u32)
    requires
        current <= LATEST_SCHEMA_VERSION,
    ensures
        version_after(current) == LATEST_SCHEMA_VERSION,
        version_after(version_after(current)) == version_after(current),
        pending_versions(version_after(current)) matches Ok(steps) && steps.len() == 0,
{
}

/// A page size as the read surface takes it: 50 when not given, else within 1 to 500.
pub open spec fn clamped_limit(limit: Option<u32>) -> u32 {
    match limit {
        None => 50,
        Some(l) => if l < 1 { 1 } else if l > 500 { 500 } else { l },
    }
}

pub fn clamp_limit(limit: Option<u32>) -> (r: u32)
    ensures
        r == clamped_limit(limit),
        1 <= r <= 500,
{
    match limit {
        None => 50,
        Some(l) => if l < 1 { 1 } else if l > 500 { 500 } else { l },
    }
}

} // verus!
