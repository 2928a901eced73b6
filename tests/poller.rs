use std::cell::Cell;
use std::collections::{BTreeSet, VecDeque};

use keba_home_api::errors::{
    DbError, IoErrorKind, KebaClientError, PollerError, ServiceError, SqliteErrorCode,
};
use keba_home_api::models::{NewLogEventRecord, NewSessionRecord};
use keba_home_api::poller::{
    retry_delay_ms, FetchedPayload, PollerAction, PollerEvent, SessionPoller, SessionPollerConfig,
    SessionResultEntry,
};
use keba_home_api::session_state::{Clock, TimestampMs};

struct StepClock {
    values: Vec<i64>,
    index: Cell<usize>,
}

impl StepClock {
    fn new(values: Vec<i64>) -> Self {
        Self {
            values,
            index: Cell::new(0),
        }
    }
}

impl Clock for StepClock {
    fn now(&self) -> TimestampMs {
        let index = self.index.get();
        self.index.set(index + 1);
        TimestampMs(*self.values.get(index).unwrap_or(&0))
    }
}

#[derive(Default)]
struct Store {
    sessions: Vec<(String, NewSessionRecord)>,
    log_events: Vec<(String, NewLogEventRecord)>,
    links: BTreeSet<(String, String)>,
    appended: Vec<(String, SessionResultEntry)>,
    session_failures: VecDeque<ServiceError>,
    slept: Vec<u64>,
}

type Fetch = Result<FetchedPayload, KebaClientError>;

fn ok(text: &str) -> Fetch {
    Ok(FetchedPayload::from_json_text(text.to_string()).expect("scripted payload must be JSON"))
}

fn timeout() -> Fetch {
    Err(KebaClientError::Io {
        kind: IoErrorKind::TimedOut,
        message: "timeout".to_string(),
    })
}

fn busy() -> ServiceError {
    ServiceError::Database(DbError::Sqlite {
        code: SqliteErrorCode::DatabaseBusy,
        message: "database is locked".to_string(),
    })
}

fn perform(
    poller: &mut SessionPoller,
    clock: &StepClock,
    store: &mut Store,
    first: PollerAction,
    report2: &mut Option<Fetch>,
    report3: &mut VecDeque<Fetch>,
) -> Result<(), PollerError> {
    let mut action = first;
    loop {
        let event = match action {
            PollerAction::FetchReport2 => PollerEvent::Report2(report2.take().expect("one plug report per cycle")),
            PollerAction::FetchReport3 => PollerEvent::Report3(report3.pop_front().expect("energy report scripted")),
            PollerAction::StoreLogEvent(event) => {
                let id = format!("log-{}", store.log_events.len());
                store.log_events.push((id.clone(), event));
                PollerEvent::LogEventStored(Ok(id))
            }
            PollerAction::StoreSession(session) => match store.session_failures.pop_front() {
                Some(error) => PollerEvent::SessionStored(Err(error)),
                None => {
                    let id = format!("session-{}", store.sessions.len());
                    store.sessions.push((id.clone(), session));
                    PollerEvent::SessionStored(Ok(id))
                }
            },
            PollerAction::LinkLogEvents {
                session_id,
                log_event_ids,
            } => {
                for id in log_event_ids {
                    store.links.insert((session_id.clone(), id));
                }
                PollerEvent::LogEventsLinked(Ok(()))
            }
            PollerAction::Sleep { ms } => {
                store.slept.push(ms);
                PollerEvent::Slept
            }
            PollerAction::AppendResult { path, entry } => {
                store.appended.push((path, entry));
                PollerEvent::ResultAppended(Ok(()))
            }
            PollerAction::Finished(result) => return result,
        };
        action = poller.step(event, clock);
    }
}

fn poll(
    poller: &mut SessionPoller,
    clock: &StepClock,
    store: &mut Store,
    report2: Fetch,
    report3: &mut VecDeque<Fetch>,
) -> Result<(), PollerError> {
    let start = poller.start_tick();
    let result = perform(poller, clock, store, start, &mut Some(report2), report3);
    if let Err(error) = &result {
        let note = poller.note_poll_error(error, clock);
        perform(poller, clock, store, note, &mut None, report3).expect("noting an error succeeds");
    }
    result
}

fn poller(results_output_file: Option<&str>) -> SessionPoller {
    SessionPoller::new(
        2,
        SessionPollerConfig {
            source: "debug_file".to_string(),
            poll_interval_ms: 1000,
            station_id: None,
            results_output_file: results_output_file.map(ToString::to_string),
        },
    )
}

fn plug(value: u32) -> Fetch {
    ok(&format!("{{\"Plug\":{value}}}"))
}

fn drive(poller: &mut SessionPoller, clock: &StepClock, store: &mut Store, plugs: &[u32], report3: &mut VecDeque<Fetch>) {
    for value in plugs {
        poll(poller, clock, store, plug(*value), report3).expect("poll cycle should succeed");
    }
}

#[test]
fn persists_session_from_simulated_udp_responder() {
    let clock = StepClock::new(vec![1_700_000_000_000, 1_700_000_060_000]);
    let mut store = Store::default();
    let mut p = poller(None);
    let mut report3 = VecDeque::from(vec![
        ok(r#"{"E pres":2000,"Total energy":100000}"#),
        ok(r#"{"E pres":7000,"Total energy":105000}"#),
    ]);

    drive(&mut p, &clock, &mut store, &[0, 0, 7, 7, 0, 0], &mut report3);

    assert_eq!(store.sessions.len(), 1);
    let session = &store.sessions[0].1;
    assert_eq!(session.status, "completed");
    assert_eq!(session.finished_reason, "plug_state_transition");
    assert_eq!(session.started_reason, "plug_state_transition");
    assert_eq!(session.energy_mwh, 5_000_000);
    assert_eq!(session.started_at.as_deref(), Some("2023-11-14T22:13:20.000Z"));
    assert_eq!(session.finished_at, "2023-11-14T22:14:20.000Z");
    assert_eq!(session.created_at, "2023-11-14T22:14:20.000Z");
    assert_eq!(session.duration_ms, 60_000);
    assert_eq!(session.error_count_during_session, 0);
    assert_eq!(session.raw_report2_start.as_deref(), Some("{\"Plug\":7}"));
    assert_eq!(session.raw_report3_end.as_deref(), Some(r#"{"E pres":7000,"Total energy":105000}"#));
    assert!(store.log_events.is_empty());
}

#[test]
fn persists_aborted_session_when_report3_fetch_fails_on_unplugged() {
    let clock = StepClock::new(vec![1_700_000_000_000, 1_700_000_060_000, 1_700_000_061_000]);
    let mut store = Store::default();
    let mut p = poller(Some("results.json"));
    let mut report3 = VecDeque::from(vec![ok(r#"{"E pres":2000,"Total energy":100000}"#), timeout()]);

    drive(&mut p, &clock, &mut store, &[0, 0, 7, 7, 0, 0], &mut report3);

    assert_eq!(store.sessions.len(), 1);
    let (session_id, session) = &store.sessions[0];
    assert_eq!(session.status, "aborted");
    assert_eq!(session.finished_reason, "report3_fetch_failed");
    assert_eq!(session.energy_mwh, 0);
    assert_eq!(session.raw_report3_end, None);
    assert_eq!(store.log_events.len(), 1);
    let (log_id, log) = &store.log_events[0];
    assert_eq!(log.code, "poll.fetch_report3_on_unplugged");
    assert_eq!(log.level, "warn");
    assert_eq!(log.message, "transport communication failed: timeout");
    assert_eq!(
        log.details_json.as_deref(),
        Some(r#"{"finishedAt":"2023-11-14T22:14:20.000Z","startedAt":"2023-11-14T22:13:20.000Z"}"#)
    );
    assert!(store.links.contains(&(session_id.clone(), log_id.clone())));
    assert!(store.appended.is_empty());
}

#[test]
fn non_monotone_present_energy_gives_invalid_clamped_session() {
    let clock = StepClock::new(vec![1_000, 61_000, 62_000]);
    let mut store = Store::default();
    let mut p = poller(None);
    let mut report3 = VecDeque::from(vec![
        ok(r#"{"Energy (present session)":10.0}"#),
        ok(r#"{"Energy (present session)":3.0}"#),
    ]);

    drive(&mut p, &clock, &mut store, &[0, 0, 7, 7, 0, 0], &mut report3);

    assert_eq!(store.sessions.len(), 1);
    let session = &store.sessions[0].1;
    assert_eq!(session.status, "invalid");
    assert_eq!(session.finished_reason, "energy_clamped");
    assert_eq!(session.energy_mwh, 0);
    assert_eq!(store.log_events.len(), 1);
    assert_eq!(store.log_events[0].1.code, "poll.energy_warning");
    assert_eq!(
        store.log_events[0].1.details_json.as_deref(),
        Some(r#"{"warnings":"[NegativePresentSessionDeltaClamped]"}"#)
    );
}

#[test]
fn energy_without_usable_data_gives_invalid_compute_failed_session() {
    let clock = StepClock::new(vec![1_000, 1_500, 61_000, 62_000]);
    let mut store = Store::default();
    let mut p = poller(Some("out/results.json"));
    let mut report3 = VecDeque::from(vec![timeout(), ok(r#"{"Total energy":105000}"#)]);

    drive(&mut p, &clock, &mut store, &[0, 0, 7, 7, 0, 0], &mut report3);

    assert_eq!(store.sessions.len(), 1);
    let session = &store.sessions[0].1;
    assert_eq!(session.status, "invalid");
    assert_eq!(session.finished_reason, "energy_compute_failed");
    assert_eq!(session.energy_mwh, 0);
    assert_eq!(session.raw_report3_start, None);
    let codes: Vec<&str> = store.log_events.iter().map(|(_, e)| e.code.as_str()).collect();
    assert_eq!(codes, vec!["poll.fetch_report3_on_plugged", "poll.compute_energy_on_unplugged"]);
    assert_eq!(session.error_count_during_session, 1);
    assert_eq!(store.appended.len(), 1);
    assert_eq!(store.appended[0].0, "out/results.json");
}

#[test]
fn unparseable_energy_at_unplug_gives_invalid_parse_failed_session() {
    let clock = StepClock::new(vec![1_000, 61_000, 62_000]);
    let mut store = Store::default();
    let mut p = poller(None);
    let mut report3 = VecDeque::from(vec![ok(r#"{"E pres":1}"#), ok(r#"{"report":3}"#)]);

    drive(&mut p, &clock, &mut store, &[0, 0, 7, 7, 0, 0], &mut report3);

    let session = &store.sessions[0].1;
    assert_eq!(session.status, "invalid");
    assert_eq!(session.finished_reason, "report3_parse_failed");
    assert_eq!(session.raw_report3_end.as_deref(), Some(r#"{"report":3}"#));
    assert_eq!(store.log_events[0].1.code, "poll.parse_report3_on_unplugged");
}

#[test]
fn startup_in_plugged_state_creates_nothing() {
    let clock = StepClock::new(vec![]);
    let mut store = Store::default();
    let mut p = poller(None);
    let mut report3 = VecDeque::new();

    drive(&mut p, &clock, &mut store, &[7, 7], &mut report3);

    assert!(store.sessions.is_empty());
    assert!(store.log_events.is_empty());
}

#[test]
fn debounce_flap_at_start_does_not_create_session() {
    let clock = StepClock::new(vec![1_000, 2_000, 3_000, 4_000]);
    let mut store = Store::default();
    let mut p = poller(None);
    let mut report3 = VecDeque::new();

    drive(&mut p, &clock, &mut store, &[0, 0, 7, 0, 7, 0], &mut report3);

    assert!(store.sessions.is_empty());
    assert!(store.log_events.is_empty());
}

#[test]
fn poll_errors_during_session_are_counted_and_linked() {
    let clock = StepClock::new(vec![1_000, 2_000, 3_000, 61_000]);
    let mut store = Store::default();
    let mut p = poller(Some("results.json"));
    let mut report3 = VecDeque::from(vec![
        ok(r#"{"E pres":2000,"Total energy":100000}"#),
        ok(r#"{"E pres":7000,"Total energy":105000}"#),
    ]);

    drive(&mut p, &clock, &mut store, &[0, 0, 7, 7], &mut report3);
    assert!(poll(&mut p, &clock, &mut store, timeout(), &mut report3).is_err());
    assert!(poll(&mut p, &clock, &mut store, ok(r#"{"Seconds":5}"#), &mut report3).is_err());
    drive(&mut p, &clock, &mut store, &[0, 0], &mut report3);

    let (session_id, session) = &store.sessions[0];
    assert_eq!(session.status, "completed");
    assert_eq!(session.error_count_during_session, 2);
    assert_eq!(store.log_events.len(), 2);
    assert_eq!(store.log_events[0].1.code, "poll.fetch_report2");
    assert_eq!(
        store.log_events[0].1.details_json.as_deref(),
        Some(r#"{"activeSession":true,"errorCountDuringSession":1}"#)
    );
    assert_eq!(store.log_events[1].1.code, "poll.parse_report2");
    for (log_id, _) in &store.log_events {
        assert!(store.links.contains(&(session_id.clone(), log_id.clone())));
    }
    assert_eq!(
        store.appended,
        vec![(
            "results.json".to_string(),
            SessionResultEntry {
                from: "1970-01-01T00:00:01.000Z".to_string(),
                to: "1970-01-01T00:01:01.000Z".to_string(),
                duration_ms: 60_000,
                mwh: 5_000_000,
            }
        )]
    );
}

#[test]
fn poll_errors_outside_sessions_are_not_linked() {
    let clock = StepClock::new(vec![1_000]);
    let mut store = Store::default();
    let mut p = poller(None);
    let mut report3 = VecDeque::new();

    assert!(poll(&mut p, &clock, &mut store, timeout(), &mut report3).is_err());

    assert_eq!(store.log_events.len(), 1);
    assert_eq!(
        store.log_events[0].1.details_json.as_deref(),
        Some(r#"{"activeSession":false,"errorCountDuringSession":0}"#)
    );
    assert!(store.links.is_empty());
}

#[test]
fn busy_store_is_retried_with_linear_backoff() {
    let clock = StepClock::new(vec![1_000, 61_000]);
    let mut store = Store::default();
    store.session_failures = VecDeque::from(vec![busy(), busy()]);
    let mut p = poller(None);
    let mut report3 = VecDeque::from(vec![ok(r#"{"E pres":1}"#), ok(r#"{"E pres":2}"#)]);

    drive(&mut p, &clock, &mut store, &[0, 0, 7, 7, 0, 0], &mut report3);

    assert_eq!(store.slept, vec![250, 500]);
    assert_eq!(store.sessions.len(), 1);
}

#[test]
fn busy_store_gives_up_after_three_retries() {
    let clock = StepClock::new(vec![1_000, 61_000, 62_000]);
    let mut store = Store::default();
    store.session_failures = VecDeque::from(vec![busy(), busy(), busy(), busy()]);
    let mut p = poller(None);
    let mut report3 = VecDeque::from(vec![ok(r#"{"E pres":1}"#), ok(r#"{"E pres":2}"#)]);

    drive(&mut p, &clock, &mut store, &[0, 0, 7, 7, 0], &mut report3);
    let result = poll(&mut p, &clock, &mut store, plug(0), &mut report3);

    assert_eq!(result, Err(PollerError::Database(DbError::Sqlite {
        code: SqliteErrorCode::DatabaseBusy,
        message: "database is locked".to_string(),
    })));
    assert_eq!(store.slept, vec![250, 500, 750]);
    assert!(store.sessions.is_empty());
    assert_eq!(store.log_events[0].1.code, "poll.database");
}

#[test]
fn retry_delay_only_for_contention() {
    assert_eq!(retry_delay_ms(&busy(), 0), Some(250));
    assert_eq!(retry_delay_ms(&busy(), 2), Some(750));
    assert_eq!(retry_delay_ms(&busy(), 3), None);
    assert_eq!(retry_delay_ms(&ServiceError::DbLockPoisoned, 0), None);
}

#[test]
fn payload_timestamp_overrides_clock() {
    let clock = StepClock::new(vec![]);
    let mut store = Store::default();
    let mut p = poller(None);
    let mut report3 = VecDeque::from(vec![ok(r#"{"E pres":1000}"#), ok(r#"{"E pres":4000}"#)]);
    for (value, at) in [(0, 1_000), (0, 2_000), (7, 3_000), (7, 4_000), (0, 10_000), (0, 11_000)] {
        let text = format!("{{\"Plug\":{value},\"__tsMs\":{at}}}");
        poll(&mut p, &clock, &mut store, ok(&text), &mut report3).expect("poll cycle should succeed");
    }
    let session = &store.sessions[0].1;
    assert_eq!(session.duration_ms, 7_000);
    assert_eq!(session.energy_mwh, 3_000_000);
}

#[test]
fn persists_invalid_session_when_energy_cannot_be_computed() {
    let clock = StepClock::new(vec![1_700_000_000_000, 1_700_000_060_000, 1_700_000_061_000]);
    let mut store = Store::default();
    let mut p = poller(None);
    let mut report3 = VecDeque::from(vec![
        ok(r#"{"E pres":2000}"#),
        ok(r#"{"Total energy":105000}"#),
    ]);

    drive(&mut p, &clock, &mut store, &[0, 0, 7, 7, 0, 0], &mut report3);

    assert_eq!(store.sessions.len(), 1);
    let session = &store.sessions[0].1;
    assert_eq!(session.status, "invalid");
    assert_eq!(session.finished_reason, "energy_compute_failed");
    assert_eq!(session.energy_mwh, 0);
}

#[test]
fn debounce_flap_at_end_creates_single_session_once_stable() {
    let clock = StepClock::new(vec![1_700_000_000_000, 1_700_000_060_000]);
    let mut store = Store::default();
    let mut p = poller(None);
    let mut report3 = VecDeque::from(vec![ok(r#"{"E pres":1000}"#), ok(r#"{"E pres":5000}"#)]);
    let start = 1_772_203_320_000_i64;
    let end = 1_772_203_560_000_i64;
    let script = [
        (0, start - 120_000),
        (0, start - 60_000),
        (7, start),
        (7, start + 60_000),
        (0, end - 120_000),
        (7, end - 60_000),
        (0, end),
        (0, end + 60_000),
    ];
    for (value, at) in script {
        let text = format!("{{\"Plug\":{value},\"__tsMs\":{at}}}");
        poll(&mut p, &clock, &mut store, ok(&text), &mut report3).expect("poll cycle should succeed");
    }

    assert_eq!(store.sessions.len(), 1);
    let session = &store.sessions[0].1;
    assert_eq!(session.started_at.as_deref(), Some("2026-02-27T14:42:00.000Z"));
    assert_eq!(session.finished_at, "2026-02-27T14:46:00.000Z");
    assert_eq!(session.energy_mwh, 4_000_000);
}

#[test]
fn debug_file_client_with_intermittent_failures_still_persists_session() {
    let clock = StepClock::new(vec![1_700_000_000_000, 1_700_000_030_000, 1_700_000_060_000]);
    let mut store = Store::default();
    let mut p = poller(None);
    let mut report3 = VecDeque::from(vec![
        ok(r#"{"E pres":2000,"Total energy":100000}"#),
        ok(r#"{"E pres":7000,"Total energy":105000}"#),
    ]);

    drive(&mut p, &clock, &mut store, &[0, 0, 7, 7], &mut report3);
    assert!(poll(&mut p, &clock, &mut store, timeout(), &mut report3).is_err());
    drive(&mut p, &clock, &mut store, &[7, 0, 0], &mut report3);

    assert_eq!(store.sessions.len(), 1);
    let (session_id, session) = &store.sessions[0];
    assert_eq!(session.status, "completed");
    assert!(!store.log_events.is_empty());
    let linked = store.links.iter().filter(|(sid, _)| sid == session_id).count();
    assert!(linked >= 1);
}

#[test]
fn writes_multiple_completed_sessions_to_results_json() {
    let clock = StepClock::new(vec![
        1_700_000_000_000,
        1_700_000_060_000,
        1_700_000_120_000,
        1_700_000_180_000,
    ]);
    let mut store = Store::default();
    let mut p = poller(Some("./target/testdb/results.json"));
    let mut report3 = VecDeque::from(vec![
        ok(r#"{"E pres":2000}"#),
        ok(r#"{"E pres":7000}"#),
        ok(r#"{"E pres":1000}"#),
        ok(r#"{"E pres":4000}"#),
    ]);

    drive(&mut p, &clock, &mut store, &[0, 0, 7, 7, 0, 0, 7, 7, 0, 0], &mut report3);

    assert_eq!(store.appended.len(), 2);
    assert_eq!(store.appended[0].1.mwh, 5_000_000);
    assert_eq!(store.appended[0].1.duration_ms, 60_000);
    assert_eq!(store.appended[1].1.mwh, 3_000_000);
    assert_eq!(store.appended[1].1.duration_ms, 60_000);
    assert_eq!(store.appended[1].0, "./target/testdb/results.json");
}

#[test]
fn seconds_counter_moving_backwards_is_logged_and_observation_goes_on() {
    let clock = StepClock::new(vec![1_000, 1_500, 61_000]);
    let mut store = Store::default();
    let mut p = poller(None);
    let mut report3 = VecDeque::from(vec![ok(r#"{"E pres":1000}"#), ok(r#"{"E pres":3000}"#)]);

    for text in [
        r#"{"Plug":0,"Seconds":10}"#,
        r#"{"Plug":0,"Seconds":11}"#,
        r#"{"Plug":7,"Seconds":12}"#,
        r#"{"Plug":7,"Seconds":13}"#,
        r#"{"Plug":7,"Seconds":2}"#,
        r#"{"Plug":0,"Seconds":3}"#,
        r#"{"Plug":0,"Seconds":4}"#,
    ] {
        poll(&mut p, &clock, &mut store, ok(text), &mut report3).expect("poll cycle should succeed");
    }

    assert_eq!(store.log_events.len(), 1);
    assert_eq!(store.log_events[0].1.code, "poll.report2_seconds_backwards");
    assert_eq!(store.log_events[0].1.level, "warn");
    assert_eq!(store.sessions.len(), 1);
    let (session_id, session) = &store.sessions[0];
    assert_eq!(session.status, "completed");
    assert_eq!(session.energy_mwh, 2_000_000);
    assert!(store.links.contains(&(session_id.clone(), store.log_events[0].0.clone())));
}

#[test]
fn link_retries_back_off_and_keep_the_session() {
    let clock = StepClock::new(vec![1_000, 61_000]);
    let mut p = poller(None);
    let mut report3 = VecDeque::from(vec![ok(r#"{"E pres":1000}"#), ok(r#"{"E pres":2000}"#)]);
    let mut store = Store::default();
    drive(&mut p, &clock, &mut store, &[0, 0, 7, 7, 0], &mut report3);
    let mut action = p.start_tick();
    let mut slept = Vec::new();
    let mut fetches = Some(plug(0));
    loop {
        let event = match action {
            PollerAction::FetchReport2 => PollerEvent::Report2(fetches.take().expect("one report")),
            PollerAction::FetchReport3 => PollerEvent::Report3(report3.pop_front().expect("energy")),
            PollerAction::StoreSession(_) => PollerEvent::SessionStored(Ok("s".to_string())),
            PollerAction::LinkLogEvents { .. } => PollerEvent::LogEventsLinked(Err(busy())),
            PollerAction::Sleep { ms } => {
                slept.push(ms);
                PollerEvent::Slept
            }
            PollerAction::Finished(result) => {
                assert!(result.is_err());
                break;
            }
            other => panic!("unexpected action {other:?}"),
        };
        action = p.step(event, &clock);
    }
    assert_eq!(slept, vec![250, 500, 750]);
}
