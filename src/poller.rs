use vstd::prelude::*;

use crate::clock::{iso8601_of, timestamp_to_iso8601};
use crate::errors::{
    client_error_message, is_retryable_db_contention, parse_error_message, poller_error_code,
    poller_error_code_of, poller_error_message, poller_error_of, service_error_to_poller_error, DbError, KebaClientError, PollerError,
    ServiceError, SqliteErrorCode,
};
use crate::keba_payload::{
    extract_observed_at, json_payload_of, observed_at_of, parse_json_payload, parse_report2,
    parse_report3, report2_of, report3_of, Payload, Report3,
};
use crate::models::{copy_opt, opt_view, NewLogEventRecord, NewSessionRecord};
use crate::session_energy::{
    compute_session_kwh, session_energy, EnergySnapshot, EnergyWarning,
};
use crate::session_state::{
    debounce_step, Clock, DebounceState, SessionStateMachine, SessionTransition, TimestampMs,
};

verus! {

/// How many times a busy or locked store is retried.
pub const SESSION_PERSIST_MAX_RETRIES: usize = 3;

/// The wait before the n-th retry is this many milliseconds times n.
pub const SESSION_PERSIST_RETRY_BACKOFF_MS: u64 = 250;

/// A charger response: what the parser reads, and its JSON text as stored with a session.
#[derive(Debug, Clone, PartialEq, Eq)]
pub struct FetchedPayload {
    pub payload: Payload,
    pub raw: String,
}

impl FetchedPayload {
    /// A response given as JSON text: its value, and the text kept as it came.
    /// None when the text is not JSON.
    pub fn from_json_text(text: String) -> (r: Option<FetchedPayload>)
        ensures
            r is Some <==> json_payload_of(text@) is Some,
            r matches Some(f) ==> Some(f.payload) == json_payload_of(text@) && f.raw@ == text@,
    {
        match parse_json_payload(text.as_str()) {
            Some(payload) => Some(FetchedPayload { payload, raw: text }),
            None => None,
        }
    }
}

#[derive(Debug, Clone)]
pub struct SessionPollerConfig {
    pub source: String,
    pub poll_interval_ms: u64,
    pub station_id: Option<String>,
    pub results_output_file: Option<String>,
}

/// One entry of the results file. Energy is in milliwatt-hours.
#[derive(Debug, Clone, PartialEq, Eq)]
pub struct SessionResultEntry {
    pub from: String,
    pub to: String,
    pub duration_ms: i64,
    pub mwh: u64,
}

/// A value in a log event's details.
#[derive(Debug, Clone, PartialEq, Eq)]
pub enum DetailValue {
    Flag(bool),
    Count(i64),
    Text(String),
}

pub enum DetailView {
    Flag(bool),
    Count(int),
    Text(Seq<char>),
}

pub open spec fn detail_view(v: DetailValue) -> DetailView {
    match v {
        DetailValue::Flag(b) => DetailView::Flag(b),
        DetailValue::Count(n) => DetailView::Count(n as int),
        DetailValue::Text(s) => DetailView::Text(s@),
    }
}

pub open spec fn details_view(fields: Seq<(String, DetailValue)>) -> Seq<(Seq<char>, DetailView)> {
    Seq::new(fields.len(), |i: int| (fields[i].0@, detail_view(fields[i].1)))
}

/// The compact JSON text of an object with these fields.
pub uninterp spec fn json_object_text_of(fields: Seq<(Seq<char>, DetailView)>) -> Seq<char>;

/// Relies on serde_json: `Value::Object` of a `Map` holding the fields, written by `to_string`.
/// The text depends on the fields alone.
#[verifier::external_body]
fn json_object_text(fields: &Vec<(String, DetailValue)>) -> (r: String)
    ensures
        r@ == json_object_text_of(details_view(fields@)),
{
    let mut map = serde_json::Map::new();
    for (key, value) in fields.iter() {
        map.insert(key.clone(), match value {
            DetailValue::Flag(b) => serde_json::Value::Bool(*b),
            DetailValue::Count(n) => serde_json::Value::from(*n),
            DetailValue::Text(s) => serde_json::Value::String(s.clone()),
        });
    }
    serde_json::Value::Object(map).to_string()
}

/// What the driver of the poller reports back.
#[derive(Debug, PartialEq, Eq)]
pub enum PollerEvent {
    Report2(Result<FetchedPayload, KebaClientError>),
    Report3(Result<FetchedPayload, KebaClientError>),
    LogEventStored(Result<String, ServiceError>),
    SessionStored(Result<String, ServiceError>),
    LogEventsLinked(Result<(), ServiceError>),
    Slept,
    ResultAppended(Result<(), String>),
}

/// What the driver of the poller has to do next.
#[derive(Debug, PartialEq, Eq)]
pub enum PollerAction {
    FetchReport2,
    FetchReport3,
    StoreLogEvent(NewLogEventRecord),
    StoreSession(NewSessionRecord),
    LinkLogEvents { session_id: String, log_event_ids: Vec<String> },
    Sleep { ms: u64 },
    AppendResult { path: String, entry: SessionResultEntry },
    Finished(Result<(), PollerError>),
}

/// What follows once a log event has been stored.
#[derive(Debug, Clone, PartialEq, Eq)]
pub enum AfterLogEvent {
    Finish,
    PersistSession { record: NewSessionRecord, append: bool },
    /// Feed the plug report to the debouncer.
    Observe { plugged: bool, observed_at: Option<TimestampMs>, report2_raw: String },
}

/// Where the poller is within one poll cycle.
#[derive(Debug, Clone, PartialEq, Eq)]
pub enum PollerPhase {
    Idle,
    AwaitReport2,
    AwaitPluggedReport3 { plugged_at: TimestampMs, report2_raw: String },
    AwaitUnpluggedReport3 { plugged_at: TimestampMs, unplugged_at: TimestampMs, report2_raw: String },
    StoringLogEvent { link: bool, then: AfterLogEvent },
    StoringSession { record: NewSessionRecord, append: bool, attempt: usize },
    SleepingBeforeSession { record: NewSessionRecord, append: bool, attempt: usize },
    Linking { record: NewSessionRecord, append: bool, session_id: String, attempt: usize },
    SleepingBeforeLink { record: NewSessionRecord, append: bool, session_id: String, attempt: usize },
    Appending,
}

/// Session duration: the time between the bounds, never negative, capped at `i64::MAX`.
pub open spec fn duration_between(plugged_at: TimestampMs, unplugged_at: TimestampMs) -> int {
    let d = unplugged_at.0 - plugged_at.0;
    if d < 0 {
        0
    } else if d > i64::MAX {
        i64::MAX as int
    } else {
        d
    }
}

pub open spec fn snapshot_of(r: Report3) -> EnergySnapshot {
    EnergySnapshot { present_session_mwh: r.present_session_mwh, total_mwh: r.total_mwh }
}

/// How a session ends, once the energy report at unplugging is in: its status, its
/// finished reason, its energy and the energy report text kept with it.
pub struct SessionOutcome {
    pub status: Seq<char>,
    pub finished_reason: Seq<char>,
    pub energy_mwh: int,
    pub report3_end: Option<Seq<char>>,
}

pub open spec fn unplugged_outcome(start: Option<EnergySnapshot>, fetched: Result<FetchedPayload, KebaClientError>) -> SessionOutcome {
    match fetched {
        Err(_) => SessionOutcome {
            status: "aborted"@,
            finished_reason: "report3_fetch_failed"@,
            energy_mwh: 0,
            report3_end: None,
        },
        Ok(f) => match report3_of(f.payload) {
            Err(_) => SessionOutcome {
                status: "invalid"@,
                finished_reason: "report3_parse_failed"@,
                energy_mwh: 0,
                report3_end: Some(f.raw@),
            },
            Ok(r3) => match session_energy(start, snapshot_of(r3)) {
                Ok(o) => if o.warning is None {
                    SessionOutcome {
                        status: "completed"@,
                        finished_reason: "plug_state_transition"@,
                        energy_mwh: o.mwh,
                        report3_end: Some(f.raw@),
                    }
                } else {
                    SessionOutcome {
                        status: "invalid"@,
                        finished_reason: "energy_clamped"@,
                        energy_mwh: o.mwh,
                        report3_end: Some(f.raw@),
                    }
                },
                Err(_) => SessionOutcome {
                    status: "invalid"@,
                    finished_reason: "energy_compute_failed"@,
                    energy_mwh: 0,
                    report3_end: Some(f.raw@),
                },
            },
        },
    }
}

/// `n`, or `i64::MAX` when it is larger.
pub open spec fn saturated(n: int) -> int {
    if n > i64::MAX {
        i64::MAX as int
    } else {
        n
    }
}

/// The record of a session that ended between `plugged_at` and `unplugged_at`, with the
/// given energy report at unplugging.
pub open spec fn ended_session(
    rec: crate::models::NewSessionView,
    poller: SessionPoller,
    fetched: Result<FetchedPayload, KebaClientError>,
    plugged_at: TimestampMs,
    unplugged_at: TimestampMs,
    report2_end: Seq<char>,
) -> bool {
    let o = unplugged_outcome(poller.start_snapshot(), fetched);
    &&& rec.status == o.status
    &&& rec.finished_reason == o.finished_reason
    &&& rec.started_reason == "plug_state_transition"@
    &&& rec.energy_mwh == o.energy_mwh
    &&& rec.raw_report3_end == o.report3_end
    &&& rec.raw_report2_end == Some(report2_end)
    &&& rec.raw_report2_start == opt_view(poller.start_report2_raw())
    &&& rec.raw_report3_start == opt_view(poller.start_report3_raw())
    &&& rec.started_at == Some(iso8601_of(plugged_at.0 as int))
    &&& rec.finished_at == iso8601_of(unplugged_at.0 as int)
    &&& rec.created_at == iso8601_of(unplugged_at.0 as int)
    &&& rec.duration_ms == duration_between(plugged_at, unplugged_at)
    &&& rec.error_count_during_session == poller.error_count()
    &&& rec.source == poller.source()
    &&& rec.station_id == opt_view(poller.station_id())
    &&& rec.poll_interval_ms == poller.poll_interval_ms()
    &&& rec.debounce_samples == poller.debounce_samples()
}

/// The session record waiting in a phase, if any.
pub open spec fn phase_record(p: PollerPhase) -> Option<NewSessionRecord> {
    match p {
        PollerPhase::StoringLogEvent { then: AfterLogEvent::PersistSession { record, .. }, .. } => Some(record),
        PollerPhase::StoringSession { record, .. } => Some(record),
        _ => None,
    }
}

/// The delay before retrying a failed store, or none when the failure is final.
pub open spec fn retry_delay(error: ServiceError, attempt: int) -> Option<int> {
    if (error matches ServiceError::Database(DbError::Sqlite { code, .. })
        && (code == SqliteErrorCode::DatabaseBusy || code == SqliteErrorCode::DatabaseLocked))
        && attempt < SESSION_PERSIST_MAX_RETRIES {
        Some(SESSION_PERSIST_RETRY_BACKOFF_MS * (attempt + 1))
    } else {
        None
    }
}

/// Backoff for the store: 250 ms times the retry's number, for at most three retries of a
/// busy or locked store.
pub fn retry_delay_ms(error: &ServiceError, attempt: usize) -> (r: Option<u64>)
    ensures
        r matches Some(ms) ==> retry_delay(*error, attempt as int) == Some(ms as int),
        r is None ==> retry_delay(*error, attempt as int) is None,
{
    if is_retryable_db_contention(error) && attempt < SESSION_PERSIST_MAX_RETRIES {
        Some(SESSION_PERSIST_RETRY_BACKOFF_MS * (attempt as u64 + 1))
    } else {
        None
    }
}

pub open spec fn warning_name(w: EnergyWarning) -> Seq<char> {
    match w {
        EnergyWarning::NegativePresentSessionValueClamped => "NegativePresentSessionValueClamped"@,
        EnergyWarning::NegativePresentSessionDeltaClamped => "NegativePresentSessionDeltaClamped"@,
        EnergyWarning::NegativeTotalDeltaClamped => "NegativeTotalDeltaClamped"@,
    }
}

pub open spec fn warning_names(ws: Seq<EnergyWarning>) -> Seq<char>
    decreases ws.len(),
{
    if ws.len() == 0 {
        Seq::empty()
    } else if ws.len() == 1 {
        warning_name(ws[0])
    } else {
        warning_names(ws.drop_last()) + ", "@ + warning_name(ws.last())
    }
}

fn warning_name_text(w: EnergyWarning) -> (r: &'static str)
    ensures
        r@ == warning_name(w),
{
    match w {
        EnergyWarning::NegativePresentSessionValueClamped => "NegativePresentSessionValueClamped",
        EnergyWarning::NegativePresentSessionDeltaClamped => "NegativePresentSessionDeltaClamped",
        EnergyWarning::NegativeTotalDeltaClamped => "NegativeTotalDeltaClamped",
    }
}

/// The warnings as a bracketed, comma separated list of their names.
pub fn warnings_text(ws: &Vec<EnergyWarning>) -> (r: String)
    ensures
        r@ == "["@ + warning_names(ws@) + "]"@,
{
    let mut names = String::new();
    let mut i: usize = 0;
    while i < ws.len()
        invariant
            i <= ws.len(),
            names@ == warning_names(ws@.subrange(0, i as int)),
        decreases ws.len() - i,
    {
        assert(ws@.subrange(0, i + 1).drop_last() =~= ws@.subrange(0, i as int));
        if i > 0 {
            names.append(", ");
        }
        names.append(warning_name_text(ws[i]));
        i += 1;
    }
    assert(ws@.subrange(0, ws.len() as int) =~= ws@);
    let mut out = String::from_str("[");
    out.append(names.as_str());
    out.append("]");
    out
}

/// The poller's decisions for one charger: it debounces plug reports, opens and closes
/// sessions, accounts their energy and decides what is stored, retried and linked.
/// Whoever drives it performs each action and reports the outcome as the next event.
pub struct SessionPoller {
    machine: SessionStateMachine,
    phase: PollerPhase,
    start_snapshot: Option<EnergySnapshot>,
    start_report2_raw: Option<String>,
    start_report3_raw: Option<String>,
    source: String,
    poll_interval_ms: i64,
    debounce_samples: i64,
    station_id: Option<String>,
    error_count_during_session: i64,
    pending_session_log_event_ids: Vec<String>,
    results_output_file: Option<String>,
    last_seconds: Option<u64>,
    errors_since_plugged: Ghost<int>,
}

impl SessionPoller {
    pub closed spec fn machine_state(&self) -> DebounceState {
        self.machine@
    }

    pub closed spec fn phase(&self) -> PollerPhase {
        self.phase
    }

    pub closed spec fn start_snapshot(&self) -> Option<EnergySnapshot> {
        self.start_snapshot
    }

    pub closed spec fn error_count(&self) -> i64 {
        self.error_count_during_session
    }

    pub closed spec fn pending_log_event_ids(&self) -> Seq<String> {
        self.pending_session_log_event_ids@
    }

    /// Poll errors recorded, and failed session starts, since the last plugged transition.
    pub closed spec fn errors_since_plugged(&self) -> int {
        self.errors_since_plugged@
    }

    pub closed spec fn source(&self) -> Seq<char> {
        self.source@
    }

    pub closed spec fn results_output_file(&self) -> Option<String> {
        self.results_output_file
    }

    /// The seconds counter of the last plug report that parsed.
    pub closed spec fn last_seconds(&self) -> Option<u64> {
        self.last_seconds
    }

    pub closed spec fn poll_interval_ms(&self) -> i64 {
        self.poll_interval_ms
    }

    pub closed spec fn debounce_samples(&self) -> i64 {
        self.debounce_samples
    }

    pub closed spec fn station_id(&self) -> Option<String> {
        self.station_id
    }

    pub closed spec fn start_report2_raw(&self) -> Option<String> {
        self.start_report2_raw
    }

    pub closed spec fn start_report3_raw(&self) -> Option<String> {
        self.start_report3_raw
    }

    pub closed spec fn inv(&self) -> bool {
        &&& self.machine@.well_formed()
        &&& self.error_count_during_session >= 0
        &&& self.errors_since_plugged@ >= 0
        &&& (self.start_snapshot is Some ==> self.error_count_during_session == saturated(self.errors_since_plugged@))
    }

    pub fn new(debounce_samples: usize, config: SessionPollerConfig) -> (r: Self)
        ensures
            r.inv(),
            r.phase() == PollerPhase::Idle,
            r.machine_state() == DebounceState::initial(if debounce_samples == 0 { 1 } else { debounce_samples as nat }),
            r.start_snapshot() is None,
            r.error_count() == 0,
            r.pending_log_event_ids().len() == 0,
            r.last_seconds() is None,
            r.source() == config.source@,
            r.station_id() == config.station_id,
            r.results_output_file() == config.results_output_file,
            r.poll_interval_ms() == (if config.poll_interval_ms <= i64::MAX as u64 { config.poll_interval_ms as i64 } else { i64::MAX }),
            r.debounce_samples() == (if debounce_samples as u64 <= i64::MAX as u64 { debounce_samples as i64 } else { i64::MAX }),
    {
        SessionPoller {
            machine: SessionStateMachine::new(debounce_samples),
            phase: PollerPhase::Idle,
            start_snapshot: None,
            start_report2_raw: None,
            start_report3_raw: None,
            source: config.source,
            poll_interval_ms: if config.poll_interval_ms <= i64::MAX as u64 { config.poll_interval_ms as i64 } else { i64::MAX },
            debounce_samples: if debounce_samples as u64 <= i64::MAX as u64 { debounce_samples as i64 } else { i64::MAX },
            station_id: config.station_id,
            error_count_during_session: 0,
            pending_session_log_event_ids: Vec::new(),
            results_output_file: config.results_output_file,
            last_seconds: None,
            errors_since_plugged: Ghost(0),
        }
    }

    /// Starts a poll cycle: the first thing to do is to fetch a plug report.
    pub fn start_tick(&mut self) -> (r: PollerAction)
        requires
            old(self).inv(),
        ensures
            final(self).inv(),
            r == PollerAction::FetchReport2,
            final(self).phase() == PollerPhase::AwaitReport2,
            final(self).machine_state() == old(self).machine_state(),
            final(self).start_snapshot() == old(self).start_snapshot(),
            final(self).error_count() == old(self).error_count(),
    {
        self.phase = PollerPhase::AwaitReport2;
        PollerAction::FetchReport2
    }

    fn log_event<C: Clock>(
        &mut self,
        level: &str,
        code: &str,
        message: String,
        link: bool,
        details: Option<Vec<(String, DetailValue)>>,
        then: AfterLogEvent,
        clock: &C,
    ) -> (r: PollerAction)
        requires
            old(self).inv(),
        ensures
            final(self).inv(),
            final(self).phase() == (PollerPhase::StoringLogEvent { link, then }),
            final(self).machine_state() == old(self).machine_state(),
            final(self).start_snapshot() == old(self).start_snapshot(),
            final(self).error_count() == old(self).error_count(),
            final(self).errors_since_plugged() == old(self).errors_since_plugged(),
            final(self).pending_log_event_ids() == old(self).pending_log_event_ids(),
            final(self).results_output_file() == old(self).results_output_file(),
            final(self).last_seconds() == old(self).last_seconds(),
            final(self).source() == old(self).source(),
            final(self).station_id() == old(self).station_id(),
            final(self).poll_interval_ms() == old(self).poll_interval_ms(),
            final(self).debounce_samples() == old(self).debounce_samples(),
            final(self).start_report2_raw() == old(self).start_report2_raw(),
            final(self).start_report3_raw() == old(self).start_report3_raw(),
            r matches PollerAction::StoreLogEvent(e) && e.level@ == level@ && e.code@ == code@
                && e.message@ == message@ && e.source@ == old(self).source()
                && (match details {
                    Some(d) => opt_view(e.details_json) == Some(json_object_text_of(details_view(d@))),
                    None => e.details_json is None,
                }),
    {
        let details_json = match details {
            Some(d) => Some(json_object_text(&d)),
            None => None,
        };
        let record = NewLogEventRecord {
            created_at: timestamp_to_iso8601(clock.now()),
            level: String::from_str(level),
            code: String::from_str(code),
            message,
            source: self.source.clone(),
            station_id: self.station_id.clone(),
            details_json,
        };
        self.phase = PollerPhase::StoringLogEvent { link, then };
        PollerAction::StoreLogEvent(record)
    }

    /// Records a failed poll cycle as a log event. While a session is active the error is
    /// counted against it and the event is linked to it.
    pub fn note_poll_error<C: Clock>(&mut self, error: &PollerError, clock: &C) -> (r: PollerAction)
        requires
            old(self).inv(),
        ensures
            final(self).inv(),
            final(self).machine_state() == old(self).machine_state(),
            final(self).start_snapshot() == old(self).start_snapshot(),
            old(self).machine_state().active_started_at is Some ==> {
                &&& final(self).error_count() == (if old(self).error_count() < i64::MAX { old(self).error_count() + 1 } else { i64::MAX as int })
                &&& final(self).errors_since_plugged() == old(self).errors_since_plugged() + 1
            },
            old(self).machine_state().active_started_at is None ==> final(self).error_count() == old(self).error_count()
                && final(self).errors_since_plugged() == old(self).errors_since_plugged(),
            final(self).phase() == (PollerPhase::StoringLogEvent {
                link: old(self).machine_state().active_started_at is Some,
                then: AfterLogEvent::Finish,
            }),
            stores_log_event(r, poller_error_code_of(*error), poller_error_message(*error)),
            r matches PollerAction::StoreLogEvent(e) && opt_view(e.details_json) == Some(json_object_text_of(seq![
                ("activeSession"@, DetailView::Flag(old(self).machine_state().active_started_at is Some)),
                ("errorCountDuringSession"@, DetailView::Count(final(self).error_count() as int)),
            ])),
    {
        let is_active_session = self.machine.active_session_started_at().is_some();
        if is_active_session {
            self.count_session_error();
        }
        let details = vec![
            (String::from_str("activeSession"), DetailValue::Flag(is_active_session)),
            (String::from_str("errorCountDuringSession"), DetailValue::Count(self.error_count_during_session)),
        ];
        assert(details_view(details@) =~= seq![
            ("activeSession"@, DetailView::Flag(is_active_session)),
            ("errorCountDuringSession"@, DetailView::Count(self.error_count_during_session as int)),
        ]);
        let code = poller_error_code(error);
        self.log_event("warn", code, error.to_string(), is_active_session, Some(details), AfterLogEvent::Finish, clock)
    }

    fn count_session_error(&mut self)
        requires
            old(self).inv(),
        ensures
            final(self).inv(),
            final(self).error_count() == (if old(self).error_count() < i64::MAX { old(self).error_count() + 1 } else { i64::MAX as int }),
            final(self).errors_since_plugged() == old(self).errors_since_plugged() + 1,
            final(self).machine_state() == old(self).machine_state(),
            final(self).results_output_file() == old(self).results_output_file(),
            final(self).start_snapshot() == old(self).start_snapshot(),
            final(self).phase() == old(self).phase(),
            final(self).pending_log_event_ids() == old(self).pending_log_event_ids(),
            final(self).source() == old(self).source(),
            final(self).last_seconds() == old(self).last_seconds(),
            final(self).station_id() == old(self).station_id(),
            final(self).poll_interval_ms() == old(self).poll_interval_ms(),
            final(self).debounce_samples() == old(self).debounce_samples(),
            final(self).start_report2_raw() == old(self).start_report2_raw(),
            final(self).start_report3_raw() == old(self).start_report3_raw(),
    {
        if self.error_count_during_session < i64::MAX {
            self.error_count_during_session = self.error_count_during_session + 1;
        }
        self.errors_since_plugged = Ghost(self.errors_since_plugged@ + 1);
    }


    /// The record of a session that ends now with the given outcome.
    fn build_session_record(
        &self,
        plugged_at: TimestampMs,
        unplugged_at: TimestampMs,
        energy_mwh: u64,
        status: &str,
        finished_reason: &str,
        report2_end_raw: String,
        report3_end_raw: Option<String>,
    ) -> (r: NewSessionRecord)
        ensures
            r@.started_at == Some(iso8601_of(plugged_at.0 as int)),
            r@.finished_at == iso8601_of(unplugged_at.0 as int),
            r@.created_at == iso8601_of(unplugged_at.0 as int),
            r@.duration_ms == duration_between(plugged_at, unplugged_at),
            r@.energy_mwh == energy_mwh,
            r@.status == status@,
            r@.started_reason == "plug_state_transition"@,
            r@.finished_reason == finished_reason@,
            r@.error_count_during_session == self.error_count(),
            r@.source == self.source(),
            r@.station_id == opt_view(self.station_id()),
            r@.poll_interval_ms == self.poll_interval_ms(),
            r@.debounce_samples == self.debounce_samples(),
            r@.raw_report2_start == opt_view(self.start_report2_raw()),
            r@.raw_report3_start == opt_view(self.start_report3_raw()),
            r@.raw_report2_end == Some(report2_end_raw@),
            r@.raw_report3_end == opt_view(report3_end_raw),
    {
        let delta: i128 = unplugged_at.0 as i128 - plugged_at.0 as i128;
        let duration_ms: i64 = if delta < 0 { 0 } else if delta > i64::MAX as i128 { i64::MAX } else { delta as i64 };
        NewSessionRecord {
            started_at: Some(timestamp_to_iso8601(plugged_at)),
            finished_at: timestamp_to_iso8601(unplugged_at),
            duration_ms,
            energy_mwh,
            source: self.source.clone(),
            status: String::from_str(status),
            started_reason: String::from_str("plug_state_transition"),
            finished_reason: String::from_str(finished_reason),
            poll_interval_ms: self.poll_interval_ms,
            debounce_samples: self.debounce_samples,
            error_count_during_session: self.error_count_during_session,
            station_id: copy_opt(&self.station_id),
            created_at: timestamp_to_iso8601(unplugged_at),
            raw_report2_start: copy_opt(&self.start_report2_raw),
            raw_report3_start: copy_opt(&self.start_report3_raw),
            raw_report2_end: Some(report2_end_raw),
            raw_report3_end: report3_end_raw,
        }
    }

    fn observe_report2<C: Clock>(&mut self, plugged: bool, observed_at: Option<TimestampMs>, report2_raw: String, clock: &C) -> (r: PollerAction)
        requires
            old(self).inv(),
        ensures
            final(self).inv(),
            observed(*old(self), *final(self), r, plugged, observed_at, report2_raw),
            final(self).error_count() == old(self).error_count(),
            final(self).pending_log_event_ids() == old(self).pending_log_event_ids(),
            final(self).last_seconds() == old(self).last_seconds(),
            final(self).start_snapshot() is Some ==> final(self).start_snapshot() == old(self).start_snapshot(),
    {
        self.phase = PollerPhase::Idle;
        let transition = match observed_at {
            Some(at) => self.machine.observe_at(plugged, at),
            None => self.machine.observe(plugged, clock),
        };
        match transition {
            None => PollerAction::Finished(Ok(())),
            Some(SessionTransition::Plugged { plugged_at }) => {
                self.start_snapshot = None;
                self.errors_since_plugged = Ghost(0);
                self.phase = PollerPhase::AwaitPluggedReport3 { plugged_at, report2_raw };
                PollerAction::FetchReport3
            },
            Some(SessionTransition::Unplugged { plugged_at, unplugged_at }) => {
                self.phase = PollerPhase::AwaitUnpluggedReport3 { plugged_at, unplugged_at, report2_raw };
                PollerAction::FetchReport3
            },
        }
    }

    fn on_report2<C: Clock>(&mut self, fetched: Result<FetchedPayload, KebaClientError>, clock: &C) -> (r: PollerAction)
        requires
            old(self).inv(),
        ensures
            final(self).inv(),
            report2_handled(*old(self), *final(self), r, fetched),
            final(self).error_count() == old(self).error_count(),
            final(self).pending_log_event_ids() == old(self).pending_log_event_ids(),
            final(self).start_snapshot() is Some ==> final(self).start_snapshot() == old(self).start_snapshot(),
    {
        self.phase = PollerPhase::Idle;
        let f = match fetched {
            Ok(f) => f,
            Err(e) => return PollerAction::Finished(Err(PollerError::FetchReport2(e))),
        };
        let report2 = match parse_report2(&f.payload) {
            Ok(r2) => r2,
            Err(e) => return PollerAction::Finished(Err(PollerError::ParseReport2(e))),
        };
        let went_back = match (self.last_seconds, report2.seconds) {
            (Some(previous), Some(current)) => current < previous,
            _ => false,
        };
        self.last_seconds = report2.seconds;
        let observed_at = extract_observed_at(&f.payload);
        if went_back {
            let active = self.machine.active_session_started_at().is_some();
            return self.log_event(
                "warn",
                "poll.report2_seconds_backwards",
                String::from_str("report2 seconds counter moved backwards"),
                active,
                None,
                AfterLogEvent::Observe { plugged: report2.plugged, observed_at, report2_raw: f.raw },
                clock,
            );
        }
        self.observe_report2(report2.plugged, observed_at, f.raw, clock)
    }

    fn on_plugged_report3<C: Clock>(&mut self, report2_raw: String, fetched: Result<FetchedPayload, KebaClientError>, clock: &C) -> (r: PollerAction)
        requires
            old(self).inv(),
            old(self).phase() is Idle,
        ensures
            final(self).inv(),
            plugged_handled(*old(self), *final(self), r, report2_raw, fetched),
            final(self).last_seconds() == old(self).last_seconds(),
    {
        let f = match fetched {
            Ok(f) => f,
            Err(e) => {
                self.start_snapshot = None;
                self.count_session_error();
                return self.log_event("warn", "poll.fetch_report3_on_plugged", e.to_string(), true, None, AfterLogEvent::Finish, clock);
            },
        };
        let report3 = match parse_report3(&f.payload) {
            Ok(r3) => r3,
            Err(e) => {
                self.start_snapshot = None;
                self.count_session_error();
                return self.log_event("warn", "poll.parse_report3_on_plugged", e.to_string(), true, None, AfterLogEvent::Finish, clock);
            },
        };
        self.start_report2_raw = Some(report2_raw);
        self.start_report3_raw = Some(f.raw);
        self.error_count_during_session = 0;
        self.errors_since_plugged = Ghost(0);
        self.pending_session_log_event_ids = Vec::new();
        self.start_snapshot = Some(EnergySnapshot { present_session_mwh: report3.present_session_mwh, total_mwh: report3.total_mwh });
        PollerAction::Finished(Ok(()))
    }

    fn time_details(plugged_at: TimestampMs, unplugged_at: TimestampMs) -> (r: Vec<(String, DetailValue)>) {
        vec![
            (String::from_str("startedAt"), DetailValue::Text(timestamp_to_iso8601(plugged_at))),
            (String::from_str("finishedAt"), DetailValue::Text(timestamp_to_iso8601(unplugged_at))),
        ]
    }

    fn on_unplugged_report3<C: Clock>(
        &mut self,
        plugged_at: TimestampMs,
        unplugged_at: TimestampMs,
        report2_raw: String,
        fetched: Result<FetchedPayload, KebaClientError>,
        clock: &C,
    ) -> (r: PollerAction)
        requires
            old(self).inv(),
            old(self).phase() is Idle,
        ensures
            final(self).inv(),
            unplugged_handled(*old(self), *final(self), r, plugged_at, unplugged_at, report2_raw, fetched),
            final(self).machine_state() == old(self).machine_state(),
            final(self).start_snapshot() == old(self).start_snapshot(),
            final(self).error_count() == old(self).error_count(),
            final(self).errors_since_plugged() == old(self).errors_since_plugged(),
            final(self).results_output_file() == old(self).results_output_file(),
            final(self).pending_log_event_ids() == old(self).pending_log_event_ids(),
            final(self).last_seconds() == old(self).last_seconds(),
    {
        let f = match fetched {
            Ok(f) => f,
            Err(e) => {
                let record = self.build_session_record(plugged_at, unplugged_at, 0, "aborted", "report3_fetch_failed", report2_raw, None);
                let details = Self::time_details(plugged_at, unplugged_at);
                return self.log_event("warn", "poll.fetch_report3_on_unplugged", e.to_string(), true, Some(details),
                    AfterLogEvent::PersistSession { record, append: false }, clock);
            },
        };
        let report3 = match parse_report3(&f.payload) {
            Ok(r3) => r3,
            Err(e) => {
                let record = self.build_session_record(plugged_at, unplugged_at, 0, "invalid", "report3_parse_failed", report2_raw, Some(f.raw));
                let details = Self::time_details(plugged_at, unplugged_at);
                return self.log_event("warn", "poll.parse_report3_on_unplugged", e.to_string(), true, Some(details),
                    AfterLogEvent::PersistSession { record, append: false }, clock);
            },
        };
        let end_snapshot = EnergySnapshot { present_session_mwh: report3.present_session_mwh, total_mwh: report3.total_mwh };
        let energy = match &self.start_snapshot {
            Some(s) => compute_session_kwh(Some(s), &end_snapshot),
            None => compute_session_kwh(None, &end_snapshot),
        };
        match energy {
            Ok(e) => {
                if e.warnings.len() == 0 {
                    let record = self.build_session_record(plugged_at, unplugged_at, e.mwh, "completed", "plug_state_transition", report2_raw, Some(f.raw));
                    self.phase = PollerPhase::StoringSession { record: record.duplicate(), append: true, attempt: 0 };
                    PollerAction::StoreSession(record)
                } else {
                    let record = self.build_session_record(plugged_at, unplugged_at, e.mwh, "invalid", "energy_clamped", report2_raw, Some(f.raw));
                    let details = vec![(String::from_str("warnings"), DetailValue::Text(warnings_text(&e.warnings)))];
                    self.log_event("warn", "poll.energy_warning", String::from_str("energy clamped due to negative delta/value"), true,
                        Some(details), AfterLogEvent::PersistSession { record, append: true }, clock)
                }
            },
            Err(err) => {
                let record = self.build_session_record(plugged_at, unplugged_at, 0, "invalid", "energy_compute_failed", report2_raw, Some(f.raw));
                let details = Self::time_details(plugged_at, unplugged_at);
                self.log_event("warn", "poll.compute_energy_on_unplugged", err.to_string(), true, Some(details),
                    AfterLogEvent::PersistSession { record, append: true }, clock)
            },
        }
    }

    /// The last step of a poll cycle that persisted a session: forget its start.
    fn finalize_session(&mut self)
        requires
            old(self).inv(),
        ensures
            final(self).inv(),
            final(self).start_snapshot() is None,
            final(self).error_count() == 0,
            final(self).pending_log_event_ids().len() == 0,
            final(self).machine_state() == old(self).machine_state(),
            final(self).phase() == old(self).phase(),
            final(self).results_output_file() == old(self).results_output_file(),
            final(self).errors_since_plugged() == old(self).errors_since_plugged(),
    {
        self.start_snapshot = None;
        self.start_report2_raw = None;
        self.start_report3_raw = None;
        self.error_count_during_session = 0;
        self.pending_session_log_event_ids = Vec::new();
    }

    /// Feeds the outcome of the last action; returns the next one. An event that is not
    /// the one the current action awaits ends the cycle.
    pub fn step<C: Clock>(&mut self, event: PollerEvent, clock: &C) -> (r: PollerAction)
        requires
            old(self).inv(),
        ensures
            final(self).inv(),
            !(old(self).phase() is AwaitReport2 || old(self).phase() is AwaitPluggedReport3
                || old(self).phase() is StoringLogEvent)
                ==> final(self).errors_since_plugged() == old(self).errors_since_plugged(),
            match (old(self).phase(), event) {
                (PollerPhase::AwaitReport2, PollerEvent::Report2(fetched)) => report2_handled(*old(self), *final(self), r, fetched),
                (PollerPhase::AwaitPluggedReport3 { report2_raw, .. }, PollerEvent::Report3(fetched)) =>
                    plugged_handled(*old(self), *final(self), r, report2_raw, fetched),
                (PollerPhase::AwaitUnpluggedReport3 { plugged_at, unplugged_at, report2_raw }, PollerEvent::Report3(fetched)) => {
                    &&& unplugged_handled(*old(self), *final(self), r, plugged_at, unplugged_at, report2_raw, fetched)
                    &&& (old(self).start_snapshot() is Some ==> record_error_count_is(final(self).phase(),
                        saturated(old(self).errors_since_plugged())))
                },
                (PollerPhase::StoringLogEvent { link, then }, PollerEvent::LogEventStored(stored)) => {
                    &&& final(self).pending_log_event_ids() == (match stored {
                        Ok(id) => if link { old(self).pending_log_event_ids().push(id) } else { old(self).pending_log_event_ids() },
                        Err(_) => old(self).pending_log_event_ids(),
                    })
                    &&& match then {
                        AfterLogEvent::Finish => r == PollerAction::Finished(Ok(()))
                            && final(self).errors_since_plugged() == old(self).errors_since_plugged(),
                        AfterLogEvent::PersistSession { record, append } => stores_session(r, record)
                            && storing_phase(final(self).phase(), record, append, 0)
                            && final(self).errors_since_plugged() == old(self).errors_since_plugged(),
                        AfterLogEvent::Observe { plugged, observed_at, report2_raw } =>
                            observed(*old(self), *final(self), r, plugged, observed_at, report2_raw),
                    }
                },
                (PollerPhase::StoringSession { record, append, attempt }, PollerEvent::SessionStored(stored)) => match stored {
                    Ok(id) => final(self).phase() == (PollerPhase::Linking { record, append, session_id: id, attempt: 0 })
                        && links(r, id, old(self).pending_log_event_ids()),
                    Err(e) => match retry_delay(e, attempt as int) {
                        Some(ms) => r == (PollerAction::Sleep { ms: ms as u64 })
                            && final(self).phase() == (PollerPhase::SleepingBeforeSession { record, append, attempt: (attempt + 1) as usize }),
                        None => r == PollerAction::Finished(Err(poller_error_of(e))),
                    },
                },
                (PollerPhase::SleepingBeforeSession { record, append, attempt }, PollerEvent::Slept) =>
                    stores_session(r, record) && final(self).phase() == (PollerPhase::StoringSession { record, append, attempt }),
                (PollerPhase::Linking { record, append, session_id, attempt }, PollerEvent::LogEventsLinked(linked)) => match linked {
                    Ok(()) => {
                        &&& final(self).start_snapshot() is None
                        &&& final(self).error_count() == 0
                        &&& final(self).pending_log_event_ids().len() == 0
                        &&& match (append, old(self).results_output_file()) {
                            (true, Some(path)) => appends_result(r, path, record),
                            _ => r == PollerAction::Finished(Ok(())),
                        }
                    },
                    Err(e) => match retry_delay(e, attempt as int) {
                        Some(ms) => r == (PollerAction::Sleep { ms: ms as u64 })
                            && final(self).phase() == (PollerPhase::SleepingBeforeLink { record, append, session_id, attempt: (attempt + 1) as usize }),
                        None => r == PollerAction::Finished(Err(poller_error_of(e))),
                    },
                },
                (PollerPhase::SleepingBeforeLink { record, append, session_id, attempt }, PollerEvent::Slept) =>
                    links(r, session_id, old(self).pending_log_event_ids())
                        && final(self).phase() == (PollerPhase::Linking { record, append, session_id, attempt }),
                (PollerPhase::Appending, PollerEvent::ResultAppended(appended)) => match appended {
                    Ok(()) => r == PollerAction::Finished(Ok(())),
                    Err(m) => r == PollerAction::Finished(Err(PollerError::ResultsIo(m))),
                },
                _ => r == PollerAction::Finished(Ok(())) && final(self).phase() == PollerPhase::Idle
                    && final(self).machine_state() == old(self).machine_state(),
            },
    {
        let mut phase = PollerPhase::Idle;
        core::mem::swap(&mut self.phase, &mut phase);
        match (phase, event) {
            (PollerPhase::AwaitReport2, PollerEvent::Report2(fetched)) => self.on_report2(fetched, clock),
            (PollerPhase::AwaitPluggedReport3 { report2_raw, .. }, PollerEvent::Report3(fetched)) => {
                self.on_plugged_report3(report2_raw, fetched, clock)
            },
            (PollerPhase::AwaitUnpluggedReport3 { plugged_at, unplugged_at, report2_raw }, PollerEvent::Report3(fetched)) => {
                self.on_unplugged_report3(plugged_at, unplugged_at, report2_raw, fetched, clock)
            },
            (PollerPhase::StoringLogEvent { link, then }, PollerEvent::LogEventStored(stored)) => {
                if link {
                    if let Ok(id) = stored {
                        self.pending_session_log_event_ids.push(id);
                    }
                }
                match then {
                    AfterLogEvent::Finish => PollerAction::Finished(Ok(())),
                    AfterLogEvent::PersistSession { record, append } => {
                        self.phase = PollerPhase::StoringSession { record: record.duplicate(), append, attempt: 0 };
                        PollerAction::StoreSession(record)
                    },
                    AfterLogEvent::Observe { plugged, observed_at, report2_raw } => {
                        self.observe_report2(plugged, observed_at, report2_raw, clock)
                    },
                }
            },
            (PollerPhase::StoringSession { record, append, attempt }, PollerEvent::SessionStored(stored)) => match stored {
                Ok(id) => {
                    let log_event_ids = copy_ids(&self.pending_session_log_event_ids);
                    let session_id = id.clone();
                    self.phase = PollerPhase::Linking { record, append, session_id: id, attempt: 0 };
                    PollerAction::LinkLogEvents { session_id, log_event_ids }
                },
                Err(e) => match retry_delay_ms(&e, attempt) {
                    Some(ms) => {
                        self.phase = PollerPhase::SleepingBeforeSession { record, append, attempt: attempt + 1 };
                        PollerAction::Sleep { ms }
                    },
                    None => PollerAction::Finished(Err(service_error_to_poller_error(e))),
                },
            },
            (PollerPhase::SleepingBeforeSession { record, append, attempt }, PollerEvent::Slept) => {
                let action = PollerAction::StoreSession(record.duplicate());
                self.phase = PollerPhase::StoringSession { record, append, attempt };
                action
            },
            (PollerPhase::Linking { record, append, session_id, attempt }, PollerEvent::LogEventsLinked(linked)) => match linked {
                Ok(()) => {
                    self.finalize_session();
                    if append {
                        if let Some(path) = &self.results_output_file {
                            let entry = session_result_entry(&record);
                            self.phase = PollerPhase::Appending;
                            return PollerAction::AppendResult { path: path.clone(), entry };
                        }
                    }
                    PollerAction::Finished(Ok(()))
                },
                Err(e) => match retry_delay_ms(&e, attempt) {
                    Some(ms) => {
                        self.phase = PollerPhase::SleepingBeforeLink { record, append, session_id, attempt: attempt + 1 };
                        PollerAction::Sleep { ms }
                    },
                    None => PollerAction::Finished(Err(service_error_to_poller_error(e))),
                },
            },
            (PollerPhase::SleepingBeforeLink { record, append, session_id, attempt }, PollerEvent::Slept) => {
                let log_event_ids = copy_ids(&self.pending_session_log_event_ids);
                let sid = session_id.clone();
                self.phase = PollerPhase::Linking { record, append, session_id, attempt };
                PollerAction::LinkLogEvents { session_id: sid, log_event_ids }
            },
            (PollerPhase::Appending, PollerEvent::ResultAppended(appended)) => match appended {
                Ok(()) => PollerAction::Finished(Ok(())),
                Err(m) => PollerAction::Finished(Err(PollerError::ResultsIo(m))),
            },
            _ => PollerAction::Finished(Ok(())),
        }
    }
}

/// A warning stored as a log event with this code and message.
pub open spec fn stores_log_event(r: PollerAction, code: Seq<char>, message: Seq<char>) -> bool {
    match r {
        PollerAction::StoreLogEvent(e) => e.level@ == "warn"@ && e.code@ == code && e.message@ == message,
        _ => false,
    }
}

/// Linking the session's pending log events.
pub open spec fn links(r: PollerAction, session_id: String, ids: Seq<String>) -> bool {
    match r {
        PollerAction::LinkLogEvents { session_id: sid, log_event_ids } => sid@ == session_id@
            && ids_view(log_event_ids@) == ids_view(ids),
        _ => false,
    }
}

/// Appending the session's entry to the results file.
pub open spec fn appends_result(r: PollerAction, path: String, record: NewSessionRecord) -> bool {
    match r {
        PollerAction::AppendResult { path: p, entry } => p@ == path@ && entry_of(entry, record@),
        _ => false,
    }
}

/// The seconds counter moved backwards between two plug reports.
pub open spec fn seconds_went_back(previous: Option<u64>, current: Option<u64>) -> bool {
    match (previous, current) {
        (Some(p), Some(c)) => c < p,
        _ => false,
    }
}

/// A plug observation fed to the debouncer: the next state, and on a transition the
/// energy report is fetched, with the session's bounds kept for when it arrives.
pub open spec fn observed(
    old: SessionPoller,
    new: SessionPoller,
    r: PollerAction,
    plugged: bool,
    observed_at: Option<TimestampMs>,
    report2_raw: String,
) -> bool {
    exists|at: TimestampMs| {
        let step = #[trigger] debounce_step(old.machine_state(), plugged, at);
        &&& new.machine_state() == step.0
        &&& (observed_at matches Some(ts) ==> at == ts)
        &&& match step.1 {
            None => r == PollerAction::Finished(Ok(())) && new.phase() == PollerPhase::Idle
                && new.errors_since_plugged() == old.errors_since_plugged(),
            Some(SessionTransition::Plugged { plugged_at }) => r == PollerAction::FetchReport3
                && new.phase() == (PollerPhase::AwaitPluggedReport3 { plugged_at, report2_raw })
                && new.errors_since_plugged() == 0,
            Some(SessionTransition::Unplugged { plugged_at, unplugged_at }) => r == PollerAction::FetchReport3
                && new.phase() == (PollerPhase::AwaitUnpluggedReport3 { plugged_at, unplugged_at, report2_raw })
                && new.errors_since_plugged() == old.errors_since_plugged(),
        }
    }
}

/// A plug report's outcome: a fetch or parse failure ends the cycle with that error; a
/// seconds counter that moved backwards is first logged as a warning; then the
/// observation is fed to the debouncer.
pub open spec fn report2_handled(old: SessionPoller, new: SessionPoller, r: PollerAction, fetched: Result<FetchedPayload, KebaClientError>) -> bool {
    match fetched {
        Err(e) => r == PollerAction::Finished(Err(PollerError::FetchReport2(e)))
            && new.machine_state() == old.machine_state() && new.errors_since_plugged() == old.errors_since_plugged(),
        Ok(f) => match report2_of(f.payload) {
            Err(e) => r == PollerAction::Finished(Err(PollerError::ParseReport2(e)))
                && new.machine_state() == old.machine_state() && new.errors_since_plugged() == old.errors_since_plugged(),
            Ok(r2) => {
                &&& new.last_seconds() == r2.seconds
                &&& if seconds_went_back(old.last_seconds(), r2.seconds) {
                    &&& stores_log_event(r, "poll.report2_seconds_backwards"@, "report2 seconds counter moved backwards"@)
                    &&& new.phase() == (PollerPhase::StoringLogEvent {
                        link: old.machine_state().active_started_at is Some,
                        then: AfterLogEvent::Observe { plugged: r2.plugged, observed_at: observed_at_of(f.payload), report2_raw: f.raw },
                    })
                    &&& new.machine_state() == old.machine_state()
                    &&& new.errors_since_plugged() == old.errors_since_plugged()
                } else {
                    observed(old, new, r, r2.plugged, observed_at_of(f.payload), f.raw)
                }
            },
        },
    }
}

/// The energy report at plugging: on success it becomes the session's start, with the
/// raw payloads kept, the error count reset and no log events pending; on failure there
/// is no start, the failure is counted and logged under its code, linked to the session.
pub open spec fn plugged_handled(old: SessionPoller, new: SessionPoller, r: PollerAction, report2_raw: String, fetched: Result<FetchedPayload, KebaClientError>) -> bool {
    &&& new.machine_state() == old.machine_state()
    &&& match fetched {
        Ok(f) => match report3_of(f.payload) {
            Ok(r3) => {
                &&& r == PollerAction::Finished(Ok(()))
                &&& new.start_snapshot() == Some(snapshot_of(r3))
                &&& new.error_count() == 0
                &&& new.pending_log_event_ids().len() == 0
                &&& opt_view(new.start_report2_raw()) == Some(report2_raw@)
                &&& opt_view(new.start_report3_raw()) == Some(f.raw@)
            },
            Err(e) => {
                &&& new.start_snapshot() is None
                &&& new.errors_since_plugged() == old.errors_since_plugged() + 1
                &&& new.phase() == (PollerPhase::StoringLogEvent { link: true, then: AfterLogEvent::Finish })
                &&& stores_log_event(r, "poll.parse_report3_on_plugged"@, parse_error_message(e))
            },
        },
        Err(e) => {
            &&& new.start_snapshot() is None
            &&& new.errors_since_plugged() == old.errors_since_plugged() + 1
            &&& new.phase() == (PollerPhase::StoringLogEvent { link: true, then: AfterLogEvent::Finish })
            &&& stores_log_event(r, "poll.fetch_report3_on_plugged"@, client_error_message(e))
        },
    }
}

/// The warning logged when a session ends abnormally, by failure mode: its code and message.
pub open spec fn unplugged_log(start: Option<EnergySnapshot>, fetched: Result<FetchedPayload, KebaClientError>) -> Option<(Seq<char>, Seq<char>)> {
    match fetched {
        Err(e) => Some(("poll.fetch_report3_on_unplugged"@, client_error_message(e))),
        Ok(f) => match report3_of(f.payload) {
            Err(e) => Some(("poll.parse_report3_on_unplugged"@, parse_error_message(e))),
            Ok(r3) => match session_energy(start, snapshot_of(r3)) {
                Ok(o) => if o.warning is None {
                    None
                } else {
                    Some(("poll.energy_warning"@, "energy clamped due to negative delta/value"@))
                },
                Err(_) => Some(("poll.compute_energy_on_unplugged"@, "unable to compute session energy: no usable energy data"@)),
            },
        },
    }
}

/// Whether an ended session goes to the results file: when its energy report was read.
pub open spec fn unplugged_appends(fetched: Result<FetchedPayload, KebaClientError>) -> bool {
    match fetched {
        Ok(f) => report3_of(f.payload) is Ok,
        Err(_) => false,
    }
}

/// A session record about to be stored, and whether it will be appended to the results file.
pub open spec fn persisting_after_log(p: PollerPhase, append: bool) -> bool {
    match p {
        PollerPhase::StoringLogEvent { link, then: AfterLogEvent::PersistSession { append: a, .. } } => link && a == append,
        _ => false,
    }
}

pub open spec fn stores_phase_record(r: PollerAction, p: PollerPhase) -> bool {
    match (r, phase_record(p)) {
        (PollerAction::StoreSession(rec), Some(kept)) => rec@ == kept@,
        _ => false,
    }
}

/// The energy report at unplugging: the session record is built from the outcome; an
/// abnormal end first stores its warning, linked to the session; a clean one is stored at once.
pub open spec fn unplugged_handled(
    old: SessionPoller,
    new: SessionPoller,
    r: PollerAction,
    plugged_at: TimestampMs,
    unplugged_at: TimestampMs,
    report2_raw: String,
    fetched: Result<FetchedPayload, KebaClientError>,
) -> bool {
    &&& match phase_record(new.phase()) {
        Some(rec) => ended_session(rec@, old, fetched, plugged_at, unplugged_at, report2_raw@),
        None => false,
    }
    &&& match unplugged_log(old.start_snapshot(), fetched) {
        Some(log) => stores_log_event(r, log.0, log.1) && persisting_after_log(new.phase(), unplugged_appends(fetched)),
        None => stores_phase_record(r, new.phase()) && match new.phase() {
            PollerPhase::StoringSession { append, attempt, .. } => append && attempt == 0,
            _ => false,
        },
    }
}

pub open spec fn record_error_count_is(p: PollerPhase, n: int) -> bool {
    phase_record(p) matches Some(rec) && rec.error_count_during_session == n
}

pub open spec fn stores_session(r: PollerAction, record: NewSessionRecord) -> bool {
    r matches PollerAction::StoreSession(rec) && rec@ == record@
}

pub open spec fn storing_phase(p: PollerPhase, record: NewSessionRecord, append: bool, attempt: int) -> bool {
    p matches PollerPhase::StoringSession { record: kept, append: a, attempt: n } && kept@ == record@ && a == append && n == attempt
}

pub open spec fn ids_view(ids: Seq<String>) -> Seq<Seq<char>> {
    Seq::new(ids.len(), |i: int| ids[i]@)
}

fn copy_ids(ids: &Vec<String>) -> (r: Vec<String>)
    ensures
        ids_view(r@) == ids_view(ids@),
{
    let mut out: Vec<String> = Vec::new();
    let mut i: usize = 0;
    while i < ids.len()
        invariant
            i <= ids.len(),
            out@.len() == i,
            forall|j: int| 0 <= j < i ==> (#[trigger] out@[j])@ == ids@[j]@,
        decreases ids.len() - i,
    {
        out.push(ids[i].clone());
        i += 1;
    }
    assert(ids_view(out@) =~= ids_view(ids@));
    out
}

/// The results-file entry of a stored session.
pub open spec fn entry_of(entry: SessionResultEntry, rec: crate::models::NewSessionView) -> bool {
    &&& entry.from@ == (match rec.started_at {
        Some(s) => s,
        None => rec.finished_at,
    })
    &&& entry.to@ == rec.finished_at
    &&& entry.duration_ms == rec.duration_ms
    &&& entry.mwh == rec.energy_mwh
}

/// The results-file entry of a session: its bounds, duration and energy.
pub fn session_result_entry(record: &NewSessionRecord) -> (r: SessionResultEntry)
    ensures
        entry_of(r, record@),
{
    SessionResultEntry {
        from: match &record.started_at {
            Some(s) => s.clone(),
            None => record.finished_at.clone(),
        },
        to: record.finished_at.clone(),
        duration_ms: record.duration_ms,
        mwh: record.energy_mwh,
    }
}

} // verus!
