use vstd::prelude::*;

verus! {

/// A stored charging session. Energy is in milliwatt-hours.
#[derive(Debug, Clone, PartialEq, Eq)]
pub struct SessionRecord {
    pub id: String,
    pub started_at: Option<String>,
    pub finished_at: String,
    pub duration_ms: i64,
    pub energy_mwh: u64,
    pub source: String,
    pub status: String,
    pub started_reason: String,
    pub finished_reason: String,
    pub poll_interval_ms: i64,
    pub debounce_samples: i64,
    pub error_count_during_session: i64,
    pub station_id: Option<String>,
    pub created_at: String,
    pub raw_report2_start: Option<String>,
    pub raw_report3_start: Option<String>,
    pub raw_report2_end: Option<String>,
    pub raw_report3_end: Option<String>,
}

/// A charging session about to be stored. Energy is in milliwatt-hours.
#[derive(Debug, Clone, PartialEq, Eq)]
pub struct NewSessionRecord {
    pub started_at: Option<String>,
    pub finished_at: String,
    pub duration_ms: i64,
    pub energy_mwh: u64,
    pub source: String,
    pub status: String,
    pub started_reason: String,
    pub finished_reason: String,
    pub poll_interval_ms: i64,
    pub debounce_samples: i64,
    pub error_count_during_session: i64,
    pub station_id: Option<String>,
    pub created_at: String,
    pub raw_report2_start: Option<String>,
    pub raw_report3_start: Option<String>,
    pub raw_report2_end: Option<String>,
    pub raw_report3_end: Option<String>,
}

pub open spec fn opt_view(o: Option<String>) -> Option<Seq<char>> {
    match o {
        Some(s) => Some(s@),
        None => None,
    }
}

pub fn copy_opt(o: &Option<String>) -> (r: Option<String>)
    ensures
        opt_view(r) == opt_view(*o),
{
    match o {
        Some(s) => Some(s.clone()),
        None => None,
    }
}

/// The contents of a session record, as text and numbers.
pub struct NewSessionView {
    pub started_at: Option<Seq<char>>,
    pub finished_at: Seq<char>,
    pub duration_ms: int,
    pub energy_mwh: int,
    pub source: Seq<char>,
    pub status: Seq<char>,
    pub started_reason: Seq<char>,
    pub finished_reason: Seq<char>,
    pub poll_interval_ms: int,
    pub debounce_samples: int,
    pub error_count_during_session: int,
    pub station_id: Option<Seq<char>>,
    pub created_at: Seq<char>,
    pub raw_report2_start: Option<Seq<char>>,
    pub raw_report3_start: Option<Seq<char>>,
    pub raw_report2_end: Option<Seq<char>>,
    pub raw_report3_end: Option<Seq<char>>,
}

impl View for NewSessionRecord {
    type V = NewSessionView;

    open spec fn view(&self) -> NewSessionView {
        NewSessionView {
            started_at: opt_view(self.started_at),
            finished_at: self.finished_at@,
            duration_ms: self.duration_ms as int,
            energy_mwh: self.energy_mwh as int,
            source: self.source@,
            status: self.status@,
            started_reason: self.started_reason@,
            finished_reason: self.finished_reason@,
            poll_interval_ms: self.poll_interval_ms as int,
            debounce_samples: self.debounce_samples as int,
            error_count_during_session: self.error_count_during_session as int,
            station_id: opt_view(self.station_id),
            created_at: self.created_at@,
            raw_report2_start: opt_view(self.raw_report2_start),
            raw_report3_start: opt_view(self.raw_report3_start),
            raw_report2_end: opt_view(self.raw_report2_end),
            raw_report3_end: opt_view(self.raw_report3_end),
        }
    }
}

impl NewSessionRecord {
    /// A copy with the same contents.
    pub fn duplicate(&self) -> (r: Self)
        ensures
            r@ == self@,
    {
        NewSessionRecord {
            started_at: copy_opt(&self.started_at),
            finished_at: self.finished_at.clone(),
            duration_ms: self.duration_ms,
            energy_mwh: self.energy_mwh,
            source: self.source.clone(),
            status: self.status.clone(),
            started_reason: self.started_reason.clone(),
            finished_reason: self.finished_reason.clone(),
            poll_interval_ms: self.poll_interval_ms,
            debounce_samples: self.debounce_samples,
            error_count_during_session: self.error_count_during_session,
            station_id: copy_opt(&self.station_id),
            created_at: self.created_at.clone(),
            raw_report2_start: copy_opt(&self.raw_report2_start),
            raw_report3_start: copy_opt(&self.raw_report3_start),
            raw_report2_end: copy_opt(&self.raw_report2_end),
            raw_report3_end: copy_opt(&self.raw_report3_end),
        }
    }
}

#[derive(Debug, Clone, PartialEq, Eq)]
pub struct NewLogEventRecord {
    pub created_at: String,
    pub level: String,
    pub code: String,
    pub message: String,
    pub source: String,
    pub station_id: Option<String>,
    pub details_json: Option<String>,
}

#[derive(Debug, Clone, PartialEq, Eq)]
pub struct LogEventRecord {
    pub id: String,
    pub created_at: String,
    pub level: String,
    pub code: String,
    pub message: String,
    pub source: String,
    pub station_id: Option<String>,
    pub details_json: Option<String>,
}

} // verus!
