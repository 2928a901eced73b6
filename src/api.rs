use vstd::prelude::*;

use crate::models::LogEventRecord;
use crate::storage::{clamp_limit, clamped_limit};

verus! {

/// The paging parameters of the session list.
#[derive(Debug, Clone, Copy, PartialEq, Eq, Structural)]
pub struct ListQuery {
    pub limit: Option<u32>,
    pub offset: Option<u32>,
}

impl ListQuery {
    /// The page to read: the limit clamped to 1..=500 (50 when absent), the offset or 0.
    pub fn page(&self) -> (r: (u32, u32))
        ensures
            r.0 == clamped_limit(self.limit),
            r.1 == match self.offset {
                Some(o) => o,
                None => 0,
            },
    {
        let offset = match self.offset {
            Some(o) => o,
            None => 0,
        };
        (clamp_limit(self.limit), offset)
    }
}

/// The size parameter of the recent log events.
#[derive(Debug, Clone, Copy, PartialEq, Eq, Structural)]
pub struct DiagnosticsLogQuery {
    pub limit: Option<u32>,
}

impl DiagnosticsLogQuery {
    /// How many events to read: the limit clamped to 1..=500, 50 when absent.
    pub fn effective_limit(&self) -> (r: u32)
        ensures
            r == clamped_limit(self.limit),
    {
        clamp_limit(self.limit)
    }
}

/// A log event as the diagnostics surface returns it.
#[derive(Debug, Clone, PartialEq, Eq)]
pub struct DiagnosticsLogEventResponse {
    pub id: String,
    pub created_at: String,
    pub level: String,
    pub code: String,
    pub message: String,
    pub source: String,
    pub station_id: Option<String>,
    pub details_json: Option<String>,
}

impl DiagnosticsLogEventResponse {
    pub fn from_record(event: LogEventRecord) -> (r: Self)
        ensures
            r.id == event.id,
            r.created_at == event.created_at,
            r.level == event.level,
            r.code == event.code,
            r.message == event.message,
            r.source == event.source,
            r.station_id == event.station_id,
            r.details_json == event.details_json,
    {
        DiagnosticsLogEventResponse {
            id: event.id,
            created_at: event.created_at,
            level: event.level,
            code: event.code,
            message: event.message,
            source: event.source,
            station_id: event.station_id,
            details_json: event.details_json,
        }
    }
}

} // verus!
