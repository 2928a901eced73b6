use vstd::prelude::*;

verus! {

/// The charger's energy counters at one moment, in milliwatt-hours.
#[derive(Debug, Clone, Copy, PartialEq, Eq, Structural)]
pub struct EnergySnapshot {
    pub present_session_mwh: Option<i64>,
    pub total_mwh: Option<i64>,
}

/// Which counters the session's energy was derived from.
#[derive(Debug, Clone, Copy, PartialEq, Eq, Structural)]
pub enum EnergySource {
    PresentSession,
    PresentSessionDelta,
    TotalDelta,
}

/// A negative value or delta that was clamped to zero.
#[derive(Debug, Clone, Copy, PartialEq, Eq, Structural)]
pub enum EnergyWarning {
    NegativePresentSessionValueClamped,
    NegativePresentSessionDeltaClamped,
    NegativeTotalDeltaClamped,
}

#[derive(Debug, Clone, Copy, PartialEq, Eq, Structural)]
pub enum EnergyComputationError {
    NoUsableEnergyData,
}

impl EnergyComputationError {
    pub fn to_string(&self) -> (r: String)
        ensures
            r@ == "unable to compute session energy: no usable energy data"@,
    {
        String::from_str("unable to compute session energy: no usable energy data")
    }
}

/// The energy delivered in one session, in milliwatt-hours.
#[derive(Debug, Clone, PartialEq, Eq)]
pub struct SessionEnergyResult {
    pub mwh: u64,
    pub source: EnergySource,
    pub warnings: Vec<EnergyWarning>,
}

/// What a session's energy is: its amount, its source and the clamp that was needed, if any.
pub struct EnergyOutcome {
    pub mwh: int,
    pub source: EnergySource,
    pub warning: Option<EnergyWarning>,
}

pub open spec fn start_present(start: Option<EnergySnapshot>) -> Option<i64> {
    match start {
        Some(s) => s.present_session_mwh,
        None => None,
    }
}

pub open spec fn start_total(start: Option<EnergySnapshot>) -> Option<i64> {
    match start {
        Some(s) => s.total_mwh,
        None => None,
    }
}

/// `v`, or zero with `warning` when `v` is negative.
pub open spec fn clamped(v: int, source: EnergySource, warning: EnergyWarning) -> EnergyOutcome {
    if v < 0 {
        EnergyOutcome { mwh: 0, source, warning: Some(warning) }
    } else {
        EnergyOutcome { mwh: v, source, warning: None }
    }
}

/// The accounting policy: the present-session delta when both present-session values are
/// known; else the end's present-session value; else the total-counter delta.
pub open spec fn session_energy(start: Option<EnergySnapshot>, end: EnergySnapshot) -> Result<EnergyOutcome, EnergyComputationError> {
    match (end.present_session_mwh, start_present(start), end.total_mwh, start_total(start)) {
        (Some(e), Some(s), _, _) => Ok(clamped(e - s, EnergySource::PresentSessionDelta, EnergyWarning::NegativePresentSessionDeltaClamped)),
        (Some(e), None, _, _) => Ok(clamped(e as int, EnergySource::PresentSession, EnergyWarning::NegativePresentSessionValueClamped)),
        (None, _, Some(e), Some(s)) => Ok(clamped(e - s, EnergySource::TotalDelta, EnergyWarning::NegativeTotalDeltaClamped)),
        _ => Err(EnergyComputationError::NoUsableEnergyData),
    }
}

pub open spec fn warnings_of(w: Option<EnergyWarning>) -> Seq<EnergyWarning> {
    match w {
        Some(w) => seq![w],
        None => Seq::empty(),
    }
}

pub open spec fn option_ref_view(start: Option<&EnergySnapshot>) -> Option<EnergySnapshot> {
    match start {
        Some(s) => Some(*s),
        None => None,
    }
}

fn clamp_delta(end: i64, start: i64, source: EnergySource, warning: EnergyWarning) -> (r: SessionEnergyResult)
    ensures
        r.mwh == clamped(end - start, source, warning).mwh,
        r.source == source,
        r.warnings@ == warnings_of(clamped(end - start, source, warning).warning),
{
    if end < start {
        SessionEnergyResult { mwh: 0, source, warnings: vec![warning] }
    } else {
        let delta = (end as i128 - start as i128) as u64;
        SessionEnergyResult { mwh: delta, source, warnings: Vec::new() }
    }
}

/// Computes a session's energy from its start snapshot (if one was taken) and its end
/// snapshot. The result is never negative, and the source follows the policy's order.
pub fn compute_session_kwh(start: Option<&EnergySnapshot>, end: &EnergySnapshot) -> (r: Result<SessionEnergyResult, EnergyComputationError>)
    ensures
        match (r, session_energy(option_ref_view(start), *end)) {
            (Ok(res), Ok(o)) => res.mwh == o.mwh && res.source == o.source && res.warnings@ == warnings_of(o.warning),
            (Err(e), Err(f)) => e == f,
            _ => false,
        },
        r matches Ok(res) ==> res.mwh >= 0,
        r matches Ok(res) ==> (res.source == EnergySource::PresentSessionDelta
            <==> end.present_session_mwh is Some && start_present(option_ref_view(start)) is Some),
        r matches Ok(res) ==> (res.source == EnergySource::PresentSession
            <==> end.present_session_mwh is Some && start_present(option_ref_view(start)) is None),
        r matches Ok(res) ==> (res.source == EnergySource::TotalDelta <==> end.present_session_mwh is None),
        r is Err <==> (end.present_session_mwh is None && (end.total_mwh is None || start_total(option_ref_view(start)) is None)),
{
    let start_present_mwh = match start {
        Some(s) => s.present_session_mwh,
        None => None,
    };
    let start_total_mwh = match start {
        Some(s) => s.total_mwh,
        None => None,
    };
    if let Some(end_present) = end.present_session_mwh {
        if let Some(start_present) = start_present_mwh {
            return Ok(clamp_delta(
                end_present,
                start_present,
                EnergySource::PresentSessionDelta,
                EnergyWarning::NegativePresentSessionDeltaClamped,
            ));
        }
        return Ok(clamp_delta(
            end_present,
            0,
            EnergySource::PresentSession,
            EnergyWarning::NegativePresentSessionValueClamped,
        ));
    }
    if let (Some(start_total), Some(end_total)) = (start_total_mwh, end.total_mwh) {
        return Ok(clamp_delta(
            end_total,
            start_total,
            EnergySource::TotalDelta,
            EnergyWarning::NegativeTotalDeltaClamped,
        ));
    }
    Err(EnergyComputationError::NoUsableEnergyData)
}

} // verus!
