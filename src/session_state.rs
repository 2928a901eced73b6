use vstd::prelude::*;

verus! {

/// A point in time, in milliseconds since the Unix epoch.
#[derive(Debug, Clone, Copy, PartialEq, Eq, Structural, PartialOrd, Ord)]
pub struct TimestampMs(pub i64);

/// A source of the current time.
pub trait Clock {
    fn now(&self) -> TimestampMs;
}

/// A debounced crossing of the "vehicle connected" predicate.
#[derive(Debug, Clone, Copy, PartialEq, Eq, Structural)]
pub enum SessionTransition {
    Plugged { plugged_at: TimestampMs },
    Unplugged { plugged_at: TimestampMs, unplugged_at: TimestampMs },
}

/// A run of identical observations that has not yet reached the threshold.
pub struct CandidateView {
    pub plugged: bool,
    pub count: nat,
    pub first_observed_at: TimestampMs,
}

/// The mathematical state of the debouncer.
pub struct DebounceState {
    pub samples: nat,
    pub stable: Option<bool>,
    pub candidate: Option<CandidateView>,
    pub active_started_at: Option<TimestampMs>,
}

impl DebounceState {
    pub open spec fn initial(samples: nat) -> DebounceState {
        DebounceState { samples, stable: None, candidate: None, active_started_at: None }
    }

    pub open spec fn well_formed(self) -> bool {
        &&& self.samples >= 1
        &&& self.samples <= usize::MAX
        &&& (self.candidate matches Some(c) ==> 1 <= c.count < self.samples)
    }
}

/// The candidate after one more observation: extended when it has the same value,
/// otherwise replaced by a fresh run that starts at `at`.
pub open spec fn next_candidate(c: Option<CandidateView>, plugged: bool, at: TimestampMs) -> CandidateView {
    match c {
        Some(c) if c.plugged == plugged => CandidateView {
            plugged,
            count: c.count + 1,
            first_observed_at: c.first_observed_at,
        },
        _ => CandidateView { plugged, count: 1, first_observed_at: at },
    }
}

/// One observation fed to the debouncer: the next state and the transition it emits.
pub open spec fn debounce_step(s: DebounceState, plugged: bool, at: TimestampMs) -> (DebounceState, Option<SessionTransition>) {
    match s.stable {
        None => {
            let c = next_candidate(s.candidate, plugged, at);
            if c.count >= s.samples {
                (DebounceState { stable: Some(plugged), candidate: None, ..s }, None)
            } else {
                (DebounceState { candidate: Some(c), ..s }, None)
            }
        },
        Some(stable) => {
            if stable == plugged {
                (DebounceState { candidate: None, ..s }, None)
            } else {
                let c = next_candidate(s.candidate, plugged, at);
                if c.count < s.samples {
                    (DebounceState { candidate: Some(c), ..s }, None)
                } else if plugged {
                    (
                        DebounceState {
                            stable: Some(true),
                            candidate: None,
                            active_started_at: Some(c.first_observed_at),
                            ..s
                        },
                        Some(SessionTransition::Plugged { plugged_at: c.first_observed_at }),
                    )
                } else {
                    (
                        DebounceState {
                            stable: Some(false),
                            candidate: None,
                            active_started_at: None,
                            ..s
                        },
                        Some(
                            SessionTransition::Unplugged {
                                plugged_at: match s.active_started_at {
                                    Some(p) => p,
                                    None => c.first_observed_at,
                                },
                                unplugged_at: c.first_observed_at,
                            },
                        ),
                    )
                }
            }
        },
    }
}

/// The debouncer fed a whole sequence of timestamped observations, from a fresh start:
/// its final state and what the last observation emitted.
pub open spec fn debounce_run(samples: nat, obs: Seq<(bool, TimestampMs)>) -> (DebounceState, Option<SessionTransition>)
    decreases obs.len(),
{
    if obs.len() == 0 {
        (DebounceState::initial(samples), None)
    } else {
        let last = obs.last();
        debounce_step(debounce_run(samples, obs.drop_last()).0, last.0, last.1)
    }
}

/// The plug value that a transition moves to.
pub open spec fn transition_value(t: SessionTransition) -> bool {
    match t {
        SessionTransition::Plugged { .. } => true,
        SessionTransition::Unplugged { .. } => false,
    }
}

/// The time at which a transition's new value was first observed.
pub open spec fn transition_time(t: SessionTransition) -> TimestampMs {
    match t {
        SessionTransition::Plugged { plugged_at } => plugged_at,
        SessionTransition::Unplugged { unplugged_at, .. } => unplugged_at,
    }
}

#[derive(Debug, Clone, Copy)]
struct Candidate {
    plugged: bool,
    count: usize,
    first_observed_at: TimestampMs,
}

/// Turns noisy plug observations into `Plugged` / `Unplugged` transitions once a new
/// value has been seen `debounce_samples` times in a row.
#[derive(Debug, Clone)]
pub struct SessionStateMachine {
    debounce_samples: usize,
    stable_plugged: Option<bool>,
    candidate: Option<Candidate>,
    active_session_started_at: Option<TimestampMs>,
}

impl View for SessionStateMachine {
    type V = DebounceState;

    closed spec fn view(&self) -> DebounceState {
        DebounceState {
            samples: self.debounce_samples as nat,
            stable: self.stable_plugged,
            candidate: match self.candidate {
                Some(c) => Some(
                    CandidateView {
                        plugged: c.plugged,
                        count: c.count as nat,
                        first_observed_at: c.first_observed_at,
                    },
                ),
                None => None,
            },
            active_started_at: self.active_session_started_at,
        }
    }
}

impl SessionStateMachine {
    /// A debouncer that needs `debounce_samples` identical observations (at least one).
    pub fn new(debounce_samples: usize) -> (r: Self)
        ensures
            r@ == DebounceState::initial(if debounce_samples == 0 { 1 } else { debounce_samples as nat }),
            r@.well_formed(),
    {
        SessionStateMachine {
            debounce_samples: if debounce_samples == 0 { 1 } else { debounce_samples },
            stable_plugged: None,
            candidate: None,
            active_session_started_at: None,
        }
    }

    /// Feeds one observation whose time is read from `clock`, only when it starts a run
    /// that can become a transition. Until the first stable value is known, runs are
    /// stamped with time zero: startup emits no transition.
    pub fn observe<C: Clock>(&mut self, plugged_observation: bool, clock: &C) -> (r: Option<SessionTransition>)
        requires
            old(self)@.well_formed(),
        ensures
            final(self)@.well_formed(),
            exists|at: TimestampMs| (final(self)@, r) == #[trigger] debounce_step(old(self)@, plugged_observation, at),
            old(self)@.stable is None ==> (final(self)@, r) == debounce_step(old(self)@, plugged_observation, TimestampMs(0)),
    {
        let starts_run = match self.stable_plugged {
            None => false,
            Some(stable) => stable != plugged_observation && match self.candidate {
                Some(c) => c.plugged != plugged_observation,
                None => true,
            },
        };
        let at = if starts_run { clock.now() } else { TimestampMs(0) };
        self.observe_at(plugged_observation, at)
    }

    /// Feeds one observation made at `observed_at`.
    pub fn observe_at(&mut self, plugged_observation: bool, observed_at: TimestampMs) -> (r: Option<SessionTransition>)
        requires
            old(self)@.well_formed(),
        ensures
            final(self)@.well_formed(),
            (final(self)@, r) == debounce_step(old(self)@, plugged_observation, observed_at),
    {
        match self.stable_plugged {
            None => {
                if self.accept_candidate_at(plugged_observation, observed_at) {
                    self.stable_plugged = Some(plugged_observation);
                    self.candidate = None;
                }
                None
            },
            Some(stable) => {
                if stable == plugged_observation {
                    self.candidate = None;
                    return None;
                }
                if !self.accept_candidate_at(plugged_observation, observed_at) {
                    return None;
                }
                let transition_at = match self.candidate {
                    Some(c) => c.first_observed_at,
                    None => observed_at,
                };
                self.stable_plugged = Some(plugged_observation);
                self.candidate = None;
                if plugged_observation {
                    self.active_session_started_at = Some(transition_at);
                    Some(SessionTransition::Plugged { plugged_at: transition_at })
                } else {
                    let plugged_at = match self.active_session_started_at {
                        Some(p) => p,
                        None => transition_at,
                    };
                    self.active_session_started_at = None;
                    Some(SessionTransition::Unplugged { plugged_at, unplugged_at: transition_at })
                }
            },
        }
    }

    /// When the current session became plugged, if one is active.
    pub fn active_session_started_at(&self) -> (r: Option<TimestampMs>)
        ensures
            r == self@.active_started_at,
    {
        self.active_session_started_at
    }

    /// Extends or replaces the candidate run; true when it has reached the threshold.
    /// The candidate is left in place either way.
    fn accept_candidate_at(&mut self, plugged_observation: bool, observed_at: TimestampMs) -> (r: bool)
        requires
            old(self)@.well_formed(),
        ensures
            final(self)@ == (DebounceState {
                candidate: Some(next_candidate(old(self)@.candidate, plugged_observation, observed_at)),
                ..old(self)@
            }),
            r == (next_candidate(old(self)@.candidate, plugged_observation, observed_at).count >= old(self)@.samples),
    {
        match self.candidate {
            Some(c) if c.plugged == plugged_observation => {
                let next = Candidate { plugged: c.plugged, count: c.count + 1, first_observed_at: c.first_observed_at };
                self.candidate = Some(next);
                next.count >= self.debounce_samples
            },
            _ => {
                self.candidate = Some(Candidate { plugged: plugged_observation, count: 1, first_observed_at: observed_at });
                self.debounce_samples == 1
            },
        }
    }
}

/// What holds of the debouncer's state after it has been fed `obs`: the candidate is
/// exactly the trailing run of identical observations, and it starts at its first one.
pub open spec fn run_invariant(s: DebounceState, obs: Seq<(bool, TimestampMs)>) -> bool {
    &&& s.well_formed()
    &&& (s.stable is None && s.candidate is None ==> obs.len() == 0)
    &&& (s.stable matches Some(st) ==> obs.len() >= 1 && (s.candidate is None ==> obs.last().0 == st))
    &&& (s.candidate matches Some(c) ==> {
        &&& c.count <= obs.len()
        &&& (forall|i: int| obs.len() - c.count <= i < obs.len() ==> (#[trigger] obs[i]).0 == c.plugged)
        &&& obs[obs.len() - c.count].1 == c.first_observed_at
        &&& (obs.len() - c.count >= 1 ==> obs[obs.len() - c.count - 1].0 != c.plugged)
        &&& (s.stable matches Some(st) ==> c.plugged != st && c.count < obs.len())
    })
}

proof fn lemma_run_invariant(samples: nat, obs: Seq<(bool, TimestampMs)>)
    requires
        1 <= samples <= usize::MAX,
    ensures
        run_invariant(debounce_run(samples, obs).0, obs),
        debounce_run(samples, obs).0.samples == samples,
        debounce_run(samples, obs).1 matches Some(t) ==> {
            &&& obs.len() > samples
            &&& (forall|i: int| obs.len() - samples <= i < obs.len() ==> (#[trigger] obs[i]).0 == transition_value(t))
            &&& obs[obs.len() - samples - 1].0 != transition_value(t)
            &&& transition_time(t) == obs[obs.len() - samples].1
        },
    decreases obs.len(),
{
    if obs.len() > 0 {
        let prev = obs.drop_last();
        lemma_run_invariant(samples, prev);
        let s = debounce_run(samples, prev).0;
        let last = obs.last();
        assert forall|i: int| 0 <= i < prev.len() implies obs[i] == prev[i] by {}
        if let Some(c) = s.candidate {
            if c.plugged == last.0 {
                assert forall|i: int| obs.len() - (c.count + 1) <= i < obs.len() implies (#[trigger] obs[i]).0 == c.plugged by {
                    if i < prev.len() {
                        assert(prev[i].0 == c.plugged);
                    }
                }
            } else {
                assert(prev[prev.len() - 1].0 == c.plugged);
            }
        } else if let Some(st) = s.stable {
            assert(prev[prev.len() - 1].0 == st);
        }
    }
}

/// The debouncer emits a transition only once the new value has been observed
/// `samples` times in a row, right after an observation of the other value, and the
/// transition carries the time of the first of those observations.
pub proof fn lemma_transition_needs_consecutive_samples(samples: nat, obs: Seq<(bool, TimestampMs)>)
    requires
        1 <= samples <= usize::MAX,
    ensures
        debounce_run(samples, obs).1 matches Some(t) ==> {
            &&& obs.len() > samples
            &&& (forall|i: int| obs.len() - samples <= i < obs.len() ==> (#[trigger] obs[i]).0 == transition_value(t))
            &&& obs[obs.len() - samples - 1].0 != transition_value(t)
            &&& transition_time(t) == obs[obs.len() - samples].1
        },
{
    lemma_run_invariant(samples, obs);
}

} // verus!
