use std::cell::Cell;

use keba_home_api::session_state::{Clock, SessionStateMachine, SessionTransition, TimestampMs};

struct FakeClock {
    now: Cell<i64>,
}

impl FakeClock {
    fn new(start: i64) -> Self {
        Self {
            now: Cell::new(start),
        }
    }

    fn set(&self, value: i64) {
        self.now.set(value);
    }
}

impl Clock for FakeClock {
    fn now(&self) -> TimestampMs {
        TimestampMs(self.now.get())
    }
}

#[test]
fn emits_plugged_after_debounce_threshold() {
    let clock = FakeClock::new(1_000);
    let mut machine = SessionStateMachine::new(2);

    assert_eq!(machine.observe(false, &clock), None);
    assert_eq!(machine.observe(false, &clock), None);

    clock.set(2_000);
    assert_eq!(machine.observe(true, &clock), None);
    assert_eq!(
        machine.observe(true, &clock),
        Some(SessionTransition::Plugged {
            plugged_at: TimestampMs(2_000),
        })
    );
}

#[test]
fn emits_unplugged_with_session_bounds() {
    let clock = FakeClock::new(1_000);
    let mut machine = SessionStateMachine::new(2);

    machine.observe(false, &clock);
    machine.observe(false, &clock);

    clock.set(2_000);
    machine.observe(true, &clock);
    machine.observe(true, &clock);

    clock.set(5_000);
    assert_eq!(machine.observe(false, &clock), None);
    assert_eq!(
        machine.observe(false, &clock),
        Some(SessionTransition::Unplugged {
            plugged_at: TimestampMs(2_000),
            unplugged_at: TimestampMs(5_000),
        })
    );
    assert_eq!(machine.active_session_started_at(), None);
}

#[test]
fn startup_in_plugged_state_does_not_emit_transition() {
    let clock = FakeClock::new(1_000);
    let mut machine = SessionStateMachine::new(2);

    assert_eq!(machine.observe(true, &clock), None);
    assert_eq!(machine.observe(true, &clock), None);
    assert_eq!(machine.active_session_started_at(), None);
}

#[test]
fn flap_does_not_trigger_transition() {
    let clock = FakeClock::new(1_000);
    let mut machine = SessionStateMachine::new(2);

    machine.observe(false, &clock);
    machine.observe(false, &clock);

    assert_eq!(machine.observe(true, &clock), None);
    assert_eq!(machine.observe(false, &clock), None);
    assert_eq!(machine.observe(true, &clock), None);
    assert_eq!(machine.observe(false, &clock), None);
}

#[test]
fn uses_first_changed_observation_timestamp_for_plugged_transition() {
    let mut machine = SessionStateMachine::new(2);

    assert_eq!(machine.observe_at(false, TimestampMs(1_000)), None);
    assert_eq!(machine.observe_at(false, TimestampMs(1_100)), None);
    assert_eq!(machine.observe_at(true, TimestampMs(2_000)), None);
    assert_eq!(
        machine.observe_at(true, TimestampMs(3_000)),
        Some(SessionTransition::Plugged {
            plugged_at: TimestampMs(2_000),
        })
    );
}

#[test]
fn uses_first_changed_observation_timestamp_for_unplugged_transition() {
    let mut machine = SessionStateMachine::new(2);

    assert_eq!(machine.observe_at(false, TimestampMs(1_000)), None);
    assert_eq!(machine.observe_at(false, TimestampMs(1_100)), None);
    assert_eq!(machine.observe_at(true, TimestampMs(2_000)), None);
    assert_eq!(
        machine.observe_at(true, TimestampMs(2_100)),
        Some(SessionTransition::Plugged {
            plugged_at: TimestampMs(2_000),
        })
    );
    assert_eq!(machine.observe_at(false, TimestampMs(5_000)), None);
    assert_eq!(
        machine.observe_at(false, TimestampMs(6_000)),
        Some(SessionTransition::Unplugged {
            plugged_at: TimestampMs(2_000),
            unplugged_at: TimestampMs(5_000),
        })
    );
}

#[test]
fn transition_needs_threshold_consecutive_samples_and_uses_first_timestamp() {
    let mut machine = SessionStateMachine::new(3);
    let observations = [
        (false, 10),
        (false, 20),
        (false, 30),
        (true, 40),
        (true, 50),
        (false, 60),
        (true, 70),
        (true, 80),
    ];
    for (plugged, at) in observations {
        assert_eq!(machine.observe_at(plugged, TimestampMs(at)), None);
    }
    assert_eq!(
        machine.observe_at(true, TimestampMs(90)),
        Some(SessionTransition::Plugged {
            plugged_at: TimestampMs(70),
        })
    );
    assert_eq!(machine.active_session_started_at(), Some(TimestampMs(70)));
}

#[test]
fn single_sample_threshold_switches_on_first_changed_observation() {
    let mut machine = SessionStateMachine::new(0);
    assert_eq!(machine.observe_at(false, TimestampMs(1)), None);
    assert_eq!(
        machine.observe_at(true, TimestampMs(2)),
        Some(SessionTransition::Plugged {
            plugged_at: TimestampMs(2),
        })
    );
    assert_eq!(
        machine.observe_at(false, TimestampMs(3)),
        Some(SessionTransition::Unplugged {
            plugged_at: TimestampMs(2),
            unplugged_at: TimestampMs(3),
        })
    );
}

#[test]
fn cold_start_plugged_then_unplug_uses_unplug_time_as_start() {
    let mut machine = SessionStateMachine::new(2);
    assert_eq!(machine.observe_at(true, TimestampMs(1)), None);
    assert_eq!(machine.observe_at(true, TimestampMs(2)), None);
    assert_eq!(machine.observe_at(false, TimestampMs(3)), None);
    assert_eq!(
        machine.observe_at(false, TimestampMs(4)),
        Some(SessionTransition::Unplugged {
            plugged_at: TimestampMs(3),
            unplugged_at: TimestampMs(3),
        })
    );
}

#[test]
fn flap_sequence_from_unplugged_start_emits_nothing() {
    let mut machine = SessionStateMachine::new(2);
    let plugs = [0, 0, 7, 0, 7, 0];
    for (i, plug) in plugs.iter().enumerate() {
        assert_eq!(
            machine.observe_at(*plug > 0, TimestampMs(1_000 * i as i64)),
            None
        );
    }
    assert_eq!(machine.active_session_started_at(), None);
}
