use crate_core::trigger::{advance, is_due, is_exhausted, Schedule, Trigger, TriggerType};

fn trigger_of(kind: TriggerType, schedule: Option<Schedule>) -> Trigger {
    Trigger { trigger_type: kind, conditions: Vec::new(), schedule }
}

#[test]
fn trigger_type_defaults_to_price() {
    assert_eq!(TriggerType::default(), TriggerType::Price);
    let trigger = Trigger::default();
    assert_eq!(trigger.trigger_type, TriggerType::Price);
    assert!(trigger.conditions.is_empty());
    assert_eq!(trigger.schedule, None);
    assert_eq!(
        Schedule::default(),
        Schedule { interval: 0, next_execution: 0, max_executions: None }
    );
}

#[test]
fn push_triggers_are_always_due() {
    let schedule = Some(Schedule { interval: 10, next_execution: 1_000, max_executions: None });
    for kind in [TriggerType::Price, TriggerType::Balance, TriggerType::Custom] {
        assert!(is_due(&trigger_of(kind, None), i64::MIN));
        assert!(is_due(&trigger_of(kind, schedule), 0));
    }
}

#[test]
fn schedule_trigger_is_due_from_its_next_execution() {
    let schedule = Some(Schedule { interval: 10, next_execution: 1_000, max_executions: None });
    let trigger = trigger_of(TriggerType::Schedule, schedule);
    assert!(!is_due(&trigger, 999));
    assert!(is_due(&trigger, 1_000));
    assert!(is_due(&trigger, 1_001));
}

#[test]
fn schedule_trigger_without_schedule_is_never_due() {
    let trigger = trigger_of(TriggerType::Schedule, None);
    assert!(!is_due(&trigger, 0));
    assert!(!is_due(&trigger, i64::MAX));
}

#[test]
fn advance_moves_one_interval_past_now() {
    let schedule = Schedule { interval: 60, next_execution: 90, max_executions: Some(4) };
    assert_eq!(
        advance(&schedule, 100),
        Schedule { interval: 60, next_execution: 160, max_executions: Some(4) }
    );
    assert_eq!(
        advance(&schedule, -100),
        Schedule { interval: 60, next_execution: -40, max_executions: Some(4) }
    );
}

#[test]
fn advance_stops_at_the_last_representable_time() {
    let schedule = Schedule { interval: u64::MAX, next_execution: 0, max_executions: None };
    assert_eq!(advance(&schedule, 5).next_execution, i64::MAX);
    let near = Schedule { interval: 10, next_execution: 0, max_executions: None };
    assert_eq!(advance(&near, i64::MAX - 10).next_execution, i64::MAX);
    assert_eq!(advance(&near, i64::MAX - 11).next_execution, i64::MAX - 1);
    assert_eq!(advance(&near, i64::MAX - 3).next_execution, i64::MAX);
}

#[test]
fn schedule_is_exhausted_at_max_executions() {
    let limited = Schedule { interval: 1, next_execution: 0, max_executions: Some(3) };
    assert!(!is_exhausted(&limited, 2));
    assert!(is_exhausted(&limited, 3));
    assert!(is_exhausted(&limited, 4));
    let unlimited = Schedule { interval: 1, next_execution: 0, max_executions: None };
    assert!(!is_exhausted(&unlimited, u64::MAX));
}
