//! Trigger scheduler: decides whether an automation is due for evaluation,
//! and moves a schedule on to its next execution time.

use crate::condition::{condition_views, Condition, ConditionView};
use vstd::prelude::*;

verus! {

/// What makes an automation eligible for evaluation.
#[derive(Clone, Copy, Debug, PartialEq, Eq, Structural)]
pub enum TriggerType {
    Price,
    Schedule,
    Balance,
    Custom,
}

impl Default for TriggerType {
    fn default() -> (kind: TriggerType)
        ensures
            kind == TriggerType::Price,
    {
        TriggerType::Price
    }
}

/// A repeating schedule.
#[derive(Clone, Copy, Debug, PartialEq, Eq, Structural)]
pub struct Schedule {
    /// Seconds between two executions.
    pub interval: u64,
    /// The time from which the next execution is due.
    pub next_execution: i64,
    /// The number of executions after which the automation is complete.
    pub max_executions: Option<u64>,
}

impl Default for Schedule {
    fn default() -> (schedule: Schedule)
        ensures
            schedule == (Schedule { interval: 0, next_execution: 0, max_executions: None }),
    {
        Schedule { interval: 0, next_execution: 0, max_executions: None }
    }
}

/// The trigger of an automation: its kind, the conditions that gate the
/// actions, and the schedule of a schedule trigger.
#[derive(Clone)]
pub struct Trigger {
    pub trigger_type: TriggerType,
    pub conditions: Vec<Condition>,
    pub schedule: Option<Schedule>,
}

/// The mathematical content of a `Trigger`.
pub struct TriggerView {
    pub trigger_type: TriggerType,
    pub conditions: Seq<ConditionView>,
    pub schedule: Option<Schedule>,
}

impl View for Trigger {
    type V = TriggerView;

    open spec fn view(&self) -> TriggerView {
        TriggerView {
            trigger_type: self.trigger_type,
            conditions: condition_views(self.conditions@),
            schedule: self.schedule,
        }
    }
}

impl Trigger {
    /// The trigger that `default` gives: a price trigger without conditions
    /// or schedule.
    pub open spec fn default_view() -> TriggerView {
        TriggerView {
            trigger_type: TriggerType::Price,
            conditions: Seq::<ConditionView>::empty(),
            schedule: None,
        }
    }
}

impl Default for Trigger {
    fn default() -> (trigger: Trigger)
        ensures
            trigger@ == Trigger::default_view(),
    {
        let trigger = Trigger {
            trigger_type: TriggerType::Price,
            conditions: Vec::new(),
            schedule: None,
        };
        proof {
            assert(trigger@.conditions =~= Seq::<ConditionView>::empty());
        }
        trigger
    }
}

/// Whether a trigger of kind `kind` with schedule `schedule` is due at
/// `now`. Price, balance and custom triggers are due whenever they are
/// offered a tick. A schedule trigger is due from its next execution time
/// on, and never where it has no schedule.
pub open spec fn due_at(kind: TriggerType, schedule: Option<Schedule>, now: i64) -> bool {
    match kind {
        TriggerType::Schedule => match schedule {
            Some(s) => now >= s.next_execution,
            None => false,
        },
        _ => true,
    }
}

/// The schedule after an execution at `now`: the next execution is due one
/// interval later, or at the last representable time where that lies beyond
/// it.
pub open spec fn advanced(schedule: Schedule, now: i64) -> Schedule {
    Schedule {
        next_execution: if now + schedule.interval <= i64::MAX {
            (now + schedule.interval) as i64
        } else {
            i64::MAX
        },
        ..schedule
    }
}

/// Whether a schedule has run its course after `total_executions` cycles.
pub open spec fn exhausted(schedule: Schedule, total_executions: u64) -> bool {
    match schedule.max_executions {
        Some(limit) => total_executions >= limit,
        None => false,
    }
}

/// Whether the trigger is due for evaluation at `now`.
pub fn is_due(trigger: &Trigger, now: i64) -> (due: bool)
    ensures
        due == due_at(trigger.trigger_type, trigger.schedule, now),
{
    match trigger.trigger_type {
        TriggerType::Schedule => {
            match trigger.schedule {
                Some(s) => now >= s.next_execution,
                None => false,
            }
        },
        _ => true,
    }
}

/// The schedule that follows an execution at `now`.
pub fn advance(schedule: &Schedule, now: i64) -> (next: Schedule)
    ensures
        next == advanced(*schedule, now),
{
    let target: i128 = now as i128 + schedule.interval as i128;
    let next_execution: i64 = if target <= i64::MAX as i128 {
        target as i64
    } else {
        i64::MAX
    };
    Schedule {
        interval: schedule.interval,
        next_execution,
        max_executions: schedule.max_executions,
    }
}

/// Whether the schedule has run its course after `total_executions` cycles.
pub fn is_exhausted(schedule: &Schedule, total_executions: u64) -> (done: bool)
    ensures
        done == exhausted(*schedule, total_executions),
{
    match schedule.max_executions {
        Some(limit) => total_executions >= limit,
        None => false,
    }
}

} // verus!
