//! Retry policy: how often one action may be attempted within a cycle, and
//! how long to wait between attempts.

use vstd::prelude::*;

verus! {

/// The retry settings of one action. `current_attempts` counts the failed
/// attempts of the running cycle and starts from zero in each cycle.
#[derive(Clone, Copy, Debug, PartialEq, Eq, Structural)]
pub struct RetryConfig {
    pub max_attempts: u8,
    /// Seconds to wait before the next attempt.
    pub delay_between_attempts: u64,
    pub current_attempts: u8,
}

/// What to do after an attempt.
#[derive(Clone, Copy, Debug, PartialEq, Eq, Structural)]
pub enum RetryDecision {
    /// Attempt again once `after` seconds have passed.
    Retry { after: u64 },
    /// Do not attempt again in this cycle.
    GiveUp,
}

impl Default for RetryConfig {
    fn default() -> (config: RetryConfig)
        ensures
            config == (RetryConfig {
                max_attempts: 0,
                delay_between_attempts: 0,
                current_attempts: 0,
            }),
    {
        RetryConfig { max_attempts: 0, delay_between_attempts: 0, current_attempts: 0 }
    }
}

/// The decision after a failed attempt: without settings the action is given
/// up at once; with settings it is retried while the failures counted so far,
/// this one included, stay below `max_attempts`.
pub open spec fn decision_after_failure(config: Option<RetryConfig>) -> RetryDecision {
    match config {
        None => RetryDecision::GiveUp,
        Some(c) => if c.current_attempts + 1 < c.max_attempts {
            RetryDecision::Retry { after: c.delay_between_attempts }
        } else {
            RetryDecision::GiveUp
        },
    }
}

/// The settings after a failed attempt: the failure is counted. The counter
/// stops at 255, from where no further attempt is ever granted.
pub open spec fn config_after_failure(config: Option<RetryConfig>) -> Option<RetryConfig> {
    match config {
        None => None,
        Some(c) => Some(
            RetryConfig {
                current_attempts: if c.current_attempts < u8::MAX {
                    (c.current_attempts + 1) as u8
                } else {
                    c.current_attempts
                },
                ..c
            },
        ),
    }
}

/// The settings at the start of a cycle: no failure counted yet.
pub open spec fn config_at_cycle_start(config: Option<RetryConfig>) -> Option<RetryConfig> {
    match config {
        None => None,
        Some(c) => Some(RetryConfig { current_attempts: 0, ..c }),
    }
}

/// How many attempts an action gets in one cycle if every attempt fails.
pub open spec fn attempt_budget(config: Option<RetryConfig>) -> nat {
    match config {
        None => 1,
        Some(c) => if c.max_attempts == 0 {
            1
        } else {
            c.max_attempts as nat
        },
    }
}

/// The failures still to be counted before the policy gives up.
pub open spec fn retry_headroom(config: Option<RetryConfig>) -> nat {
    match config {
        None => 0,
        Some(c) => if c.current_attempts < c.max_attempts {
            (c.max_attempts - c.current_attempts) as nat
        } else {
            0
        },
    }
}

/// The number of attempts made, starting from `config`, by an action whose
/// every attempt fails: one attempt, then one more for each `Retry`.
pub open spec fn attempts_until_give_up(config: Option<RetryConfig>) -> nat
    decreases retry_headroom(config),
{
    match decision_after_failure(config) {
        RetryDecision::GiveUp => 1,
        RetryDecision::Retry { .. } => 1 + attempts_until_give_up(config_after_failure(config)),
    }
}

/// An action whose every attempt fails is attempted once for each failure the
/// policy still has room for, and at least once.
pub proof fn lemma_attempts_from(config: Option<RetryConfig>)
    ensures
        attempts_until_give_up(config) == if retry_headroom(config) == 0 {
            1
        } else {
            retry_headroom(config)
        },
    decreases retry_headroom(config),
{
    match decision_after_failure(config) {
        RetryDecision::GiveUp => {},
        RetryDecision::Retry { .. } => {
            lemma_attempts_from(config_after_failure(config));
        },
    }
}

/// Retry bound: from the start of a cycle, an action that always fails is
/// attempted exactly `max_attempts` times before the policy gives up (once
/// where `max_attempts` is zero), and exactly once where it has no retry
/// settings.
pub proof fn lemma_retry_bound(config: Option<RetryConfig>)
    ensures
        attempts_until_give_up(config_at_cycle_start(config)) == attempt_budget(config),
        config is None ==> attempts_until_give_up(config) == 1,
{
    lemma_attempts_from(config_at_cycle_start(config));
    lemma_attempts_from(config);
}

/// Decides what follows an attempt. A failed attempt is counted and then
/// judged by `decision_after_failure`; an attempt that did not fail is never
/// repeated and leaves the counter alone.
pub fn should_retry(config: &mut Option<RetryConfig>, attempt_failed: bool) -> (decision:
    RetryDecision)
    ensures
        attempt_failed ==> decision == decision_after_failure(*old(config)) && *final(config)
            == config_after_failure(*old(config)),
        !attempt_failed ==> decision == RetryDecision::GiveUp && *final(config) == *old(config),
{
    if !attempt_failed {
        return RetryDecision::GiveUp;
    }
    match config {
        None => RetryDecision::GiveUp,
        Some(c) => {
            let counted: u16 = c.current_attempts as u16 + 1;
            if c.current_attempts < u8::MAX {
                c.current_attempts = c.current_attempts + 1;
            }
            if counted < c.max_attempts as u16 {
                RetryDecision::Retry { after: c.delay_between_attempts }
            } else {
                RetryDecision::GiveUp
            }
        },
    }
}

/// Clears the failure counter, as the start of each cycle does.
pub fn reset_attempts(config: &mut Option<RetryConfig>)
    ensures
        *final(config) == config_at_cycle_start(*old(config)),
{
    match config {
        None => {},
        Some(c) => {
            c.current_attempts = 0;
        },
    }
}

} // verus!
