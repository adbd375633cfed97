//! Action executor: runs one action through the handler registered for its
//! kind, repeating a failed attempt as far as the action's retry policy
//! allows.

use crate::params::Parameters;
use crate::retry::{
    attempt_budget, config_after_failure, config_at_cycle_start, decision_after_failure,
    reset_attempts, should_retry, RetryConfig, RetryDecision,
};
use solana_program::pubkey::Pubkey;
use vstd::prelude::*;

verus! {

/// The kinds of action.
#[derive(Clone, Copy, Debug, PartialEq, Eq, Structural)]
pub enum ActionType {
    Swap,
    Transfer,
    Stake,
    Unstake,
    Custom,
}

impl Default for ActionType {
    fn default() -> (kind: ActionType)
        ensures
            kind == ActionType::Swap,
    {
        ActionType::Swap
    }
}

/// One effect to perform once the conditions of an automation hold.
#[derive(Clone)]
pub struct Action {
    pub action_type: ActionType,
    pub target: Pubkey,
    pub parameters: Parameters,
    pub retry_config: Option<RetryConfig>,
}

/// The mathematical content of an `Action`.
pub struct ActionView {
    pub action_type: ActionType,
    pub target: Pubkey,
    pub parameters: Map<Seq<char>, Seq<u8>>,
    pub retry_config: Option<RetryConfig>,
}

impl View for Action {
    type V = ActionView;

    open spec fn view(&self) -> ActionView {
        ActionView {
            action_type: self.action_type,
            target: self.target,
            parameters: self.parameters@,
            retry_config: self.retry_config,
        }
    }
}

/// How the execution of one action ended.
#[derive(Clone, Debug)]
pub enum ActionResult {
    Success,
    /// The reason given by the last failed attempt.
    Failure(String),
}

impl ActionResult {
    /// Whether the action succeeded.
    pub fn is_success(&self) -> (success: bool)
        ensures
            success == (*self is Success),
    {
        match self {
            ActionResult::Success => true,
            ActionResult::Failure(_) => false,
        }
    }
}

/// What follows one attempt of an action.
#[derive(Clone, Debug)]
pub enum Step {
    /// The action is over, with this result and the payload of a successful
    /// attempt.
    Done { result: ActionResult, payload: Option<Vec<u8>> },
    /// The action is to be attempted again once `after` seconds have passed.
    Again { after: u64 },
}

/// The account of one action's execution within a cycle.
#[derive(Clone, Debug)]
pub struct ActionReport {
    pub result: ActionResult,
    /// How many times the action was attempted.
    pub attempts: u32,
    /// What the successful attempt handed back.
    pub payload: Option<Vec<u8>>,
}

/// The handlers that perform actions, one slot for each kind of action.
pub struct ActionHandlerRegistry<H> {
    swap: Option<H>,
    transfer: Option<H>,
    stake: Option<H>,
    unstake: Option<H>,
    custom: Option<H>,
}

/// A handler that may be called on every target and every parameter map.
pub open spec fn handler_is_total<H: Fn(&Pubkey, &Parameters) -> Result<Vec<u8>, String>>(
    handler: H,
) -> bool {
    forall|target: &Pubkey, params: &Parameters| call_requires(handler, (target, params))
}

/// A wait that may be called with every delay.
pub open spec fn wait_is_total<W: Fn(u64)>(wait: W) -> bool {
    forall|seconds: u64| call_requires(wait, (seconds,))
}

impl<H> ActionHandlerRegistry<H> {
    /// The handler registered for `kind`, if any.
    pub closed spec fn handler_for(self, kind: ActionType) -> Option<H> {
        match kind {
            ActionType::Swap => self.swap,
            ActionType::Transfer => self.transfer,
            ActionType::Stake => self.stake,
            ActionType::Unstake => self.unstake,
            ActionType::Custom => self.custom,
        }
    }

    /// A registry with no handler.
    pub fn new() -> (registry: Self)
        ensures
            forall|kind: ActionType| registry.handler_for(kind) is None,
    {
        ActionHandlerRegistry { swap: None, transfer: None, stake: None, unstake: None, custom: None }
    }

    /// Registers `handler` for `kind`, in place of an earlier one.
    pub fn register(&mut self, kind: ActionType, handler: H)
        ensures
            final(self).handler_for(kind) == Some(handler),
            forall|other: ActionType|
                other != kind ==> final(self).handler_for(other) == old(self).handler_for(other),
    {
        match kind {
            ActionType::Swap => {
                self.swap = Some(handler);
            },
            ActionType::Transfer => {
                self.transfer = Some(handler);
            },
            ActionType::Stake => {
                self.stake = Some(handler);
            },
            ActionType::Unstake => {
                self.unstake = Some(handler);
            },
            ActionType::Custom => {
                self.custom = Some(handler);
            },
        }
    }

    /// The handler registered for `kind`, if any.
    pub fn lookup(&self, kind: ActionType) -> (found: Option<&H>)
        ensures
            match found {
                Some(handler) => self.handler_for(kind) == Some(*handler),
                None => self.handler_for(kind) is None,
            },
    {
        match kind {
            ActionType::Swap => self.swap.as_ref(),
            ActionType::Transfer => self.transfer.as_ref(),
            ActionType::Stake => self.stake.as_ref(),
            ActionType::Unstake => self.unstake.as_ref(),
            ActionType::Custom => self.custom.as_ref(),
        }
    }
}

impl<H: Fn(&Pubkey, &Parameters) -> Result<Vec<u8>, String>> ActionHandlerRegistry<H> {
    /// Every registered handler may be called on every input.
    pub open spec fn is_total(self) -> bool {
        forall|kind: ActionType|
            (#[trigger] self.handler_for(kind)) is Some ==> handler_is_total(
                self.handler_for(kind)->Some_0,
            )
    }
}

/// The step that follows an attempt which answered `answer`, under the
/// retry settings `config`: a success ends the action; a failure ends it
/// where the policy gives up, and asks for another attempt where it does not.
pub open spec fn step_after(config: Option<RetryConfig>, answer: Result<Vec<u8>, String>) -> Step {
    match answer {
        Ok(bytes) => Step::Done { result: ActionResult::Success, payload: Some(bytes) },
        Err(reason) => match decision_after_failure(config) {
            RetryDecision::Retry { after } => Step::Again { after },
            RetryDecision::GiveUp => Step::Done {
                result: ActionResult::Failure(reason),
                payload: None,
            },
        },
    }
}

/// Judges one attempt: counts a failure against the retry settings and says
/// what follows.
pub fn settle_attempt(config: &mut Option<RetryConfig>, answer: Result<Vec<u8>, String>) -> (step:
    Step)
    ensures
        step == step_after(*old(config), answer),
        *final(config) == if answer is Err {
            config_after_failure(*old(config))
        } else {
            *old(config)
        },
{
    match answer {
        Ok(bytes) => Step::Done { result: ActionResult::Success, payload: Some(bytes) },
        Err(reason) => {
            match should_retry(config, true) {
                RetryDecision::Retry { after } => Step::Again { after },
                RetryDecision::GiveUp => Step::Done {
                    result: ActionResult::Failure(reason),
                    payload: None,
                },
            }
        },
    }
}

/// The reason with which an action of a kind without a handler fails.
pub fn unsupported_reason() -> (reason: String)
    ensures
        reason@ == "unsupported action type"@,
{
    "unsupported action type".to_string()
}

/// The retry settings after an execution that counted `failures` failed
/// attempts.
pub open spec fn config_with_failures(config: Option<RetryConfig>, failures: nat) -> Option<
    RetryConfig,
> {
    match config {
        None => None,
        Some(c) => Some(RetryConfig { current_attempts: failures as u8, ..c }),
    }
}

/// Whether `report` and `after` can be what executing `before` against
/// `handlers` leaves.
///
/// The attempts are at least one and at most what the retry policy allows.
/// A failure is reported only once the allowed attempts are used up, and
/// carries the reason the handler gave last; a success carries the payload
/// the handler gave. More than one attempt means that the handler failed at
/// least once. A kind without a handler fails with the reason "unsupported
/// action type". The action keeps everything but its failure counter, which
/// ends at the number of failed attempts.
pub open spec fn execution_of<H: Fn(&Pubkey, &Parameters) -> Result<Vec<u8>, String>>(
    handlers: ActionHandlerRegistry<H>,
    before: Action,
    after: Action,
    report: ActionReport,
) -> bool {
    &&& 1 <= report.attempts <= attempt_budget(before.retry_config)
    &&& after@ == (ActionView {
        retry_config: config_with_failures(
            before.retry_config,
            if report.result is Success {
                (report.attempts - 1) as nat
            } else {
                report.attempts as nat
            },
        ),
        ..before@
    })
    &&& report.result is Failure ==> report.attempts == attempt_budget(before.retry_config)
        && report.payload is None
    &&& report.result is Success ==> report.payload is Some
    &&& match handlers.handler_for(before.action_type) {
        None => report.result is Failure && report.result->Failure_0@
            == "unsupported action type"@,
        Some(handler) => {
            &&& report.result is Success ==> call_ensures(
                handler,
                (&before.target, &before.parameters),
                Ok::<Vec<u8>, String>(report.payload->Some_0),
            )
            &&& report.result is Failure ==> call_ensures(
                handler,
                (&before.target, &before.parameters),
                Err::<Vec<u8>, String>(report.result->Failure_0),
            )
            &&& report.attempts > 1 ==> exists|reason: String|
                call_ensures(
                    handler,
                    (&before.target, &before.parameters),
                    Err::<Vec<u8>, String>(reason),
                )
        },
    }
}

/// An action whose handler never succeeds is attempted exactly as often as
/// its retry policy allows, and then fails: `max_attempts` times with retry
/// settings (once where that is zero), once without.
pub proof fn lemma_always_failing_action<H: Fn(&Pubkey, &Parameters) -> Result<Vec<u8>, String>>(
    handlers: ActionHandlerRegistry<H>,
    before: Action,
    after: Action,
    report: ActionReport,
)
    requires
        execution_of(handlers, before, after, report),
        handlers.handler_for(before.action_type) is Some ==> forall|
            target: &Pubkey,
            params: &Parameters,
            answer: Result<Vec<u8>, String>,
        |
            call_ensures(
                handlers.handler_for(before.action_type)->Some_0,
                (target, params),
                answer,
            ) ==> answer is Err,
    ensures
        report.result is Failure,
        report.attempts == attempt_budget(before.retry_config),
        before.retry_config is None ==> report.attempts == 1,
        before.retry_config is Some ==> report.attempts == if before.retry_config->Some_0.max_attempts
            == 0 {
            1
        } else {
            before.retry_config->Some_0.max_attempts as int
        },
{
}

/// An action whose handler never fails succeeds at the first attempt.
pub proof fn lemma_never_failing_action<H: Fn(&Pubkey, &Parameters) -> Result<Vec<u8>, String>>(
    handlers: ActionHandlerRegistry<H>,
    before: Action,
    after: Action,
    report: ActionReport,
)
    requires
        execution_of(handlers, before, after, report),
        handlers.handler_for(before.action_type) is Some,
        forall|target: &Pubkey, params: &Parameters, answer: Result<Vec<u8>, String>|
            call_ensures(
                handlers.handler_for(before.action_type)->Some_0,
                (target, params),
                answer,
            ) ==> answer is Ok,
    ensures
        report.result is Success,
        report.attempts == 1,
        after@ == (ActionView {
            retry_config: config_at_cycle_start(before.retry_config),
            ..before@
        }),
{
}

/// Executes one action. The failure counter starts from zero; the handler
/// registered for the action's kind is called with the action's target and
/// parameters; after a failed attempt the retry policy decides, and where it
/// grants another attempt `wait` is called with the delay before the handler
/// is called again. A kind without a handler fails each attempt and is
/// retried like any other failure.
pub fn execute<H: Fn(&Pubkey, &Parameters) -> Result<Vec<u8>, String>, W: Fn(u64)>(
    action: &mut Action,
    handlers: &ActionHandlerRegistry<H>,
    wait: &W,
) -> (report: ActionReport)
    requires
        handlers.is_total(),
        wait_is_total(*wait),
    ensures
        execution_of(*handlers, *old(action), *final(action), report),
{
    reset_attempts(&mut action.retry_config);
    let mut attempts: u32 = 0;
    loop
        invariant
            handlers.is_total(),
            wait_is_total(*wait),
            action.action_type == old(action).action_type,
            action.target == old(action).target,
            action.parameters == old(action).parameters,
            action.retry_config == config_with_failures(old(action).retry_config, attempts as nat),
            attempts < attempt_budget(old(action).retry_config),
            attempts > 0 ==> match handlers.handler_for(old(action).action_type) {
                None => true,
                Some(handler) => exists|reason: String|
                    call_ensures(
                        handler,
                        (&old(action).target, &old(action).parameters),
                        Err::<Vec<u8>, String>(reason),
                    ),
            },
        decreases attempt_budget(old(action).retry_config) - attempts,
    {
        attempts = attempts + 1;
        let answer: Result<Vec<u8>, String> = match handlers.lookup(action.action_type) {
            Some(handler) => handler(&action.target, &action.parameters),
            None => Err(unsupported_reason()),
        };
        match settle_attempt(&mut action.retry_config, answer) {
            Step::Done { result, payload } => {
                return ActionReport { result, attempts, payload };
            },
            Step::Again { after } => {
                wait(after);
            },
        }
    }
}

/// Whether every action of a cycle succeeded. A cycle without actions
/// succeeded.
pub open spec fn all_succeeded(reports: Seq<ActionReport>) -> bool {
    forall|i: int| 0 <= i < reports.len() ==> (#[trigger] reports[i]).result is Success
}

/// The reason of the first failed action among `reports[from..]`.
pub open spec fn first_failure_from(reports: Seq<ActionReport>, from: int) -> Option<Seq<char>>
    decreases reports.len() - from,
{
    if from < 0 || from >= reports.len() {
        None
    } else {
        match reports[from].result {
            ActionResult::Failure(reason) => Some(reason@),
            ActionResult::Success => first_failure_from(reports, from + 1),
        }
    }
}

/// The reason of the first failed action of a cycle.
pub open spec fn first_failure(reports: Seq<ActionReport>) -> Option<Seq<char>> {
    first_failure_from(reports, 0)
}

/// Sums a cycle up: whether every action succeeded, and the reason of the
/// first that failed.
pub fn summarize(reports: &Vec<ActionReport>) -> (summary: (bool, Option<String>))
    ensures
        summary.0 == all_succeeded(reports@),
        summary.0 == (summary.1 is None),
        match summary.1 {
            Some(reason) => first_failure(reports@) == Some(reason@),
            None => first_failure(reports@) is None,
        },
{
    let mut i: usize = 0;
    while i < reports.len()
        invariant
            i <= reports@.len(),
            forall|j: int| 0 <= j < i ==> (#[trigger] reports@[j]).result is Success,
            first_failure(reports@) == first_failure_from(reports@, i as int),
        decreases reports@.len() - i,
    {
        match &reports[i].result {
            ActionResult::Failure(reason) => {
                return (false, Some(reason.clone()));
            },
            ActionResult::Success => {},
        }
        i = i + 1;
    }
    (true, None)
}

/// Executes the actions in order, each as `execute` does. A failed action
/// does not keep the ones behind it from running: there is one report for
/// every action.
pub fn execute_all<H: Fn(&Pubkey, &Parameters) -> Result<Vec<u8>, String>, W: Fn(u64)>(
    actions: &mut Vec<Action>,
    handlers: &ActionHandlerRegistry<H>,
    wait: &W,
) -> (reports: Vec<ActionReport>)
    requires
        handlers.is_total(),
        wait_is_total(*wait),
    ensures
        reports@.len() == old(actions)@.len(),
        final(actions)@.len() == old(actions)@.len(),
        forall|i: int|
            0 <= i < old(actions)@.len() ==> execution_of(
                *handlers,
                old(actions)@[i],
                final(actions)@[i],
                #[trigger] reports@[i],
            ),
{
    let mut reports: Vec<ActionReport> = Vec::new();
    let n: usize = actions.len();
    let mut i: usize = 0;
    while i < n
        invariant
            handlers.is_total(),
            wait_is_total(*wait),
            n == old(actions)@.len(),
            actions@.len() == n,
            i <= n,
            reports@.len() == i,
            forall|j: int|
                0 <= j < i ==> execution_of(
                    *handlers,
                    old(actions)@[j],
                    actions@[j],
                    #[trigger] reports@[j],
                ),
            forall|j: int| i <= j < n ==> #[trigger] actions@[j] == old(actions)@[j],
        decreases n - i,
    {
        let report = execute(&mut actions[i], handlers, wait);
        reports.push(report);
        i = i + 1;
    }
    reports
}

} // verus!
