//! Automation state machine: one automation's lifecycle, its bounded list of
//! actions, and the cycle that evaluates its conditions, executes its
//! actions and updates its statistics and status.

use crate::action::{
    all_succeeded, execute_all, execution_of, first_failure, summarize, wait_is_total, Action,
    ActionHandlerRegistry, ActionReport, ActionView,
};
use crate::condition::{
    after_evaluation, all_met, elapsed_seconds, evaluate, predicate_is_total, seconds_between,
    verdicts_allowed, ConditionView, FactSnapshot,
};
use crate::identity::default_identity;
use crate::params::Parameters;
use crate::trigger::{
    advance, advanced, due_at, exhausted, is_due, is_exhausted, Trigger, TriggerType, TriggerView,
};
use solana_program::pubkey::Pubkey;
use vstd::prelude::*;
use vstd::string::StrSliceExecFns;

verus! {

/// The most actions one automation may hold.
pub const MAX_ACTIONS: usize = 10;

/// The most characters a name may have.
pub const MAX_NAME_LEN: usize = 200;

/// The lifecycle states of an automation.
#[derive(Clone, Copy, Debug, PartialEq, Eq, Structural)]
pub enum AutomationStatus {
    Active,
    Paused,
    Failed,
    Completed,
}

impl Default for AutomationStatus {
    fn default() -> (status: AutomationStatus)
        ensures
            status == AutomationStatus::Active,
    {
        AutomationStatus::Active
    }
}

/// Why a call on an automation was rejected.
#[derive(Clone, Copy, Debug, PartialEq, Eq, Structural)]
pub enum AutomationError {
    NameTooLong,
    TooManyActions,
    AutomationNotActive,
}

impl AutomationError {
    /// The message that goes with the error.
    pub fn message(&self) -> (text: String)
        ensures
            text@ == match *self {
                AutomationError::NameTooLong => "Name must be less than 200 characters"@,
                AutomationError::TooManyActions => "Maximum number of actions reached"@,
                AutomationError::AutomationNotActive => "Automation is not active"@,
            },
    {
        match self {
            AutomationError::NameTooLong => "Name must be less than 200 characters".to_string(),
            AutomationError::TooManyActions => "Maximum number of actions reached".to_string(),
            AutomationError::AutomationNotActive => "Automation is not active".to_string(),
        }
    }
}

/// Running statistics over the cycles of one automation.
#[derive(Clone)]
pub struct ExecutionStats {
    pub total_executions: u64,
    pub successful_executions: u64,
    pub failed_executions: u64,
    /// The reason of the latest failed cycle.
    pub last_error: Option<String>,
    /// The running mean of the cycles' durations, in seconds.
    pub average_execution_time: Option<u64>,
}

/// The mathematical content of `ExecutionStats`.
pub struct StatsView {
    pub total_executions: u64,
    pub successful_executions: u64,
    pub failed_executions: u64,
    pub last_error: Option<Seq<char>>,
    pub average_execution_time: Option<u64>,
}

impl View for ExecutionStats {
    type V = StatsView;

    open spec fn view(&self) -> StatsView {
        StatsView {
            total_executions: self.total_executions,
            successful_executions: self.successful_executions,
            failed_executions: self.failed_executions,
            last_error: match self.last_error {
                Some(text) => Some(text@),
                None => None,
            },
            average_execution_time: self.average_execution_time,
        }
    }
}

/// Statistics before the first cycle.
pub open spec fn fresh_stats() -> StatsView {
    StatsView {
        total_executions: 0,
        successful_executions: 0,
        failed_executions: 0,
        last_error: None,
        average_execution_time: None,
    }
}

impl Default for ExecutionStats {
    fn default() -> (stats: ExecutionStats)
        ensures
            stats@ == fresh_stats(),
    {
        ExecutionStats {
            total_executions: 0,
            successful_executions: 0,
            failed_executions: 0,
            last_error: None,
            average_execution_time: None,
        }
    }
}

/// The running mean after a cycle that took `elapsed` seconds, `total`
/// being the number of cycles with this one: the incremental mean of the
/// earlier average and the new duration, rounded down; the duration itself
/// where there is no earlier average.
pub open spec fn next_average(average: Option<u64>, total: int, elapsed: u64) -> int {
    match average {
        Some(earlier) => (earlier * (total - 1) + elapsed) / total,
        None => elapsed as int,
    }
}

/// The statistics after one more cycle. `reason` is the reason of the first
/// action that failed, which a failed cycle leaves in `last_error`; a
/// successful cycle leaves `last_error` alone.
pub open spec fn stats_after_cycle(
    stats: StatsView,
    success: bool,
    reason: Option<Seq<char>>,
    elapsed: u64,
) -> StatsView {
    StatsView {
        total_executions: (stats.total_executions + 1) as u64,
        successful_executions: if success {
            (stats.successful_executions + 1) as u64
        } else {
            stats.successful_executions
        },
        failed_executions: if success {
            stats.failed_executions
        } else {
            (stats.failed_executions + 1) as u64
        },
        last_error: if success {
            stats.last_error
        } else {
            reason
        },
        average_execution_time: Some(
            next_average(stats.average_execution_time, stats.total_executions + 1, elapsed) as u64,
        ),
    }
}

/// The incremental mean lies between the earlier average and the new
/// duration, so it fits wherever they fit.
pub proof fn lemma_next_average_bounded(earlier: u64, total: int, elapsed: u64)
    requires
        total >= 1,
    ensures
        0 <= next_average(Some(earlier), total, elapsed),
        next_average(Some(earlier), total, elapsed) <= if earlier >= elapsed {
            earlier
        } else {
            elapsed
        },
        next_average(Some(earlier), total, elapsed) * total <= earlier * (total - 1) + elapsed,
        earlier * (total - 1) + elapsed < next_average(Some(earlier), total, elapsed) * total
            + total,
{
    let top: int = if earlier >= elapsed {
        earlier as int
    } else {
        elapsed as int
    };
    let sum: int = earlier * (total - 1) + elapsed;
    assert(0 <= sum <= top * total) by (nonlinear_arith)
        requires
            sum == earlier * (total - 1) + elapsed,
            0 <= earlier <= top,
            0 <= elapsed <= top,
            total >= 1,
    ;
    assert(0 <= sum / total <= top && (sum / total) * total <= sum < (sum / total) * total + total)
        by (nonlinear_arith)
        requires
            0 <= sum <= top * total,
            total >= 1,
    ;
}

impl ExecutionStats {
    /// Whether one more cycle can be counted, however it ends.
    pub open spec fn has_room(self) -> bool {
        &&& self.total_executions < u64::MAX
        &&& self.successful_executions < u64::MAX
        &&& self.failed_executions < u64::MAX
    }

    /// Counts one cycle that took `elapsed` seconds. A failed cycle leaves
    /// `reason` as the last error.
    pub fn record(&mut self, success: bool, reason: Option<String>, elapsed: u64)
        requires
            old(self).total_executions < u64::MAX,
            success ==> old(self).successful_executions < u64::MAX,
            !success ==> old(self).failed_executions < u64::MAX,
        ensures
            final(self)@ == stats_after_cycle(
                old(self)@,
                success,
                match reason {
                    Some(text) => Some(text@),
                    None => None,
                },
                elapsed,
            ),
    {
        self.total_executions = self.total_executions + 1;
        if success {
            self.successful_executions = self.successful_executions + 1;
        } else {
            self.failed_executions = self.failed_executions + 1;
            self.last_error = reason;
        }
        let average: u64 = match self.average_execution_time {
            Some(earlier) => {
                proof {
                    lemma_next_average_bounded(earlier, self.total_executions as int, elapsed);
                    assert(earlier * (self.total_executions - 1) <= u64::MAX * u64::MAX)
                        by (nonlinear_arith)
                        requires
                            0 <= earlier <= u64::MAX,
                            0 <= self.total_executions - 1 <= u64::MAX,
                    ;
                }
                let weighted: u128 = earlier as u128 * (self.total_executions - 1) as u128
                    + elapsed as u128;
                (weighted / self.total_executions as u128) as u64
            },
            None => elapsed,
        };
        self.average_execution_time = Some(average);
    }
}

/// Counting a cycle raises the total by one and exactly one of the other
/// two counters by one: no counter ever falls, and statistics in which the
/// successes and failures add up to the total stay so.
pub proof fn lemma_counters_only_rise(
    stats: StatsView,
    success: bool,
    reason: Option<Seq<char>>,
    elapsed: u64,
)
    requires
        stats.total_executions < u64::MAX,
        stats.successful_executions < u64::MAX,
        stats.failed_executions < u64::MAX,
    ensures
        stats_after_cycle(stats, success, reason, elapsed).total_executions
            == stats.total_executions + 1,
        stats_after_cycle(stats, success, reason, elapsed).successful_executions
            >= stats.successful_executions,
        stats_after_cycle(stats, success, reason, elapsed).failed_executions
            >= stats.failed_executions,
        stats_after_cycle(stats, success, reason, elapsed).successful_executions
            + stats_after_cycle(stats, success, reason, elapsed).failed_executions
            == stats.successful_executions + stats.failed_executions + 1,
{
}

/// The sum of a sequence of durations.
pub open spec fn total_of(elapsed: Seq<u64>) -> int
    decreases elapsed.len(),
{
    if elapsed.len() == 0 {
        0
    } else {
        total_of(elapsed.drop_last()) + elapsed.last()
    }
}

/// The running mean after cycles that took `elapsed[0]`, `elapsed[1]`, ...
/// seconds, each cycle folded in by `next_average`.
pub open spec fn running_average(elapsed: Seq<u64>) -> Option<u64>
    decreases elapsed.len(),
{
    if elapsed.len() == 0 {
        None
    } else {
        Some(
            next_average(
                running_average(elapsed.drop_last()),
                elapsed.len() as int,
                elapsed.last(),
            ) as u64,
        )
    }
}

/// Statistics that have counted exactly the cycles whose durations are
/// `elapsed` count one more cycle: the average stays the running mean of all
/// durations so far.
pub proof fn lemma_average_follows_cycles(
    stats: StatsView,
    elapsed: Seq<u64>,
    success: bool,
    reason: Option<Seq<char>>,
    next: u64,
)
    requires
        stats.total_executions == elapsed.len(),
        stats.total_executions < u64::MAX,
        stats.average_execution_time == running_average(elapsed),
    ensures
        stats_after_cycle(stats, success, reason, next).total_executions == elapsed.push(
            next,
        ).len(),
        stats_after_cycle(stats, success, reason, next).average_execution_time == running_average(
            elapsed.push(next),
        ),
{
    assert(elapsed.push(next).drop_last() =~= elapsed);
}

/// The statistics after the cycles whose outcomes are `successes` and whose
/// durations are `elapsed`, counted one after the other from `start`.
pub open spec fn stats_after_cycles(
    start: StatsView,
    successes: Seq<bool>,
    elapsed: Seq<u64>,
) -> StatsView
    decreases elapsed.len(),
{
    if elapsed.len() == 0 {
        start
    } else {
        stats_after_cycle(
            stats_after_cycles(start, successes.drop_last(), elapsed.drop_last()),
            successes.last(),
            None,
            elapsed.last(),
        )
    }
}

/// After any number of cycles from fresh statistics, the total is the number
/// of cycles and the average is the running mean of their durations.
pub proof fn lemma_average_after_cycles(successes: Seq<bool>, elapsed: Seq<u64>)
    requires
        successes.len() == elapsed.len(),
        elapsed.len() <= u64::MAX,
    ensures
        stats_after_cycles(fresh_stats(), successes, elapsed).total_executions == elapsed.len(),
        stats_after_cycles(fresh_stats(), successes, elapsed).average_execution_time
            == running_average(elapsed),
    decreases elapsed.len(),
{
    if elapsed.len() > 0 {
        lemma_average_after_cycles(successes.drop_last(), elapsed.drop_last());
        lemma_average_follows_cycles(
            stats_after_cycles(fresh_stats(), successes.drop_last(), elapsed.drop_last()),
            elapsed.drop_last(),
            successes.last(),
            None,
            elapsed.last(),
        );
    }
}

/// Incremental mean: after `n >= 1` cycles the running average, times `n`,
/// is the sum of the durations up to what the divisions rounded away, which
/// is less than the cycle's number at each cycle: the average never exceeds
/// the true mean, and falls short of it by at most `(n - 1) / 2`. It is also
/// a value that fits the counter it is kept in.
pub proof fn lemma_running_average_is_mean(elapsed: Seq<u64>)
    requires
        elapsed.len() >= 1,
    ensures
        running_average(elapsed) is Some,
        running_average(elapsed)->Some_0 * elapsed.len() <= total_of(elapsed),
        2 * (total_of(elapsed) - running_average(elapsed)->Some_0 * elapsed.len()) <= elapsed.len()
            * (elapsed.len() - 1),
        running_average(elapsed)->Some_0 == next_average(
            running_average(elapsed.drop_last()),
            elapsed.len() as int,
            elapsed.last(),
        ),
    decreases elapsed.len(),
{
    let n: int = elapsed.len() as int;
    let last: u64 = elapsed.last();
    let earlier = elapsed.drop_last();
    if n == 1 {
        assert(total_of(earlier) == 0);
    } else {
        lemma_running_average_is_mean(earlier);
        let before: u64 = running_average(earlier)->Some_0;
        lemma_next_average_bounded(before, n, last);
        let mean: int = next_average(Some(before), n, last);
        let lost_before: int = total_of(earlier) - before * (n - 1);
        let lost_now: int = before * (n - 1) + last - mean * n;
        assert(0 <= lost_now <= n - 1);
        assert(total_of(elapsed) - mean * n == lost_before + lost_now);
        assert((n - 1) * (n - 2) + 2 * (n - 1) == n * (n - 1)) by (nonlinear_arith);
    }
}

/// Cycles that all took the same time average to exactly that time.
pub proof fn lemma_running_average_of_equal(elapsed: Seq<u64>, each: u64)
    requires
        elapsed.len() >= 1,
        forall|i: int| 0 <= i < elapsed.len() ==> elapsed[i] == each,
    ensures
        running_average(elapsed) == Some(each),
    decreases elapsed.len(),
{
    let n: int = elapsed.len() as int;
    if n > 1 {
        lemma_running_average_of_equal(elapsed.drop_last(), each);
        assert((each * (n - 1) + each) / n == each) by (nonlinear_arith)
            requires
                n >= 1,
                each >= 0,
        ;
    }
}

/// One rule-based task of a workspace.
#[derive(Clone)]
pub struct Automation {
    pub owner: Pubkey,
    pub workspace: Pubkey,
    pub name: String,
    pub trigger: Trigger,
    pub actions: Vec<Action>,
    pub status: AutomationStatus,
    pub execution_stats: ExecutionStats,
    pub created_at: i64,
    pub last_executed_at: Option<i64>,
    pub bump: u8,
}

/// The mathematical content of an `Automation`.
pub struct AutomationView {
    pub owner: Pubkey,
    pub workspace: Pubkey,
    pub name: Seq<char>,
    pub trigger: TriggerView,
    pub actions: Seq<ActionView>,
    pub status: AutomationStatus,
    pub execution_stats: StatsView,
    pub created_at: i64,
    pub last_executed_at: Option<i64>,
    pub bump: u8,
}

/// The views of a list of actions.
pub open spec fn action_views(actions: Seq<Action>) -> Seq<ActionView> {
    actions.map_values(|a: Action| a@)
}

impl View for Automation {
    type V = AutomationView;

    open spec fn view(&self) -> AutomationView {
        AutomationView {
            owner: self.owner,
            workspace: self.workspace,
            name: self.name@,
            trigger: self.trigger@,
            actions: action_views(self.actions@),
            status: self.status,
            execution_stats: self.execution_stats@,
            created_at: self.created_at,
            last_executed_at: self.last_executed_at,
            bump: self.bump,
        }
    }
}

impl AutomationView {
    /// The invariant of an automation: at most ten actions.
    pub open spec fn well_formed(self) -> bool {
        self.actions.len() <= MAX_ACTIONS
    }

    /// The automation with `action` appended.
    pub open spec fn with_action(self, action: ActionView) -> AutomationView {
        AutomationView { actions: self.actions.push(action), ..self }
    }

    /// The outcome of asking to append `action`: accepted while fewer than
    /// ten actions are held, otherwise rejected with everything unchanged.
    pub open spec fn try_add(self, action: ActionView) -> (AutomationView, bool) {
        if self.actions.len() < MAX_ACTIONS {
            (self.with_action(action), true)
        } else {
            (self, false)
        }
    }

    /// The automation after asking to append each of `actions` in turn.
    pub open spec fn try_add_all(self, actions: Seq<ActionView>) -> AutomationView
        decreases actions.len(),
    {
        if actions.len() == 0 {
            self
        } else {
            self.try_add_all(actions.drop_last()).try_add(actions.last()).0
        }
    }
}

/// No sequence of appends takes an automation beyond ten actions; each
/// append is accepted exactly while fewer than ten are held, and a rejected
/// append changes nothing.
pub proof fn lemma_actions_stay_bounded(start: AutomationView, actions: Seq<ActionView>)
    requires
        start.well_formed(),
    ensures
        start.try_add_all(actions).well_formed(),
        start.try_add_all(actions).actions.len() == if start.actions.len() + actions.len()
            <= MAX_ACTIONS {
            start.actions.len() + actions.len()
        } else {
            MAX_ACTIONS as nat
        },
        start.actions.len() + actions.len() >= MAX_ACTIONS ==> forall|one_more: ActionView|
            #[trigger] start.try_add_all(actions).try_add(one_more) == (
                start.try_add_all(actions),
                false,
            ),
    decreases actions.len(),
{
    if actions.len() > 0 {
        lemma_actions_stay_bounded(start, actions.drop_last());
    }
}

impl Default for Automation {
    fn default() -> (automation: Automation)
        ensures
            automation@.name == Seq::<char>::empty(),
            automation@.trigger == Trigger::default_view(),
            automation@.actions == Seq::<ActionView>::empty(),
            automation@.status == AutomationStatus::Active,
            automation@.execution_stats == fresh_stats(),
            automation@.created_at == 0,
            automation@.last_executed_at is None,
            automation@.bump == 0,
    {
        let automation = Automation {
            owner: default_identity(),
            workspace: default_identity(),
            name: String::new(),
            trigger: Trigger::default(),
            actions: Vec::new(),
            status: AutomationStatus::Active,
            execution_stats: ExecutionStats::default(),
            created_at: 0,
            last_executed_at: None,
            bump: 0,
        };
        automation
    }
}

impl Automation {
    /// The bytes that the stored record of an automation takes: an 8-byte
    /// tag, two 32-byte identities, a length-prefixed name of up to 200
    /// bytes, 200 bytes for the trigger, a length-prefixed list of ten
    /// actions of 200 bytes each, one byte of status, 100 bytes of
    /// statistics, the creation time, the optional time of the last
    /// execution, and the bump.
    pub fn space() -> (bytes: usize)
        ensures
            bytes == 8 + 32 + 32 + (4 + 200) + 200 + (4 + 10 * 200) + 1 + 100 + 8 + 9 + 1,
            bytes == 2599,
    {
        8 + 32 + 32 + 4 + 200 + 200 + 4 + (10 * 200) + 1 + 100 + 8 + 9 + 1
    }

    /// Sets a record up as a new automation created at `now`: active, with
    /// no actions and fresh statistics. A name of more than 200 characters
    /// is rejected and leaves the record as it was.
    pub fn initialize(
        &mut self,
        owner: Pubkey,
        workspace: Pubkey,
        name: String,
        trigger: Trigger,
        bump: u8,
        now: i64,
    ) -> (result: Result<(), AutomationError>)
        ensures
            name@.len() > MAX_NAME_LEN ==> result == Err::<(), AutomationError>(
                AutomationError::NameTooLong,
            ) && *final(self) == *old(self),
            name@.len() <= MAX_NAME_LEN ==> result is Ok && final(self)@ == (AutomationView {
                owner,
                workspace,
                name: name@,
                trigger: trigger@,
                actions: Seq::<ActionView>::empty(),
                status: AutomationStatus::Active,
                execution_stats: fresh_stats(),
                created_at: now,
                last_executed_at: old(self).last_executed_at,
                bump,
            }),
            result is Ok ==> final(self)@.well_formed(),
    {
        if name.as_str().unicode_len() > MAX_NAME_LEN {
            return Err(AutomationError::NameTooLong);
        }
        self.owner = owner;
        self.workspace = workspace;
        self.name = name;
        self.trigger = trigger;
        self.actions = Vec::new();
        self.status = AutomationStatus::Active;
        self.execution_stats = ExecutionStats::default();
        self.created_at = now;
        self.bump = bump;
        proof {
            assert(final(self)@.actions =~= Seq::<ActionView>::empty());
        }
        Ok(())
    }

    /// Appends an action. Once ten actions are held the append is rejected
    /// and the automation stays as it was.
    pub fn add_action(&mut self, action: Action) -> (result: Result<(), AutomationError>)
        ensures
            final(self)@ == old(self)@.try_add(action@).0,
            result is Ok == old(self)@.try_add(action@).1,
            result is Err ==> result == Err::<(), AutomationError>(AutomationError::TooManyActions)
                && *final(self) == *old(self),
            result is Ok ==> final(self).actions@ == old(self).actions@.push(action),
            old(self)@.well_formed() ==> final(self)@.well_formed(),
    {
        if self.actions.len() >= MAX_ACTIONS {
            return Err(AutomationError::TooManyActions);
        }
        self.actions.push(action);
        proof {
            assert(final(self)@.actions =~= old(self)@.actions.push(action@));
        }
        Ok(())
    }

    /// Pauses an active automation. From any other state the call is
    /// rejected and changes nothing.
    pub fn pause(&mut self) -> (result: Result<(), AutomationError>)
        ensures
            old(self).status == AutomationStatus::Active ==> result is Ok && final(self)@ == (
            AutomationView { status: AutomationStatus::Paused, ..old(self)@ }),
            old(self).status != AutomationStatus::Active ==> result == Err::<(), AutomationError>(
                AutomationError::AutomationNotActive,
            ) && *final(self) == *old(self),
    {
        if self.status != AutomationStatus::Active {
            return Err(AutomationError::AutomationNotActive);
        }
        self.status = AutomationStatus::Paused;
        Ok(())
    }

    /// Takes a paused automation back to active; an active one stays
    /// active. A failed or completed automation is terminal: the call is
    /// rejected and changes nothing.
    pub fn resume(&mut self) -> (result: Result<(), AutomationError>)
        ensures
            old(self).status == AutomationStatus::Active || old(self).status
                == AutomationStatus::Paused ==> result is Ok && final(self)@ == (AutomationView {
                status: AutomationStatus::Active,
                ..old(self)@
            }),
            old(self).status == AutomationStatus::Failed || old(self).status
                == AutomationStatus::Completed ==> result == Err::<(), AutomationError>(
                AutomationError::AutomationNotActive,
            ) && *final(self) == *old(self),
    {
        match self.status {
            AutomationStatus::Active | AutomationStatus::Paused => {
                self.status = AutomationStatus::Active;
                Ok(())
            },
            _ => Err(AutomationError::AutomationNotActive),
        }
    }
}

/// What a cycle calls on: the handlers that perform actions, the predicate
/// behind custom conditions, the wait between two attempts of an action, the
/// clock that times a cycle, and the number of failed cycles beyond which an
/// automation is taken out of service.
pub struct Collaborators<H, P, W, C> {
    pub handlers: ActionHandlerRegistry<H>,
    pub custom_condition: P,
    pub wait: W,
    pub clock: C,
    pub failure_threshold: Option<u64>,
}

impl<
    H: Fn(&Pubkey, &Parameters) -> Result<Vec<u8>, String>,
    P: Fn(&Parameters, &FactSnapshot) -> Option<bool>,
    W: Fn(u64),
    C: Fn() -> i64,
> Collaborators<H, P, W, C> {
    /// Every collaborator may be called on every input.
    pub open spec fn is_total(self) -> bool {
        &&& self.handlers.is_total()
        &&& predicate_is_total(self.custom_condition)
        &&& wait_is_total(self.wait)
        &&& call_requires(self.clock, ())
    }
}

/// The account of one executed cycle.
#[derive(Clone, Debug)]
pub struct CycleReport {
    /// Whether every action succeeded.
    pub success: bool,
    /// One report for each action, in the order of the actions.
    pub actions: Vec<ActionReport>,
    /// The clock before the first action and after the last.
    pub started_at: i64,
    pub finished_at: i64,
    /// The seconds the actions took.
    pub elapsed: u64,
}

/// How one evaluation tick of an automation ended.
#[derive(Clone, Debug)]
pub enum CycleOutcome {
    /// The trigger was not due; nothing was touched.
    NotDue,
    /// The conditions did not hold; only their records were updated.
    ConditionsNotMet,
    /// The actions were executed.
    Executed(CycleReport),
}

/// The status after a cycle: completed where a schedule trigger has reached
/// its number of executions; else failed where the cycle failed and the
/// failed cycles now exceed the threshold; else active.
pub open spec fn status_after_cycle(
    trigger: TriggerView,
    total_executions: u64,
    failed_executions: u64,
    success: bool,
    failure_threshold: Option<u64>,
) -> AutomationStatus {
    if trigger.trigger_type == TriggerType::Schedule && trigger.schedule is Some && exhausted(
        trigger.schedule->Some_0,
        total_executions,
    ) {
        AutomationStatus::Completed
    } else if !success && failure_threshold is Some && failed_executions
        > failure_threshold->Some_0 {
        AutomationStatus::Failed
    } else {
        AutomationStatus::Active
    }
}

/// The trigger after a cycle at `now`: a schedule trigger that has not yet
/// reached its number of executions is moved on by one interval.
pub open spec fn trigger_after_cycle(
    trigger: TriggerView,
    total_executions: u64,
    now: i64,
) -> TriggerView {
    if trigger.trigger_type == TriggerType::Schedule && trigger.schedule is Some && !exhausted(
        trigger.schedule->Some_0,
        total_executions,
    ) {
        TriggerView { schedule: Some(advanced(trigger.schedule->Some_0, now)), ..trigger }
    } else {
        trigger
    }
}

/// The automation after a cycle at `now` in which the actions ended as
/// `actions`, all succeeding or not, with `reason` the reason of the first
/// failure, and took `elapsed` seconds.
pub open spec fn after_cycle(
    before: AutomationView,
    actions: Seq<ActionView>,
    success: bool,
    reason: Option<Seq<char>>,
    now: i64,
    elapsed: u64,
    failure_threshold: Option<u64>,
) -> AutomationView {
    let stats = stats_after_cycle(before.execution_stats, success, reason, elapsed);
    AutomationView {
        actions,
        last_executed_at: Some(now),
        execution_stats: stats,
        status: status_after_cycle(
            before.trigger,
            stats.total_executions,
            stats.failed_executions,
            success,
            failure_threshold,
        ),
        trigger: trigger_after_cycle(before.trigger, stats.total_executions, now),
        ..before
    }
}

/// Whether `report` and `after` can be what executing a cycle at `now`
/// leaves of an automation that was `before`, with the actions
/// `before_actions`, when the cycle began.
///
/// Every action was executed, in order, whatever became of the ones before
/// it. The cycle succeeded exactly if all of them did. Its duration lies
/// between two readings of the clock. The automation counts the cycle as
/// `after_cycle` says.
pub open spec fn cycle_of<
    H: Fn(&Pubkey, &Parameters) -> Result<Vec<u8>, String>,
    P: Fn(&Parameters, &FactSnapshot) -> Option<bool>,
    W: Fn(u64),
    C: Fn() -> i64,
>(
    env: Collaborators<H, P, W, C>,
    before: AutomationView,
    before_actions: Seq<Action>,
    after: Automation,
    report: CycleReport,
    now: i64,
) -> bool {
    &&& report.actions@.len() == before_actions.len()
    &&& after.actions@.len() == before_actions.len()
    &&& forall|i: int|
        0 <= i < before_actions.len() ==> execution_of(
            env.handlers,
            before_actions[i],
            after.actions@[i],
            #[trigger] report.actions@[i],
        )
    &&& report.success == all_succeeded(report.actions@)
    &&& call_ensures(env.clock, (), report.started_at)
    &&& call_ensures(env.clock, (), report.finished_at)
    &&& report.elapsed == seconds_between(report.started_at, report.finished_at)
    &&& after@ == after_cycle(
        before,
        action_views(after.actions@),
        report.success,
        first_failure(report.actions@),
        now,
        report.elapsed,
        env.failure_threshold,
    )
}

/// The automation with the conditions of its trigger replaced.
pub open spec fn with_conditions(
    automation: AutomationView,
    conditions: Seq<ConditionView>,
) -> AutomationView {
    AutomationView { trigger: TriggerView { conditions, ..automation.trigger }, ..automation }
}

/// Whether `outcome` and `after` can be what an evaluation tick at `now`
/// leaves of the active and due automation `before`.
///
/// The conditions are evaluated against `facts`, custom ones by what the
/// injected predicate answers. Where they do not all hold, the outcome is
/// `ConditionsNotMet` and only the records of the conditions reached have
/// changed. Where they hold, the outcome is `Executed` and a cycle was
/// executed on the automation with its conditions so recorded.
pub open spec fn evaluation_cycle_of<
    H: Fn(&Pubkey, &Parameters) -> Result<Vec<u8>, String>,
    P: Fn(&Parameters, &FactSnapshot) -> Option<bool>,
    W: Fn(u64),
    C: Fn() -> i64,
>(
    env: Collaborators<H, P, W, C>,
    before: Automation,
    facts: FactSnapshot,
    now: i64,
    after: Automation,
    outcome: CycleOutcome,
) -> bool {
    exists|verdicts: Seq<Option<bool>>|
        {
            &&& #[trigger] verdicts_allowed(
                env.custom_condition,
                before.trigger.conditions@,
                facts,
                before.created_at,
                verdicts,
            )
            &&& if all_met(before@.trigger.conditions, facts@, before.created_at, verdicts) {
                outcome is Executed && cycle_of(
                    env,
                    with_conditions(
                        before@,
                        after_evaluation(
                            before@.trigger.conditions,
                            facts@,
                            before.created_at,
                            verdicts,
                        ),
                    ),
                    before.actions@,
                    after,
                    outcome->Executed_0,
                    now,
                )
            } else {
                outcome is ConditionsNotMet && after@ == with_conditions(
                    before@,
                    after_evaluation(
                        before@.trigger.conditions,
                        facts@,
                        before.created_at,
                        verdicts,
                    ),
                )
            }
        }
}

/// What an evaluation tick leaves behind. Where the conditions were not
/// met, the statistics, the actions, the status and the time of the last
/// execution are as before. Where the cycle was executed, it was counted
/// once, as a success exactly if every action succeeded, there is a report
/// for every action, each attempted at least once, and the time of the last
/// execution is `now`.
pub proof fn lemma_evaluation_cycle_effects<
    H: Fn(&Pubkey, &Parameters) -> Result<Vec<u8>, String>,
    P: Fn(&Parameters, &FactSnapshot) -> Option<bool>,
    W: Fn(u64),
    C: Fn() -> i64,
>(
    env: Collaborators<H, P, W, C>,
    before: Automation,
    facts: FactSnapshot,
    now: i64,
    after: Automation,
    outcome: CycleOutcome,
)
    requires
        evaluation_cycle_of(env, before, facts, now, after, outcome),
        before.execution_stats.has_room(),
    ensures
        outcome is ConditionsNotMet || outcome is Executed,
        outcome is ConditionsNotMet ==> {
            &&& after@.execution_stats == before@.execution_stats
            &&& after@.actions == before@.actions
            &&& after@.status == before@.status
            &&& after@.last_executed_at == before@.last_executed_at
        },
        outcome is Executed ==> {
            let report = outcome->Executed_0;
            &&& after@.execution_stats.total_executions == before@.execution_stats.total_executions
                + 1
            &&& after@.execution_stats.successful_executions
                == before@.execution_stats.successful_executions + if report.success {
                1int
            } else {
                0int
            }
            &&& after@.execution_stats.failed_executions
                == before@.execution_stats.failed_executions + if report.success {
                0int
            } else {
                1int
            }
            &&& report.success == all_succeeded(report.actions@)
            &&& report.actions@.len() == before.actions@.len()
            &&& forall|i: int|
                0 <= i < report.actions@.len() ==> (#[trigger] report.actions@[i]).attempts >= 1
            &&& after@.last_executed_at == Some(now)
        },
{
    let verdicts = choose|verdicts: Seq<Option<bool>>|
        {
            &&& #[trigger] verdicts_allowed(
                env.custom_condition,
                before.trigger.conditions@,
                facts,
                before.created_at,
                verdicts,
            )
            &&& if all_met(before@.trigger.conditions, facts@, before.created_at, verdicts) {
                outcome is Executed && cycle_of(
                    env,
                    with_conditions(
                        before@,
                        after_evaluation(
                            before@.trigger.conditions,
                            facts@,
                            before.created_at,
                            verdicts,
                        ),
                    ),
                    before.actions@,
                    after,
                    outcome->Executed_0,
                    now,
                )
            } else {
                outcome is ConditionsNotMet && after@ == with_conditions(
                    before@,
                    after_evaluation(
                        before@.trigger.conditions,
                        facts@,
                        before.created_at,
                        verdicts,
                    ),
                )
            }
        };
    if outcome is Executed {
        let report = outcome->Executed_0;
        assert forall|i: int| 0 <= i < report.actions@.len() implies (
        #[trigger] report.actions@[i]).attempts >= 1 by {
            assert(execution_of(
                env.handlers,
                before.actions@[i],
                after.actions@[i],
                report.actions@[i],
            ));
        }
    }
}

impl Automation {
    /// Evaluates the conditions of the trigger against `facts`, stopping
    /// behind the first that does not hold, and says whether all hold. Only
    /// the records of the conditions reached change.
    pub fn check_conditions<P: Fn(&Parameters, &FactSnapshot) -> Option<bool>>(
        &mut self,
        facts: &FactSnapshot,
        custom: &P,
    ) -> (satisfied: bool)
        requires
            predicate_is_total(*custom),
        ensures
            old(self)@.trigger.conditions.len() == 0 ==> satisfied,
            final(self).actions == old(self).actions,
            exists|verdicts: Seq<Option<bool>>|
                {
                    &&& #[trigger] verdicts_allowed(
                        *custom,
                        old(self).trigger.conditions@,
                        *facts,
                        old(self).created_at,
                        verdicts,
                    )
                    &&& final(self)@ == with_conditions(
                        old(self)@,
                        after_evaluation(
                            old(self)@.trigger.conditions,
                            facts@,
                            old(self).created_at,
                            verdicts,
                        ),
                    )
                    &&& satisfied == all_met(
                        old(self)@.trigger.conditions,
                        facts@,
                        old(self).created_at,
                        verdicts,
                    )
                },
    {
        evaluate(&mut self.trigger.conditions, facts, self.created_at, custom)
    }

    /// Counts a cycle that ran at `now`: sets the time of the last
    /// execution, updates the statistics, moves a schedule on and settles
    /// the status. Only an active automation counts cycles; any other is
    /// left as it was.
    pub fn record_cycle(
        &mut self,
        success: bool,
        reason: Option<String>,
        now: i64,
        elapsed: u64,
        failure_threshold: Option<u64>,
    ) -> (result: Result<(), AutomationError>)
        requires
            old(self).status == AutomationStatus::Active ==> old(self).execution_stats.has_room(),
        ensures
            old(self).status != AutomationStatus::Active ==> result == Err::<(), AutomationError>(
                AutomationError::AutomationNotActive,
            ) && *final(self) == *old(self),
            old(self).status == AutomationStatus::Active ==> result is Ok && final(self)@
                == after_cycle(
                old(self)@,
                old(self)@.actions,
                success,
                match reason {
                    Some(text) => Some(text@),
                    None => None,
                },
                now,
                elapsed,
                failure_threshold,
            ),
            final(self).actions == old(self).actions,
    {
        if self.status != AutomationStatus::Active {
            return Err(AutomationError::AutomationNotActive);
        }
        self.last_executed_at = Some(now);
        self.execution_stats.record(success, reason, elapsed);
        let mut completed: bool = false;
        match self.trigger.trigger_type {
            TriggerType::Schedule => {
                match self.trigger.schedule {
                    Some(schedule) => {
                        if is_exhausted(&schedule, self.execution_stats.total_executions) {
                            completed = true;
                        } else {
                            self.trigger.schedule = Some(advance(&schedule, now));
                        }
                    },
                    None => {},
                }
            },
            _ => {},
        }
        if completed {
            self.status = AutomationStatus::Completed;
        } else if !success {
            match failure_threshold {
                Some(threshold) => {
                    if self.execution_stats.failed_executions > threshold {
                        self.status = AutomationStatus::Failed;
                    }
                },
                None => {},
            }
        }
        Ok(())
    }

    /// Runs the actions and counts the cycle.
    fn run_cycle<
        H: Fn(&Pubkey, &Parameters) -> Result<Vec<u8>, String>,
        P: Fn(&Parameters, &FactSnapshot) -> Option<bool>,
        W: Fn(u64),
        C: Fn() -> i64,
    >(&mut self, now: i64, env: &Collaborators<H, P, W, C>) -> (report: CycleReport)
        requires
            env.is_total(),
            old(self).status == AutomationStatus::Active,
            old(self).execution_stats.has_room(),
        ensures
            cycle_of(*env, old(self)@, old(self).actions@, *final(self), report, now),
    {
        let clock = &env.clock;
        let started_at: i64 = clock();
        let reports = execute_all(&mut self.actions, &env.handlers, &env.wait);
        let finished_at: i64 = clock();
        let elapsed: u64 = elapsed_seconds(started_at, finished_at);
        let (success, reason) = summarize(&reports);
        let _ = self.record_cycle(success, reason, now, elapsed, env.failure_threshold);
        CycleReport { success, actions: reports, started_at, finished_at, elapsed }
    }

    /// Executes one cycle at `now` without asking the trigger or the
    /// conditions: runs every action in order, then counts the cycle. An
    /// automation that is not active is rejected and left as it was.
    pub fn execute<
        H: Fn(&Pubkey, &Parameters) -> Result<Vec<u8>, String>,
        P: Fn(&Parameters, &FactSnapshot) -> Option<bool>,
        W: Fn(u64),
        C: Fn() -> i64,
    >(&mut self, now: i64, env: &Collaborators<H, P, W, C>) -> (result: Result<
        CycleReport,
        AutomationError,
    >)
        requires
            env.is_total(),
            old(self).status == AutomationStatus::Active ==> old(self).execution_stats.has_room(),
        ensures
            old(self).status != AutomationStatus::Active ==> result is Err && result->Err_0
                == AutomationError::AutomationNotActive && *final(self) == *old(self),
            old(self).status == AutomationStatus::Active ==> result is Ok && cycle_of(
                *env,
                old(self)@,
                old(self).actions@,
                *final(self),
                result->Ok_0,
                now,
            ),
    {
        if self.status != AutomationStatus::Active {
            return Err(AutomationError::AutomationNotActive);
        }
        Ok(self.run_cycle(now, env))
    }

    /// One evaluation tick at `now`. An automation that is not active is
    /// rejected. One whose trigger is not due is left alone. Otherwise the
    /// conditions are evaluated against `facts`; where they do not all hold,
    /// only their records change; where they do, the actions are executed
    /// and the cycle is counted. In the first two cases nothing changes.
    pub fn evaluate_and_execute<
        H: Fn(&Pubkey, &Parameters) -> Result<Vec<u8>, String>,
        P: Fn(&Parameters, &FactSnapshot) -> Option<bool>,
        W: Fn(u64),
        C: Fn() -> i64,
    >(&mut self, facts: &FactSnapshot, now: i64, env: &Collaborators<H, P, W, C>) -> (result:
        Result<CycleOutcome, AutomationError>)
        requires
            env.is_total(),
            old(self).status == AutomationStatus::Active ==> old(self).execution_stats.has_room(),
        ensures
            old(self).status != AutomationStatus::Active ==> result is Err && result->Err_0
                == AutomationError::AutomationNotActive && *final(self) == *old(self),
            old(self).status == AutomationStatus::Active && !due_at(
                old(self).trigger.trigger_type,
                old(self).trigger.schedule,
                now,
            ) ==> result is Ok && result->Ok_0 is NotDue && *final(self) == *old(self),
            old(self).status == AutomationStatus::Active && due_at(
                old(self).trigger.trigger_type,
                old(self).trigger.schedule,
                now,
            ) ==> result is Ok && evaluation_cycle_of(
                *env,
                *old(self),
                *facts,
                now,
                *final(self),
                result->Ok_0,
            ),
    {
        if self.status != AutomationStatus::Active {
            return Err(AutomationError::AutomationNotActive);
        }
        if !is_due(&self.trigger, now) {
            return Ok(CycleOutcome::NotDue);
        }
        let satisfied = self.check_conditions(facts, &env.custom_condition);
        let ghost verdicts: Seq<Option<bool>> = choose|verdicts: Seq<Option<bool>>|
            {
                &&& #[trigger] verdicts_allowed(
                    env.custom_condition,
                    old(self).trigger.conditions@,
                    *facts,
                    old(self).created_at,
                    verdicts,
                )
                &&& self@ == with_conditions(
                    old(self)@,
                    after_evaluation(
                        old(self)@.trigger.conditions,
                        facts@,
                        old(self).created_at,
                        verdicts,
                    ),
                )
                &&& satisfied == all_met(
                    old(self)@.trigger.conditions,
                    facts@,
                    old(self).created_at,
                    verdicts,
                )
            };
        if !satisfied {
            return Ok(CycleOutcome::ConditionsNotMet);
        }
        let report = self.run_cycle(now, env);
        Ok(CycleOutcome::Executed(report))
    }
}

} // verus!
