//! Workspace aggregator: the bounded collections of one workspace, and the
//! tick that offers each of its automations an evaluation and folds the
//! outcomes into the workspace's statistics.

use crate::automation::{
    evaluation_cycle_of, Automation, AutomationStatus, Collaborators, CycleOutcome,
};
use crate::condition::FactSnapshot;
use crate::identity::{default_identity, same_identity};
use crate::params::Parameters;
use crate::trigger::{due_at, is_due};
use solana_program::pubkey::Pubkey;
use vstd::prelude::*;
use vstd::string::StrSliceExecFns;

verus! {

/// The most apps one workspace may connect.
pub const MAX_APPS: usize = 10;

/// The most characters a name or a description may have.
pub const MAX_TEXT_LEN: usize = 200;

/// The kinds of connected app.
#[derive(Clone, Copy, Debug, PartialEq, Eq, Structural)]
pub enum AppType {
    Dex,
    PriceFeed,
    Lending,
    Yield,
    Custom,
}

impl Default for AppType {
    fn default() -> (kind: AppType)
        ensures
            kind == AppType::Custom,
    {
        AppType::Custom
    }
}

/// The events a workspace can be notified of.
#[derive(Clone, Copy, Debug, PartialEq, Eq, Structural)]
pub enum NotificationType {
    ExecutionSuccess,
    ExecutionFailure,
    ConditionMet,
    LowBalance,
    PriceAlert,
}

/// How much risk a workspace accepts.
#[derive(Clone, Copy, Debug, PartialEq, Eq, Structural)]
pub enum RiskLevel {
    Low,
    Medium,
    High,
}

impl Default for RiskLevel {
    fn default() -> (level: RiskLevel)
        ensures
            level == RiskLevel::Medium,
    {
        RiskLevel::Medium
    }
}

/// Why a call on a workspace was rejected.
#[derive(Clone, Copy, Debug, PartialEq, Eq, Structural)]
pub enum ErrorCode {
    NameTooLong,
    DescriptionTooLong,
    TooManyApps,
    TooManyAutomations,
}

impl ErrorCode {
    /// The message that goes with the error.
    pub fn message(&self) -> (text: String)
        ensures
            text@ == match *self {
                ErrorCode::NameTooLong => "Name must be less than 200 characters"@,
                ErrorCode::DescriptionTooLong => "Description must be less than 200 characters"@,
                ErrorCode::TooManyApps => "Maximum number of apps reached"@,
                ErrorCode::TooManyAutomations => "Maximum number of automations reached"@,
            },
    {
        match self {
            ErrorCode::NameTooLong => "Name must be less than 200 characters".to_string(),
            ErrorCode::DescriptionTooLong => "Description must be less than 200 characters"
                .to_string(),
            ErrorCode::TooManyApps => "Maximum number of apps reached".to_string(),
            ErrorCode::TooManyAutomations => "Maximum number of automations reached".to_string(),
        }
    }
}

/// Which notifications a workspace wants, and through which channels.
#[derive(Clone)]
pub struct NotificationSettings {
    pub email_enabled: bool,
    pub discord_enabled: bool,
    pub telegram_enabled: bool,
    pub notification_types: Vec<NotificationType>,
}

/// The mathematical content of `NotificationSettings`.
pub struct NotificationSettingsView {
    pub email_enabled: bool,
    pub discord_enabled: bool,
    pub telegram_enabled: bool,
    pub notification_types: Seq<NotificationType>,
}

impl View for NotificationSettings {
    type V = NotificationSettingsView;

    open spec fn view(&self) -> NotificationSettingsView {
        NotificationSettingsView {
            email_enabled: self.email_enabled,
            discord_enabled: self.discord_enabled,
            telegram_enabled: self.telegram_enabled,
            notification_types: self.notification_types@,
        }
    }
}

/// Notification settings with every channel off and no event chosen.
pub open spec fn no_notifications() -> NotificationSettingsView {
    NotificationSettingsView {
        email_enabled: false,
        discord_enabled: false,
        telegram_enabled: false,
        notification_types: Seq::<NotificationType>::empty(),
    }
}

impl Default for NotificationSettings {
    fn default() -> (settings: NotificationSettings)
        ensures
            settings@ == no_notifications(),
    {
        NotificationSettings {
            email_enabled: false,
            discord_enabled: false,
            telegram_enabled: false,
            notification_types: Vec::new(),
        }
    }
}

/// The settings of a workspace.
#[derive(Clone)]
pub struct WorkspaceSettings {
    pub max_automations: u8,
    pub auto_retry: bool,
    pub notification_settings: NotificationSettings,
    pub risk_level: RiskLevel,
}

/// The mathematical content of `WorkspaceSettings`.
pub struct SettingsView {
    pub max_automations: u8,
    pub auto_retry: bool,
    pub notification_settings: NotificationSettingsView,
    pub risk_level: RiskLevel,
}

impl View for WorkspaceSettings {
    type V = SettingsView;

    open spec fn view(&self) -> SettingsView {
        SettingsView {
            max_automations: self.max_automations,
            auto_retry: self.auto_retry,
            notification_settings: self.notification_settings@,
            risk_level: self.risk_level,
        }
    }
}

/// The settings of a new workspace: room for ten automations, automatic
/// retry, no notifications, medium risk.
pub open spec fn initial_settings() -> SettingsView {
    SettingsView {
        max_automations: 10,
        auto_retry: true,
        notification_settings: no_notifications(),
        risk_level: RiskLevel::Medium,
    }
}

impl Default for WorkspaceSettings {
    fn default() -> (settings: WorkspaceSettings)
        ensures
            settings@ == initial_settings(),
    {
        WorkspaceSettings {
            max_automations: 10,
            auto_retry: true,
            notification_settings: NotificationSettings::default(),
            risk_level: RiskLevel::Medium,
        }
    }
}

/// Statistics over all cycles of a workspace's automations.
#[derive(Clone, Copy, Debug, PartialEq, Eq, Structural)]
pub struct WorkspaceStats {
    pub total_executions: u64,
    pub successful_executions: u64,
    pub failed_executions: u64,
    pub total_value_locked: u64,
    pub last_execution_time: Option<i64>,
}

impl Default for WorkspaceStats {
    fn default() -> (stats: WorkspaceStats)
        ensures
            stats == WorkspaceStats::empty(),
    {
        WorkspaceStats {
            total_executions: 0,
            successful_executions: 0,
            failed_executions: 0,
            total_value_locked: 0,
            last_execution_time: None,
        }
    }
}

impl WorkspaceStats {
    /// Statistics before the first cycle.
    pub open spec fn empty() -> WorkspaceStats {
        WorkspaceStats {
            total_executions: 0,
            successful_executions: 0,
            failed_executions: 0,
            total_value_locked: 0,
            last_execution_time: None,
        }
    }

    /// The statistics after one more cycle at `now`.
    pub open spec fn counted(self, success: bool, now: i64) -> WorkspaceStats {
        WorkspaceStats {
            total_executions: (self.total_executions + 1) as u64,
            successful_executions: if success {
                (self.successful_executions + 1) as u64
            } else {
                self.successful_executions
            },
            failed_executions: if success {
                self.failed_executions
            } else {
                (self.failed_executions + 1) as u64
            },
            total_value_locked: self.total_value_locked,
            last_execution_time: Some(now),
        }
    }

    /// Whether `more` further cycles can be counted.
    pub open spec fn has_room_for(self, more: int) -> bool {
        &&& self.total_executions + more <= u64::MAX
        &&& self.successful_executions + more <= u64::MAX
        &&& self.failed_executions + more <= u64::MAX
    }
}

/// An outside service connected to a workspace.
#[derive(Clone)]
pub struct ConnectedApp {
    pub id: String,
    pub app_type: AppType,
    pub config: Parameters,
    pub connected_at: i64,
    pub last_used: i64,
}

/// The mathematical content of a `ConnectedApp`.
pub struct ConnectedAppView {
    pub id: Seq<char>,
    pub app_type: AppType,
    pub config: Map<Seq<char>, Seq<u8>>,
    pub connected_at: i64,
    pub last_used: i64,
}

impl View for ConnectedApp {
    type V = ConnectedAppView;

    open spec fn view(&self) -> ConnectedAppView {
        ConnectedAppView {
            id: self.id@,
            app_type: self.app_type,
            config: self.config@,
            connected_at: self.connected_at,
            last_used: self.last_used,
        }
    }
}

/// The container of a bounded set of automations and connected apps.
#[derive(Clone)]
pub struct Workspace {
    pub owner: Pubkey,
    pub name: String,
    pub description: Option<String>,
    pub apps: Vec<ConnectedApp>,
    /// The identities of the automations the workspace owns.
    pub automations: Vec<Pubkey>,
    pub stats: WorkspaceStats,
    pub settings: WorkspaceSettings,
    pub created_at: i64,
    pub updated_at: i64,
    pub bump: u8,
}

/// The mathematical content of a `Workspace`.
pub struct WorkspaceView {
    pub owner: Pubkey,
    pub name: Seq<char>,
    pub description: Option<Seq<char>>,
    pub apps: Seq<ConnectedAppView>,
    pub automations: Seq<Pubkey>,
    pub stats: WorkspaceStats,
    pub settings: SettingsView,
    pub created_at: i64,
    pub updated_at: i64,
    pub bump: u8,
}

/// The views of a list of connected apps.
pub open spec fn app_views(apps: Seq<ConnectedApp>) -> Seq<ConnectedAppView> {
    apps.map_values(|app: ConnectedApp| app@)
}

/// The characters of an optional text.
pub open spec fn text_view(text: Option<String>) -> Option<Seq<char>> {
    match text {
        Some(t) => Some(t@),
        None => None,
    }
}

impl View for Workspace {
    type V = WorkspaceView;

    open spec fn view(&self) -> WorkspaceView {
        WorkspaceView {
            owner: self.owner,
            name: self.name@,
            description: text_view(self.description),
            apps: app_views(self.apps@),
            automations: self.automations@,
            stats: self.stats,
            settings: self.settings@,
            created_at: self.created_at,
            updated_at: self.updated_at,
            bump: self.bump,
        }
    }
}

impl WorkspaceView {
    /// The invariant of a workspace: no more automations than its settings
    /// allow, and at most ten apps.
    pub open spec fn well_formed(self) -> bool {
        &&& self.automations.len() <= self.settings.max_automations
        &&& self.apps.len() <= MAX_APPS
    }

    /// The outcome of asking to connect `app` at `now`: accepted while
    /// fewer than ten apps are connected, otherwise rejected with everything
    /// unchanged.
    pub open spec fn try_add_app(self, app: ConnectedAppView, now: i64) -> (WorkspaceView, bool) {
        if self.apps.len() < MAX_APPS {
            (WorkspaceView { apps: self.apps.push(app), updated_at: now, ..self }, true)
        } else {
            (self, false)
        }
    }

    /// The outcome of asking to add the automation `key` at `now`: accepted
    /// while fewer automations are held than the settings allow, otherwise
    /// rejected with everything unchanged.
    pub open spec fn try_add_automation(self, key: Pubkey, now: i64) -> (WorkspaceView, bool) {
        if self.automations.len() < self.settings.max_automations {
            (
                WorkspaceView { automations: self.automations.push(key), updated_at: now, ..self },
                true,
            )
        } else {
            (self, false)
        }
    }

    /// The workspace after one more cycle at `now` was counted.
    pub open spec fn with_cycle(self, success: bool, now: i64) -> WorkspaceView {
        WorkspaceView { stats: self.stats.counted(success, now), updated_at: now, ..self }
    }
}

impl Default for Workspace {
    fn default() -> (workspace: Workspace)
        ensures
            workspace@.name == Seq::<char>::empty(),
            workspace@.description is None,
            workspace@.apps == Seq::<ConnectedAppView>::empty(),
            workspace@.automations == Seq::<Pubkey>::empty(),
            workspace@.stats == WorkspaceStats::empty(),
            workspace@.settings == initial_settings(),
            workspace@.created_at == 0,
            workspace@.updated_at == 0,
            workspace@.bump == 0,
            workspace@.well_formed(),
    {
        let workspace = Workspace {
            owner: default_identity(),
            name: String::new(),
            description: None,
            apps: Vec::new(),
            automations: Vec::new(),
            stats: WorkspaceStats::default(),
            settings: WorkspaceSettings::default(),
            created_at: 0,
            updated_at: 0,
            bump: 0,
        };
        workspace
    }
}

impl Workspace {
    /// The bytes that the stored record of a workspace takes: an 8-byte tag,
    /// the owner's identity, a length-prefixed name of up to 200 bytes, an
    /// optional length-prefixed description of up to 200 bytes, a
    /// length-prefixed list of ten apps of 48 bytes each, a length-prefixed
    /// list of fifty 32-byte identities, five 8-byte statistics, four bytes
    /// of settings, the two times and the bump.
    pub fn space() -> (bytes: usize)
        ensures
            bytes == 8 + 32 + (4 + 200) + (1 + 4 + 200) + (4 + 10 * (32 + 8 + 8)) + (4 + 50 * 32)
                + 8 * 5 + (1 + 1 + 1 + 1) + 8 + 8 + 1,
            bytes == 2598,
    {
        8 + 32 + 4 + 200 + 1 + 4 + 200 + 4 + 10 * (32 + 8 + 8) + 4 + 50 * 32 + 8 * 5 + 1 + 1 + 1
            + 1 + 8 + 8 + 1
    }

    /// Sets a record up as a new workspace created at `now`: no apps, no
    /// automations, empty statistics and the initial settings. A name or a
    /// description of more than 200 characters is rejected, the name first,
    /// and leaves the record as it was.
    pub fn initialize(
        &mut self,
        owner: Pubkey,
        name: String,
        description: Option<String>,
        bump: u8,
        now: i64,
    ) -> (result: Result<(), ErrorCode>)
        ensures
            name@.len() > MAX_TEXT_LEN ==> result == Err::<(), ErrorCode>(ErrorCode::NameTooLong),
            name@.len() <= MAX_TEXT_LEN && description is Some && description->Some_0@.len()
                > MAX_TEXT_LEN ==> result == Err::<(), ErrorCode>(ErrorCode::DescriptionTooLong),
            name@.len() <= MAX_TEXT_LEN && (description is Some ==> description->Some_0@.len()
                <= MAX_TEXT_LEN) ==> result is Ok,
            result is Err ==> *final(self) == *old(self),
            result is Ok ==> final(self)@ == (WorkspaceView {
                owner,
                name: name@,
                description: text_view(description),
                apps: Seq::<ConnectedAppView>::empty(),
                automations: Seq::<Pubkey>::empty(),
                stats: WorkspaceStats::empty(),
                settings: initial_settings(),
                created_at: now,
                updated_at: now,
                bump,
            }),
            result is Ok ==> final(self)@.well_formed(),
    {
        if name.as_str().unicode_len() > MAX_TEXT_LEN {
            return Err(ErrorCode::NameTooLong);
        }
        match &description {
            Some(text) => {
                if text.as_str().unicode_len() > MAX_TEXT_LEN {
                    return Err(ErrorCode::DescriptionTooLong);
                }
            },
            None => {},
        }
        self.owner = owner;
        self.name = name;
        self.description = description;
        self.apps = Vec::new();
        self.automations = Vec::new();
        self.stats = WorkspaceStats::default();
        self.settings = WorkspaceSettings::default();
        self.created_at = now;
        self.updated_at = now;
        self.bump = bump;
        proof {
            assert(final(self)@.apps =~= Seq::<ConnectedAppView>::empty());
        }
        Ok(())
    }

    /// Connects an app at `now`. Once ten apps are connected the call is
    /// rejected and the workspace stays as it was.
    pub fn add_app(&mut self, app: ConnectedApp, now: i64) -> (result: Result<(), ErrorCode>)
        ensures
            final(self)@ == old(self)@.try_add_app(app@, now).0,
            result is Ok == old(self)@.try_add_app(app@, now).1,
            result is Err ==> result == Err::<(), ErrorCode>(ErrorCode::TooManyApps) && *final(self)
                == *old(self),
            old(self)@.well_formed() ==> final(self)@.well_formed(),
    {
        if self.apps.len() >= MAX_APPS {
            return Err(ErrorCode::TooManyApps);
        }
        self.apps.push(app);
        self.updated_at = now;
        proof {
            assert(final(self)@.apps =~= old(self)@.apps.push(app@));
        }
        Ok(())
    }

    /// Adds the automation `automation_pubkey` at `now`. Once the workspace
    /// holds as many automations as its settings allow the call is rejected
    /// and the workspace stays as it was.
    pub fn add_automation(&mut self, automation_pubkey: Pubkey, now: i64) -> (result: Result<
        (),
        ErrorCode,
    >)
        ensures
            final(self)@ == old(self)@.try_add_automation(automation_pubkey, now).0,
            result is Ok == old(self)@.try_add_automation(automation_pubkey, now).1,
            result is Err ==> result == Err::<(), ErrorCode>(ErrorCode::TooManyAutomations)
                && *final(self) == *old(self),
            old(self)@.well_formed() ==> final(self)@.well_formed(),
    {
        if self.automations.len() >= self.settings.max_automations as usize {
            return Err(ErrorCode::TooManyAutomations);
        }
        self.automations.push(automation_pubkey);
        self.updated_at = now;
        Ok(())
    }

    /// Counts one cycle that ran at `now`. Never rejected.
    pub fn update_stats(&mut self, execution_success: bool, now: i64) -> (result: Result<
        (),
        ErrorCode,
    >)
        requires
            old(self).stats.total_executions < u64::MAX,
            execution_success ==> old(self).stats.successful_executions < u64::MAX,
            !execution_success ==> old(self).stats.failed_executions < u64::MAX,
        ensures
            result is Ok,
            final(self)@ == old(self)@.with_cycle(execution_success, now),
    {
        self.stats.total_executions = self.stats.total_executions + 1;
        if execution_success {
            self.stats.successful_executions = self.stats.successful_executions + 1;
        } else {
            self.stats.failed_executions = self.stats.failed_executions + 1;
        }
        self.stats.last_execution_time = Some(now);
        self.updated_at = now;
        Ok(())
    }
}

/// An automation record together with the identity it is stored under.
#[derive(Clone)]
pub struct StoredAutomation {
    pub key: Pubkey,
    pub automation: Automation,
}

/// What a tick did with one automation.
#[derive(Clone, Debug)]
pub enum TickOutcome {
    /// The workspace does not own the automation, which was passed over.
    NotOwned,
    /// The automation is not active and was passed over.
    Skipped,
    /// The automation was offered its evaluation, which ended so.
    Ticked(CycleOutcome),
}

/// The account of one tick of a workspace.
#[derive(Clone, Debug)]
pub struct WorkspaceCycleReport {
    /// One outcome for each automation, in the order of the automations.
    pub outcomes: Vec<TickOutcome>,
    /// By how much the tick raised the workspace's three counters.
    pub total_executions: u64,
    pub successful_executions: u64,
    pub failed_executions: u64,
}

/// Whether the outcome is that of an executed cycle.
pub open spec fn is_run(outcome: TickOutcome) -> bool {
    outcome is Ticked && outcome->Ticked_0 is Executed
}

/// Whether the outcome is that of an executed cycle that succeeded.
pub open spec fn is_success(outcome: TickOutcome) -> bool {
    is_run(outcome) && outcome->Ticked_0->Executed_0.success
}

/// The number of executed cycles among the outcomes.
pub open spec fn count_run(outcomes: Seq<TickOutcome>) -> nat
    decreases outcomes.len(),
{
    if outcomes.len() == 0 {
        0
    } else {
        count_run(outcomes.drop_last()) + if is_run(outcomes.last()) {
            1nat
        } else {
            0nat
        }
    }
}

/// The number of executed cycles that succeeded.
pub open spec fn count_successful(outcomes: Seq<TickOutcome>) -> nat
    decreases outcomes.len(),
{
    if outcomes.len() == 0 {
        0
    } else {
        count_successful(outcomes.drop_last()) + if is_success(outcomes.last()) {
            1nat
        } else {
            0nat
        }
    }
}

/// The number of executed cycles that failed.
pub open spec fn count_failed(outcomes: Seq<TickOutcome>) -> nat
    decreases outcomes.len(),
{
    if outcomes.len() == 0 {
        0
    } else {
        count_failed(outcomes.drop_last()) + if is_run(outcomes.last()) && !is_success(
            outcomes.last(),
        ) {
            1nat
        } else {
            0nat
        }
    }
}

/// The workspace after a tick at `now` that ended in `outcomes`: every
/// executed cycle is counted; the time of the last execution and of the last
/// update move to `now` only where a cycle was executed.
pub open spec fn after_tick(
    before: WorkspaceView,
    outcomes: Seq<TickOutcome>,
    now: i64,
) -> WorkspaceView {
    WorkspaceView {
        stats: WorkspaceStats {
            total_executions: (before.stats.total_executions + count_run(outcomes)) as u64,
            successful_executions: (before.stats.successful_executions + count_successful(
                outcomes,
            )) as u64,
            failed_executions: (before.stats.failed_executions + count_failed(outcomes)) as u64,
            total_value_locked: before.stats.total_value_locked,
            last_execution_time: if count_run(outcomes) > 0 {
                Some(now)
            } else {
                before.stats.last_execution_time
            },
        },
        updated_at: if count_run(outcomes) > 0 {
            now
        } else {
            before.updated_at
        },
        ..before
    }
}

/// Whether a tick at `now` of a workspace that owns the automations `owned`
/// evaluates the stored automation: the workspace owns it, it is active and
/// its trigger is due.
pub open spec fn is_eligible(owned: Seq<Pubkey>, stored: StoredAutomation, now: i64) -> bool {
    &&& owned.contains(stored.key)
    &&& stored.automation.status == AutomationStatus::Active
    &&& due_at(stored.automation.trigger.trigger_type, stored.automation.trigger.schedule, now)
}

/// A fact provider that may be asked about every automation.
pub open spec fn provider_is_total<F: Fn(&Automation) -> Option<FactSnapshot>>(
    provider: F,
) -> bool {
    forall|automation: &Automation| call_requires(provider, (automation,))
}

/// Whether `outcome` and `after` can be what a tick at `now`, of a workspace
/// that owns the automations `owned`, leaves of the stored automation
/// `before`.
///
/// An automation that the workspace does not own is passed over, one that
/// is not active is skipped, and one whose trigger is not due is reported
/// as such; none of them is touched. For any other the fact provider is
/// asked. Where it has no facts, the conditions count as not met and the
/// automation is not touched. Where it has, the automation goes through one
/// evaluation tick with them.
pub open spec fn ticked<
    H: Fn(&Pubkey, &Parameters) -> Result<Vec<u8>, String>,
    P: Fn(&Parameters, &FactSnapshot) -> Option<bool>,
    W: Fn(u64),
    C: Fn() -> i64,
    F: Fn(&Automation) -> Option<FactSnapshot>,
>(
    env: Collaborators<H, P, W, C>,
    provider: F,
    owned: Seq<Pubkey>,
    before: StoredAutomation,
    after: StoredAutomation,
    outcome: TickOutcome,
    now: i64,
) -> bool {
    if !owned.contains(before.key) {
        outcome is NotOwned && after == before
    } else if before.automation.status != AutomationStatus::Active {
        outcome is Skipped && after == before
    } else if !is_eligible(owned, before, now) {
        outcome is Ticked && outcome->Ticked_0 is NotDue && after == before
    } else {
        exists|facts: Option<FactSnapshot>|
            {
                &&& #[trigger] call_ensures(provider, (&before.automation,), facts)
                &&& outcome is Ticked
                &&& after.key == before.key
                &&& match facts {
                    None => outcome->Ticked_0 is ConditionsNotMet && after == before,
                    Some(found) => evaluation_cycle_of(
                        env,
                        before.automation,
                        found,
                        now,
                        after.automation,
                        outcome->Ticked_0,
                    ),
                }
            }
    }
}

/// Counting one more outcome.
pub proof fn lemma_count_push(outcomes: Seq<TickOutcome>, next: TickOutcome)
    ensures
        count_run(outcomes.push(next)) == count_run(outcomes) + if is_run(next) {
            1nat
        } else {
            0nat
        },
        count_successful(outcomes.push(next)) == count_successful(outcomes) + if is_success(next) {
            1nat
        } else {
            0nat
        },
        count_failed(outcomes.push(next)) == count_failed(outcomes) + if is_run(next)
            && !is_success(next) {
            1nat
        } else {
            0nat
        },
{
    assert(outcomes.push(next).drop_last() =~= outcomes);
}

/// Every executed cycle either succeeded or failed, and no tick executes
/// more cycles than it has outcomes.
pub proof fn lemma_counts_add_up(outcomes: Seq<TickOutcome>)
    ensures
        count_run(outcomes) == count_successful(outcomes) + count_failed(outcomes),
        count_run(outcomes) <= outcomes.len(),
    decreases outcomes.len(),
{
    if outcomes.len() > 0 {
        lemma_counts_add_up(outcomes.drop_last());
    }
}

/// A tick in which no cycle was executed counts nothing.
pub proof fn lemma_nothing_run(outcomes: Seq<TickOutcome>)
    requires
        forall|i: int| 0 <= i < outcomes.len() ==> !is_run(#[trigger] outcomes[i]),
    ensures
        count_run(outcomes) == 0,
        count_successful(outcomes) == 0,
        count_failed(outcomes) == 0,
    decreases outcomes.len(),
{
    if outcomes.len() > 0 {
        lemma_nothing_run(outcomes.drop_last());
    }
}

impl Workspace {
    /// Whether the workspace owns the automation stored under `key`.
    pub fn owns(&self, key: &Pubkey) -> (owned: bool)
        ensures
            owned == self.automations@.contains(*key),
    {
        let mut i: usize = 0;
        while i < self.automations.len()
            invariant
                i <= self.automations@.len(),
                forall|j: int| 0 <= j < i ==> self.automations@[j] != *key,
            decreases self.automations@.len() - i,
        {
            if same_identity(&self.automations[i], key) {
                return true;
            }
            i = i + 1;
        }
        false
    }

    /// One tick at `now` over `records`, the stored automations loaded for
    /// this workspace. Each is dealt with as `ticked` says, one after the
    /// other in the order of the list; every executed cycle is counted in
    /// the workspace's statistics, and the report says by how much each
    /// counter rose.
    ///
    /// A tick that finds no automation eligible reports zero on every
    /// counter and leaves the workspace and every automation exactly as
    /// they were.
    pub fn tick<
        H: Fn(&Pubkey, &Parameters) -> Result<Vec<u8>, String>,
        P: Fn(&Parameters, &FactSnapshot) -> Option<bool>,
        W: Fn(u64),
        C: Fn() -> i64,
        F: Fn(&Automation) -> Option<FactSnapshot>,
    >(
        &mut self,
        records: &mut Vec<StoredAutomation>,
        now: i64,
        fact_provider: &F,
        env: &Collaborators<H, P, W, C>,
    ) -> (report: WorkspaceCycleReport)
        requires
            env.is_total(),
            provider_is_total(*fact_provider),
            forall|i: int|
                0 <= i < old(records)@.len() ==> (#[trigger] old(records)@[i]).automation.status
                    == AutomationStatus::Active
                    ==> old(records)@[i].automation.execution_stats.has_room(),
            old(self).stats.has_room_for(old(records)@.len() as int),
        ensures
            report.outcomes@.len() == old(records)@.len(),
            final(records)@.len() == old(records)@.len(),
            forall|i: int|
                0 <= i < old(records)@.len() ==> ticked(
                    *env,
                    *fact_provider,
                    old(self).automations@,
                    old(records)@[i],
                    final(records)@[i],
                    #[trigger] report.outcomes@[i],
                    now,
                ),
            report.total_executions == count_run(report.outcomes@),
            report.successful_executions == count_successful(report.outcomes@),
            report.failed_executions == count_failed(report.outcomes@),
            final(self)@ == after_tick(old(self)@, report.outcomes@, now),
            old(self)@.well_formed() ==> final(self)@.well_formed(),
            (forall|i: int|
                0 <= i < old(records)@.len() ==> !is_eligible(
                    old(self).automations@,
                    #[trigger] old(records)@[i],
                    now,
                )) ==> {
                &&& report.total_executions == 0
                &&& report.successful_executions == 0
                &&& report.failed_executions == 0
                &&& *final(self) == *old(self)
                &&& final(records)@ == old(records)@
            },
    {
        let ghost owned = self.automations@;
        let mut outcomes: Vec<TickOutcome> = Vec::new();
        let mut total: u64 = 0;
        let mut successful: u64 = 0;
        let mut failed: u64 = 0;
        let n: usize = records.len();
        let mut i: usize = 0;
        while i < n
            invariant
                env.is_total(),
                provider_is_total(*fact_provider),
                owned == old(self).automations@,
                n == old(records)@.len(),
                records@.len() == n,
                i <= n,
                outcomes@.len() == i,
                old(self).stats.has_room_for(n as int),
                forall|j: int|
                    i <= j < n ==> (#[trigger] old(records)@[j]).automation.status
                        == AutomationStatus::Active
                        ==> old(records)@[j].automation.execution_stats.has_room(),
                forall|j: int| i <= j < n ==> #[trigger] records@[j] == old(records)@[j],
                forall|j: int|
                    0 <= j < i ==> ticked(
                        *env,
                        *fact_provider,
                        owned,
                        old(records)@[j],
                        records@[j],
                        #[trigger] outcomes@[j],
                        now,
                    ),
                total == count_run(outcomes@),
                successful == count_successful(outcomes@),
                failed == count_failed(outcomes@),
                total <= i,
                successful <= i,
                failed <= i,
                self@ == after_tick(old(self)@, outcomes@, now),
                total == 0 ==> *self == *old(self),
                (forall|j: int|
                    0 <= j < i ==> !is_eligible(owned, #[trigger] old(records)@[j], now))
                    ==> total == 0 && forall|j: int|
                    0 <= j < i ==> #[trigger] records@[j] == old(records)@[j],
            decreases n - i,
        {
            let ghost before = records@[i as int];
            let ghost reached = outcomes@;
            let outcome: TickOutcome = if !self.owns(&records[i].key) {
                TickOutcome::NotOwned
            } else if records[i].automation.status != AutomationStatus::Active {
                TickOutcome::Skipped
            } else if !is_due(&records[i].automation.trigger, now) {
                TickOutcome::Ticked(CycleOutcome::NotDue)
            } else {
                match fact_provider(&records[i].automation) {
                    None => TickOutcome::Ticked(CycleOutcome::ConditionsNotMet),
                    Some(facts) => {
                        match records[i].automation.evaluate_and_execute(&facts, now, env) {
                            Ok(cycle) => {
                                match &cycle {
                                    CycleOutcome::Executed(run) => {
                                        total = total + 1;
                                        if run.success {
                                            successful = successful + 1;
                                        } else {
                                            failed = failed + 1;
                                        }
                                        let _ = self.update_stats(run.success, now);
                                    },
                                    _ => {},
                                }
                                TickOutcome::Ticked(cycle)
                            },
                            Err(_) => TickOutcome::Skipped,
                        }
                    },
                }
            };
            proof {
                lemma_count_push(reached, outcome);
                assert(ticked(
                    *env,
                    *fact_provider,
                    owned,
                    before,
                    records@[i as int],
                    outcome,
                    now,
                ));
            }
            outcomes.push(outcome);
            i = i + 1;
        }
        WorkspaceCycleReport {
            outcomes,
            total_executions: total,
            successful_executions: successful,
            failed_executions: failed,
        }
    }
}

} // verus!
