use crate_core::action::{Action, ActionHandlerRegistry, ActionType};
use crate_core::automation::{Automation, AutomationStatus, Collaborators, CycleOutcome};
use crate_core::condition::{Condition, ConditionType, FactSnapshot};
use crate_core::params::Parameters;
use crate_core::trigger::{Schedule, Trigger, TriggerType};
use crate_core::workspace::{
    AppType, ConnectedApp, ErrorCode, NotificationSettings, RiskLevel, StoredAutomation,
    TickOutcome, Workspace, WorkspaceSettings, WorkspaceStats,
};
use solana_program::pubkey::Pubkey;
use std::cell::Cell;

type Handler<'a> = Box<dyn Fn(&Pubkey, &Parameters) -> Result<Vec<u8>, String> + 'a>;
type Predicate<'a> = Box<dyn Fn(&Parameters, &FactSnapshot) -> Option<bool> + 'a>;
type Wait<'a> = Box<dyn Fn(u64) + 'a>;
type Clock<'a> = Box<dyn Fn() -> i64 + 'a>;
type Env<'a> = Collaborators<Handler<'a>, Predicate<'a>, Wait<'a>, Clock<'a>>;

fn ws_env<'a>(handlers: ActionHandlerRegistry<Handler<'a>>) -> Env<'a> {
    Collaborators {
        handlers,
        custom_condition: Box::new(|_, _| None),
        wait: Box::new(|_| {}),
        clock: Box::new(|| 0),
        failure_threshold: None,
    }
}

fn ws_key(byte: u8) -> Pubkey {
    Pubkey::new_from_array([byte; 32])
}

fn new_workspace(now: i64) -> Workspace {
    let mut workspace = Workspace::default();
    workspace.initialize(ws_key(1), "desk".to_string(), None, 3, now).unwrap();
    workspace
}

fn app(id: &str) -> ConnectedApp {
    ConnectedApp {
        id: id.to_string(),
        app_type: AppType::Dex,
        config: Parameters::new(),
        connected_at: 1,
        last_used: 2,
    }
}

fn automation_with(trigger: Trigger, kinds: &[ActionType]) -> Automation {
    let mut automation = Automation::default();
    automation.initialize(ws_key(1), ws_key(2), "task".to_string(), trigger, 0, 10).unwrap();
    for kind in kinds {
        automation
            .add_action(Action {
                action_type: *kind,
                target: ws_key(8),
                parameters: Parameters::new(),
                retry_config: None,
            })
            .unwrap();
    }
    automation
}

/// Stores each automation under its own key and has the workspace own it.
fn owned_by(workspace: &mut Workspace, automations: Vec<Automation>) -> Vec<StoredAutomation> {
    let updated_at = workspace.updated_at;
    let mut stored = Vec::new();
    for (i, automation) in automations.into_iter().enumerate() {
        let key = ws_key(100 + i as u8);
        workspace.add_automation(key, updated_at).unwrap();
        stored.push(StoredAutomation { key, automation });
    }
    stored
}

fn scheduled(next_execution: i64) -> Trigger {
    Trigger {
        trigger_type: TriggerType::Schedule,
        conditions: Vec::new(),
        schedule: Some(Schedule { interval: 100, next_execution, max_executions: None }),
    }
}

fn price_gated(limit: u64) -> Trigger {
    let mut parameters = Parameters::new();
    parameters.insert_u64("threshold".to_string(), limit);
    Trigger {
        trigger_type: TriggerType::Price,
        conditions: vec![Condition {
            condition_type: ConditionType::PriceAbove,
            parameters,
            last_check: None,
            last_value: None,
        }],
        schedule: None,
    }
}

fn facts_of(price: u64, now: i64) -> Option<FactSnapshot> {
    Some(FactSnapshot { price, balance: 0, now, custom: Vec::new() })
}

#[test]
fn workspace_space_is_the_record_size() {
    assert_eq!(Workspace::space(), 2598);
}

#[test]
fn workspace_defaults() {
    assert_eq!(AppType::default(), AppType::Custom);
    assert_eq!(RiskLevel::default(), RiskLevel::Medium);
    let stats = WorkspaceStats::default();
    assert_eq!(
        stats,
        WorkspaceStats {
            total_executions: 0,
            successful_executions: 0,
            failed_executions: 0,
            total_value_locked: 0,
            last_execution_time: None,
        }
    );
    let notifications = NotificationSettings::default();
    assert!(!notifications.email_enabled);
    assert!(!notifications.discord_enabled);
    assert!(!notifications.telegram_enabled);
    assert!(notifications.notification_types.is_empty());
    let settings = WorkspaceSettings::default();
    assert_eq!(settings.max_automations, 10);
    assert!(settings.auto_retry);
    assert_eq!(settings.risk_level, RiskLevel::Medium);
    let workspace = Workspace::default();
    assert_eq!(workspace.owner, Pubkey::default());
    assert!(workspace.apps.is_empty());
    assert!(workspace.automations.is_empty());
}

#[test]
fn workspace_initialize_sets_defaults() {
    let mut workspace = Workspace::default();
    workspace.automations.push(ws_key(5));
    workspace.apps.push(app("old"));
    workspace.stats.total_executions = 9;
    workspace.settings.max_automations = 1;
    let result = workspace.initialize(
        ws_key(1),
        "trading".to_string(),
        Some("main desk".to_string()),
        250,
        1_234,
    );
    assert_eq!(result, Ok(()));
    assert_eq!(workspace.owner, ws_key(1));
    assert_eq!(workspace.name, "trading");
    assert_eq!(workspace.description.as_deref(), Some("main desk"));
    assert!(workspace.apps.is_empty());
    assert!(workspace.automations.is_empty());
    assert_eq!(workspace.stats, WorkspaceStats::default());
    assert_eq!(workspace.settings.max_automations, 10);
    assert!(workspace.settings.auto_retry);
    assert_eq!(workspace.settings.risk_level, RiskLevel::Medium);
    assert!(workspace.settings.notification_settings.notification_types.is_empty());
    assert_eq!(workspace.created_at, 1_234);
    assert_eq!(workspace.updated_at, 1_234);
    assert_eq!(workspace.bump, 250);
}

#[test]
fn workspace_initialize_rejects_long_texts() {
    let mut workspace = new_workspace(5);
    assert_eq!(
        workspace.initialize(ws_key(9), "n".repeat(201), Some("d".repeat(300)), 0, 6),
        Err(ErrorCode::NameTooLong)
    );
    assert_eq!(
        workspace.initialize(ws_key(9), "n".repeat(200), Some("d".repeat(201)), 0, 6),
        Err(ErrorCode::DescriptionTooLong)
    );
    assert_eq!(workspace.owner, ws_key(1));
    assert_eq!(workspace.name, "desk");
    assert_eq!(workspace.updated_at, 5);
    assert_eq!(
        workspace.initialize(ws_key(9), "n".repeat(200), Some("d".repeat(200)), 0, 6),
        Ok(())
    );
    assert_eq!(workspace.owner, ws_key(9));
}

#[test]
fn workspace_error_messages() {
    assert_eq!(ErrorCode::NameTooLong.message(), "Name must be less than 200 characters");
    assert_eq!(
        ErrorCode::DescriptionTooLong.message(),
        "Description must be less than 200 characters"
    );
    assert_eq!(ErrorCode::TooManyApps.message(), "Maximum number of apps reached");
    assert_eq!(ErrorCode::TooManyAutomations.message(), "Maximum number of automations reached");
}

#[test]
fn eleventh_app_is_rejected() {
    let mut workspace = new_workspace(5);
    for i in 0..10 {
        assert_eq!(workspace.add_app(app(&format!("app{}", i)), 100 + i), Ok(()));
        assert_eq!(workspace.updated_at, 100 + i);
    }
    assert_eq!(workspace.add_app(app("one too many"), 500), Err(ErrorCode::TooManyApps));
    assert_eq!(workspace.apps.len(), 10);
    assert_eq!(workspace.apps[9].id, "app9");
    assert_eq!(workspace.updated_at, 109);
}

#[test]
fn second_automation_is_rejected_when_only_one_is_allowed() {
    let mut workspace = new_workspace(5);
    workspace.settings.max_automations = 1;
    assert_eq!(workspace.add_automation(ws_key(20), 6), Ok(()));
    assert_eq!(workspace.updated_at, 6);
    assert_eq!(workspace.add_automation(ws_key(21), 7), Err(ErrorCode::TooManyAutomations));
    assert_eq!(workspace.automations, vec![ws_key(20)]);
    assert_eq!(workspace.updated_at, 6);
}

#[test]
fn workspace_holds_up_to_its_default_limit() {
    let mut workspace = new_workspace(5);
    for i in 0..10u8 {
        assert_eq!(workspace.add_automation(ws_key(30 + i), 6), Ok(()));
    }
    assert_eq!(workspace.add_automation(ws_key(99), 7), Err(ErrorCode::TooManyAutomations));
    assert_eq!(workspace.automations.len(), 10);
    workspace.settings.max_automations = 0;
    let mut empty = new_workspace(1);
    empty.settings.max_automations = 0;
    assert_eq!(empty.add_automation(ws_key(1), 2), Err(ErrorCode::TooManyAutomations));
}

#[test]
fn update_stats_counts_by_outcome() {
    let mut workspace = new_workspace(5);
    workspace.stats.total_value_locked = 77;
    assert_eq!(workspace.update_stats(true, 50), Ok(()));
    assert_eq!(workspace.update_stats(false, 60), Ok(()));
    assert_eq!(workspace.update_stats(true, 70), Ok(()));
    assert_eq!(
        workspace.stats,
        WorkspaceStats {
            total_executions: 3,
            successful_executions: 2,
            failed_executions: 1,
            total_value_locked: 77,
            last_execution_time: Some(70),
        }
    );
    assert_eq!(workspace.updated_at, 70);
    assert_eq!(workspace.created_at, 5);
}

#[test]
fn tick_without_due_automations_changes_nothing() {
    let calls = Cell::new(0u32);
    let asked = Cell::new(0u32);
    let mut handlers: ActionHandlerRegistry<Handler> = ActionHandlerRegistry::new();
    handlers.register(
        ActionType::Swap,
        Box::new(|_, _| {
            calls.set(calls.get() + 1);
            Ok(Vec::new())
        }),
    );
    let env = ws_env(handlers);
    let mut workspace = new_workspace(5);
    workspace.stats.total_executions = 4;
    workspace.stats.last_execution_time = Some(3);
    let mut paused = automation_with(Trigger::default(), &[ActionType::Swap]);
    paused.status = AutomationStatus::Paused;
    let mut records = owned_by(
        &mut workspace,
        vec![automation_with(scheduled(1_000), &[ActionType::Swap]), paused],
    );
    let provider = |_: &Automation| {
        asked.set(asked.get() + 1);
        facts_of(0, 999)
    };
    for _ in 0..2 {
        let report = workspace.tick(&mut records, 999, &provider, &env);
        assert_eq!(report.total_executions, 0);
        assert_eq!(report.successful_executions, 0);
        assert_eq!(report.failed_executions, 0);
        assert_eq!(report.outcomes.len(), 2);
        assert!(matches!(report.outcomes[0], TickOutcome::Ticked(CycleOutcome::NotDue)));
        assert!(matches!(report.outcomes[1], TickOutcome::Skipped));
    }
    assert_eq!(workspace.updated_at, 5);
    assert_eq!(workspace.stats.total_executions, 4);
    assert_eq!(workspace.stats.last_execution_time, Some(3));
    assert_eq!(calls.get(), 0);
    assert_eq!(asked.get(), 0);
    assert_eq!(records[0].automation.execution_stats.total_executions, 0);
    assert_eq!(records[0].automation.last_executed_at, None);
    assert_eq!(records[1].automation.status, AutomationStatus::Paused);
    assert_eq!(records[0].key, ws_key(100));
}

#[test]
fn tick_on_an_empty_workspace_changes_nothing() {
    let env = ws_env(ActionHandlerRegistry::new());
    let mut workspace = new_workspace(5);
    let mut records: Vec<StoredAutomation> = Vec::new();
    let report = workspace.tick(&mut records, 50, &|_: &Automation| facts_of(0, 50), &env);
    assert!(report.outcomes.is_empty());
    assert_eq!(report.total_executions, 0);
    assert_eq!(workspace.updated_at, 5);
    assert_eq!(workspace.stats, WorkspaceStats::default());
}

#[test]
fn tick_folds_outcomes_into_the_workspace() {
    let mut handlers: ActionHandlerRegistry<Handler> = ActionHandlerRegistry::new();
    handlers.register(ActionType::Swap, Box::new(|_, _| Ok(Vec::new())));
    handlers.register(ActionType::Transfer, Box::new(|_, _| Err("rejected".to_string())));
    let env = ws_env(handlers);
    let mut workspace = new_workspace(5);
    workspace.stats.total_value_locked = 11;
    let mut completed = automation_with(Trigger::default(), &[ActionType::Swap]);
    completed.status = AutomationStatus::Completed;
    let mut records = owned_by(
        &mut workspace,
        vec![
            automation_with(Trigger::default(), &[ActionType::Swap]),
            automation_with(Trigger::default(), &[ActionType::Swap, ActionType::Transfer]),
            automation_with(scheduled(5_000), &[ActionType::Swap]),
            automation_with(price_gated(100), &[ActionType::Swap]),
            completed,
            automation_with(scheduled(900), &[]),
        ],
    );
    let report = workspace.tick(&mut records, 1_000, &|_: &Automation| facts_of(50, 1_000), &env);

    assert_eq!(report.total_executions, 3);
    assert_eq!(report.successful_executions, 2);
    assert_eq!(report.failed_executions, 1);
    assert_eq!(report.outcomes.len(), 6);
    assert!(
        matches!(&report.outcomes[0], TickOutcome::Ticked(CycleOutcome::Executed(r)) if r.success)
    );
    assert!(
        matches!(&report.outcomes[1], TickOutcome::Ticked(CycleOutcome::Executed(r)) if !r.success)
    );
    assert!(matches!(report.outcomes[2], TickOutcome::Ticked(CycleOutcome::NotDue)));
    assert!(matches!(report.outcomes[3], TickOutcome::Ticked(CycleOutcome::ConditionsNotMet)));
    assert!(matches!(report.outcomes[4], TickOutcome::Skipped));
    assert!(
        matches!(&report.outcomes[5], TickOutcome::Ticked(CycleOutcome::Executed(r)) if r.success)
    );
    assert_eq!(
        workspace.stats,
        WorkspaceStats {
            total_executions: 3,
            successful_executions: 2,
            failed_executions: 1,
            total_value_locked: 11,
            last_execution_time: Some(1_000),
        }
    );
    assert_eq!(workspace.updated_at, 1_000);
    assert_eq!(workspace.created_at, 5);
    assert_eq!(records[0].automation.execution_stats.successful_executions, 1);
    assert_eq!(records[1].automation.execution_stats.failed_executions, 1);
    assert_eq!(records[1].automation.execution_stats.last_error.as_deref(), Some("rejected"));
    assert_eq!(records[2].automation.execution_stats.total_executions, 0);
    assert_eq!(records[3].automation.execution_stats.total_executions, 0);
    assert_eq!(records[3].automation.trigger.conditions[0].last_check, Some(1_000));
    assert_eq!(records[4].automation.execution_stats.total_executions, 0);
    assert_eq!(records[5].automation.trigger.schedule.unwrap().next_execution, 1_100);
    for (i, stored) in records.iter().enumerate() {
        assert_eq!(stored.key, ws_key(100 + i as u8));
    }
}

#[test]
fn tick_with_only_unmet_conditions_keeps_updated_at() {
    let env = ws_env(ActionHandlerRegistry::new());
    let mut workspace = new_workspace(5);
    let mut records =
        owned_by(&mut workspace, vec![automation_with(price_gated(100), &[ActionType::Swap])]);
    let report = workspace.tick(&mut records, 60, &|_: &Automation| facts_of(1, 60), &env);
    assert_eq!(report.total_executions, 0);
    assert!(matches!(report.outcomes[0], TickOutcome::Ticked(CycleOutcome::ConditionsNotMet)));
    assert_eq!(workspace.updated_at, 5);
    assert_eq!(workspace.stats.last_execution_time, None);
    assert_eq!(records[0].automation.trigger.conditions[0].last_check, Some(60));
}

#[test]
fn tick_degrades_missing_facts_to_conditions_not_met() {
    let calls = Cell::new(0u32);
    let mut handlers: ActionHandlerRegistry<Handler> = ActionHandlerRegistry::new();
    handlers.register(
        ActionType::Swap,
        Box::new(|_, _| {
            calls.set(calls.get() + 1);
            Ok(Vec::new())
        }),
    );
    let env = ws_env(handlers);
    let mut workspace = new_workspace(5);
    let mut records = owned_by(
        &mut workspace,
        vec![
            automation_with(price_gated(100), &[ActionType::Swap]),
            automation_with(Trigger::default(), &[ActionType::Swap]),
        ],
    );
    let provider = |automation: &Automation| {
        if automation.trigger.conditions.is_empty() {
            facts_of(0, 70)
        } else {
            None
        }
    };
    let report = workspace.tick(&mut records, 70, &provider, &env);
    assert!(matches!(report.outcomes[0], TickOutcome::Ticked(CycleOutcome::ConditionsNotMet)));
    assert!(matches!(report.outcomes[1], TickOutcome::Ticked(CycleOutcome::Executed(_))));
    assert_eq!(records[0].automation.trigger.conditions[0].last_check, None);
    assert_eq!(records[0].automation.execution_stats.total_executions, 0);
    assert_eq!(report.total_executions, 1);
    assert_eq!(calls.get(), 1);
    assert_eq!(workspace.stats.total_executions, 1);
    assert_eq!(workspace.updated_at, 70);
}

#[test]
fn tick_passes_over_automations_of_other_workspaces() {
    let calls = Cell::new(0u32);
    let mut handlers: ActionHandlerRegistry<Handler> = ActionHandlerRegistry::new();
    handlers.register(
        ActionType::Swap,
        Box::new(|_, _| {
            calls.set(calls.get() + 1);
            Ok(Vec::new())
        }),
    );
    let env = ws_env(handlers);
    let mut workspace = new_workspace(5);
    let mut records =
        owned_by(&mut workspace, vec![automation_with(Trigger::default(), &[ActionType::Swap])]);
    let mut near_miss = [100u8; 32];
    near_miss[0] = 101;
    records.push(StoredAutomation {
        key: Pubkey::new_from_array(near_miss),
        automation: automation_with(Trigger::default(), &[ActionType::Swap]),
    });
    assert!(workspace.owns(&ws_key(100)));
    assert!(!workspace.owns(&Pubkey::new_from_array(near_miss)));
    assert!(!workspace.owns(&ws_key(1)));
    let report = workspace.tick(&mut records, 80, &|_: &Automation| facts_of(0, 80), &env);
    assert!(matches!(report.outcomes[0], TickOutcome::Ticked(CycleOutcome::Executed(_))));
    assert!(matches!(report.outcomes[1], TickOutcome::NotOwned));
    assert_eq!(report.total_executions, 1);
    assert_eq!(calls.get(), 1);
    assert_eq!(records[1].automation.execution_stats.total_executions, 0);
    assert_eq!(records[1].automation.last_executed_at, None);
    assert_eq!(workspace.stats.total_executions, 1);
}

#[test]
fn tick_of_a_workspace_that_owns_nothing_changes_nothing() {
    let env = ws_env(ActionHandlerRegistry::new());
    let mut workspace = new_workspace(5);
    let mut records = vec![StoredAutomation {
        key: ws_key(100),
        automation: automation_with(Trigger::default(), &[ActionType::Swap]),
    }];
    let report = workspace.tick(&mut records, 80, &|_: &Automation| facts_of(0, 80), &env);
    assert!(matches!(report.outcomes[0], TickOutcome::NotOwned));
    assert_eq!(report.total_executions, 0);
    assert_eq!(workspace.updated_at, 5);
    assert_eq!(records[0].automation.execution_stats.total_executions, 0);
}
