use crate_core::params::Parameters;
use crate_core::program::{
    create_automation, execute_automation, initialize_workspace, ActionType, Automation,
    AutomationConfig, Condition, CreateAutomation, CustomError, ExecuteAutomation,
    InitializeWorkspace, Workspace,
};
use solana_program::pubkey::Pubkey;

fn signer(byte: u8) -> Pubkey {
    Pubkey::new_from_array([byte; 32])
}

fn blank_workspace(owner: Pubkey) -> Workspace {
    Workspace {
        owner,
        name: String::new(),
        description: None,
        created_at: 0,
        updated_at: 0,
        active_automations: 0,
        total_executions: 0,
    }
}

fn config_of(action_type: ActionType) -> AutomationConfig {
    AutomationConfig { action_type, conditions: Vec::new(), parameters: Parameters::new() }
}

fn blank_automation() -> Automation {
    Automation {
        owner: Pubkey::default(),
        workspace: Pubkey::default(),
        config: config_of(ActionType::Monitor),
        is_active: false,
        created_at: 0,
        last_execution: Some(1),
        execution_count: 9,
    }
}

#[test]
fn initialize_workspace_records_the_signer_as_owner() {
    let mut stale = blank_workspace(signer(9));
    stale.active_automations = 4;
    stale.total_executions = 8;
    let mut ctx = InitializeWorkspace { workspace: stale, user: signer(1) };
    let result =
        initialize_workspace(&mut ctx, "alpha".to_string(), Some("first".to_string()), 500);
    assert_eq!(result, Ok(()));
    assert_eq!(ctx.user, signer(1));
    assert_eq!(ctx.workspace.owner, signer(1));
    assert_eq!(ctx.workspace.name, "alpha");
    assert_eq!(ctx.workspace.description.as_deref(), Some("first"));
    assert_eq!(ctx.workspace.created_at, 500);
    assert_eq!(ctx.workspace.updated_at, 500);
    assert_eq!(ctx.workspace.active_automations, 0);
    assert_eq!(ctx.workspace.total_executions, 0);
}

#[test]
fn create_automation_by_the_owner() {
    let mut workspace = blank_workspace(signer(1));
    workspace.active_automations = 2;
    let mut ctx = CreateAutomation {
        automation: blank_automation(),
        workspace,
        workspace_key: signer(40),
        user: signer(1),
    };
    let mut config = config_of(ActionType::Swap);
    config.conditions.push(Condition {
        condition_type: "price".to_string(),
        parameters: Parameters::new(),
    });
    assert_eq!(create_automation(&mut ctx, config, 700), Ok(()));
    assert_eq!(ctx.automation.owner, signer(1));
    assert_eq!(ctx.automation.workspace, signer(40));
    assert_eq!(ctx.automation.config.action_type, ActionType::Swap);
    assert_eq!(ctx.automation.config.conditions.len(), 1);
    assert_eq!(ctx.automation.config.conditions[0].condition_type, "price");
    assert!(ctx.automation.is_active);
    assert_eq!(ctx.automation.created_at, 700);
    assert_eq!(ctx.automation.last_execution, None);
    assert_eq!(ctx.automation.execution_count, 0);
    assert_eq!(ctx.workspace.active_automations, 3);
    assert_eq!(ctx.workspace.owner, signer(1));
}

#[test]
fn create_automation_by_a_stranger_is_rejected() {
    let mut almost = [1u8; 32];
    almost[31] = 2;
    for stranger in [signer(2), Pubkey::new_from_array(almost)] {
        let mut ctx = CreateAutomation {
            automation: blank_automation(),
            workspace: blank_workspace(signer(1)),
            workspace_key: signer(40),
            user: stranger,
        };
        assert_eq!(
            create_automation(&mut ctx, config_of(ActionType::Swap), 700),
            Err(CustomError::UnauthorizedAccess)
        );
        assert_eq!(ctx.workspace.active_automations, 0);
        assert!(!ctx.automation.is_active);
        assert_eq!(ctx.automation.owner, Pubkey::default());
        assert_eq!(ctx.automation.config.action_type, ActionType::Monitor);
        assert_eq!(ctx.automation.execution_count, 9);
    }
}

#[test]
fn execute_automation_counts_the_execution() {
    let mut automation = blank_automation();
    automation.is_active = true;
    let mut workspace = blank_workspace(signer(1));
    workspace.total_executions = 20;
    let mut ctx = ExecuteAutomation { automation, workspace, user: signer(1) };
    assert_eq!(execute_automation(&mut ctx, Parameters::new(), 900), Ok(()));
    assert_eq!(ctx.automation.last_execution, Some(900));
    assert_eq!(ctx.automation.execution_count, 10);
    assert_eq!(ctx.workspace.total_executions, 21);
    assert!(ctx.automation.is_active);
}

#[test]
fn execute_automation_rejects_an_inactive_automation() {
    let mut ctx = ExecuteAutomation {
        automation: blank_automation(),
        workspace: blank_workspace(signer(1)),
        user: signer(1),
    };
    assert_eq!(
        execute_automation(&mut ctx, Parameters::new(), 900),
        Err(CustomError::AutomationInactive)
    );
    assert_eq!(ctx.automation.last_execution, Some(1));
    assert_eq!(ctx.automation.execution_count, 9);
    assert_eq!(ctx.workspace.total_executions, 0);
}

#[test]
fn custom_error_messages() {
    assert_eq!(CustomError::UnauthorizedAccess.message(), "Unauthorized access to workspace");
    assert_eq!(CustomError::AutomationInactive.message(), "Automation is currently inactive");
}
