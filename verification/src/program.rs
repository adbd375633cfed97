//! The program's entry points: what creating a workspace, creating an
//! automation in it and recording an execution do to the stored records.
//! The caller hands in the records an entry point works on, the identity of
//! the signer and the current time.

use crate::identity::same_identity;
use crate::params::Parameters;
use solana_program::pubkey::Pubkey;
use vstd::prelude::*;

verus! {

/// The kinds of action an automation record can be configured with.
#[derive(Clone, Copy, Debug, PartialEq, Eq, Structural)]
pub enum ActionType {
    Swap,
    Monitor,
}

/// A condition as the automation record stores it.
#[derive(Clone)]
pub struct Condition {
    pub condition_type: String,
    pub parameters: Parameters,
}

/// The configuration of an automation record.
#[derive(Clone)]
pub struct AutomationConfig {
    pub action_type: ActionType,
    pub conditions: Vec<Condition>,
    pub parameters: Parameters,
}

/// The stored record of a workspace.
#[derive(Clone)]
pub struct Workspace {
    pub owner: Pubkey,
    pub name: String,
    pub description: Option<String>,
    pub created_at: i64,
    pub updated_at: i64,
    pub active_automations: u64,
    pub total_executions: u64,
}

/// The stored record of an automation.
#[derive(Clone)]
pub struct Automation {
    pub owner: Pubkey,
    pub workspace: Pubkey,
    pub config: AutomationConfig,
    pub is_active: bool,
    pub created_at: i64,
    pub last_execution: Option<i64>,
    pub execution_count: u64,
}

/// Why an entry point rejected a call.
#[derive(Clone, Copy, Debug, PartialEq, Eq, Structural)]
pub enum CustomError {
    UnauthorizedAccess,
    AutomationInactive,
}

impl CustomError {
    /// The message that goes with the error.
    pub fn message(&self) -> (text: String)
        ensures
            text@ == match *self {
                CustomError::UnauthorizedAccess => "Unauthorized access to workspace"@,
                CustomError::AutomationInactive => "Automation is currently inactive"@,
            },
    {
        match self {
            CustomError::UnauthorizedAccess => "Unauthorized access to workspace".to_string(),
            CustomError::AutomationInactive => "Automation is currently inactive".to_string(),
        }
    }
}

/// What `initialize_workspace` works on: the new workspace record and the
/// identity of the signer.
pub struct InitializeWorkspace {
    pub workspace: Workspace,
    pub user: Pubkey,
}

/// What `create_automation` works on: the new automation record, the
/// workspace it is created in with that workspace's identity, and the
/// identity of the signer.
pub struct CreateAutomation {
    pub automation: Automation,
    pub workspace: Workspace,
    pub workspace_key: Pubkey,
    pub user: Pubkey,
}

/// What `execute_automation` works on: the automation record, its workspace
/// and the identity of the signer.
pub struct ExecuteAutomation {
    pub automation: Automation,
    pub workspace: Workspace,
    pub user: Pubkey,
}

/// Makes the record a workspace owned by the signer and created at `now`,
/// with no automation and no execution counted. Never rejected.
pub fn initialize_workspace(
    ctx: &mut InitializeWorkspace,
    name: String,
    description: Option<String>,
    now: i64,
) -> (result: Result<(), CustomError>)
    ensures
        result is Ok,
        final(ctx).user == old(ctx).user,
        final(ctx).workspace == (Workspace {
            owner: old(ctx).user,
            name,
            description,
            created_at: now,
            updated_at: now,
            active_automations: 0,
            total_executions: 0,
        }),
{
    ctx.workspace.owner = ctx.user;
    ctx.workspace.name = name;
    ctx.workspace.description = description;
    ctx.workspace.created_at = now;
    ctx.workspace.updated_at = now;
    ctx.workspace.active_automations = 0;
    ctx.workspace.total_executions = 0;
    Ok(())
}

/// Makes the record an active automation of the workspace, owned by the
/// signer, created at `now` and never executed, and counts it among the
/// workspace's active automations. A signer who does not own the workspace
/// is rejected, and nothing changes.
pub fn create_automation(ctx: &mut CreateAutomation, config: AutomationConfig, now: i64) -> (result:
    Result<(), CustomError>)
    requires
        old(ctx).workspace.owner == old(ctx).user ==> old(ctx).workspace.active_automations
            < u64::MAX,
    ensures
        old(ctx).workspace.owner != old(ctx).user ==> result == Err::<(), CustomError>(
            CustomError::UnauthorizedAccess,
        ) && *final(ctx) == *old(ctx),
        old(ctx).workspace.owner == old(ctx).user ==> result is Ok && *final(ctx) == (
        CreateAutomation {
            automation: Automation {
                owner: old(ctx).user,
                workspace: old(ctx).workspace_key,
                config,
                is_active: true,
                created_at: now,
                last_execution: None,
                execution_count: 0,
            },
            workspace: Workspace {
                active_automations: (old(ctx).workspace.active_automations + 1) as u64,
                ..old(ctx).workspace
            },
            workspace_key: old(ctx).workspace_key,
            user: old(ctx).user,
        }),
{
    if !same_identity(&ctx.workspace.owner, &ctx.user) {
        return Err(CustomError::UnauthorizedAccess);
    }
    ctx.automation.owner = ctx.user;
    ctx.automation.workspace = ctx.workspace_key;
    ctx.automation.config = config;
    ctx.automation.is_active = true;
    ctx.automation.created_at = now;
    ctx.automation.last_execution = None;
    ctx.automation.execution_count = 0;
    ctx.workspace.active_automations = ctx.workspace.active_automations + 1;
    Ok(())
}

/// Records one execution at `now` on the automation and on its workspace.
/// An automation that is not active is rejected, and nothing changes. The
/// parameters of the call are accepted and not read.
pub fn execute_automation(ctx: &mut ExecuteAutomation, _params: Parameters, now: i64) -> (result:
    Result<(), CustomError>)
    requires
        old(ctx).automation.is_active ==> old(ctx).automation.execution_count < u64::MAX && old(
            ctx,
        ).workspace.total_executions < u64::MAX,
    ensures
        !old(ctx).automation.is_active ==> result == Err::<(), CustomError>(
            CustomError::AutomationInactive,
        ) && *final(ctx) == *old(ctx),
        old(ctx).automation.is_active ==> result is Ok && *final(ctx) == (ExecuteAutomation {
            automation: Automation {
                last_execution: Some(now),
                execution_count: (old(ctx).automation.execution_count + 1) as u64,
                ..old(ctx).automation
            },
            workspace: Workspace {
                total_executions: (old(ctx).workspace.total_executions + 1) as u64,
                ..old(ctx).workspace
            },
            user: old(ctx).user,
        }),
{
    if !ctx.automation.is_active {
        return Err(CustomError::AutomationInactive);
    }
    ctx.automation.last_execution = Some(now);
    ctx.automation.execution_count = ctx.automation.execution_count + 1;
    ctx.workspace.total_executions = ctx.workspace.total_executions + 1;
    Ok(())
}

} // verus!
