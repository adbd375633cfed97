//! Automation engine: workspaces own automations, each of which couples a
//! trigger, gating conditions and an ordered list of actions with bounded
//! retry, a lifecycle status and running execution statistics.
//!
//! The engine decides and keeps the books; what it cannot do itself it is
//! handed: the current time and facts as plain values, and the handlers that
//! perform actions, the predicate behind custom conditions, the wait between
//! attempts and the clock as functions.
//!
//! - `params`: string-keyed byte maps and the encoding of numbers in them.
//! - `condition`: evaluation of conditions against a snapshot of facts.
//! - `retry`: the retry policy of one action.
//! - `action`: execution of actions through a registry of handlers.
//! - `trigger`: when an automation is due, and how a schedule moves on.
//! - `automation`: the lifecycle of one automation and its cycle.
//! - `workspace`: the bounded collections of a workspace and its tick.
//! - `program`: what the program's entry points do to the stored records.
//! - `identity`: account identities, which come from `solana_program`.
//! - `error`: where an error was raised.

pub mod action;
pub mod automation;
pub mod condition;
pub mod error;
pub mod identity;
pub mod params;
pub mod program;
pub mod retry;
pub mod trigger;
pub mod workspace;
