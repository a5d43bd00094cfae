//! Execution core for a maintenance orchestrator: a run mode that gates every
//! side effect, a command builder, an executor that either previews or
//! classifies process outcomes, a requirement resolver over an environment
//! snapshot, an execution context shared by all steps, and the step functions
//! themselves, each a pure planner from the snapshot to a command plan.

pub mod command;
pub mod context;
pub mod environment;
pub mod executor;
pub mod inifile;
pub mod mode;
pub mod outcome;
pub mod steps;
pub mod strutil;
