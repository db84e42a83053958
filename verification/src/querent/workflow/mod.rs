//! Workflows, their registry and the rules of the dispatcher.

pub mod py_runtime;
pub mod workflow;
pub mod workflow_builder;

pub use workflow::{Workflow, WorkflowManager};
pub use workflow_builder::WorkflowBuilder;
