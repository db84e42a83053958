//! Errors, workflows and the dispatcher rules.

pub mod conversions;
pub mod errors;
pub mod py_module;
pub mod querent;
pub mod workflow;

pub use errors::{CallFailure, ErrorKind, QuerentError, QuerentErrorCauseType};
pub use workflow::workflow::{Workflow, WorkflowManager};
pub use workflow::workflow_builder::WorkflowBuilder;
