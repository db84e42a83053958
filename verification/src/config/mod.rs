//! The configuration that is handed to every call into the embedded runtime.

pub mod config;
pub mod config_builder;

pub use config::{
    CollectorConfig, Config, ConfigTrait, EngineConfig, ResourceConfig, WorkflowConfig,
};
pub use config_builder::ConfigBuilder;
