//! The persisted inventory: what is written to and read from storage.

pub mod loader;
pub mod schema;

pub use loader::load_config;
pub use schema::{ArchonConfig, ConfigError, Settings};
