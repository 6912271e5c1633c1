//! Loading and saving the inventory: what is done when, and what is said
//! when a step fails. Reading, writing and parsing are left to the caller.

use crate::config::schema::{ArchonConfig, ArchonConfigView, ConfigError, ConfigErrorView};
use crate::text::join2;
use vstd::prelude::*;
use vstd::string::*;

verus! {

/// The steps of loading and saving that can fail.
#[derive(Clone, Copy, Debug, PartialEq, Eq, Structural)]
pub enum StorageStep {
    Read,
    Parse,
    CreateDirectory,
    Serialize,
    Write,
}

impl StorageStep {
    /// What is said when the step fails on a path.
    pub open spec fn failure_text(self, path: Seq<char>) -> Seq<char> {
        match self {
            StorageStep::Read => "Failed to read config file: "@ + path,
            StorageStep::Parse => "Failed to parse config file: "@ + path,
            StorageStep::CreateDirectory => "Failed to create config directory: "@ + path,
            StorageStep::Serialize => "Failed to serialize config to TOML"@,
            StorageStep::Write => "Failed to write config file: "@ + path,
        }
    }
}

/// The failure of a step on a path.
pub fn storage_error(step: StorageStep, path: &str) -> (error: ConfigError)
    ensures
        error@ == ConfigErrorView::Storage(step.failure_text(path@)),
{
    ConfigError::Storage(
        match step {
            StorageStep::Read => join2("Failed to read config file: ", path),
            StorageStep::Parse => join2("Failed to parse config file: ", path),
            StorageStep::CreateDirectory => join2("Failed to create config directory: ", path),
            StorageStep::Serialize => String::from_str("Failed to serialize config to TOML"),
            StorageStep::Write => join2("Failed to write config file: ", path),
        },
    )
}

/// What loading begins with.
#[derive(Debug)]
pub enum LoadPlan {
    /// There is no file yet: this inventory is written and then used.
    CreateDefault(ArchonConfig),
    /// There is a file: it is read and parsed.
    ReadExisting,
}

/// Plans the loading of the inventory: where the file is absent, the
/// inventory of a new installation is created and written before first use.
pub fn load_config(file_exists: bool) -> (plan: LoadPlan)
    ensures
        file_exists ==> plan is ReadExisting,
        !file_exists ==> plan is CreateDefault && plan->CreateDefault_0@
            == ArchonConfigView::initial(),
{
    if file_exists {
        LoadPlan::ReadExisting
    } else {
        LoadPlan::CreateDefault(ArchonConfig::default())
    }
}

} // verus!
