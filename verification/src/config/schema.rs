//! The shape of the persisted inventory.

use crate::ids::{hyphenated_text, id_text, EntityId};
use crate::models::domain::{Domain, DomainView};
use crate::models::node::{Node, NodeView};
use crate::models::site::{Site, SiteView};
use crate::text::join2;
use vstd::prelude::*;
use vstd::string::*;

verus! {

/// The version that this library writes into the inventory it persists.
pub open spec fn package_version_text() -> Seq<char> {
    "0.1.0"@
}

/// The version that this library writes into the inventory it persists.
pub fn package_version() -> (version: String)
    ensures
        version@ == package_version_text(),
{
    String::from_str("0.1.0")
}

/// The operator's settings.
#[derive(Debug, PartialEq, Eq)]
pub struct Settings {
    pub auto_save: bool,
    pub health_check_interval_seconds: u64,
    pub default_dns_ttl: u32,
    pub theme: String,
}

/// The mathematical value of `Settings`.
pub ghost struct SettingsView {
    pub auto_save: bool,
    pub health_check_interval_seconds: u64,
    pub default_dns_ttl: u32,
    pub theme: Seq<char>,
}

impl SettingsView {
    /// The settings of a new installation: changes are saved as they are
    /// made, nodes are checked and records live for five minutes.
    pub open spec fn initial() -> SettingsView {
        SettingsView {
            auto_save: true,
            health_check_interval_seconds: 300,
            default_dns_ttl: 300,
            theme: "default"@,
        }
    }
}

impl View for Settings {
    type V = SettingsView;

    open spec fn view(&self) -> SettingsView {
        SettingsView {
            auto_save: self.auto_save,
            health_check_interval_seconds: self.health_check_interval_seconds,
            default_dns_ttl: self.default_dns_ttl,
            theme: self.theme@,
        }
    }
}

impl DeepView for Settings {
    type V = SettingsView;

    open spec fn deep_view(&self) -> SettingsView {
        self@
    }
}

impl Clone for Settings {
    fn clone(&self) -> (copy: Self)
        ensures
            copy@ == self@,
    {
        Settings {
            auto_save: self.auto_save,
            health_check_interval_seconds: self.health_check_interval_seconds,
            default_dns_ttl: self.default_dns_ttl,
            theme: self.theme.clone(),
        }
    }
}

impl Default for Settings {
    fn default() -> (settings: Self)
        ensures
            settings@ == SettingsView::initial(),
    {
        Settings {
            auto_save: true,
            health_check_interval_seconds: 300,
            default_dns_ttl: 300,
            theme: String::from_str("default"),
        }
    }
}

/// The persisted inventory.
#[derive(Debug)]
pub struct ArchonConfig {
    pub version: String,
    pub sites: Vec<Site>,
    pub domains: Vec<Domain>,
    pub nodes: Vec<Node>,
    pub settings: Settings,
}

/// The mathematical value of an `ArchonConfig`.
pub ghost struct ArchonConfigView {
    pub version: Seq<char>,
    pub sites: Seq<SiteView>,
    pub domains: Seq<DomainView>,
    pub nodes: Seq<NodeView>,
    pub settings: SettingsView,
}

impl ArchonConfigView {
    /// The inventory of a new installation: nothing in it, initial settings.
    pub open spec fn initial() -> ArchonConfigView {
        ArchonConfigView {
            version: package_version_text(),
            sites: Seq::empty(),
            domains: Seq::empty(),
            nodes: Seq::empty(),
            settings: SettingsView::initial(),
        }
    }
}

impl View for ArchonConfig {
    type V = ArchonConfigView;

    open spec fn view(&self) -> ArchonConfigView {
        ArchonConfigView {
            version: self.version@,
            sites: self.sites.deep_view(),
            domains: self.domains.deep_view(),
            nodes: self.nodes.deep_view(),
            settings: self.settings@,
        }
    }
}

impl DeepView for ArchonConfig {
    type V = ArchonConfigView;

    open spec fn deep_view(&self) -> ArchonConfigView {
        self@
    }
}

impl Default for ArchonConfig {
    fn default() -> (config: Self)
        ensures
            config@ == ArchonConfigView::initial(),
    {
        let config = ArchonConfig {
            version: package_version(),
            sites: Vec::new(),
            domains: Vec::new(),
            nodes: Vec::new(),
            settings: Settings::default(),
        };
        assert(config.sites.deep_view() =~= Seq::empty());
        assert(config.domains.deep_view() =~= Seq::empty());
        assert(config.nodes.deep_view() =~= Seq::empty());
        config
    }
}

impl ArchonConfig {
    /// The inventory of a new installation.
    pub fn new() -> (config: Self)
        ensures
            config@ == ArchonConfigView::initial(),
    {
        ArchonConfig::default()
    }
}

/// Why a persisted inventory could not be used or written.
#[derive(Debug, PartialEq, Eq)]
pub enum ConfigError {
    /// Storage could not be read, written or parsed; the text says why.
    Storage(String),
    /// Two sites of the inventory share this identifier.
    DuplicateSite(EntityId),
    /// Two domains of the inventory share this identifier.
    DuplicateDomain(EntityId),
    /// Two nodes of the inventory share this identifier.
    DuplicateNode(EntityId),
}

/// The mathematical value of a `ConfigError`.
pub ghost enum ConfigErrorView {
    Storage(Seq<char>),
    DuplicateSite(EntityId),
    DuplicateDomain(EntityId),
    DuplicateNode(EntityId),
}

impl ConfigErrorView {
    /// The error as a sentence.
    pub open spec fn message(self) -> Seq<char> {
        match self {
            ConfigErrorView::Storage(reason) => "Configuration error: "@ + reason,
            ConfigErrorView::DuplicateSite(id) => "Configuration error: duplicate site id "@
                + hyphenated_text(id),
            ConfigErrorView::DuplicateDomain(id) => "Configuration error: duplicate domain id "@
                + hyphenated_text(id),
            ConfigErrorView::DuplicateNode(id) => "Configuration error: duplicate node id "@
                + hyphenated_text(id),
        }
    }
}

impl View for ConfigError {
    type V = ConfigErrorView;

    open spec fn view(&self) -> ConfigErrorView {
        match self {
            ConfigError::Storage(reason) => ConfigErrorView::Storage(reason@),
            ConfigError::DuplicateSite(id) => ConfigErrorView::DuplicateSite(*id),
            ConfigError::DuplicateDomain(id) => ConfigErrorView::DuplicateDomain(*id),
            ConfigError::DuplicateNode(id) => ConfigErrorView::DuplicateNode(*id),
        }
    }
}

impl ConfigError {
    /// The error as a sentence.
    pub fn to_string(&self) -> (text: String)
        ensures
            text@ == self@.message(),
    {
        match self {
            ConfigError::Storage(reason) => join2("Configuration error: ", reason.as_str()),
            ConfigError::DuplicateSite(id) => join2(
                "Configuration error: duplicate site id ",
                id_text(*id).as_str(),
            ),
            ConfigError::DuplicateDomain(id) => join2(
                "Configuration error: duplicate domain id ",
                id_text(*id).as_str(),
            ),
            ConfigError::DuplicateNode(id) => join2(
                "Configuration error: duplicate node id ",
                id_text(*id).as_str(),
            ),
        }
    }
}

} // verus!
