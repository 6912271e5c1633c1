//! The screens of the console.

use crate::ids::{hyphenated_text, id_text, EntityId};
use crate::text::join3;
use vstd::prelude::*;
use vstd::string::*;

verus! {

/// A screen, with the entity it shows where it shows one.
#[derive(Clone, Copy, Debug, PartialEq, Eq, Structural)]
pub enum Screen {
    Dashboard,
    SitesList,
    SiteCreate,
    SiteEdit(EntityId),
    SiteDetail(EntityId),
    DomainsList,
    DomainCreate,
    DomainDnsEditor(EntityId),
    NodesList,
    NodeCreate,
    NodeEdit(EntityId),
    NodeDetail(EntityId),
    Help,
}

impl Default for Screen {
    /// The console opens on the dashboard.
    fn default() -> (screen: Self)
        ensures
            screen == Screen::Dashboard,
    {
        Screen::Dashboard
    }
}

impl Screen {
    /// The screen's name, followed in brackets by the identifier of the
    /// entity it shows where it shows one.
    pub open spec fn debug_text(self) -> Seq<char> {
        match self {
            Screen::Dashboard => "Dashboard"@,
            Screen::SitesList => "SitesList"@,
            Screen::SiteCreate => "SiteCreate"@,
            Screen::SiteEdit(id) => "SiteEdit("@ + hyphenated_text(id) + ")"@,
            Screen::SiteDetail(id) => "SiteDetail("@ + hyphenated_text(id) + ")"@,
            Screen::DomainsList => "DomainsList"@,
            Screen::DomainCreate => "DomainCreate"@,
            Screen::DomainDnsEditor(id) => "DomainDnsEditor("@ + hyphenated_text(id) + ")"@,
            Screen::NodesList => "NodesList"@,
            Screen::NodeCreate => "NodeCreate"@,
            Screen::NodeEdit(id) => "NodeEdit("@ + hyphenated_text(id) + ")"@,
            Screen::NodeDetail(id) => "NodeDetail("@ + hyphenated_text(id) + ")"@,
            Screen::Help => "Help"@,
        }
    }

    /// The screen's name, with the identifier of the entity it shows.
    pub fn debug(&self) -> (text: String)
        ensures
            text@ == self.debug_text(),
    {
        match self {
            Screen::Dashboard => String::from_str("Dashboard"),
            Screen::SitesList => String::from_str("SitesList"),
            Screen::SiteCreate => String::from_str("SiteCreate"),
            Screen::SiteEdit(id) => join3("SiteEdit(", id_text(*id).as_str(), ")"),
            Screen::SiteDetail(id) => join3("SiteDetail(", id_text(*id).as_str(), ")"),
            Screen::DomainsList => String::from_str("DomainsList"),
            Screen::DomainCreate => String::from_str("DomainCreate"),
            Screen::DomainDnsEditor(id) => join3("DomainDnsEditor(", id_text(*id).as_str(), ")"),
            Screen::NodesList => String::from_str("NodesList"),
            Screen::NodeCreate => String::from_str("NodeCreate"),
            Screen::NodeEdit(id) => join3("NodeEdit(", id_text(*id).as_str(), ")"),
            Screen::NodeDetail(id) => join3("NodeDetail(", id_text(*id).as_str(), ")"),
            Screen::Help => String::from_str("Help"),
        }
    }
}

} // verus!
