//! What is drawn for a state: a header, a menu, the content of the current
//! screen and a status bar. Nothing here changes the state or draws; the
//! result is a value for the terminal layer to put on screen.

use crate::state::app_state::AppState;
use crate::state::model::AppStateView;
use crate::text::{decimal, decimal_text, join3};
use crate::ui::router::Screen;
use crate::ui::screens::dashboard::{
    domains_summary, nodes_summary, sites_summary, Dashboard, PanelView,
};
use crate::ui::screens::help::{help_text, HelpScreen};
use crate::ui::theme::{Color, Style, Theme};
use vstd::prelude::*;
use vstd::string::*;

verus! {

/// The header line.
pub open spec fn header_text() -> Seq<char> {
    "ARCHON - Web Server Manager                      [?] Help  [q] Quit"@
}

/// The menu line.
pub open spec fn menu_text() -> Seq<char> {
    " [1] Dashboard  [2] Sites  [3] Domains  [4] Nodes"@
}

/// The title of the box that stands for a screen without content of its own.
pub open spec fn placeholder_title() -> Seq<char> {
    "Coming Soon"@
}

/// The text that stands for a screen without content of its own.
pub open spec fn placeholder_text(screen: Screen) -> Seq<char> {
    "Screen: "@ + screen.debug_text()
        + "\n\nThis screen is not yet implemented.\n\nPress Esc to go back or 1-4 to navigate."@
}

/// The status bar: the oldest notification that was not dismissed, or, where
/// there is none, the counts of pending operations, sites, domains and nodes.
pub open spec fn status_text(s: AppStateView) -> Seq<char> {
    if s.notifications.len() > 0 {
        s.notifications[0].message
    } else {
        "Ready | Pending ops: "@ + decimal_text(s.pending_operations.len()) + " | Sites: "@
            + decimal_text(s.sites.len()) + " | Domains: "@ + decimal_text(s.domains.len())
            + " | Nodes: "@ + decimal_text(s.nodes.len())
    }
}

/// The content of the main area.
#[derive(Debug)]
pub enum MainContent {
    Dashboard(Dashboard),
    Help(HelpScreen),
    /// A bordered box with a title and a text.
    Placeholder { title: String, text: String },
}

/// Whether a content is what the main area shows for a state: the dashboard
/// and the help on their screens, and a placeholder on every other.
pub open spec fn is_main_content(content: MainContent, s: AppStateView) -> bool {
    match s.current_screen {
        Screen::Dashboard => {
            &&& content is Dashboard
            &&& content->Dashboard_0.sites@ == (PanelView {
                title: "Sites"@,
                lines: sites_summary(s.sites),
            })
            &&& content->Dashboard_0.nodes@ == (PanelView {
                title: "Nodes"@,
                lines: nodes_summary(s.nodes),
            })
            &&& content->Dashboard_0.domains@ == (PanelView {
                title: "Domains"@,
                lines: domains_summary(s.domains),
            })
        },
        Screen::Help => {
            &&& content is Help
            &&& content->Help_0.title@ == crate::ui::screens::help::title_text()
            &&& content->Help_0.style == (Style { fg: Color::Blue, bold: true })
            &&& content->Help_0.lines.deep_view() == help_text()
        },
        screen => {
            &&& content is Placeholder
            &&& content->Placeholder_title@ == placeholder_title()
            &&& content->Placeholder_text@ == placeholder_text(screen)
        },
    }
}

/// Everything that is drawn for a state, from top to bottom.
#[derive(Debug)]
pub struct Frame {
    pub header: String,
    pub header_style: Style,
    pub menu: String,
    pub content: MainContent,
    pub status: String,
}

/// The text of the status bar.
pub fn render_status(state: &AppState) -> (text: String)
    ensures
        text@ == status_text(state@),
{
    let notifications = state.notifications();
    if notifications.len() > 0 {
        notifications[0].message.clone()
    } else {
        let operations = decimal(state.pending_operations().len() as u64);
        let sites = decimal(state.sites().len() as u64);
        let domains = decimal(state.domains().len() as u64);
        let nodes = decimal(state.nodes().len() as u64);
        join3("Ready | Pending ops: ", operations.as_str(), " | Sites: ").concat(
            sites.as_str(),
        ).concat(" | Domains: ").concat(domains.as_str()).concat(" | Nodes: ").concat(
            nodes.as_str(),
        )
    }
}

/// The content of the main area for the current screen.
pub fn render_main_content(state: &AppState) -> (content: MainContent)
    ensures
        is_main_content(content, state@),
{
    match state.current_screen() {
        Screen::Dashboard => MainContent::Dashboard(crate::ui::screens::dashboard::render(state)),
        Screen::Help => MainContent::Help(crate::ui::screens::help::render()),
        screen => {
            let name = screen.debug();
            MainContent::Placeholder {
                title: String::from_str("Coming Soon"),
                text: join3(
                    "Screen: ",
                    name.as_str(),
                    "\n\nThis screen is not yet implemented.\n\nPress Esc to go back or 1-4 to navigate.",
                ),
            }
        },
    }
}

/// Everything that is drawn for a state.
pub fn render(state: &AppState) -> (frame: Frame)
    ensures
        frame.header@ == header_text(),
        frame.header_style == (Style { fg: Color::Blue, bold: true }),
        frame.menu@ == menu_text(),
        is_main_content(frame.content, state@),
        frame.status@ == status_text(state@),
{
    let theme = Theme::new();
    Frame {
        header: String::from_str(
            "ARCHON - Web Server Manager                      [?] Help  [q] Quit",
        ),
        header_style: theme.title_style(),
        menu: String::from_str(" [1] Dashboard  [2] Sites  [3] Domains  [4] Nodes"),
        content: render_main_content(state),
        status: render_status(state),
    }
}

} // verus!
