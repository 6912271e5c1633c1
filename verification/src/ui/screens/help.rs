//! The help screen.

use crate::ui::theme::{Color, Style, Theme};
use vstd::prelude::*;
use vstd::string::*;

verus! {

/// The title of the help screen.
pub open spec fn title_text() -> Seq<char> {
    "Help - Keybindings"@
}

/// The lines of the help screen: the key bindings, by topic.
pub open spec fn help_text() -> Seq<Seq<char>> {
    seq![
        "ARCHON - Web Server Manager"@,
        ""@,
        "Global Keybindings:"@,
        "  q / Ctrl+C    - Quit application"@,
        "  ?             - Show this help screen"@,
        "  Esc           - Go back to previous screen"@,
        ""@,
        "Navigation:"@,
        "  1 / d         - Dashboard"@,
        "  2 / s         - Sites list"@,
        "  3             - Domains list"@,
        "  4 / n         - Nodes list"@,
        ""@,
        "List Navigation:"@,
        "  \u{2191} / k         - Move up"@,
        "  \u{2193} / j         - Move down"@,
        "  c             - Create new item"@,
        "  e             - Edit selected item"@,
        "  d             - Delete selected item"@,
        "  Enter         - View details"@,
        ""@,
        "Form Editing:"@,
        "  Tab           - Next field"@,
        "  Shift+Tab     - Previous field"@,
        "  Enter         - Submit form"@,
        "  Esc           - Cancel"@,
        ""@,
        "Site Management:"@,
        "  r             - Redeploy site"@,
        "  s             - Stop site"@,
        "  l             - Refresh logs"@,
        ""@,
        "Node Management:"@,
        "  h             - Run health check"@,
        "  r             - Refresh stats"@,
        ""@,
        "DNS Management:"@,
        "  a             - Add DNS record"@,
        "  s             - Sync with provider (if not manual)"@,
        ""@,
        "Press Esc to return to previous screen"@,
    ]
}

/// The help screen: its title, the style of the title, and its lines.
#[derive(Debug)]
pub struct HelpScreen {
    pub title: String,
    pub style: Style,
    pub lines: Vec<String>,
}

/// The lines of the help screen.
pub fn help_lines() -> (lines: Vec<String>)
    ensures
        lines.deep_view() == help_text(),
{
    let mut lines: Vec<String> = Vec::new();
    lines.push(String::from_str("ARCHON - Web Server Manager"));
    lines.push(String::from_str(""));
    lines.push(String::from_str("Global Keybindings:"));
    lines.push(String::from_str("  q / Ctrl+C    - Quit application"));
    lines.push(String::from_str("  ?             - Show this help screen"));
    lines.push(String::from_str("  Esc           - Go back to previous screen"));
    lines.push(String::from_str(""));
    lines.push(String::from_str("Navigation:"));
    lines.push(String::from_str("  1 / d         - Dashboard"));
    lines.push(String::from_str("  2 / s         - Sites list"));
    lines.push(String::from_str("  3             - Domains list"));
    lines.push(String::from_str("  4 / n         - Nodes list"));
    lines.push(String::from_str(""));
    lines.push(String::from_str("List Navigation:"));
    lines.push(String::from_str("  \u{2191} / k         - Move up"));
    lines.push(String::from_str("  \u{2193} / j         - Move down"));
    lines.push(String::from_str("  c             - Create new item"));
    lines.push(String::from_str("  e             - Edit selected item"));
    lines.push(String::from_str("  d             - Delete selected item"));
    lines.push(String::from_str("  Enter         - View details"));
    lines.push(String::from_str(""));
    lines.push(String::from_str("Form Editing:"));
    lines.push(String::from_str("  Tab           - Next field"));
    lines.push(String::from_str("  Shift+Tab     - Previous field"));
    lines.push(String::from_str("  Enter         - Submit form"));
    lines.push(String::from_str("  Esc           - Cancel"));
    lines.push(String::from_str(""));
    lines.push(String::from_str("Site Management:"));
    lines.push(String::from_str("  r             - Redeploy site"));
    lines.push(String::from_str("  s             - Stop site"));
    lines.push(String::from_str("  l             - Refresh logs"));
    lines.push(String::from_str(""));
    lines.push(String::from_str("Node Management:"));
    lines.push(String::from_str("  h             - Run health check"));
    lines.push(String::from_str("  r             - Refresh stats"));
    lines.push(String::from_str(""));
    lines.push(String::from_str("DNS Management:"));
    lines.push(String::from_str("  a             - Add DNS record"));
    lines.push(String::from_str("  s             - Sync with provider (if not manual)"));
    lines.push(String::from_str(""));
    lines.push(String::from_str("Press Esc to return to previous screen"));
    assert(lines.deep_view() =~= help_text());
    lines
}

/// What the help screen shows.
pub fn render() -> (screen: HelpScreen)
    ensures
        screen.title@ == title_text(),
        screen.style == (Style { fg: Color::Blue, bold: true }),
        screen.lines.deep_view() == help_text(),
{
    let theme = Theme::new();
    HelpScreen {
        title: String::from_str("Help - Keybindings"),
        style: theme.title_style(),
        lines: help_lines(),
    }
}

} // verus!
