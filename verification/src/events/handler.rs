//! From raw input to actions.

use crate::events::actions::{Action, ActionView};
use crate::ui::router::Screen;
use vstd::prelude::*;

verus! {

/// The keys that the console tells apart.
#[derive(Clone, Copy, Debug, PartialEq, Eq, Structural)]
pub enum KeyCode {
    Char(char),
    Esc,
    Up,
    Down,
    /// Any other key.
    Other,
}

/// The modifier keys held with a key.
#[derive(Clone, Copy, Debug, PartialEq, Eq, Structural)]
pub struct KeyModifiers {
    pub shift: bool,
    pub control: bool,
    pub alt: bool,
    pub super_key: bool,
    pub hyper: bool,
    pub meta: bool,
}

impl KeyModifiers {
    /// Whether no modifier is held.
    pub open spec fn is_none(self) -> bool {
        !self.shift && !self.control && !self.alt && !self.super_key && !self.hyper && !self.meta
    }

    /// Whether the control key is held and no other modifier.
    pub open spec fn is_control(self) -> bool {
        !self.shift && self.control && !self.alt && !self.super_key && !self.hyper && !self.meta
    }

    /// No modifier.
    pub fn none() -> (modifiers: Self)
        ensures
            modifiers.is_none(),
    {
        KeyModifiers {
            shift: false,
            control: false,
            alt: false,
            super_key: false,
            hyper: false,
            meta: false,
        }
    }

    /// The control key alone.
    pub fn control() -> (modifiers: Self)
        ensures
            modifiers.is_control(),
    {
        KeyModifiers {
            shift: false,
            control: true,
            alt: false,
            super_key: false,
            hyper: false,
            meta: false,
        }
    }

    fn holds_none(&self) -> (none: bool)
        ensures
            none == self.is_none(),
    {
        !self.shift && !self.control && !self.alt && !self.super_key && !self.hyper && !self.meta
    }

    fn holds_control_only(&self) -> (control: bool)
        ensures
            control == self.is_control(),
    {
        !self.shift && self.control && !self.alt && !self.super_key && !self.hyper && !self.meta
    }
}

/// What happened to a key.
#[derive(Clone, Copy, Debug, PartialEq, Eq, Structural)]
pub enum KeyEventKind {
    Press,
    Repeat,
    Release,
}

/// A key event.
#[derive(Clone, Copy, Debug, PartialEq, Eq, Structural)]
pub struct KeyEvent {
    pub code: KeyCode,
    pub modifiers: KeyModifiers,
    pub kind: KeyEventKind,
}

/// A raw input event.
#[derive(Clone, Copy, Debug, PartialEq, Eq, Structural)]
pub enum Event {
    Key(KeyEvent),
    /// Anything but a key: the mouse, a paste, a resize, the focus.
    Other,
}

/// What a key means on every screen, if it means the same on all: control-C
/// and a plain `q` quit, a plain `?` opens the help, and escape goes back.
pub open spec fn global_binding(key: KeyEvent) -> Option<ActionView> {
    if key.code == KeyCode::Char('c') && key.modifiers.is_control() {
        Some(ActionView::Quit)
    } else if key.code == KeyCode::Char('q') && key.modifiers.is_none() {
        Some(ActionView::Quit)
    } else if key.code == KeyCode::Char('?') && key.modifiers.is_none() {
        Some(ActionView::NavigateTo(Screen::Help))
    } else if key.code == KeyCode::Esc {
        Some(ActionView::NavigateBack)
    } else {
        None
    }
}

/// What a key means on the dashboard.
pub open spec fn dashboard_binding(code: KeyCode) -> ActionView {
    if code == KeyCode::Char('1') || code == KeyCode::Char('d') {
        ActionView::NavigateTo(Screen::Dashboard)
    } else if code == KeyCode::Char('2') || code == KeyCode::Char('s') {
        ActionView::NavigateTo(Screen::SitesList)
    } else if code == KeyCode::Char('3') {
        ActionView::NavigateTo(Screen::DomainsList)
    } else if code == KeyCode::Char('4') || code == KeyCode::Char('n') {
        ActionView::NavigateTo(Screen::NodesList)
    } else if code == KeyCode::Char('r') {
        ActionView::LoadConfig
    } else {
        ActionView::Noop
    }
}

/// What a key means on a list: up and `k` move the cursor back, down and `j`
/// move it forward, and `c` opens the form that creates an item.
pub open spec fn list_binding(code: KeyCode, create: Screen) -> ActionView {
    if code == KeyCode::Up || code == KeyCode::Char('k') {
        ActionView::SelectPrevious
    } else if code == KeyCode::Down || code == KeyCode::Char('j') {
        ActionView::SelectNext
    } else if code == KeyCode::Char('c') {
        ActionView::NavigateTo(create)
    } else {
        ActionView::Noop
    }
}

/// What a key means on a screen: its global meaning if it has one, else its
/// meaning on that screen.
pub open spec fn key_binding(key: KeyEvent, screen: Screen) -> ActionView {
    match global_binding(key) {
        Some(action) => action,
        None => match screen {
            Screen::Dashboard => dashboard_binding(key.code),
            Screen::SitesList => list_binding(key.code, Screen::SiteCreate),
            Screen::DomainsList => list_binding(key.code, Screen::DomainCreate),
            Screen::NodesList => list_binding(key.code, Screen::NodeCreate),
            _ => ActionView::Noop,
        },
    }
}

/// What an input event means on a screen: a key that is pressed means what it
/// is bound to, and everything else means nothing.
pub open spec fn event_binding(event: Event, screen: Screen) -> ActionView {
    match event {
        Event::Key(key) => if key.kind == KeyEventKind::Press {
            key_binding(key, screen)
        } else {
            ActionView::Noop
        },
        Event::Other => ActionView::Noop,
    }
}

fn is_char(code: KeyCode, c: char) -> (same: bool)
    ensures
        same == (code == KeyCode::Char(c)),
{
    match code {
        KeyCode::Char(d) => d == c,
        _ => false,
    }
}

/// Turns an input event into an action.
pub fn handle_event(event: Event, current_screen: &Screen) -> (action: Action)
    ensures
        action@ == event_binding(event, *current_screen),
{
    match event {
        Event::Key(key) => match key.kind {
            KeyEventKind::Press => handle_key_event(key, current_screen),
            _ => Action::Noop,
        },
        Event::Other => Action::Noop,
    }
}

/// Turns a pressed key into an action.
pub fn handle_key_event(key: KeyEvent, current_screen: &Screen) -> (action: Action)
    ensures
        action@ == key_binding(key, *current_screen),
{
    if is_char(key.code, 'c') && key.modifiers.holds_control_only() {
        return Action::Quit;
    }
    if is_char(key.code, 'q') && key.modifiers.holds_none() {
        return Action::Quit;
    }
    if is_char(key.code, '?') && key.modifiers.holds_none() {
        return Action::NavigateTo(Screen::Help);
    }
    match key.code {
        KeyCode::Esc => { return Action::NavigateBack; },
        _ => {},
    }
    match current_screen {
        Screen::Dashboard => handle_dashboard_keys(key),
        Screen::SitesList => handle_sites_list_keys(key),
        Screen::DomainsList => handle_domains_list_keys(key),
        Screen::NodesList => handle_nodes_list_keys(key),
        _ => Action::Noop,
    }
}

/// The keys of the dashboard.
pub fn handle_dashboard_keys(key: KeyEvent) -> (action: Action)
    ensures
        action@ == dashboard_binding(key.code),
{
    let code = key.code;
    if is_char(code, '1') || is_char(code, 'd') {
        Action::NavigateTo(Screen::Dashboard)
    } else if is_char(code, '2') || is_char(code, 's') {
        Action::NavigateTo(Screen::SitesList)
    } else if is_char(code, '3') {
        Action::NavigateTo(Screen::DomainsList)
    } else if is_char(code, '4') || is_char(code, 'n') {
        Action::NavigateTo(Screen::NodesList)
    } else if is_char(code, 'r') {
        Action::LoadConfig
    } else {
        Action::Noop
    }
}

fn handle_list_keys(key: KeyEvent, create: Screen) -> (action: Action)
    ensures
        action@ == list_binding(key.code, create),
{
    let code = key.code;
    let up = match code {
        KeyCode::Up => true,
        _ => false,
    };
    let down = match code {
        KeyCode::Down => true,
        _ => false,
    };
    if up || is_char(code, 'k') {
        Action::SelectPrevious
    } else if down || is_char(code, 'j') {
        Action::SelectNext
    } else if is_char(code, 'c') {
        Action::NavigateTo(create)
    } else {
        Action::Noop
    }
}

/// The keys of the list of sites.
pub fn handle_sites_list_keys(key: KeyEvent) -> (action: Action)
    ensures
        action@ == list_binding(key.code, Screen::SiteCreate),
{
    handle_list_keys(key, Screen::SiteCreate)
}

/// The keys of the list of domains.
pub fn handle_domains_list_keys(key: KeyEvent) -> (action: Action)
    ensures
        action@ == list_binding(key.code, Screen::DomainCreate),
{
    handle_list_keys(key, Screen::DomainCreate)
}

/// The keys of the list of nodes.
pub fn handle_nodes_list_keys(key: KeyEvent) -> (action: Action)
    ensures
        action@ == list_binding(key.code, Screen::NodeCreate),
{
    handle_list_keys(key, Screen::NodeCreate)
}

} // verus!
