//! Colours and text styles.

use vstd::prelude::*;

verus! {

/// The colours that the console uses; `Reset` is the terminal's own.
#[derive(Clone, Copy, Debug, PartialEq, Eq, Structural)]
pub enum Color {
    Reset,
    Red,
    Green,
    Yellow,
    Blue,
    Cyan,
    White,
}

/// How a piece of text is drawn: its colour, and whether it is bold.
#[derive(Clone, Copy, Debug, PartialEq, Eq, Structural)]
pub struct Style {
    pub fg: Color,
    pub bold: bool,
}

/// The colours of the console, by role.
#[derive(Clone, Copy, Debug, PartialEq, Eq, Structural)]
pub struct Theme {
    pub primary: Color,
    pub success: Color,
    pub warning: Color,
    pub error: Color,
    pub background: Color,
    pub text: Color,
    pub selected: Color,
}

/// The standard colours.
pub open spec fn standard() -> Theme {
    Theme {
        primary: Color::Blue,
        success: Color::Green,
        warning: Color::Yellow,
        error: Color::Red,
        background: Color::Reset,
        text: Color::White,
        selected: Color::Cyan,
    }
}

impl Default for Theme {
    fn default() -> (theme: Self)
        ensures
            theme == standard(),
    {
        Theme {
            primary: Color::Blue,
            success: Color::Green,
            warning: Color::Yellow,
            error: Color::Red,
            background: Color::Reset,
            text: Color::White,
            selected: Color::Cyan,
        }
    }
}

impl Theme {
    pub fn new() -> (theme: Self)
        ensures
            theme == standard(),
    {
        Theme::default()
    }

    pub fn primary_style(&self) -> (style: Style)
        ensures
            style == (Style { fg: self.primary, bold: false }),
    {
        Style { fg: self.primary, bold: false }
    }

    pub fn success_style(&self) -> (style: Style)
        ensures
            style == (Style { fg: self.success, bold: false }),
    {
        Style { fg: self.success, bold: false }
    }

    pub fn warning_style(&self) -> (style: Style)
        ensures
            style == (Style { fg: self.warning, bold: false }),
    {
        Style { fg: self.warning, bold: false }
    }

    pub fn error_style(&self) -> (style: Style)
        ensures
            style == (Style { fg: self.error, bold: false }),
    {
        Style { fg: self.error, bold: false }
    }

    /// The selected row is bold, in the colour of the selection.
    pub fn selected_style(&self) -> (style: Style)
        ensures
            style == (Style { fg: self.selected, bold: true }),
    {
        Style { fg: self.selected, bold: true }
    }

    /// Titles are bold, in the primary colour.
    pub fn title_style(&self) -> (style: Style)
        ensures
            style == (Style { fg: self.primary, bold: true }),
    {
        Style { fg: self.primary, bold: true }
    }
}

} // verus!
