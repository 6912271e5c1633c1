//! What the terminal shows: the screens and the text drawn on them.

pub mod render;
pub mod router;
pub mod screens;
pub mod theme;

pub use render::render;
pub use router::Screen;
pub use theme::Theme;
