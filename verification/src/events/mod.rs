//! The vocabulary of intents, and how raw input is turned into it.

pub mod actions;
pub mod handler;

pub use actions::Action;
pub use handler::handle_event;
