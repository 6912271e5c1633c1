//! Archon: the inventory of an operator console for a small fleet of
//! deployment nodes, the sites deployed to them and the DNS domains that route
//! to those sites, together with the update function that serialises every
//! change to that inventory.

pub mod ids;
pub mod clock;
pub mod text;
pub mod models;
pub mod string_map;
pub mod state;
pub mod ui;
pub mod config;
pub mod events;
pub mod api;
pub mod dns;
pub mod tasks;
pub mod transition;
pub mod app;
pub mod laws;
