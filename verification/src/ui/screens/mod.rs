//! The content of each screen.

pub mod dashboard;
pub mod domains;
pub mod help;
pub mod nodes;
pub mod sites;
