//! The screens of the nodes.

pub mod list;
