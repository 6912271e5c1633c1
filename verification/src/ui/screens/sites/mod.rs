//! The screens of the sites.

pub mod list;
