//! The screens of the domains.

pub mod list;
