//! Accounts and their addresses.

pub mod api;
pub mod error;
pub mod model;
