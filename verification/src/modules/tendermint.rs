//! Blocks and validator sets.

pub mod api;
pub mod error;
pub mod model;
