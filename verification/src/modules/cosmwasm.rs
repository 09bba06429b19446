//! Smart contracts: storing code, instantiating, executing, migrating and
//! querying.

pub mod api;
pub mod error;
pub mod model;
