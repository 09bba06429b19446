//! What a client is told about its chain.

pub mod cfg;
pub mod config;
