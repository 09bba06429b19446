//! Balances, supplies and transfers of coins.

pub mod api;
pub mod error;
pub mod model;
