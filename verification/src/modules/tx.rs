//! Transactions: their raw form, how they are broadcast, how they are
//! prepared for signing.

pub mod api;
pub mod error;
pub mod model;
