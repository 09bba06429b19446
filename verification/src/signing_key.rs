//! Keys that sign transactions.

pub mod key;
