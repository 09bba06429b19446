//! What the chain's modules speak: accounts, balances, contracts,
//! transactions.

pub mod auth;
pub mod bank;
pub mod cosmwasm;
pub mod tendermint;
pub mod tx;
