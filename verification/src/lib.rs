//! Client-side logic for Cosmos-SDK chains: coins and fees, transaction
//! assembly and signing, broadcast modes and the normalisation of what a
//! node answers.
//!
//! Nothing in this crate touches the network. The functions here decide what
//! is sent and what an answer means; a transport hands them plain values.

pub mod chain;
pub mod clients;
pub mod config;
pub mod envelope;
pub mod modules;
pub mod proto;
pub mod rpc;
pub mod sdk;
pub mod signing_key;
pub mod text;
