//! What a transport has to decide: which request goes out for an
//! operation, and what its answer means.
//!
//! The transports themselves, with their connections, live outside this
//! library. They hand the answers of a node to the functions here.

pub mod client;
pub mod cosmos_grpc;
pub mod tendermint_rpc;
pub mod websocket;
