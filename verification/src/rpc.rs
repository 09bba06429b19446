//! Plain mirrors of what the JSON-RPC endpoints of a node answer.

use crate::chain::response::Event;
use vstd::prelude::*;

verus! {

/// The answer to `abci_query`: a status number, the payload and a log line.
#[derive(Debug, PartialEq, Eq)]
pub struct AbciQuery {
    pub code: u32,
    pub log: String,
    pub value: Vec<u8>,
}

/// What one phase of a transaction's life (admission to the mempool, or
/// execution in a block) ended with.
#[derive(Debug, PartialEq, Eq)]
pub struct TxResult {
    pub code: u32,
    pub data: Vec<u8>,
    pub log: String,
    pub gas_wanted: i64,
    pub gas_used: i64,
    pub events: Vec<Event>,
}

/// The answer to `broadcast_tx_commit`.
#[derive(Debug, PartialEq, Eq)]
pub struct TxCommitResponse {
    pub check_tx: TxResult,
    pub deliver_tx: TxResult,
    pub hash: String,
    pub height: u64,
}

/// The answer to `broadcast_tx_sync`.
#[derive(Debug, PartialEq, Eq)]
pub struct TxSyncResponse {
    pub code: u32,
    pub data: Vec<u8>,
    pub log: String,
    pub hash: String,
}

/// The answer to `broadcast_tx_async`.
#[derive(Debug, PartialEq, Eq)]
pub struct TxAsyncResponse {
    pub code: u32,
    pub data: Vec<u8>,
    pub log: String,
    pub hash: String,
}

/// A gRPC call that ended with a status instead of a message.
#[derive(Debug, PartialEq, Eq)]
pub struct GrpcFailure {
    pub status: crate::chain::response::GrpcStatus,
    pub message: String,
    pub details: Vec<u8>,
}

} // verus!
