//! The WebSocket transport: the ABCI transport's queries, and broadcasts
//! that do not wait for a block.

use crate::chain::error::ChainError;
use crate::chain::response::{AsyncChainTxResponse, Code};
use crate::clients::client::{answer_code, answer_fits, settle_async, settle_sync, BroadcastAnswer};
use crate::clients::tendermint_rpc::BroadcastEndpoint;
use crate::modules::tx::error::TxError;
use crate::modules::tx::model::{mode_number, BroadcastMode};
use vstd::prelude::*;

verus! {

/// The endpoint that serves `mode` over a WebSocket. Waiting for a block is
/// not offered there: `Block` is refused under its number.
pub fn broadcast_endpoint(mode: BroadcastMode) -> (r: Result<BroadcastEndpoint, TxError>)
    ensures
        r == match mode {
            BroadcastMode::Sync => Ok::<BroadcastEndpoint, TxError>(BroadcastEndpoint::TxSync),
            BroadcastMode::Async => Ok::<BroadcastEndpoint, TxError>(BroadcastEndpoint::TxAsync),
            BroadcastMode::Block => Err::<BroadcastEndpoint, TxError>(
                TxError::BroadcastMode { i: mode_number(BroadcastMode::Block) },
            ),
        },
{
    match mode {
        BroadcastMode::Sync => Ok(BroadcastEndpoint::TxSync),
        BroadcastMode::Async => Ok(BroadcastEndpoint::TxAsync),
        BroadcastMode::Block => Err(TxError::BroadcastMode { i: mode.number() }),
    }
}

/// The data of an answer that does not tell of a block.
pub open spec fn answer_data(answer: BroadcastAnswer) -> Vec<u8> {
    match answer {
        BroadcastAnswer::Async(res) => res.data,
        BroadcastAnswer::Sync(res) => res.data,
        BroadcastAnswer::Commit(res) => res.deliver_tx.data,
    }
}

/// The log of an answer that does not tell of a block.
pub open spec fn answer_log(answer: BroadcastAnswer) -> String {
    match answer {
        BroadcastAnswer::Async(res) => res.log,
        BroadcastAnswer::Sync(res) => res.log,
        BroadcastAnswer::Commit(res) => res.deliver_tx.log,
    }
}

/// The hash in an answer.
pub open spec fn answer_hash(answer: BroadcastAnswer) -> String {
    match answer {
        BroadcastAnswer::Async(res) => res.hash,
        BroadcastAnswer::Sync(res) => res.hash,
        BroadcastAnswer::Commit(res) => res.hash,
    }
}

/// Settles a broadcast under `Sync` or `Async`: the normalised response
/// and the hash, unless the code is not zero.
pub fn broadcast_tx(mode: BroadcastMode, answer: BroadcastAnswer) -> (r: Result<
    AsyncChainTxResponse,
    ChainError,
>)
    requires
        mode != BroadcastMode::Block,
        answer_fits(mode, answer),
    ensures
        answer_code(answer) == 0 <==> r is Ok,
        r matches Ok(tx) ==> tx.res.code == Code::Success && tx.res.data == Some(answer_data(answer))
            && tx.res.log == answer_log(answer) && tx.tx_hash == answer_hash(answer),
        r matches Err(e) ==> (e matches ChainError::CosmosSdk { res } && res.code == Code::Failure(
            answer_code(answer),
        ) && res.data == Some(answer_data(answer)) && res.log == answer_log(answer)),
{
    match answer {
        BroadcastAnswer::Sync(res) => settle_sync(res),
        BroadcastAnswer::Async(res) => settle_async(res),
        BroadcastAnswer::Commit(_) => Err(ChainError::Simulation),
    }
}

} // verus!
