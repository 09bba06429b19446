//! What both transports share: the fixed simulation path, the test for a
//! chain-reported failure, and the settling of a broadcast.

use crate::chain::error::ChainError;
use crate::chain::response::{
    bits_as_u64, AsyncChainTxResponse, ChainResponse, ChainTxResponse, Code,
};
use crate::modules::tx::model::BroadcastMode;
use crate::rpc::{TxAsyncResponse, TxCommitResponse, TxSyncResponse};
use vstd::prelude::*;

verus! {

/// The path of the handler that simulates transactions.
pub const SIMULATE_PATH: &'static str = "/cosmos.tx.v1beta1.Service/Simulate";

/// Passes a response on if its code is zero; any other response is a
/// failure that the chain reported, and is kept whole in the error.
pub fn check_response(res: ChainResponse) -> (r: Result<ChainResponse, ChainError>)
    ensures
        res.code == Code::Success ==> r == Ok::<ChainResponse, ChainError>(res),
        res.code != Code::Success ==> r == Err::<ChainResponse, ChainError>(
            ChainError::CosmosSdk { res },
        ),
{
    if res.code.is_err() {
        Err(ChainError::CosmosSdk { res })
    } else {
        Ok(res)
    }
}

/// What a node answered to a broadcast, by the endpoint that was asked.
#[derive(Debug, PartialEq, Eq)]
pub enum BroadcastAnswer {
    Async(TxAsyncResponse),
    Sync(TxSyncResponse),
    Commit(TxCommitResponse),
}

/// What a broadcast that was accepted has come to.
#[derive(Debug, PartialEq, Eq)]
pub enum BroadcastOutcome {
    /// The node took the transaction; nothing of its execution is known.
    Admitted(AsyncChainTxResponse),
    /// The transaction is in a block and was executed.
    Included(ChainTxResponse),
}

/// Whether `answer` is of the endpoint that serves `mode`.
pub open spec fn answer_fits(mode: BroadcastMode, answer: BroadcastAnswer) -> bool {
    match mode {
        BroadcastMode::Async => answer is Async,
        BroadcastMode::Sync => answer is Sync,
        BroadcastMode::Block => answer is Commit,
    }
}

/// Whether `answer` is of the endpoint that serves `mode`.
pub fn fits(mode: BroadcastMode, answer: &BroadcastAnswer) -> (r: bool)
    ensures
        r == answer_fits(mode, *answer),
{
    match (mode, answer) {
        (BroadcastMode::Async, BroadcastAnswer::Async(_)) => true,
        (BroadcastMode::Sync, BroadcastAnswer::Sync(_)) => true,
        (BroadcastMode::Block, BroadcastAnswer::Commit(_)) => true,
        _ => false,
    }
}

/// The code that decides a commit: that of the admission check where it
/// failed, else that of the execution.
pub open spec fn commit_code(res: TxCommitResponse) -> u32 {
    if res.check_tx.code != 0 {
        res.check_tx.code
    } else {
        res.deliver_tx.code
    }
}

/// Settles a commit. A failed admission check is reported before a failed
/// execution: a transaction that is not admitted never runs. Only where
/// both codes are zero is the transaction's execution handed on.
pub fn settle_commit(res: TxCommitResponse) -> (r: Result<ChainTxResponse, ChainError>)
    ensures
        res.check_tx.code != 0 ==> (r matches Err(ChainError::CosmosSdk { res: c }) && c.code
            == Code::Failure(res.check_tx.code) && c.data == Some(res.check_tx.data) && c.log
            == res.check_tx.log),
        res.check_tx.code == 0 && res.deliver_tx.code != 0 ==> (r matches Err(
            ChainError::CosmosSdk { res: c },
        ) && c.code == Code::Failure(res.deliver_tx.code) && c.data == Some(res.deliver_tx.data)
            && c.log == res.deliver_tx.log),
        res.check_tx.code == 0 && res.deliver_tx.code == 0 ==> (r matches Ok(tx) && tx.res.code
            == Code::Success && tx.res.data == Some(res.deliver_tx.data) && tx.res.log
            == res.deliver_tx.log && tx.events == res.deliver_tx.events && tx.gas_wanted
            == bits_as_u64(res.deliver_tx.gas_wanted) && tx.gas_used == bits_as_u64(
            res.deliver_tx.gas_used,
        ) && tx.tx_hash == res.hash && tx.height == res.height),
{
    if res.check_tx.code != 0 {
        return Err(ChainError::CosmosSdk { res: ChainResponse::from_tx_result(res.check_tx) });
    }
    if res.deliver_tx.code != 0 {
        return Err(ChainError::CosmosSdk { res: ChainResponse::from_tx_result(res.deliver_tx) });
    }
    Ok(ChainTxResponse::from_tx_commit(res))
}

/// Settles a synchronous broadcast: a code other than zero means that the
/// mempool refused the transaction, and only the normalised response is
/// reported.
pub fn settle_sync(res: TxSyncResponse) -> (r: Result<AsyncChainTxResponse, ChainError>)
    ensures
        res.code != 0 ==> (r matches Err(ChainError::CosmosSdk { res: c }) && c.code
            == Code::Failure(res.code) && c.data == Some(res.data) && c.log == res.log),
        res.code == 0 ==> (r matches Ok(tx) && tx.res.code == Code::Success && tx.res.data == Some(
            res.data,
        ) && tx.res.log == res.log && tx.tx_hash == res.hash),
{
    let tx = AsyncChainTxResponse::from_tx_sync(res);
    if tx.res.code.is_err() {
        Err(ChainError::CosmosSdk { res: tx.res })
    } else {
        Ok(tx)
    }
}

/// Settles an asynchronous broadcast: whatever the node acknowledged is
/// handed on, unless it came with a code other than zero.
pub fn settle_async(res: TxAsyncResponse) -> (r: Result<AsyncChainTxResponse, ChainError>)
    ensures
        res.code != 0 ==> (r matches Err(ChainError::CosmosSdk { res: c }) && c.code
            == Code::Failure(res.code) && c.data == Some(res.data) && c.log == res.log),
        res.code == 0 ==> (r matches Ok(tx) && tx.res.code == Code::Success && tx.res.data == Some(
            res.data,
        ) && tx.res.log == res.log && tx.tx_hash == res.hash),
{
    let tx = AsyncChainTxResponse::from_tx_async(res);
    if tx.res.code.is_err() {
        Err(ChainError::CosmosSdk { res: tx.res })
    } else {
        Ok(tx)
    }
}

/// The code that decides the answer to a broadcast.
pub open spec fn answer_code(answer: BroadcastAnswer) -> u32 {
    match answer {
        BroadcastAnswer::Async(res) => res.code,
        BroadcastAnswer::Sync(res) => res.code,
        BroadcastAnswer::Commit(res) => commit_code(res),
    }
}

/// Whether `outcome` is what the accepted answer `answer` comes to: the
/// normalised response with the answer's data and log, the hash, and for a
/// commit the events, gas and height of the execution.
pub open spec fn outcome_is(outcome: BroadcastOutcome, answer: BroadcastAnswer) -> bool {
    match answer {
        BroadcastAnswer::Async(res) => outcome matches BroadcastOutcome::Admitted(tx) && tx.res.code
            == Code::Success && tx.res.data == Some(res.data) && tx.res.log == res.log
            && tx.tx_hash == res.hash,
        BroadcastAnswer::Sync(res) => outcome matches BroadcastOutcome::Admitted(tx) && tx.res.code
            == Code::Success && tx.res.data == Some(res.data) && tx.res.log == res.log
            && tx.tx_hash == res.hash,
        BroadcastAnswer::Commit(res) => outcome matches BroadcastOutcome::Included(tx)
            && tx.res.code == Code::Success && tx.res.data == Some(res.deliver_tx.data)
            && tx.res.log == res.deliver_tx.log && tx.events == res.deliver_tx.events
            && tx.gas_wanted == bits_as_u64(res.deliver_tx.gas_wanted) && tx.gas_used
            == bits_as_u64(res.deliver_tx.gas_used) && tx.tx_hash == res.hash && tx.height
            == res.height,
    }
}

/// The data that a rejected answer is reported with: for a commit that of
/// the phase that failed first.
pub open spec fn rejected_data(answer: BroadcastAnswer) -> Vec<u8> {
    match answer {
        BroadcastAnswer::Async(res) => res.data,
        BroadcastAnswer::Sync(res) => res.data,
        BroadcastAnswer::Commit(res) => if res.check_tx.code != 0 {
            res.check_tx.data
        } else {
            res.deliver_tx.data
        },
    }
}

/// The log that a rejected answer is reported with: for a commit that of
/// the phase that failed first.
pub open spec fn rejected_log(answer: BroadcastAnswer) -> String {
    match answer {
        BroadcastAnswer::Async(res) => res.log,
        BroadcastAnswer::Sync(res) => res.log,
        BroadcastAnswer::Commit(res) => if res.check_tx.code != 0 {
            res.check_tx.log
        } else {
            res.deliver_tx.log
        },
    }
}

/// Settles a broadcast that was submitted under `mode`.
///
/// The broadcast is accepted exactly when the deciding code is zero, and
/// rejected as a chain-reported failure with that code otherwise. Only
/// under `Block` does an accepted broadcast tell of the execution; under
/// `Sync` and `Async` it tells of the admission alone.
pub fn settle(mode: BroadcastMode, answer: BroadcastAnswer) -> (r: Result<
    BroadcastOutcome,
    ChainError,
>)
    requires
        answer_fits(mode, answer),
    ensures
        answer_code(answer) == 0 <==> r is Ok,
        r matches Err(e) ==> (e matches ChainError::CosmosSdk { res } && res.code == Code::Failure(
            answer_code(answer),
        )),
        r matches Ok(BroadcastOutcome::Included(_)) <==> (answer_code(answer) == 0 && mode
            == BroadcastMode::Block),
        r matches Ok(BroadcastOutcome::Admitted(_)) <==> (answer_code(answer) == 0 && mode
            != BroadcastMode::Block),
        r matches Ok(outcome) ==> outcome_is(outcome, answer),
        r matches Err(ChainError::CosmosSdk { res }) ==> res.data == Some(rejected_data(answer))
            && res.log == rejected_log(answer),
{
    match answer {
        BroadcastAnswer::Async(res) => match settle_async(res) {
            Ok(tx) => Ok(BroadcastOutcome::Admitted(tx)),
            Err(e) => Err(e),
        },
        BroadcastAnswer::Sync(res) => match settle_sync(res) {
            Ok(tx) => Ok(BroadcastOutcome::Admitted(tx)),
            Err(e) => Err(e),
        },
        BroadcastAnswer::Commit(res) => match settle_commit(res) {
            Ok(tx) => Ok(BroadcastOutcome::Included(tx)),
            Err(e) => Err(e),
        },
    }
}

} // verus!
