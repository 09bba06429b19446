//! The ABCI transport: queries by path with a binary payload, and three
//! broadcast endpoints.

use crate::chain::error::ChainError;
use crate::chain::fee::GasInfo;
use crate::chain::response::{AsyncChainTxResponse, ChainResponse, ChainTxResponse, Code};
use crate::clients::client::{settle_async, settle_commit, settle_sync};
use crate::modules::tx::model::{raw_tx_bytes, BroadcastMode, RawTx};
use crate::rpc::{AbciQuery, TxAsyncResponse, TxCommitResponse, TxSyncResponse};
use crate::sdk::{
    simulate_request_encoding, simulate_request_to_bytes, simulate_response_decoding,
    simulate_response_from_bytes,
};
use vstd::prelude::*;

verus! {

/// The three endpoints that take a transaction.
#[derive(Copy, Clone, Debug, PartialEq, Eq, Structural)]
pub enum BroadcastEndpoint {
    TxAsync,
    TxSync,
    TxCommit,
}

impl BroadcastEndpoint {
    /// The endpoint that serves `mode`.
    pub fn for_mode(mode: BroadcastMode) -> (e: BroadcastEndpoint)
        ensures
            e == match mode {
                BroadcastMode::Async => BroadcastEndpoint::TxAsync,
                BroadcastMode::Sync => BroadcastEndpoint::TxSync,
                BroadcastMode::Block => BroadcastEndpoint::TxCommit,
            },
    {
        match mode {
            BroadcastMode::Async => BroadcastEndpoint::TxAsync,
            BroadcastMode::Sync => BroadcastEndpoint::TxSync,
            BroadcastMode::Block => BroadcastEndpoint::TxCommit,
        }
    }

    /// The name of the endpoint's method.
    pub fn method(self) -> (s: &'static str)
        ensures
            self == BroadcastEndpoint::TxAsync ==> s@ == "broadcast_tx_async"@,
            self == BroadcastEndpoint::TxSync ==> s@ == "broadcast_tx_sync"@,
            self == BroadcastEndpoint::TxCommit ==> s@ == "broadcast_tx_commit"@,
    {
        match self {
            BroadcastEndpoint::TxAsync => "broadcast_tx_async",
            BroadcastEndpoint::TxSync => "broadcast_tx_sync",
            BroadcastEndpoint::TxCommit => "broadcast_tx_commit",
        }
    }
}

/// The stateless decisions of the ABCI transport.
#[derive(Clone, Copy, Debug, PartialEq, Eq, Structural)]
pub struct TendermintRPC;

/// The bytes of the request that simulates `tx`, or `None` where the
/// transaction or the request cannot be encoded.
pub open spec fn simulate_request_of(tx: crate::modules::tx::model::RawTxView) -> Option<Seq<u8>> {
    match raw_tx_bytes(tx) {
        Some(bytes) => simulate_request_encoding(bytes),
        None => None,
    }
}

/// What the answer `res` to a simulation comes to: the gas information,
/// or `Err(true)` where the response cannot be decoded and `Err(false)`
/// where it holds no gas information.
pub open spec fn simulated_gas(value: Seq<u8>) -> Result<crate::proto::ProtoGasInfo, bool> {
    match simulate_response_decoding(value) {
        None => Err(true),
        Some(None) => Err(false),
        Some(Some(info)) => Ok(info),
    }
}

impl TendermintRPC {
    /// The payload of the answer to a query. A code other than zero means
    /// that the payload is not what was asked for: it is not handed on, and
    /// the whole response goes into the error.
    pub fn query_payload(res: AbciQuery) -> (r: Result<Vec<u8>, ChainError>)
        ensures
            res.code == 0 ==> r == Ok::<Vec<u8>, ChainError>(res.value),
            res.code != 0 ==> (r matches Err(ChainError::CosmosSdk { res: c }) && c.code
                == Code::Failure(res.code) && c.data == Some(res.value) && c.log == res.log),
    {
        if res.code != 0 {
            Err(ChainError::CosmosSdk { res: ChainResponse::from_abci_query(res) })
        } else {
            Ok(res.value)
        }
    }

    /// The payload of the query that simulates `tx`: a simulation request
    /// around the transaction's bytes. It goes to `SIMULATE_PATH`.
    pub fn simulate_request(tx: &RawTx) -> (r: Result<Vec<u8>, ChainError>)
        ensures
            match simulate_request_of(tx@) {
                Some(bytes) => r matches Ok(b) && b@ == bytes,
                None => r matches Err(ChainError::ProtoEncoding { .. }),
            },
    {
        let tx_bytes = match tx.to_bytes() {
            Ok(b) => b,
            Err(e) => {
                return Err(e);
            },
        };
        match simulate_request_to_bytes(&tx_bytes) {
            Ok(b) => Ok(b),
            Err(message) => Err(ChainError::ProtoEncoding { message }),
        }
    }

    /// The gas that a simulation reports. A code other than zero is a
    /// failure that the chain reported; a payload that is no simulation
    /// response is a decoding error; a response without gas information is
    /// `Simulation`.
    pub fn simulate_tx(res: AbciQuery) -> (r: Result<GasInfo, ChainError>)
        ensures
            res.code != 0 ==> (r matches Err(ChainError::CosmosSdk { res: c }) && c.code
                == Code::Failure(res.code) && c.data == Some(res.value) && c.log == res.log),
            res.code == 0 ==> match simulated_gas(res.value@) {
                Ok(info) => r matches Ok(g) && g.gas_wanted.spec_value() == info.gas_wanted
                    && g.gas_used.spec_value() == info.gas_used,
                Err(true) => r matches Err(ChainError::ProtoDecoding { .. }),
                Err(false) => r matches Err(ChainError::Simulation),
            },
    {
        let value = match TendermintRPC::query_payload(res) {
            Ok(v) => v,
            Err(e) => {
                return Err(e);
            },
        };
        match simulate_response_from_bytes(value.as_slice()) {
            Err(message) => Err(ChainError::ProtoDecoding { message }),
            Ok(None) => Err(ChainError::Simulation),
            Ok(Some(info)) => Ok(GasInfo::from_proto(info)),
        }
    }

    /// Settles the answer of `broadcast_tx_commit`.
    pub fn broadcast_tx_commit(res: TxCommitResponse) -> (r: Result<ChainTxResponse, ChainError>)
        ensures
            res.check_tx.code != 0 ==> (r matches Err(ChainError::CosmosSdk { res: c }) && c.code
                == Code::Failure(res.check_tx.code) && c.data == Some(res.check_tx.data) && c.log
                == res.check_tx.log),
            res.check_tx.code == 0 && res.deliver_tx.code != 0 ==> (r matches Err(
                ChainError::CosmosSdk { res: c },
            ) && c.code == Code::Failure(res.deliver_tx.code) && c.data == Some(
                res.deliver_tx.data,
            ) && c.log == res.deliver_tx.log),
            res.check_tx.code == 0 && res.deliver_tx.code == 0 ==> (r matches Ok(tx) && tx.res.code
                == Code::Success && tx.res.data == Some(res.deliver_tx.data) && tx.res.log
                == res.deliver_tx.log && tx.events == res.deliver_tx.events && tx.gas_wanted
                == crate::chain::response::bits_as_u64(res.deliver_tx.gas_wanted) && tx.gas_used
                == crate::chain::response::bits_as_u64(res.deliver_tx.gas_used) && tx.tx_hash
                == res.hash && tx.height == res.height),
    {
        settle_commit(res)
    }

    /// Settles the answer of `broadcast_tx_sync`.
    pub fn broadcast_tx_sync(res: TxSyncResponse) -> (r: Result<AsyncChainTxResponse, ChainError>)
        ensures
            res.code != 0 ==> (r matches Err(ChainError::CosmosSdk { res: c }) && c.code
                == Code::Failure(res.code) && c.data == Some(res.data) && c.log == res.log),
            res.code == 0 ==> (r matches Ok(tx) && tx.res.code == Code::Success && tx.res.data
                == Some(res.data) && tx.res.log == res.log && tx.tx_hash == res.hash),
    {
        settle_sync(res)
    }

    /// Settles the answer of `broadcast_tx_async`.
    pub fn broadcast_tx_async(res: TxAsyncResponse) -> (r: Result<AsyncChainTxResponse, ChainError>)
        ensures
            res.code != 0 ==> (r matches Err(ChainError::CosmosSdk { res: c }) && c.code
                == Code::Failure(res.code) && c.data == Some(res.data) && c.log == res.log),
            res.code == 0 ==> (r matches Ok(tx) && tx.res.code == Code::Success && tx.res.data
                == Some(res.data) && tx.res.log == res.log && tx.tx_hash == res.hash),
    {
        settle_async(res)
    }
}

} // verus!
