//! The gRPC transport: unary calls addressed by a method path.

use crate::chain::error::ChainError;
use crate::chain::fee::GasInfo;
use crate::chain::response::{
    bits_as_u64, code_of, event_parts, events_of_proto, AsyncChainTxResponse, ChainResponse,
    ChainTxResponse, Code,
};
use crate::modules::tx::model::{mode_number, raw_tx_bytes, BroadcastMode, RawTx};
use crate::proto::{ProtoGasInfo, ProtoTxResponse};
use crate::rpc::GrpcFailure;
use vstd::prelude::*;

verus! {

/// A gRPC transport: the endpoint to which each call opens a connection of
/// its own.
#[derive(Debug, PartialEq, Eq)]
pub struct CosmosgRPC {
    grpc_endpoint: String,
}

/// A request to broadcast: the transaction's bytes and the number of the
/// mode.
#[derive(Debug, PartialEq, Eq)]
pub struct BroadcastTxRequest {
    pub tx_bytes: Vec<u8>,
    pub mode: i32,
}

impl Clone for CosmosgRPC {
    fn clone(&self) -> (r: Self)
        ensures
            r.spec_endpoint() == self.spec_endpoint(),
    {
        CosmosgRPC { grpc_endpoint: self.grpc_endpoint.clone() }
    }
}

impl CosmosgRPC {
    /// The characters of the endpoint.
    pub closed spec fn spec_endpoint(&self) -> Seq<char> {
        self.grpc_endpoint@
    }

    /// A transport for the node at `grpc_endpoint`.
    pub fn new(grpc_endpoint: String) -> (r: CosmosgRPC)
        ensures
            r.spec_endpoint() == grpc_endpoint@,
    {
        CosmosgRPC { grpc_endpoint }
    }

    /// The endpoint of the node.
    pub fn endpoint(&self) -> (s: &str)
        ensures
            s@ == self.spec_endpoint(),
    {
        self.grpc_endpoint.as_str()
    }

    /// The gas that a simulation reports. A call that ended with a status
    /// is a failure that the chain reported, with the status as its code,
    /// the status message as its log and no payload; a response without gas
    /// information is `Simulation`.
    pub fn simulate_tx(res: Result<Option<ProtoGasInfo>, GrpcFailure>) -> (r: Result<
        GasInfo,
        ChainError,
    >)
        ensures
            match res {
                Ok(Some(info)) => r matches Ok(g) && g.gas_wanted.spec_value() == info.gas_wanted
                    && g.gas_used.spec_value() == info.gas_used,
                Ok(None) => r matches Err(ChainError::Simulation),
                Err(failure) => r matches Err(ChainError::CosmosSdk { res: c }) && c.code
                    == code_of(failure.status.number() as int) && c.data is None && c.log
                    == failure.message,
            },
    {
        match res {
            Ok(Some(info)) => Ok(GasInfo::from_proto(info)),
            Ok(None) => Err(ChainError::Simulation),
            Err(failure) => Err(
                ChainError::CosmosSdk {
                    res: ChainResponse {
                        code: Code::from(failure.status),
                        data: None,
                        log: failure.message,
                    },
                },
            ),
        }
    }

    /// The request that broadcasts `tx` under `mode`.
    pub fn broadcast_request(tx: &RawTx, mode: BroadcastMode) -> (r: Result<
        BroadcastTxRequest,
        ChainError,
    >)
        ensures
            match raw_tx_bytes(tx@) {
                Some(bytes) => r matches Ok(req) && req.tx_bytes@ == bytes && req.mode
                    == mode_number(mode),
                None => r matches Err(ChainError::ProtoEncoding { .. }),
            },
    {
        match tx.to_bytes() {
            Ok(tx_bytes) => Ok(BroadcastTxRequest { tx_bytes, mode: mode.number() }),
            Err(e) => Err(e),
        }
    }

    /// Settles a broadcast under `Sync` or `Async`: the normalised
    /// response and the hash, unless the code is not zero.
    pub fn broadcast_tx(res: ProtoTxResponse) -> (r: Result<AsyncChainTxResponse, ChainError>)
        ensures
            res.code != 0 ==> (r matches Err(ChainError::CosmosSdk { res: c }) && c.code
                == Code::Failure(res.code) && c.log == res.raw_log && (c.data matches Some(d) && d@
                == vstd::utf8::encode_utf8(res.data@))),
            res.code == 0 ==> (r matches Ok(tx) && tx.res.code == Code::Success && tx.res.log
                == res.raw_log && tx.tx_hash == res.txhash && (tx.res.data matches Some(d) && d@
                == vstd::utf8::encode_utf8(res.data@))),
    {
        let tx = AsyncChainTxResponse::from_proto(res);
        if tx.res.code.is_err() {
            Err(ChainError::CosmosSdk { res: tx.res })
        } else {
            Ok(tx)
        }
    }

    /// Settles a broadcast under `Block`: the execution's response, events
    /// and gas, unless the code is not zero.
    pub fn broadcast_tx_block(res: ProtoTxResponse) -> (r: Result<ChainTxResponse, ChainError>)
        ensures
            res.code != 0 ==> (r matches Err(ChainError::CosmosSdk { res: c }) && c.code
                == Code::Failure(res.code) && c.log == res.raw_log && (c.data matches Some(d) && d@
                == vstd::utf8::encode_utf8(res.data@))),
            res.code == 0 ==> (r matches Ok(tx) && tx.res.code == Code::Success && tx.res.log
                == res.raw_log && (tx.res.data matches Some(d) && d@ == vstd::utf8::encode_utf8(
                res.data@,
            )) && tx.tx_hash == res.txhash && event_parts(tx.events@)
                == events_of_proto(res.events@) && tx.gas_wanted == bits_as_u64(res.gas_wanted)
                && tx.gas_used == bits_as_u64(res.gas_used) && tx.height == bits_as_u64(
                res.height,
            )),
    {
        let tx = ChainTxResponse::from_proto(res);
        if tx.res.code.is_err() {
            Err(ChainError::CosmosSdk { res: tx.res })
        } else {
            Ok(tx)
        }
    }
}

} // verus!
