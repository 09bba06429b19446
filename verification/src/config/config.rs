//! The configuration of a chain together with its endpoints.

use crate::chain::error::ChainError;
use crate::chain::fee::Ratio;
use vstd::prelude::*;

verus! {

/// The name under which a missing JSON-RPC endpoint is reported.
pub const RPC_API: &'static str = "tendermint_rpc";

/// The name under which a missing gRPC endpoint is reported.
pub const GRPC_API: &'static str = "cosmos_grpc";

/// A chain and where its nodes are reached. A chain need not offer both
/// transports.
#[derive(Debug, PartialEq, Eq)]
pub struct ChainConfig {
    pub denom: String,
    pub prefix: String,
    pub chain_id: String,
    pub rpc_endpoint: Option<String>,
    pub grpc_endpoint: Option<String>,
    pub gas_prices: Ratio,
    pub gas_adjustment: Ratio,
}

/// A copy of an optional text.
pub fn clone_text(s: &Option<String>) -> (r: Option<String>)
    ensures
        r.deep_view() == s.deep_view(),
{
    match s {
        Some(text) => Some(text.clone()),
        None => None,
    }
}

impl Clone for ChainConfig {
    fn clone(&self) -> (r: Self)
        ensures
            r.denom@ == self.denom@,
            r.prefix@ == self.prefix@,
            r.chain_id@ == self.chain_id@,
            r.rpc_endpoint.deep_view() == self.rpc_endpoint.deep_view(),
            r.grpc_endpoint.deep_view() == self.grpc_endpoint.deep_view(),
            r.gas_prices == self.gas_prices,
            r.gas_adjustment == self.gas_adjustment,
    {
        ChainConfig {
            denom: self.denom.clone(),
            prefix: self.prefix.clone(),
            chain_id: self.chain_id.clone(),
            rpc_endpoint: clone_text(&self.rpc_endpoint),
            grpc_endpoint: clone_text(&self.grpc_endpoint),
            gas_prices: self.gas_prices,
            gas_adjustment: self.gas_adjustment,
        }
    }
}

impl ChainConfig {
    /// The JSON-RPC endpoint; a chain configured without one cannot be
    /// reached over that transport.
    pub fn rpc_endpoint(&self) -> (r: Result<&String, ChainError>)
        ensures
            match self.rpc_endpoint {
                Some(endpoint) => r == Ok::<&String, ChainError>(&endpoint),
                None => r matches Err(ChainError::MissingApiEndpoint { api_type }) && api_type@
                    == RPC_API@,
            },
    {
        match &self.rpc_endpoint {
            Some(endpoint) => Ok(endpoint),
            None => Err(ChainError::MissingApiEndpoint { api_type: RPC_API.to_owned() }),
        }
    }

    /// The gRPC endpoint; a chain configured without one cannot be reached
    /// over that transport.
    pub fn grpc_endpoint(&self) -> (r: Result<&String, ChainError>)
        ensures
            match self.grpc_endpoint {
                Some(endpoint) => r == Ok::<&String, ChainError>(&endpoint),
                None => r matches Err(ChainError::MissingApiEndpoint { api_type }) && api_type@
                    == GRPC_API@,
            },
    {
        match &self.grpc_endpoint {
            Some(endpoint) => Ok(endpoint),
            None => Err(ChainError::MissingApiEndpoint { api_type: GRPC_API.to_owned() }),
        }
    }

    /// What signing and fees need of this configuration, with the path
    /// along which keys are derived.
    pub fn signing(&self, derivation_path: String) -> (r: crate::config::cfg::ChainConfig)
        ensures
            r.denom@ == self.denom@,
            r.prefix@ == self.prefix@,
            r.chain_id@ == self.chain_id@,
            r.derivation_path == derivation_path,
            r.gas_price == self.gas_prices,
            r.gas_adjustment == self.gas_adjustment,
    {
        crate::config::cfg::ChainConfig {
            denom: self.denom.clone(),
            prefix: self.prefix.clone(),
            chain_id: self.chain_id.clone(),
            derivation_path,
            gas_price: self.gas_prices,
            gas_adjustment: self.gas_adjustment,
        }
    }
}

} // verus!
