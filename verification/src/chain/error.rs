//! The errors of the chain layer.

use crate::chain::response::ChainResponse;
use vstd::prelude::*;

verus! {

/// What can go wrong between building a transaction and reading the chain's
/// answer. No error is retried by the library: each one ends the operation
/// that met it.
#[derive(Debug, PartialEq, Eq)]
pub enum ChainError {
    /// A token identifier that does not follow the denom syntax.
    Denom { name: String },
    /// A chain id that the chain layer does not accept.
    ChainId { chain_id: String },
    /// The transport that the operation needs has no endpoint configured.
    MissingApiEndpoint { api_type: String },
    /// The mnemonic is no valid phrase.
    Mnemonic,
    /// The derivation path cannot be parsed or followed.
    DerviationPath,
    /// The signature scheme refused the key or the message.
    Crypto { message: String },
    /// The path of a query is no valid method path.
    QueryPath { url: String },
    /// A message could not be encoded.
    ProtoEncoding { message: String },
    /// Bytes could not be decoded as the expected message.
    ProtoDecoding { message: String },
    /// The chain answered a simulation without gas information.
    Simulation,
    /// The platform's secret store did not yield the secret.
    Keyring { message: String },
    /// The chain answered with a code other than zero; the whole normalised
    /// response is kept.
    CosmosSdk { res: ChainResponse },
    /// A value that the consensus layer's types do not accept.
    Tendermint { message: String },
    /// The JSON-RPC transport failed before any handler answered.
    RPC { message: String },
    /// The gRPC transport failed before any handler answered.
    GRPC { message: String },
}

/// Why the payload of a response could not be read.
#[derive(Debug, PartialEq, Eq)]
pub enum DeserializeError {
    /// The response has no payload.
    EmptyResponse,
    /// The payload is not the JSON that was expected.
    Serde { message: String },
}

} // verus!
