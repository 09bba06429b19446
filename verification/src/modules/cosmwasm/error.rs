//! The errors of the contract layer.

use crate::chain::error::ChainError;
use crate::modules::auth::error::AccountError;
use crate::modules::tx::error::TxError;
use vstd::prelude::*;
use vstd::std_specs::convert::FromSpecImpl;

verus! {

/// What can go wrong with a contract operation.
#[derive(Debug, PartialEq, Eq)]
pub enum CosmwasmError {
    /// The message for the contract could not be written as JSON.
    JsonSerialize { message: String },
    /// A number that selects no access type.
    AccessType { i: i32 },
    /// The chain's answer lacks the event that names the result.
    MissingEvent,
    /// An error of the transaction layer.
    TxError(TxError),
    /// An error of the account layer.
    AccountError(AccountError),
    /// An error of the chain layer.
    ChainError(ChainError),
}

impl From<TxError> for CosmwasmError {
    fn from(e: TxError) -> (r: CosmwasmError) {
        CosmwasmError::TxError(e)
    }
}

impl FromSpecImpl<TxError> for CosmwasmError {
    open spec fn obeys_from_spec() -> bool {
        true
    }

    open spec fn from_spec(e: TxError) -> CosmwasmError {
        CosmwasmError::TxError(e)
    }
}

impl From<AccountError> for CosmwasmError {
    fn from(e: AccountError) -> (r: CosmwasmError) {
        CosmwasmError::AccountError(e)
    }
}

impl FromSpecImpl<AccountError> for CosmwasmError {
    open spec fn obeys_from_spec() -> bool {
        true
    }

    open spec fn from_spec(e: AccountError) -> CosmwasmError {
        CosmwasmError::AccountError(e)
    }
}

impl From<ChainError> for CosmwasmError {
    fn from(e: ChainError) -> (r: CosmwasmError) {
        CosmwasmError::ChainError(e)
    }
}

impl FromSpecImpl<ChainError> for CosmwasmError {
    open spec fn obeys_from_spec() -> bool {
        true
    }

    open spec fn from_spec(e: ChainError) -> CosmwasmError {
        CosmwasmError::ChainError(e)
    }
}

} // verus!
