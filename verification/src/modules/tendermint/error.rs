//! The errors of the consensus queries.

use crate::chain::error::ChainError;
use crate::modules::auth::error::AccountError;
use vstd::prelude::*;
use vstd::std_specs::convert::FromSpecImpl;

verus! {

/// What can go wrong with a query for a block or a validator set.
#[derive(Debug, PartialEq, Eq)]
pub enum TendermintError {
    /// The response holds no block.
    MissingBlock,
    /// The response holds no block id.
    MissingBlockId,
    /// An error of the account layer.
    AccountError(AccountError),
    /// An error of the chain layer.
    ChainError(ChainError),
}

impl From<AccountError> for TendermintError {
    fn from(e: AccountError) -> (r: TendermintError) {
        TendermintError::AccountError(e)
    }
}

impl FromSpecImpl<AccountError> for TendermintError {
    open spec fn obeys_from_spec() -> bool {
        true
    }

    open spec fn from_spec(e: AccountError) -> TendermintError {
        TendermintError::AccountError(e)
    }
}

impl From<ChainError> for TendermintError {
    fn from(e: ChainError) -> (r: TendermintError) {
        TendermintError::ChainError(e)
    }
}

impl FromSpecImpl<ChainError> for TendermintError {
    open spec fn obeys_from_spec() -> bool {
        true
    }

    open spec fn from_spec(e: ChainError) -> TendermintError {
        TendermintError::ChainError(e)
    }
}

} // verus!
