//! The errors of the transaction layer.

use crate::chain::error::ChainError;
use crate::modules::auth::error::AccountError;
use vstd::prelude::*;
use vstd::std_specs::convert::FromSpecImpl;

verus! {

/// What can go wrong while a transaction is prepared or broadcast.
#[derive(Debug, PartialEq, Eq)]
pub enum TxError {
    /// A number that selects no broadcast mode.
    BroadcastMode { i: i32 },
    /// An error of the account layer.
    AccountError(AccountError),
    /// An error of the chain layer.
    ChainError(ChainError),
}

impl From<AccountError> for TxError {
    fn from(e: AccountError) -> (r: TxError) {
        TxError::AccountError(e)
    }
}

impl FromSpecImpl<AccountError> for TxError {
    open spec fn obeys_from_spec() -> bool {
        true
    }

    open spec fn from_spec(e: AccountError) -> TxError {
        TxError::AccountError(e)
    }
}

impl From<ChainError> for TxError {
    fn from(e: ChainError) -> (r: TxError) {
        TxError::ChainError(e)
    }
}

impl FromSpecImpl<ChainError> for TxError {
    open spec fn obeys_from_spec() -> bool {
        true
    }

    open spec fn from_spec(e: ChainError) -> TxError {
        TxError::ChainError(e)
    }
}

} // verus!
