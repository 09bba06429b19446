//! The errors of the account layer.

use crate::chain::error::ChainError;
use vstd::prelude::*;
use vstd::std_specs::convert::FromSpecImpl;

verus! {

/// What can go wrong with an account or its address.
#[derive(Debug, PartialEq, Eq)]
pub enum AccountError {
    /// Text that is no account address.
    Address { message: String },
    /// A prefix and bytes that make no account id.
    AccountIdParse { message: String },
    /// An error of the chain layer.
    ChainError(ChainError),
}

impl From<ChainError> for AccountError {
    fn from(e: ChainError) -> (r: AccountError) {
        AccountError::ChainError(e)
    }
}

impl FromSpecImpl<ChainError> for AccountError {
    open spec fn obeys_from_spec() -> bool {
        true
    }

    open spec fn from_spec(e: ChainError) -> AccountError {
        AccountError::ChainError(e)
    }
}

} // verus!
