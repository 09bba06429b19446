//! The errors of the bank layer.

use crate::chain::error::ChainError;
use crate::modules::auth::error::AccountError;
use crate::modules::tx::error::TxError;
use vstd::prelude::*;
use vstd::std_specs::convert::FromSpecImpl;

verus! {

/// What can go wrong with a transfer or a balance query.
#[derive(Debug, PartialEq, Eq)]
pub enum BankError {
    /// A transfer of no coins, or of a coin with amount zero.
    EmptyAmount,
    /// An error of the transaction layer.
    TxError(TxError),
    /// An error of the account layer.
    AccountError(AccountError),
    /// An error of the chain layer.
    ChainError(ChainError),
}

impl From<TxError> for BankError {
    fn from(e: TxError) -> (r: BankError) {
        BankError::TxError(e)
    }
}

impl FromSpecImpl<TxError> for BankError {
    open spec fn obeys_from_spec() -> bool {
        true
    }

    open spec fn from_spec(e: TxError) -> BankError {
        BankError::TxError(e)
    }
}

impl From<AccountError> for BankError {
    fn from(e: AccountError) -> (r: BankError) {
        BankError::AccountError(e)
    }
}

impl FromSpecImpl<AccountError> for BankError {
    open spec fn obeys_from_spec() -> bool {
        true
    }

    open spec fn from_spec(e: AccountError) -> BankError {
        BankError::AccountError(e)
    }
}

impl From<ChainError> for BankError {
    fn from(e: ChainError) -> (r: BankError) {
        BankError::ChainError(e)
    }
}

impl FromSpecImpl<ChainError> for BankError {
    open spec fn obeys_from_spec() -> bool {
        true
    }

    open spec fn from_spec(e: ChainError) -> BankError {
        BankError::ChainError(e)
    }
}

} // verus!
