//! What the account module asks of a node, and what the answers come to.

use crate::chain::error::ChainError;
use crate::chain::msg::Any;
use crate::modules::auth::error::AccountError;
use crate::modules::auth::model::{
    account_of_response, Account, AccountFailure, AccountResponse, AccountsResponse, Params,
    ParamsResponse,
};
use crate::modules::bank::model::next_page;
use crate::proto::{ProtoAuthParams, ProtoPageResponse};
use vstd::prelude::*;

verus! {

/// The path of the query for one account.
pub const ACCOUNT_PATH: &'static str = "/cosmos.auth.v1beta1.Query/Account";

/// The path of the query for a page of accounts.
pub const ACCOUNTS_PATH: &'static str = "/cosmos.auth.v1beta1.Query/Accounts";

/// The path of the query for the authentication parameters.
pub const PARAMS_PATH: &'static str = "/cosmos.auth.v1beta1.Query/Params";

/// The account in the answer to an account query.
pub fn auth_query_account(account: Option<Any>) -> (r: Result<AccountResponse, AccountError>)
    ensures
        match account_of_response(account) {
            Ok(view) => r matches Ok(res) && res.account@ == view,
            Err(AccountFailure::Missing) => r matches Err(AccountError::Address { .. }),
            Err(AccountFailure::Address) => r matches Err(AccountError::Address { .. }),
            Err(AccountFailure::Undecodable) => r matches Err(
                AccountError::ChainError(ChainError::ProtoDecoding { .. }),
            ),
            Err(AccountFailure::PublicKey) => r matches Err(
                AccountError::ChainError(ChainError::Crypto { .. }),
            ),
        },
{
    AccountResponse::from_query(account)
}

/// Whether `k` is the place of the first envelope of `accounts` that gives
/// no account.
pub open spec fn first_unreadable_account(accounts: Seq<Any>, k: int) -> bool {
    &&& 0 <= k < accounts.len()
    &&& account_of_response(Some(accounts[k])) is Err
    &&& forall|j: int| 0 <= j < k ==> account_of_response(Some(#[trigger] accounts[j])) is Ok
}

/// Whether `e` is the error of an account query that came to `outcome`.
pub open spec fn account_error_fits(
    e: AccountError,
    outcome: Result<crate::modules::auth::model::AccountView, AccountFailure>,
) -> bool {
    match outcome {
        Ok(_) => false,
        Err(AccountFailure::Missing) => e is Address,
        Err(AccountFailure::Address) => e is Address,
        Err(AccountFailure::Undecodable) => e matches AccountError::ChainError(
            ChainError::ProtoDecoding { .. },
        ),
        Err(AccountFailure::PublicKey) => e matches AccountError::ChainError(
            ChainError::Crypto { .. },
        ),
    }
}

/// The accounts in the answer to a query for a page of accounts, in order;
/// the first envelope that gives no account ends the work.
pub fn auth_query_accounts(accounts: Vec<Any>, pagination: Option<ProtoPageResponse>) -> (r: Result<
    AccountsResponse,
    AccountError,
>)
    ensures
        match r {
            Ok(res) => {
                &&& res.accounts.len() == accounts.len()
                &&& forall|i: int|
                    0 <= i < res.accounts.len() ==> account_of_response(Some(accounts[i])) == Ok::<
                        crate::modules::auth::model::AccountView,
                        AccountFailure,
                    >((#[trigger] res.accounts[i])@)
                &&& match pagination {
                    Some(p) => res.next matches Some(n) && n.next_key == p.next_key && n.total
                        == p.total,
                    None => res.next is None,
                }
            },
            Err(e) => exists|k: int|
                first_unreadable_account(accounts@, k) && account_error_fits(
                    e,
                    account_of_response(Some(accounts[k])),
                ),
        },
{
    let ghost all = accounts@;
    let mut out: Vec<Account> = Vec::new();
    for any in it: accounts
        invariant
            it.seq() == all,
            out.len() == it.index(),
            forall|i: int|
                0 <= i < out.len() ==> account_of_response(Some(all[i])) == Ok::<
                    crate::modules::auth::model::AccountView,
                    AccountFailure,
                >((#[trigger] out[i])@),
    {
        let ghost k = out.len() as int;
        assert(any == all[k]);
        match AccountResponse::from_query(Some(any)) {
            Ok(res) => {
                out.push(res.account);
            },
            Err(e) => {
                assert(first_unreadable_account(all, k)) by {
                    assert forall|j: int| 0 <= j < k implies account_of_response(
                        Some(#[trigger] all[j]),
                    ) is Ok by {
                        let _ = out[j];
                    }
                }
                return Err(e);
            },
        }
    }
    Ok(AccountsResponse { accounts: out, next: next_page(pagination) })
}

/// The parameters in the answer to a parameters query.
pub fn auth_query_params(params: Option<ProtoAuthParams>) -> (r: ParamsResponse)
    ensures
        match params {
            Some(p) => r.params matches Some(q) && q.max_memo_characters == p.max_memo_characters
                && q.tx_sig_limit == p.tx_sig_limit && q.tx_size_cost_per_byte
                == p.tx_size_cost_per_byte && q.sig_verify_cost_ed25519 == p.sig_verify_cost_ed25519
                && q.sig_verify_cost_secp256k1 == p.sig_verify_cost_secp256k1,
            None => r.params is None,
        },
{
    match params {
        Some(p) => ParamsResponse { params: Some(Params::from_proto(p)) },
        None => ParamsResponse { params: None },
    }
}

} // verus!
