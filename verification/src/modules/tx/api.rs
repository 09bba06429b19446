//! Preparing a transaction: the dry run that finds its fee, and the steps
//! that lead from messages to a signed transaction.
//!
//! Two of those steps need a node: the account may have to be queried and
//! the gas may have to be simulated. Neither happens here. `tx_sign_step`
//! says what is to be asked next; whoever drives it asks, and hands back
//! what the node answered.

use crate::chain::coin::{valid_denom, Coin, CoinView, Denom};
use crate::chain::error::ChainError;
use crate::chain::fee::{
    fee_amount_for, fee_from_gas, gas_limit_for, saturated, Fee, FeeView, GasInfo, Ratio,
};
use crate::chain::msg::{Any, AnyView};
use crate::chain::request::TxOptions;
use crate::config::cfg::ChainConfig;
use crate::modules::auth::model::{Account, AccountView, Address};
use crate::modules::tx::error::TxError;
use crate::modules::tx::model::{RawTx, RawTxView};
use crate::sdk::{
    auth_info_encoding, auth_info_to_bytes, bech32_text, fee_encoding, fee_to_bytes,
    tx_body_encoding, tx_body_to_bytes,
};
use crate::signing_key::key::{
    address_of, is_failure, sign_outcome, KeyView, SignFailure, SigningKey,
};
use vstd::prelude::*;

verus! {

/// The memo of the transaction that is sent to be simulated.
pub const SIMULATION_MEMO: &'static str = "cosm-client memo";

/// Whether the error `e` is a chain error of the kind `kind`.
pub open spec fn is_tx_failure(e: TxError, kind: SignFailure) -> bool {
    e matches TxError::ChainError(c) && is_failure(c, kind)
}

/// The fee of a dry run: no coins of `denom`, no gas, nobody named.
pub open spec fn zero_fee(denom: Seq<char>) -> FeeView {
    FeeView {
        amount: seq![CoinView { denom, amount: 0 }],
        gas_limit: 0,
        payer: None,
        granter: None,
    }
}

/// The transaction that is simulated to find the fee of `msgs`: the
/// messages under the simulation memo and without a timeout, a zero fee in
/// `denom`, the account's sequence number but no public key, and a single
/// empty signature.
pub open spec fn simulation_tx_of(denom: Seq<char>, msgs: Seq<AnyView>, sequence: u64) -> Result<
    RawTxView,
    SignFailure,
> {
    if !valid_denom(denom) {
        Err(SignFailure::Denom(denom))
    } else {
        match tx_body_encoding(msgs, SIMULATION_MEMO@, 0) {
            None => Err(SignFailure::ProtoEncoding),
            Some(body_bytes) => match fee_encoding(zero_fee(denom)) {
                None => Err(SignFailure::ProtoEncoding),
                Some(fee_bytes) => match auth_info_encoding(None, sequence, fee_bytes) {
                    None => Err(SignFailure::ProtoEncoding),
                    Some(auth_info_bytes) => Ok(
                        RawTxView {
                            body_bytes,
                            auth_info_bytes,
                            signatures: seq![Seq::<u8>::empty()],
                        },
                    ),
                },
            },
        }
    }
}

/// Builds the transaction that is simulated to find the fee of `msgs`.
pub fn simulation_tx(denom: &str, msgs: &Vec<Any>, account: &Account) -> (r: Result<RawTx, TxError>)
    ensures
        match simulation_tx_of(denom@, msgs.deep_view(), account.sequence) {
            Ok(view) => r matches Ok(tx) && tx@ == view,
            Err(kind) => r matches Err(e) && is_tx_failure(e, kind),
        },
{
    let denom = match Denom::from_str(denom) {
        Ok(d) => d,
        Err(e) => {
            return Err(TxError::ChainError(e));
        },
    };
    let fee = Fee::new(Coin { denom, amount: 0 }, 0u64, None, None);
    assert(fee@ == zero_fee(denom@)) by {
        assert(fee@.amount =~= zero_fee(denom@).amount);
        crate::chain::fee::lemma_gas_from_number(0, 0, 0, 0);
    }
    let body_bytes = match tx_body_to_bytes(msgs, SIMULATION_MEMO, 0) {
        Ok(b) => b,
        Err(message) => {
            return Err(TxError::ChainError(ChainError::ProtoEncoding { message }));
        },
    };
    let fee_bytes = match fee_to_bytes(&fee) {
        Ok(b) => b,
        Err(message) => {
            return Err(TxError::ChainError(ChainError::ProtoEncoding { message }));
        },
    };
    let auth_info_bytes = match auth_info_to_bytes(&None, account.sequence, fee_bytes.as_slice()) {
        Ok(b) => b,
        Err(message) => {
            return Err(TxError::ChainError(ChainError::ProtoEncoding { message }));
        },
    };
    let mut signatures: Vec<Vec<u8>> = Vec::new();
    let empty: Vec<u8> = Vec::new();
    assert(empty.deep_view() =~= Seq::<u8>::empty());
    signatures.push(empty);
    assert(signatures.deep_view() =~= seq![Seq::<u8>::empty()]);
    Ok(RawTx::new(body_bytes, auth_info_bytes, signatures))
}

/// The fee that the simulated gas `gas_info` leads to under the chain's gas
/// price and gas adjustment: the gas limit is the gas used times the
/// adjustment, rounded up; the fee is the gas limit times the price,
/// rounded up, in the fee denom. Both are cut at the greatest 64-bit
/// number.
pub fn simulated_fee(denom: &str, gas_price: &Ratio, gas_adjustment: &Ratio, gas_info: GasInfo) -> (r:
    Result<Fee, TxError>)
    ensures
        !valid_denom(denom@) ==> (r matches Err(TxError::ChainError(ChainError::Denom { name }))
            && name@ == denom@),
        valid_denom(denom@) ==> (r matches Ok(f) && f@ == (FeeView {
            amount: seq![
                CoinView {
                    denom: denom@,
                    amount: saturated(
                        fee_amount_for(
                            gas_info.gas_used.spec_value() as nat,
                            gas_adjustment.num(),
                            gas_adjustment.den(),
                            gas_price.num(),
                            gas_price.den(),
                        ),
                    ) as u128,
                },
            ],
            gas_limit: saturated(
                gas_limit_for(
                    gas_info.gas_used.spec_value() as nat,
                    gas_adjustment.num(),
                    gas_adjustment.den(),
                ),
            ),
            payer: None,
            granter: None,
        })),
{
    let denom = match Denom::from_str(denom) {
        Ok(d) => d,
        Err(e) => {
            return Err(TxError::ChainError(e));
        },
    };
    let ghost text = denom@;
    let fee = fee_from_gas(denom, gas_info, gas_price, gas_adjustment);
    assert(fee@.amount =~= seq![fee.amount@[0]@]);
    Ok(fee)
}

/// How far the signing of a transaction has come.
#[derive(Debug, PartialEq, Eq)]
pub enum TxSignState {
    /// Nothing has happened yet.
    Start,
    /// The account was asked for and is awaited.
    AwaitingAccount,
    /// The account is known; the gas was asked for and is awaited.
    AwaitingGas(Account),
    /// The transaction is signed, or signing has failed.
    Finished,
}

/// What has happened since the last step.
#[derive(Debug, PartialEq, Eq)]
pub enum TxSignEvent {
    /// The caller asks for the transaction to be signed.
    Begin,
    /// The node answered the account query.
    AccountFetched(Account),
    /// The node answered the simulation.
    GasSimulated(GasInfo),
}

/// What is to be done next.
#[derive(Debug, PartialEq, Eq)]
pub enum TxSignAction {
    /// Query the account at this address.
    QueryAccount(Address),
    /// Simulate this transaction.
    Simulate(RawTx),
    /// Hand this signed transaction to the caller.
    Deliver(RawTx),
    /// Give up with this error.
    Abort(TxError),
}

/// Whether `event` is what a signing in the state `state` waits for.
pub open spec fn accepts(state: TxSignState, event: TxSignEvent) -> bool {
    match (state, event) {
        (TxSignState::Start, TxSignEvent::Begin) => true,
        (TxSignState::AwaitingAccount, TxSignEvent::AccountFetched(_)) => true,
        (TxSignState::AwaitingGas(_), TxSignEvent::GasSimulated(_)) => true,
        _ => false,
    }
}

/// Whether `action` ends the signing as `outcome` says: by delivering the
/// transaction with that view, or by giving up with an error of that kind.
pub open spec fn ends_with(action: TxSignAction, outcome: Result<RawTxView, SignFailure>) -> bool {
    match outcome {
        Ok(view) => action matches TxSignAction::Deliver(tx) && tx@ == view,
        Err(kind) => action matches TxSignAction::Abort(e) && is_tx_failure(e, kind),
    }
}

/// The timeout height of a transaction under `options`: none means zero.
pub open spec fn timeout_of(options: TxOptions) -> u64 {
    match options.timeout_height {
        Some(height) => height,
        None => 0,
    }
}

/// What the step after the account is known must give. With a fee in the
/// options the transaction is signed at once; without one the dry-run
/// transaction is built and its simulation is asked for.
pub open spec fn after_account(
    cfg: ChainConfig,
    msgs: Seq<AnyView>,
    key: KeyView,
    options: TxOptions,
    account: AccountView,
    next: TxSignState,
    action: TxSignAction,
) -> bool {
    match options.fee {
        Some(fee) => next is Finished && ends_with(
            action,
            sign_outcome(
                key,
                msgs,
                timeout_of(options),
                options.memo@,
                account,
                fee@,
                cfg.chain_id@,
                cfg.derivation_path@,
            ),
        ),
        None => match simulation_tx_of(cfg.denom@, msgs, account.sequence) {
            Ok(view) => {
                &&& next matches TxSignState::AwaitingGas(a) && a@ == account
                &&& action matches TxSignAction::Simulate(tx) && tx@ == view
            },
            Err(kind) => next is Finished && ends_with(action, Err(kind)),
        },
    }
}

/// What the step after the simulation must give: the transaction signed
/// with the fee that the simulated gas leads to.
pub open spec fn after_gas(
    cfg: ChainConfig,
    msgs: Seq<AnyView>,
    key: KeyView,
    options: TxOptions,
    account: AccountView,
    gas_info: GasInfo,
    next: TxSignState,
    action: TxSignAction,
) -> bool {
    &&& next is Finished
    &&& if !valid_denom(cfg.denom@) {
        ends_with(action, Err(SignFailure::Denom(cfg.denom@)))
    } else {
        ends_with(
            action,
            sign_outcome(
                key,
                msgs,
                timeout_of(options),
                options.memo@,
                account,
                FeeView {
                    amount: seq![
                        CoinView {
                            denom: cfg.denom@,
                            amount: saturated(
                                fee_amount_for(
                                    gas_info.gas_used.spec_value() as nat,
                                    cfg.gas_adjustment.num(),
                                    cfg.gas_adjustment.den(),
                                    cfg.gas_price.num(),
                                    cfg.gas_price.den(),
                                ),
                            ) as u128,
                        },
                    ],
                    gas_limit: saturated(
                        gas_limit_for(
                            gas_info.gas_used.spec_value() as nat,
                            cfg.gas_adjustment.num(),
                            cfg.gas_adjustment.den(),
                        ),
                    ),
                    payer: None,
                    granter: None,
                },
                cfg.chain_id@,
                cfg.derivation_path@,
            ),
        )
    }
}

/// What a step must give, state by state.
///
/// At the start the key's address is worked out, which can fail. With an
/// account in the options the step goes on as if that account had been
/// fetched; without one the account at the key's address is asked for.
pub open spec fn step_is(
    cfg: ChainConfig,
    msgs: Seq<AnyView>,
    key: KeyView,
    options: TxOptions,
    state: TxSignState,
    event: TxSignEvent,
    next: TxSignState,
    action: TxSignAction,
) -> bool {
    match (state, event) {
        (TxSignState::Start, TxSignEvent::Begin) => match address_of(
            key,
            cfg.prefix@,
            cfg.derivation_path@,
        ) {
            Err(kind) => next is Finished && ends_with(action, Err(kind)),
            Ok(parts) => match options.account {
                Some(account) => after_account(cfg, msgs, key, options, account@, next, action),
                None => {
                    &&& next is AwaitingAccount
                    &&& action matches TxSignAction::QueryAccount(address)
                    &&& address@ == bech32_text(parts.0, parts.1)
                    &&& address.spec_prefix() == parts.0
                    &&& address.spec_bytes() == parts.1
                },
            },
        },
        (TxSignState::AwaitingAccount, TxSignEvent::AccountFetched(account)) => after_account(
            cfg,
            msgs,
            key,
            options,
            account@,
            next,
            action,
        ),
        (TxSignState::AwaitingGas(account), TxSignEvent::GasSimulated(gas_info)) => after_gas(
            cfg,
            msgs,
            key,
            options,
            account@,
            gas_info,
            next,
            action,
        ),
        _ => true,
    }
}

/// A copy of `msgs`, message by message.
pub fn clone_msgs(msgs: &Vec<Any>) -> (r: Vec<Any>)
    ensures
        r.deep_view() == msgs.deep_view(),
{
    let mut out: Vec<Any> = Vec::new();
    let mut i: usize = 0;
    while i < msgs.len()
        invariant
            i <= msgs.len(),
            out.len() == i,
            forall|j: int| 0 <= j < i ==> out[j]@ == msgs[j]@,
        decreases msgs.len() - i,
    {
        out.push(msgs[i].clone());
        i += 1;
    }
    assert(out.deep_view() =~= msgs.deep_view());
    out
}

fn sign_now(
    cfg: &ChainConfig,
    msgs: &Vec<Any>,
    key: &SigningKey,
    options: &TxOptions,
    account: Account,
    fee: Fee,
) -> (r: (TxSignState, TxSignAction))
    ensures
        r.0 is Finished,
        ends_with(
            r.1,
            sign_outcome(
                key.key@,
                msgs.deep_view(),
                timeout_of(*options),
                options.memo@,
                account@,
                fee@,
                cfg.chain_id@,
                cfg.derivation_path@,
            ),
        ),
{
    let timeout_height = match options.timeout_height {
        Some(height) => height,
        None => 0,
    };
    let signed = key.sign(
        clone_msgs(msgs),
        timeout_height,
        options.memo.as_str(),
        account,
        fee,
        cfg.chain_id.as_str(),
        cfg.derivation_path.as_str(),
    );
    match signed {
        Ok(tx) => (TxSignState::Finished, TxSignAction::Deliver(tx)),
        Err(e) => (TxSignState::Finished, TxSignAction::Abort(TxError::ChainError(e))),
    }
}

fn step_with_account(
    cfg: &ChainConfig,
    msgs: &Vec<Any>,
    key: &SigningKey,
    options: &TxOptions,
    account: Account,
) -> (r: (TxSignState, TxSignAction))
    ensures
        after_account(*cfg, msgs.deep_view(), key.key@, *options, account@, r.0, r.1),
{
    match &options.fee {
        Some(fee) => sign_now(cfg, msgs, key, options, account, fee.clone()),
        None => match simulation_tx(cfg.denom.as_str(), msgs, &account) {
            Ok(tx) => (TxSignState::AwaitingGas(account), TxSignAction::Simulate(tx)),
            Err(e) => (TxSignState::Finished, TxSignAction::Abort(e)),
        },
    }
}

/// One step in the signing of the messages `msgs` with `key` on the chain
/// `cfg`, under the caller's options.
///
/// The first step takes `Start` and `Begin`. Whenever the action is a
/// question to the node, the next step takes the state that came back and
/// the node's answer. The signing is over when the state is `Finished`.
pub fn tx_sign_step(
    cfg: &ChainConfig,
    msgs: &Vec<Any>,
    key: &SigningKey,
    options: &TxOptions,
    state: TxSignState,
    event: TxSignEvent,
) -> (r: (TxSignState, TxSignAction))
    requires
        accepts(state, event),
    ensures
        step_is(*cfg, msgs.deep_view(), key.key@, *options, state, event, r.0, r.1),
{
    match (state, event) {
        (TxSignState::Start, TxSignEvent::Begin) => {
            let address = match key.to_addr(cfg.prefix.as_str(), cfg.derivation_path.as_str()) {
                Ok(a) => a,
                Err(e) => {
                    return (TxSignState::Finished, TxSignAction::Abort(TxError::ChainError(e)));
                },
            };
            match &options.account {
                Some(account) => step_with_account(cfg, msgs, key, options, account.clone()),
                None => (TxSignState::AwaitingAccount, TxSignAction::QueryAccount(address)),
            }
        },
        (TxSignState::AwaitingAccount, TxSignEvent::AccountFetched(account)) => step_with_account(
            cfg,
            msgs,
            key,
            options,
            account,
        ),
        (TxSignState::AwaitingGas(account), TxSignEvent::GasSimulated(gas_info)) => {
            let fee = match simulated_fee(
                cfg.denom.as_str(),
                &cfg.gas_price,
                &cfg.gas_adjustment,
                gas_info,
            ) {
                Ok(f) => f,
                Err(e) => {
                    return (TxSignState::Finished, TxSignAction::Abort(e));
                },
            };
            sign_now(cfg, msgs, key, options, account, fee)
        },
        _ => (
            TxSignState::Finished,
            TxSignAction::Abort(TxError::ChainError(ChainError::Simulation)),
        ),
    }
}

/// Whether a signing in the state `state` waits for `event`.
pub fn state_accepts(state: &TxSignState, event: &TxSignEvent) -> (r: bool)
    ensures
        r == accepts(*state, *event),
{
    match (state, event) {
        (TxSignState::Start, TxSignEvent::Begin) => true,
        (TxSignState::AwaitingAccount, TxSignEvent::AccountFetched(_)) => true,
        (TxSignState::AwaitingGas(_), TxSignEvent::GasSimulated(_)) => true,
        _ => false,
    }
}

} // verus!
