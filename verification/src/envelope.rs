//! Messages into their envelopes and out of them.
//!
//! Every message of a transaction travels as an `Any`: the name of its type
//! and its protobuf bytes. The encoding is `prost`'s; each function here
//! hands one message type to it.

use crate::chain::msg::{Any, AnyView};
use crate::proto::{
    ProtoAccessConfig, ProtoCoin, ProtoMsgExecuteContract, ProtoMsgExecuteContractView,
    ProtoMsgInstantiateContract, ProtoMsgInstantiateContractView, ProtoMsgMigrateContract,
    ProtoMsgMigrateContractView, ProtoMsgSend, ProtoMsgSendView, ProtoMsgStoreCode,
    ProtoMsgStoreCodeView,
};
use cosmrs::proto::cosmos::bank::v1beta1::MsgSend;
use cosmrs::proto::cosmos::base::v1beta1::Coin as BaseCoin;
use cosmrs::proto::cosmwasm::wasm::v1 as wasm;
use vstd::prelude::*;

verus! {

/// The envelope that `Any::from_msg` makes of a `MsgSend` with these
/// fields, or `None` where encoding fails.
pub uninterp spec fn msg_send_envelope(msg: ProtoMsgSendView) -> Option<AnyView>;

/// The `MsgSend` that `Any::to_msg` reads out of this envelope, or `None`
/// where the envelope holds none.
pub uninterp spec fn msg_send_unwrapped(any: AnyView) -> Option<ProtoMsgSendView>;

/// `Any::from_msg` on a `MsgSend` with the fields of `msg`.
#[verifier::external_body]
pub(crate) fn msg_send_to_any(msg: &ProtoMsgSend) -> (r: Result<Any, String>)
    ensures
        r matches Ok(any) ==> msg_send_envelope(msg@) == Some(any@),
        r is Err ==> msg_send_envelope(msg@) is None,
{
    let coin = |c: &ProtoCoin| BaseCoin { denom: c.denom.clone(), amount: c.amount.clone() };
    let message = MsgSend {
        from_address: msg.from_address.clone(),
        to_address: msg.to_address.clone(),
        amount: msg.amount.iter().map(coin).collect(),
    };
    let any = cosmrs::Any::from_msg(&message).map_err(|e| e.to_string())?;
    Ok(Any { type_url: any.type_url, value: any.value })
}

/// `Any::to_msg` for `MsgSend`; the message's fields come back, or the
/// decoder's complaint.
#[verifier::external_body]
pub(crate) fn msg_send_from_any(any: &Any) -> (r: Result<ProtoMsgSend, String>)
    ensures
        r matches Ok(msg) ==> msg_send_unwrapped(any@) == Some(msg@),
        r is Err ==> msg_send_unwrapped(any@) is None,
{
    let any = cosmrs::Any { type_url: any.type_url.clone(), value: any.value.clone() };
    let message: MsgSend = any.to_msg().map_err(|e| e.to_string())?;
    let coin = |c: BaseCoin| ProtoCoin { denom: c.denom, amount: c.amount };
    Ok(ProtoMsgSend {
        from_address: message.from_address,
        to_address: message.to_address,
        amount: message.amount.into_iter().map(coin).collect(),
    })
}

/// The envelope that `Any::from_msg` makes of a `MsgStoreCode` with these
/// fields, or `None` where encoding fails.
pub uninterp spec fn msg_store_code_envelope(msg: ProtoMsgStoreCodeView) -> Option<AnyView>;

/// The `MsgStoreCode` that `Any::to_msg` reads out of this envelope, or
/// `None` where the envelope holds none.
pub uninterp spec fn msg_store_code_unwrapped(any: AnyView) -> Option<ProtoMsgStoreCodeView>;

/// `Any::from_msg` on a `MsgStoreCode` with the fields of `msg`.
#[verifier::external_body]
pub(crate) fn msg_store_code_to_any(msg: &ProtoMsgStoreCode) -> (r: Result<Any, String>)
    ensures
        r matches Ok(any) ==> msg_store_code_envelope(msg@) == Some(any@),
        r is Err ==> msg_store_code_envelope(msg@) is None,
{
    let perm = |p: &ProtoAccessConfig| wasm::AccessConfig {
        permission: p.permission,
        addresses: p.addresses.clone(),
    };
    let message = wasm::MsgStoreCode {
        sender: msg.sender.clone(),
        wasm_byte_code: msg.wasm_byte_code.clone(),
        instantiate_permission: msg.instantiate_permission.as_ref().map(perm),
    };
    let any = cosmrs::Any::from_msg(&message).map_err(|e| e.to_string())?;
    Ok(Any { type_url: any.type_url, value: any.value })
}

/// `Any::to_msg` for `MsgStoreCode`; the message's fields come back, or
/// the decoder's complaint.
#[verifier::external_body]
pub(crate) fn msg_store_code_from_any(any: &Any) -> (r: Result<ProtoMsgStoreCode, String>)
    ensures
        r matches Ok(msg) ==> msg_store_code_unwrapped(any@) == Some(msg@),
        r is Err ==> msg_store_code_unwrapped(any@) is None,
{
    let any = cosmrs::Any { type_url: any.type_url.clone(), value: any.value.clone() };
    let message: wasm::MsgStoreCode = any.to_msg().map_err(|e| e.to_string())?;
    let perm = |p: wasm::AccessConfig| ProtoAccessConfig {
        permission: p.permission,
        addresses: p.addresses,
    };
    Ok(ProtoMsgStoreCode {
        sender: message.sender,
        wasm_byte_code: message.wasm_byte_code,
        instantiate_permission: message.instantiate_permission.map(perm),
    })
}

/// The envelope that `Any::from_msg` makes of a `MsgInstantiateContract`
/// with these fields, or `None` where encoding fails.
pub uninterp spec fn msg_instantiate_envelope(msg: ProtoMsgInstantiateContractView) -> Option<AnyView>;

/// The `MsgInstantiateContract` that `Any::to_msg` reads out of this
/// envelope, or `None` where the envelope holds none.
pub uninterp spec fn msg_instantiate_unwrapped(any: AnyView) -> Option<
    ProtoMsgInstantiateContractView,
>;

/// `Any::from_msg` on a `MsgInstantiateContract` with the fields of `msg`.
#[verifier::external_body]
pub(crate) fn msg_instantiate_to_any(msg: &ProtoMsgInstantiateContract) -> (r: Result<Any, String>)
    ensures
        r matches Ok(any) ==> msg_instantiate_envelope(msg@) == Some(any@),
        r is Err ==> msg_instantiate_envelope(msg@) is None,
{
    let coin = |c: &ProtoCoin| BaseCoin { denom: c.denom.clone(), amount: c.amount.clone() };
    let message = wasm::MsgInstantiateContract {
        sender: msg.sender.clone(),
        admin: msg.admin.clone(),
        code_id: msg.code_id,
        label: msg.label.clone(),
        msg: msg.msg.clone(),
        funds: msg.funds.iter().map(coin).collect(),
    };
    let any = cosmrs::Any::from_msg(&message).map_err(|e| e.to_string())?;
    Ok(Any { type_url: any.type_url, value: any.value })
}

/// `Any::to_msg` for `MsgInstantiateContract`; the message's fields come
/// back, or the decoder's complaint.
#[verifier::external_body]
pub(crate) fn msg_instantiate_from_any(any: &Any) -> (r: Result<ProtoMsgInstantiateContract, String>)
    ensures
        r matches Ok(msg) ==> msg_instantiate_unwrapped(any@) == Some(msg@),
        r is Err ==> msg_instantiate_unwrapped(any@) is None,
{
    let any = cosmrs::Any { type_url: any.type_url.clone(), value: any.value.clone() };
    let m: wasm::MsgInstantiateContract = any.to_msg().map_err(|e| e.to_string())?;
    let coin = |c: BaseCoin| ProtoCoin { denom: c.denom, amount: c.amount };
    Ok(ProtoMsgInstantiateContract {
        sender: m.sender,
        admin: m.admin,
        code_id: m.code_id,
        label: m.label,
        msg: m.msg,
        funds: m.funds.into_iter().map(coin).collect(),
    })
}

/// The envelope that `Any::from_msg` makes of a `MsgExecuteContract` with
/// these fields, or `None` where encoding fails.
pub uninterp spec fn msg_execute_envelope(msg: ProtoMsgExecuteContractView) -> Option<AnyView>;

/// The `MsgExecuteContract` that `Any::to_msg` reads out of this envelope,
/// or `None` where the envelope holds none.
pub uninterp spec fn msg_execute_unwrapped(any: AnyView) -> Option<ProtoMsgExecuteContractView>;

/// `Any::from_msg` on a `MsgExecuteContract` with the fields of `msg`.
#[verifier::external_body]
pub(crate) fn msg_execute_to_any(msg: &ProtoMsgExecuteContract) -> (r: Result<Any, String>)
    ensures
        r matches Ok(any) ==> msg_execute_envelope(msg@) == Some(any@),
        r is Err ==> msg_execute_envelope(msg@) is None,
{
    let coin = |c: &ProtoCoin| BaseCoin { denom: c.denom.clone(), amount: c.amount.clone() };
    let message = wasm::MsgExecuteContract {
        sender: msg.sender.clone(),
        contract: msg.contract.clone(),
        msg: msg.msg.clone(),
        funds: msg.funds.iter().map(coin).collect(),
    };
    let any = cosmrs::Any::from_msg(&message).map_err(|e| e.to_string())?;
    Ok(Any { type_url: any.type_url, value: any.value })
}

/// `Any::to_msg` for `MsgExecuteContract`; the message's fields come back,
/// or the decoder's complaint.
#[verifier::external_body]
pub(crate) fn msg_execute_from_any(any: &Any) -> (r: Result<ProtoMsgExecuteContract, String>)
    ensures
        r matches Ok(msg) ==> msg_execute_unwrapped(any@) == Some(msg@),
        r is Err ==> msg_execute_unwrapped(any@) is None,
{
    let any = cosmrs::Any { type_url: any.type_url.clone(), value: any.value.clone() };
    let m: wasm::MsgExecuteContract = any.to_msg().map_err(|e| e.to_string())?;
    let coin = |c: BaseCoin| ProtoCoin { denom: c.denom, amount: c.amount };
    Ok(ProtoMsgExecuteContract {
        sender: m.sender,
        contract: m.contract,
        msg: m.msg,
        funds: m.funds.into_iter().map(coin).collect(),
    })
}

/// The envelope that `Any::from_msg` makes of a `MsgMigrateContract` with
/// these fields, or `None` where encoding fails.
pub uninterp spec fn msg_migrate_envelope(msg: ProtoMsgMigrateContractView) -> Option<AnyView>;

/// The `MsgMigrateContract` that `Any::to_msg` reads out of this envelope,
/// or `None` where the envelope holds none.
pub uninterp spec fn msg_migrate_unwrapped(any: AnyView) -> Option<ProtoMsgMigrateContractView>;

/// `Any::from_msg` on a `MsgMigrateContract` with the fields of `msg`.
#[verifier::external_body]
pub(crate) fn msg_migrate_to_any(msg: &ProtoMsgMigrateContract) -> (r: Result<Any, String>)
    ensures
        r matches Ok(any) ==> msg_migrate_envelope(msg@) == Some(any@),
        r is Err ==> msg_migrate_envelope(msg@) is None,
{
    let message = wasm::MsgMigrateContract {
        sender: msg.sender.clone(),
        contract: msg.contract.clone(),
        code_id: msg.code_id,
        msg: msg.msg.clone(),
    };
    let any = cosmrs::Any::from_msg(&message).map_err(|e| e.to_string())?;
    Ok(Any { type_url: any.type_url, value: any.value })
}

/// `Any::to_msg` for `MsgMigrateContract`; the message's fields come back,
/// or the decoder's complaint.
#[verifier::external_body]
pub(crate) fn msg_migrate_from_any(any: &Any) -> (r: Result<ProtoMsgMigrateContract, String>)
    ensures
        r matches Ok(msg) ==> msg_migrate_unwrapped(any@) == Some(msg@),
        r is Err ==> msg_migrate_unwrapped(any@) is None,
{
    let any = cosmrs::Any { type_url: any.type_url.clone(), value: any.value.clone() };
    let m: wasm::MsgMigrateContract = any.to_msg().map_err(|e| e.to_string())?;
    Ok(ProtoMsgMigrateContract { sender: m.sender, contract: m.contract, code_id: m.code_id, msg: m.msg })
}

} // verus!
