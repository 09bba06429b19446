//! Plain mirrors of the protobuf messages that this library reads and fills.
//!
//! Each struct holds the fields of one message as ordinary values, under the
//! field names of the message, so that the rules that turn them into the
//! library's own types can be stated and checked.

use vstd::prelude::*;

verus! {

/// `cosmos.base.v1beta1.Coin`: the amount travels as decimal text.
#[derive(Debug, PartialEq, Eq)]
pub struct ProtoCoin {
    pub denom: String,
    pub amount: String,
}

/// The fields of a coin message.
pub struct ProtoCoinView {
    pub denom: Seq<char>,
    pub amount: Seq<char>,
}

impl DeepView for ProtoCoin {
    type V = ProtoCoinView;

    open spec fn deep_view(&self) -> ProtoCoinView {
        ProtoCoinView { denom: self.denom@, amount: self.amount@ }
    }
}

impl View for ProtoCoin {
    type V = ProtoCoinView;

    open spec fn view(&self) -> ProtoCoinView {
        self.deep_view()
    }
}

/// `cosmos.base.abci.v1beta1.GasInfo`.
#[derive(Copy, Clone, Debug, PartialEq, Eq, Structural)]
pub struct ProtoGasInfo {
    pub gas_wanted: u64,
    pub gas_used: u64,
}

/// `tendermint.abci.EventAttribute`.
#[derive(Debug, PartialEq, Eq)]
pub struct ProtoEventAttribute {
    pub key: String,
    pub value: String,
    pub index: bool,
}

/// `tendermint.abci.Event`.
#[derive(Debug, PartialEq, Eq)]
pub struct ProtoEvent {
    pub kind: String,
    pub attributes: Vec<ProtoEventAttribute>,
}

/// `cosmos.base.abci.v1beta1.TxResponse`, as far as this library reads it.
#[derive(Debug, PartialEq, Eq)]
pub struct ProtoTxResponse {
    pub height: i64,
    pub txhash: String,
    pub code: u32,
    pub data: String,
    pub raw_log: String,
    pub gas_wanted: i64,
    pub gas_used: i64,
    pub events: Vec<ProtoEvent>,
}

/// `cosmos.base.query.v1beta1.PageRequest`.
#[derive(Debug, PartialEq, Eq)]
pub struct ProtoPageRequest {
    pub key: Vec<u8>,
    pub offset: u64,
    pub limit: u64,
    pub count_total: bool,
    pub reverse: bool,
}

/// `cosmos.base.query.v1beta1.PageResponse`.
#[derive(Debug, PartialEq, Eq)]
pub struct ProtoPageResponse {
    pub next_key: Vec<u8>,
    pub total: u64,
}

/// `cosmos.auth.v1beta1.BaseAccount`.
#[derive(Debug, PartialEq, Eq)]
pub struct ProtoBaseAccount {
    pub address: String,
    pub pub_key: Option<crate::chain::msg::Any>,
    pub account_number: u64,
    pub sequence: u64,
}

/// `cosmos.auth.v1beta1.Params`.
#[derive(Copy, Clone, Debug, PartialEq, Eq, Structural)]
pub struct ProtoAuthParams {
    pub max_memo_characters: u64,
    pub tx_sig_limit: u64,
    pub tx_size_cost_per_byte: u64,
    pub sig_verify_cost_ed25519: u64,
    pub sig_verify_cost_secp256k1: u64,
}

/// The broadcast modes of `cosmos.tx.v1beta1.BroadcastMode`.
#[derive(Copy, Clone, Debug, PartialEq, Eq, Structural)]
pub enum ProtoBroadcastMode {
    Unspecified,
    Block,
    Sync,
    Async,
}

/// `cosmos.bank.v1beta1.MsgSend`.
#[derive(Debug, PartialEq, Eq)]
pub struct ProtoMsgSend {
    pub from_address: String,
    pub to_address: String,
    pub amount: Vec<ProtoCoin>,
}

/// The fields of a transfer message.
pub struct ProtoMsgSendView {
    pub from_address: Seq<char>,
    pub to_address: Seq<char>,
    pub amount: Seq<ProtoCoinView>,
}

impl DeepView for ProtoMsgSend {
    type V = ProtoMsgSendView;

    open spec fn deep_view(&self) -> ProtoMsgSendView {
        ProtoMsgSendView {
            from_address: self.from_address@,
            to_address: self.to_address@,
            amount: self.amount.deep_view(),
        }
    }
}

impl View for ProtoMsgSend {
    type V = ProtoMsgSendView;

    open spec fn view(&self) -> ProtoMsgSendView {
        self.deep_view()
    }
}

/// `cosmos.bank.v1beta1.DenomUnit`.
#[derive(Debug, PartialEq, Eq)]
pub struct ProtoDenomUnit {
    pub denom: String,
    pub exponent: u32,
    pub aliases: Vec<String>,
}

/// `cosmos.bank.v1beta1.Metadata`.
#[derive(Debug, PartialEq, Eq)]
pub struct ProtoMetadata {
    pub description: String,
    pub denom_units: Vec<ProtoDenomUnit>,
    pub base: String,
    pub display: String,
    pub name: String,
    pub symbol: String,
    pub uri: String,
    pub uri_hash: String,
}

/// `cosmos.bank.v1beta1.SendEnabled`.
#[derive(Debug, PartialEq, Eq)]
pub struct ProtoSendEnabled {
    pub denom: String,
    pub enabled: bool,
}

/// `cosmos.bank.v1beta1.Params`.
#[derive(Debug, PartialEq, Eq)]
pub struct ProtoBankParams {
    pub send_enabled: Vec<ProtoSendEnabled>,
    pub default_send_enabled: bool,
}

/// `cosmwasm.wasm.v1.AccessType`.
#[derive(Copy, Clone, Debug, PartialEq, Eq, Structural)]
pub enum ProtoAccessType {
    Unspecified,
    Nobody,
    Everybody,
    AnyOfAddresses,
}

/// `cosmwasm.wasm.v1.AccessConfig`.
#[derive(Debug, PartialEq, Eq)]
pub struct ProtoAccessConfig {
    pub permission: i32,
    pub addresses: Vec<String>,
}

/// The fields of a permission message.
pub struct ProtoAccessConfigView {
    pub permission: i32,
    pub addresses: Seq<Seq<char>>,
}

impl DeepView for ProtoAccessConfig {
    type V = ProtoAccessConfigView;

    open spec fn deep_view(&self) -> ProtoAccessConfigView {
        ProtoAccessConfigView {
            permission: self.permission,
            addresses: self.addresses.deep_view(),
        }
    }
}

impl View for ProtoAccessConfig {
    type V = ProtoAccessConfigView;

    open spec fn view(&self) -> ProtoAccessConfigView {
        self.deep_view()
    }
}

/// `cosmwasm.wasm.v1.MsgStoreCode`.
#[derive(Debug, PartialEq, Eq)]
pub struct ProtoMsgStoreCode {
    pub sender: String,
    pub wasm_byte_code: Vec<u8>,
    pub instantiate_permission: Option<ProtoAccessConfig>,
}

/// The fields of a store-code message.
pub struct ProtoMsgStoreCodeView {
    pub sender: Seq<char>,
    pub wasm_byte_code: Seq<u8>,
    pub instantiate_permission: Option<ProtoAccessConfigView>,
}

impl DeepView for ProtoMsgStoreCode {
    type V = ProtoMsgStoreCodeView;

    open spec fn deep_view(&self) -> ProtoMsgStoreCodeView {
        ProtoMsgStoreCodeView {
            sender: self.sender@,
            wasm_byte_code: self.wasm_byte_code@,
            instantiate_permission: self.instantiate_permission.deep_view(),
        }
    }
}

impl View for ProtoMsgStoreCode {
    type V = ProtoMsgStoreCodeView;

    open spec fn view(&self) -> ProtoMsgStoreCodeView {
        self.deep_view()
    }
}

/// `cosmwasm.wasm.v1.MsgInstantiateContract`.
#[derive(Debug, PartialEq, Eq)]
pub struct ProtoMsgInstantiateContract {
    pub sender: String,
    pub admin: String,
    pub code_id: u64,
    pub label: String,
    pub msg: Vec<u8>,
    pub funds: Vec<ProtoCoin>,
}

/// The fields of an instantiate message.
pub struct ProtoMsgInstantiateContractView {
    pub sender: Seq<char>,
    pub admin: Seq<char>,
    pub code_id: u64,
    pub label: Seq<char>,
    pub msg: Seq<u8>,
    pub funds: Seq<ProtoCoinView>,
}

impl DeepView for ProtoMsgInstantiateContract {
    type V = ProtoMsgInstantiateContractView;

    open spec fn deep_view(&self) -> ProtoMsgInstantiateContractView {
        ProtoMsgInstantiateContractView {
            sender: self.sender@,
            admin: self.admin@,
            code_id: self.code_id,
            label: self.label@,
            msg: self.msg@,
            funds: self.funds.deep_view(),
        }
    }
}

impl View for ProtoMsgInstantiateContract {
    type V = ProtoMsgInstantiateContractView;

    open spec fn view(&self) -> ProtoMsgInstantiateContractView {
        self.deep_view()
    }
}

/// `cosmwasm.wasm.v1.MsgExecuteContract`.
#[derive(Debug, PartialEq, Eq)]
pub struct ProtoMsgExecuteContract {
    pub sender: String,
    pub contract: String,
    pub msg: Vec<u8>,
    pub funds: Vec<ProtoCoin>,
}

/// The fields of an execute message.
pub struct ProtoMsgExecuteContractView {
    pub sender: Seq<char>,
    pub contract: Seq<char>,
    pub msg: Seq<u8>,
    pub funds: Seq<ProtoCoinView>,
}

impl DeepView for ProtoMsgExecuteContract {
    type V = ProtoMsgExecuteContractView;

    open spec fn deep_view(&self) -> ProtoMsgExecuteContractView {
        ProtoMsgExecuteContractView {
            sender: self.sender@,
            contract: self.contract@,
            msg: self.msg@,
            funds: self.funds.deep_view(),
        }
    }
}

impl View for ProtoMsgExecuteContract {
    type V = ProtoMsgExecuteContractView;

    open spec fn view(&self) -> ProtoMsgExecuteContractView {
        self.deep_view()
    }
}

/// `cosmwasm.wasm.v1.MsgMigrateContract`.
#[derive(Debug, PartialEq, Eq)]
pub struct ProtoMsgMigrateContract {
    pub sender: String,
    pub contract: String,
    pub code_id: u64,
    pub msg: Vec<u8>,
}

/// The fields of a migrate message.
pub struct ProtoMsgMigrateContractView {
    pub sender: Seq<char>,
    pub contract: Seq<char>,
    pub code_id: u64,
    pub msg: Seq<u8>,
}

impl DeepView for ProtoMsgMigrateContract {
    type V = ProtoMsgMigrateContractView;

    open spec fn deep_view(&self) -> ProtoMsgMigrateContractView {
        ProtoMsgMigrateContractView {
            sender: self.sender@,
            contract: self.contract@,
            code_id: self.code_id,
            msg: self.msg@,
        }
    }
}

impl View for ProtoMsgMigrateContract {
    type V = ProtoMsgMigrateContractView;

    open spec fn view(&self) -> ProtoMsgMigrateContractView {
        self.deep_view()
    }
}

/// `cosmos.base.tendermint.v1beta1.Validator`.
#[derive(Debug, PartialEq, Eq)]
pub struct ProtoValidator {
    pub address: String,
    pub pub_key: Option<crate::chain::msg::Any>,
    pub voting_power: i64,
    pub proposer_priority: i64,
}

} // verus!
