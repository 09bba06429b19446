//! What the contract module speaks: permissions, requests, their message
//! forms and the answers.

use crate::chain::coin::Coin;
use crate::chain::error::{ChainError, DeserializeError};
use crate::chain::msg::{Any, AnyView, Msg};
use crate::chain::response::{ChainResponse, ChainTxResponse};
use crate::envelope::{
    msg_execute_envelope, msg_execute_from_any, msg_execute_to_any, msg_execute_unwrapped,
    msg_instantiate_envelope, msg_instantiate_from_any, msg_instantiate_to_any,
    msg_instantiate_unwrapped, msg_migrate_envelope, msg_migrate_from_any, msg_migrate_to_any,
    msg_migrate_unwrapped, msg_store_code_envelope, msg_store_code_from_any,
    msg_store_code_to_any, msg_store_code_unwrapped,
};
use crate::modules::auth::error::AccountError;
use crate::modules::auth::model::Address;
use crate::modules::bank::model::{
    address_reads, coin_messages, coins_are, coins_error_fits, coins_from_proto,
    coins_into_proto,
};
use crate::modules::cosmwasm::error::CosmwasmError;
use crate::proto::{
    ProtoAccessConfig, ProtoAccessConfigView, ProtoAccessType, ProtoMsgExecuteContract,
    ProtoMsgExecuteContractView, ProtoMsgInstantiateContract, ProtoMsgInstantiateContractView,
    ProtoMsgMigrateContract, ProtoMsgMigrateContractView, ProtoMsgStoreCode,
    ProtoMsgStoreCodeView,
};
use crate::sdk::account_id_parts;
use vstd::prelude::*;

verus! {

/// Who may instantiate a stored code.
#[derive(Copy, Clone, Debug, PartialEq, Eq, Structural, Hash, PartialOrd, Ord)]
pub enum AccessType {
    /// No value was given.
    Unspecified,
    /// Nobody may.
    Nobody,
    /// Only one address may.
    OnlyAddress,
    /// Everybody may.
    Everybody,
}

/// The number that selects `access` on the wire.
pub open spec fn access_number(access: AccessType) -> i32 {
    match access {
        AccessType::Unspecified => 0,
        AccessType::Nobody => 1,
        AccessType::OnlyAddress => 2,
        AccessType::Everybody => 3,
    }
}

impl AccessType {
    /// The number that selects this access type on the wire.
    pub fn number(self) -> (n: i32)
        ensures
            n == access_number(self),
    {
        match self {
            AccessType::Unspecified => 0,
            AccessType::Nobody => 1,
            AccessType::OnlyAddress => 2,
            AccessType::Everybody => 3,
        }
    }

    /// The name of this access type in the protocol's definition.
    pub fn as_ref(&self) -> (s: &'static str)
        ensures
            *self == AccessType::Unspecified ==> s@ == "ACCESS_TYPE_UNSPECIFIED"@,
            *self == AccessType::Nobody ==> s@ == "ACCESS_TYPE_NOBODY"@,
            *self == AccessType::OnlyAddress ==> s@ == "ACCESS_TYPE_ONLY_ADDRESS"@,
            *self == AccessType::Everybody ==> s@ == "ACCESS_TYPE_EVERYBODY"@,
    {
        match self {
            AccessType::Unspecified => "ACCESS_TYPE_UNSPECIFIED",
            AccessType::Nobody => "ACCESS_TYPE_NOBODY",
            AccessType::OnlyAddress => "ACCESS_TYPE_ONLY_ADDRESS",
            AccessType::Everybody => "ACCESS_TYPE_EVERYBODY",
        }
    }

    /// The access type that the number `v` selects; a number that selects
    /// none is refused under its own value.
    pub fn try_from_i32(v: i32) -> (r: Result<AccessType, CosmwasmError>)
        ensures
            0 <= v <= 3 ==> (r matches Ok(a) && access_number(a) == v),
            !(0 <= v <= 3) ==> r == Err::<AccessType, CosmwasmError>(
                CosmwasmError::AccessType { i: v },
            ),
    {
        if v == 0 {
            Ok(AccessType::Unspecified)
        } else if v == 1 {
            Ok(AccessType::Nobody)
        } else if v == 2 {
            Ok(AccessType::OnlyAddress)
        } else if v == 3 {
            Ok(AccessType::Everybody)
        } else {
            Err(CosmwasmError::AccessType { i: v })
        }
    }

    /// This access type in the protocol's enumeration, which has no entry
    /// for a single address: that one is refused under its number.
    pub fn into_proto(self) -> (r: Result<ProtoAccessType, CosmwasmError>)
        ensures
            r == match self {
                AccessType::Unspecified => Ok::<ProtoAccessType, CosmwasmError>(
                    ProtoAccessType::Unspecified,
                ),
                AccessType::Nobody => Ok::<ProtoAccessType, CosmwasmError>(ProtoAccessType::Nobody),
                AccessType::Everybody => Ok::<ProtoAccessType, CosmwasmError>(
                    ProtoAccessType::Everybody,
                ),
                AccessType::OnlyAddress => Err::<ProtoAccessType, CosmwasmError>(
                    CosmwasmError::AccessType { i: 2 },
                ),
            },
    {
        match self {
            AccessType::Unspecified => Ok(ProtoAccessType::Unspecified),
            AccessType::Nobody => Ok(ProtoAccessType::Nobody),
            AccessType::Everybody => Ok(ProtoAccessType::Everybody),
            AccessType::OnlyAddress => Err(CosmwasmError::AccessType { i: 2 }),
        }
    }

    /// Reads an access type of the protocol's enumeration, whose entry for
    /// a list of addresses has no counterpart here: that one is refused
    /// under its number.
    pub fn from_proto(perm: ProtoAccessType) -> (r: Result<AccessType, CosmwasmError>)
        ensures
            r == match perm {
                ProtoAccessType::Unspecified => Ok::<AccessType, CosmwasmError>(
                    AccessType::Unspecified,
                ),
                ProtoAccessType::Nobody => Ok::<AccessType, CosmwasmError>(AccessType::Nobody),
                ProtoAccessType::Everybody => Ok::<AccessType, CosmwasmError>(AccessType::Everybody),
                ProtoAccessType::AnyOfAddresses => Err::<AccessType, CosmwasmError>(
                    CosmwasmError::AccessType { i: 4 },
                ),
            },
    {
        match perm {
            ProtoAccessType::Unspecified => Ok(AccessType::Unspecified),
            ProtoAccessType::Nobody => Ok(AccessType::Nobody),
            ProtoAccessType::Everybody => Ok(AccessType::Everybody),
            ProtoAccessType::AnyOfAddresses => Err(CosmwasmError::AccessType { i: 4 }),
        }
    }
}

/// An access type is found again from its number, and no two share one.
pub proof fn lemma_access_number_injective(a: AccessType, b: AccessType)
    ensures
        0 <= access_number(a) <= 3,
        access_number(a) == access_number(b) ==> a == b,
{
}

/// A permission to instantiate: the kind of access and the address it is
/// about.
#[derive(Debug, PartialEq, Eq)]
pub struct AccessConfig {
    pub permission: AccessType,
    pub account: Address,
}

/// What a permission holds: its access type and the text of its address.
pub struct AccessConfigView {
    pub permission: AccessType,
    pub account: Seq<char>,
}

impl DeepView for AccessConfig {
    type V = AccessConfigView;

    open spec fn deep_view(&self) -> AccessConfigView {
        AccessConfigView { permission: self.permission, account: self.account@ }
    }
}

impl View for AccessConfig {
    type V = AccessConfigView;

    open spec fn view(&self) -> AccessConfigView {
        self.deep_view()
    }
}

impl Clone for AccessConfig {
    fn clone(&self) -> (r: Self)
        ensures
            r@ == self@,
    {
        AccessConfig { permission: self.permission, account: self.account.clone() }
    }
}

/// The message of a permission: the number of its access type and its one
/// address.
pub open spec fn access_message(config: AccessConfigView) -> ProtoAccessConfigView {
    ProtoAccessConfigView {
        permission: access_number(config.permission),
        addresses: seq![config.account],
    }
}

/// The address that a permission message is about: its first, or the empty
/// text where it has none.
pub open spec fn access_address(addresses: Seq<Seq<char>>) -> Seq<char> {
    if addresses.len() > 0 {
        addresses[0]
    } else {
        Seq::empty()
    }
}

impl AccessConfig {
    /// Writes the permission as a message.
    pub fn into_proto(self) -> (r: ProtoAccessConfig)
        ensures
            r@ == access_message(self@),
    {
        let mut addresses: Vec<String> = Vec::new();
        let permission = self.permission.number();
        let ghost account = self.account@;
        addresses.push(self.account.into_string());
        assert(addresses.deep_view() =~= seq![account]);
        ProtoAccessConfig { permission, addresses }
    }

    /// Reads a permission message: the access type first, then the first
    /// of its addresses.
    pub fn from_proto(config: ProtoAccessConfig) -> (r: Result<AccessConfig, CosmwasmError>)
        ensures
            !(0 <= config.permission <= 3) ==> r == Err::<AccessConfig, CosmwasmError>(
                CosmwasmError::AccessType { i: config.permission },
            ),
            0 <= config.permission <= 3 ==> match r {
                Ok(c) => access_number(c.permission) == config.permission && address_reads(
                    c.account,
                    access_address(config.addresses.deep_view()),
                ),
                Err(e) => account_id_parts(access_address(config.addresses.deep_view())) is None
                    && e matches CosmwasmError::AccountError(AccountError::Address { .. }),
            },
    {
        let permission = match AccessType::try_from_i32(config.permission) {
            Ok(p) => p,
            Err(e) => {
                return Err(e);
            },
        };
        let parsed = if config.addresses.len() > 0 {
            assert(config.addresses.deep_view()[0] == config.addresses[0]@);
            Address::from_str(config.addresses[0].as_str())
        } else {
            proof {
                reveal_strlit("");
                assert(""@ =~= Seq::<char>::empty());
                assert(config.addresses.deep_view().len() == 0);
            }
            Address::from_str("")
        };
        match parsed {
            Ok(account) => Ok(AccessConfig { permission, account }),
            Err(e) => Err(CosmwasmError::AccountError(e)),
        }
    }
}

/// The permission message of an optional permission.
pub open spec fn access_messages(config: Option<AccessConfig>) -> Option<ProtoAccessConfigView> {
    match config {
        Some(c) => Some(access_message(c@)),
        None => None,
    }
}

/// A request to store contract code.
#[derive(Debug, PartialEq, Eq)]
pub struct StoreCodeRequest {
    pub wasm_data: Vec<u8>,
    pub instantiate_perms: Option<AccessConfig>,
}

/// A request to store contract code, with its signer.
#[derive(Debug, PartialEq, Eq)]
pub struct StoreCodeProto {
    pub signer_addr: Address,
    pub wasm_data: Vec<u8>,
    pub instantiate_perms: Option<AccessConfig>,
}

impl StoreCodeRequest {
    /// The request with its signer named.
    pub fn to_proto(self, signer_addr: Address) -> (r: Result<StoreCodeProto, CosmwasmError>)
        ensures
            r == Ok::<StoreCodeProto, CosmwasmError>(
                StoreCodeProto {
                    signer_addr,
                    wasm_data: self.wasm_data,
                    instantiate_perms: self.instantiate_perms,
                },
            ),
    {
        Ok(
            StoreCodeProto {
                signer_addr,
                wasm_data: self.wasm_data,
                instantiate_perms: self.instantiate_perms,
            },
        )
    }
}

/// The message of a request to store code.
pub open spec fn store_code_message(req: StoreCodeProto) -> ProtoMsgStoreCodeView {
    ProtoMsgStoreCodeView {
        sender: req.signer_addr@,
        wasm_byte_code: req.wasm_data@,
        instantiate_permission: access_messages(req.instantiate_perms),
    }
}

/// Whether `r` is what reading the store-code message `msg` gives: the
/// sender's address is read first, then the permission's access type, then
/// the permission's address.
pub open spec fn store_code_reads(r: Result<StoreCodeProto, CosmwasmError>, msg: ProtoMsgStoreCodeView) -> bool {
    match account_id_parts(msg.sender) {
        None => r matches Err(CosmwasmError::AccountError(AccountError::Address { .. })),
        Some(_) => match msg.instantiate_permission {
            None => r matches Ok(req) && address_reads(req.signer_addr, msg.sender)
                && req.wasm_data@ == msg.wasm_byte_code && req.instantiate_perms is None,
            Some(c) => if !(0 <= c.permission <= 3) {
                r == Err::<StoreCodeProto, CosmwasmError>(
                    CosmwasmError::AccessType { i: c.permission },
                )
            } else if account_id_parts(access_address(c.addresses)) is None {
                r matches Err(CosmwasmError::AccountError(AccountError::Address { .. }))
            } else {
                r matches Ok(req) && address_reads(req.signer_addr, msg.sender) && req.wasm_data@
                    == msg.wasm_byte_code && (req.instantiate_perms matches Some(p)
                    && access_number(p.permission) == c.permission && address_reads(
                    p.account,
                    access_address(c.addresses),
                ))
            },
        },
    }
}

impl StoreCodeProto {
    /// Writes the request as a message.
    pub fn into_proto(self) -> (r: ProtoMsgStoreCode)
        ensures
            r@ == store_code_message(self),
    {
        let instantiate_permission = match self.instantiate_perms {
            Some(c) => Some(c.into_proto()),
            None => None,
        };
        ProtoMsgStoreCode {
            sender: self.signer_addr.into_string(),
            wasm_byte_code: self.wasm_data,
            instantiate_permission,
        }
    }

    /// Reads a store-code message: the sender's address first, then the
    /// permission where there is one.
    pub fn from_proto(msg: ProtoMsgStoreCode) -> (r: Result<StoreCodeProto, CosmwasmError>)
        ensures
            store_code_reads(r, msg@),
    {
        let signer_addr = match Address::from_str(msg.sender.as_str()) {
            Ok(a) => a,
            Err(e) => {
                return Err(CosmwasmError::AccountError(e));
            },
        };
        let instantiate_perms = match msg.instantiate_permission {
            None => None,
            Some(c) => match AccessConfig::from_proto(c) {
                Ok(config) => Some(config),
                Err(e) => {
                    return Err(e);
                },
            },
        };
        Ok(StoreCodeProto { signer_addr, wasm_data: msg.wasm_byte_code, instantiate_perms })
    }
}

impl Msg for StoreCodeProto {
    type Err = CosmwasmError;

    open spec fn spec_any(&self) -> Option<AnyView> {
        msg_store_code_envelope(store_code_message(*self))
    }

    fn to_any(&self) -> (r: Result<Any, CosmwasmError>)
        ensures
            self.spec_any() is None ==> r matches Err(
                CosmwasmError::ChainError(ChainError::ProtoEncoding { .. }),
            ),
    {
        let instantiate_perms = match &self.instantiate_perms {
            Some(c) => Some(c.clone()),
            None => None,
        };
        let copy = StoreCodeProto {
            signer_addr: self.signer_addr.clone(),
            wasm_data: self.wasm_data.clone(),
            instantiate_perms,
        };
        assert(store_code_message(copy) == store_code_message(*self));
        copy.into_any()
    }

    fn into_any(self) -> (r: Result<Any, CosmwasmError>)
        ensures
            self.spec_any() is None ==> r matches Err(
                CosmwasmError::ChainError(ChainError::ProtoEncoding { .. }),
            ),
    {
        let msg = self.into_proto();
        match msg_store_code_to_any(&msg) {
            Ok(any) => Ok(any),
            Err(message) => Err(CosmwasmError::ChainError(ChainError::ProtoEncoding { message })),
        }
    }

    fn from_any(any: &Any) -> (r: Result<StoreCodeProto, CosmwasmError>)
        ensures
            match msg_store_code_unwrapped(any@) {
                None => r matches Err(CosmwasmError::ChainError(ChainError::ProtoDecoding { .. })),
                Some(msg) => store_code_reads(r, msg),
            },
    {
        match msg_store_code_from_any(any) {
            Ok(msg) => StoreCodeProto::from_proto(msg),
            Err(message) => Err(CosmwasmError::ChainError(ChainError::ProtoDecoding { message })),
        }
    }
}

/// The answer to a stored code: the id that the chain gave it.
#[derive(Debug, PartialEq, Eq)]
pub struct StoreCodeResponse {
    pub code_id: u64,
    pub res: ChainTxResponse,
}

impl StoreCodeResponse {
    /// The payload of the response, for a reader that decodes it.
    pub fn data(&self) -> (r: Result<&Vec<u8>, DeserializeError>)
        ensures
            match self.res.res.data {
                Some(d) => r == Ok::<&Vec<u8>, DeserializeError>(&d),
                None => r == Err::<&Vec<u8>, DeserializeError>(DeserializeError::EmptyResponse),
            },
    {
        self.res.res.data()
    }

    /// The transaction response inside.
    pub fn as_ref(&self) -> (r: &ChainTxResponse)
        ensures
            *r == self.res,
    {
        &self.res
    }
}

/// The answer to a batch of stored codes: the ids in the order of the
/// batch.
#[derive(Debug, PartialEq, Eq)]
pub struct StoreCodeBatchResponse {
    pub code_ids: Vec<u64>,
    pub res: ChainTxResponse,
}

impl StoreCodeBatchResponse {
    /// The payload of the response, for a reader that decodes it.
    pub fn data(&self) -> (r: Result<&Vec<u8>, DeserializeError>)
        ensures
            match self.res.res.data {
                Some(d) => r == Ok::<&Vec<u8>, DeserializeError>(&d),
                None => r == Err::<&Vec<u8>, DeserializeError>(DeserializeError::EmptyResponse),
            },
    {
        self.res.res.data()
    }

    /// The transaction response inside.
    pub fn as_ref(&self) -> (r: &ChainTxResponse)
        ensures
            *r == self.res,
    {
        &self.res
    }
}

/// A request to instantiate a contract from stored code. `msg` is the
/// contract's own instantiate message, already written as JSON.
#[derive(Debug, PartialEq, Eq)]
pub struct InstantiateRequest {
    pub code_id: u64,
    pub msg: Vec<u8>,
    pub label: String,
    pub admin: Option<Address>,
    pub funds: Vec<Coin>,
}

/// A request to instantiate a contract, with its signer.
#[derive(Debug, PartialEq, Eq)]
pub struct InstantiateRequestProto {
    pub signer_addr: Address,
    pub code_id: u64,
    pub msg: Vec<u8>,
    pub label: String,
    pub admin: Option<Address>,
    pub funds: Vec<Coin>,
}

impl InstantiateRequest {
    /// The request with its signer named.
    pub fn to_proto(self, signer_addr: Address) -> (r: Result<InstantiateRequestProto, CosmwasmError>)
        ensures
            r == Ok::<InstantiateRequestProto, CosmwasmError>(
                InstantiateRequestProto {
                    signer_addr,
                    code_id: self.code_id,
                    msg: self.msg,
                    label: self.label,
                    admin: self.admin,
                    funds: self.funds,
                },
            ),
    {
        Ok(
            InstantiateRequestProto {
                signer_addr,
                code_id: self.code_id,
                msg: self.msg,
                label: self.label,
                admin: self.admin,
                funds: self.funds,
            },
        )
    }
}

/// The text of an optional address: empty where there is none.
pub open spec fn address_or_empty(a: Option<Address>) -> Seq<char> {
    match a {
        Some(x) => x@,
        None => Seq::empty(),
    }
}

/// The message of a request to instantiate.
pub open spec fn instantiate_message(req: InstantiateRequestProto) -> ProtoMsgInstantiateContractView {
    ProtoMsgInstantiateContractView {
        sender: req.signer_addr@,
        admin: address_or_empty(req.admin),
        code_id: req.code_id,
        label: req.label@,
        msg: req.msg@,
        funds: coin_messages(req.funds.deep_view()),
    }
}

/// Whether `r` is what reading the instantiate message `msg` gives: the
/// admin is read first, where the field is not empty, then the sender,
/// then the funds in order.
pub open spec fn instantiate_reads(
    r: Result<InstantiateRequestProto, CosmwasmError>,
    msg: ProtoMsgInstantiateContractView,
) -> bool {
    if (msg.admin.len() != 0 && account_id_parts(msg.admin) is None) || account_id_parts(
        msg.sender,
    ) is None {
        r matches Err(CosmwasmError::AccountError(AccountError::Address { .. }))
    } else {
        match r {
            Ok(req) => {
                &&& address_reads(req.signer_addr, msg.sender)
                &&& msg.admin.len() == 0 ==> req.admin is None
                &&& msg.admin.len() != 0 ==> (req.admin matches Some(a) && address_reads(
                    a,
                    msg.admin,
                ))
                &&& req.code_id == msg.code_id
                &&& req.label@ == msg.label
                &&& req.msg@ == msg.msg
                &&& coins_are(req.funds@, msg.funds)
            },
            Err(CosmwasmError::ChainError(e)) => coins_error_fits(e, msg.funds),
            Err(_) => false,
        }
    }
}

impl InstantiateRequestProto {
    /// Writes the request as a message; without an admin the admin field
    /// is empty.
    pub fn into_proto(self) -> (r: ProtoMsgInstantiateContract)
        ensures
            r@ == instantiate_message(self),
    {
        let ghost funds_view = self.funds.deep_view();
        let admin = match self.admin {
            Some(a) => a.into_string(),
            None => String::new(),
        };
        let funds = coins_into_proto(self.funds);
        assert(funds.deep_view() =~= coin_messages(funds_view));
        ProtoMsgInstantiateContract {
            sender: self.signer_addr.into_string(),
            admin,
            code_id: self.code_id,
            label: self.label,
            msg: self.msg,
            funds,
        }
    }

    /// Reads an instantiate message: the admin first, where the field is
    /// not empty, then the sender, then the funds in order.
    pub fn from_proto(msg: ProtoMsgInstantiateContract) -> (r: Result<
        InstantiateRequestProto,
        CosmwasmError,
    >)
        ensures
            instantiate_reads(r, msg@),
    {
        let admin = if msg.admin.as_str().is_empty() {
            None
        } else {
            match Address::from_str(msg.admin.as_str()) {
                Ok(a) => Some(a),
                Err(e) => {
                    return Err(CosmwasmError::AccountError(e));
                },
            }
        };
        let signer_addr = match Address::from_str(msg.sender.as_str()) {
            Ok(a) => a,
            Err(e) => {
                return Err(CosmwasmError::AccountError(e));
            },
        };
        let funds = match coins_from_proto(msg.funds) {
            Ok(f) => f,
            Err(e) => {
                return Err(CosmwasmError::ChainError(e));
            },
        };
        Ok(
            InstantiateRequestProto {
                signer_addr,
                code_id: msg.code_id,
                msg: msg.msg,
                label: msg.label,
                admin,
                funds,
            },
        )
    }
}

impl Msg for InstantiateRequestProto {
    type Err = CosmwasmError;

    open spec fn spec_any(&self) -> Option<AnyView> {
        msg_instantiate_envelope(instantiate_message(*self))
    }

    fn to_any(&self) -> (r: Result<Any, CosmwasmError>)
        ensures
            self.spec_any() is None ==> r matches Err(
                CosmwasmError::ChainError(ChainError::ProtoEncoding { .. }),
            ),
    {
        let admin = match &self.admin {
            Some(a) => Some(a.clone()),
            None => None,
        };
        let copy = InstantiateRequestProto {
            signer_addr: self.signer_addr.clone(),
            code_id: self.code_id,
            msg: self.msg.clone(),
            label: self.label.clone(),
            admin,
            funds: crate::chain::fee::clone_coins(&self.funds),
        };
        assert(instantiate_message(copy) == instantiate_message(*self));
        copy.into_any()
    }

    fn into_any(self) -> (r: Result<Any, CosmwasmError>)
        ensures
            self.spec_any() is None ==> r matches Err(
                CosmwasmError::ChainError(ChainError::ProtoEncoding { .. }),
            ),
    {
        let msg = self.into_proto();
        match msg_instantiate_to_any(&msg) {
            Ok(any) => Ok(any),
            Err(message) => Err(CosmwasmError::ChainError(ChainError::ProtoEncoding { message })),
        }
    }

    fn from_any(any: &Any) -> (r: Result<InstantiateRequestProto, CosmwasmError>)
        ensures
            match msg_instantiate_unwrapped(any@) {
                None => r matches Err(CosmwasmError::ChainError(ChainError::ProtoDecoding { .. })),
                Some(msg) => instantiate_reads(r, msg),
            },
    {
        match msg_instantiate_from_any(any) {
            Ok(msg) => InstantiateRequestProto::from_proto(msg),
            Err(message) => Err(CosmwasmError::ChainError(ChainError::ProtoDecoding { message })),
        }
    }
}

/// The answer to an instantiation: the address of the new contract.
#[derive(Debug, PartialEq, Eq)]
pub struct InstantiateResponse {
    pub address: Address,
    pub res: ChainTxResponse,
}

impl InstantiateResponse {
    /// The payload of the response, for a reader that decodes it.
    pub fn data(&self) -> (r: Result<&Vec<u8>, DeserializeError>)
        ensures
            match self.res.res.data {
                Some(d) => r == Ok::<&Vec<u8>, DeserializeError>(&d),
                None => r == Err::<&Vec<u8>, DeserializeError>(DeserializeError::EmptyResponse),
            },
    {
        self.res.res.data()
    }

    /// The transaction response inside.
    pub fn as_ref(&self) -> (r: &ChainTxResponse)
        ensures
            *r == self.res,
    {
        &self.res
    }
}

/// The answer to a batch of instantiations: the addresses in the order of
/// the batch.
#[derive(Debug, PartialEq, Eq)]
pub struct InstantiateBatchResponse {
    pub addresses: Vec<Address>,
    pub res: ChainTxResponse,
}

impl InstantiateBatchResponse {
    /// The payload of the response, for a reader that decodes it.
    pub fn data(&self) -> (r: Result<&Vec<u8>, DeserializeError>)
        ensures
            match self.res.res.data {
                Some(d) => r == Ok::<&Vec<u8>, DeserializeError>(&d),
                None => r == Err::<&Vec<u8>, DeserializeError>(DeserializeError::EmptyResponse),
            },
    {
        self.res.res.data()
    }

    /// The transaction response inside.
    pub fn as_ref(&self) -> (r: &ChainTxResponse)
        ensures
            *r == self.res,
    {
        &self.res
    }
}

/// A request to execute a contract. `msg` is the contract's own execute
/// message, already written as JSON.
#[derive(Debug, PartialEq, Eq)]
pub struct ExecRequest {
    pub address: Address,
    pub msg: Vec<u8>,
    pub funds: Vec<Coin>,
}

/// A request to execute a contract, with its signer.
#[derive(Debug, PartialEq, Eq)]
pub struct ExecRequestProto {
    pub signer_addr: Address,
    pub contract_addr: Address,
    pub msg: Vec<u8>,
    pub funds: Vec<Coin>,
}

impl ExecRequest {
    /// The request with its signer named.
    pub fn to_proto(self, signer_addr: Address) -> (r: Result<ExecRequestProto, CosmwasmError>)
        ensures
            r == Ok::<ExecRequestProto, CosmwasmError>(
                ExecRequestProto {
                    signer_addr,
                    contract_addr: self.address,
                    msg: self.msg,
                    funds: self.funds,
                },
            ),
    {
        Ok(
            ExecRequestProto {
                signer_addr,
                contract_addr: self.address,
                msg: self.msg,
                funds: self.funds,
            },
        )
    }
}

/// The message of a request to execute.
pub open spec fn execute_message(req: ExecRequestProto) -> ProtoMsgExecuteContractView {
    ProtoMsgExecuteContractView {
        sender: req.signer_addr@,
        contract: req.contract_addr@,
        msg: req.msg@,
        funds: coin_messages(req.funds.deep_view()),
    }
}

/// Whether `r` is what reading the execute message `msg` gives: the
/// sender is read first, then the contract, then the funds in order.
pub open spec fn execute_reads(r: Result<ExecRequestProto, CosmwasmError>, msg: ProtoMsgExecuteContractView) -> bool {
    if account_id_parts(msg.sender) is None || account_id_parts(msg.contract) is None {
        r matches Err(CosmwasmError::AccountError(AccountError::Address { .. }))
    } else {
        match r {
            Ok(req) => {
                &&& address_reads(req.signer_addr, msg.sender)
                &&& address_reads(req.contract_addr, msg.contract)
                &&& req.msg@ == msg.msg
                &&& coins_are(req.funds@, msg.funds)
            },
            Err(CosmwasmError::ChainError(e)) => coins_error_fits(e, msg.funds),
            Err(_) => false,
        }
    }
}

impl ExecRequestProto {
    /// Writes the request as a message.
    pub fn into_proto(self) -> (r: ProtoMsgExecuteContract)
        ensures
            r@ == execute_message(self),
    {
        let ghost funds_view = self.funds.deep_view();
        let funds = coins_into_proto(self.funds);
        assert(funds.deep_view() =~= coin_messages(funds_view));
        ProtoMsgExecuteContract {
            sender: self.signer_addr.into_string(),
            contract: self.contract_addr.into_string(),
            msg: self.msg,
            funds,
        }
    }

    /// Reads an execute message: the sender first, then the contract, then
    /// the funds in order.
    pub fn from_proto(msg: ProtoMsgExecuteContract) -> (r: Result<ExecRequestProto, CosmwasmError>)
        ensures
            execute_reads(r, msg@),
    {
        let signer_addr = match Address::from_str(msg.sender.as_str()) {
            Ok(a) => a,
            Err(e) => {
                return Err(CosmwasmError::AccountError(e));
            },
        };
        let contract_addr = match Address::from_str(msg.contract.as_str()) {
            Ok(a) => a,
            Err(e) => {
                return Err(CosmwasmError::AccountError(e));
            },
        };
        let funds = match coins_from_proto(msg.funds) {
            Ok(f) => f,
            Err(e) => {
                return Err(CosmwasmError::ChainError(e));
            },
        };
        Ok(ExecRequestProto { signer_addr, contract_addr, msg: msg.msg, funds })
    }
}

impl Msg for ExecRequestProto {
    type Err = CosmwasmError;

    open spec fn spec_any(&self) -> Option<AnyView> {
        msg_execute_envelope(execute_message(*self))
    }

    fn to_any(&self) -> (r: Result<Any, CosmwasmError>)
        ensures
            self.spec_any() is None ==> r matches Err(
                CosmwasmError::ChainError(ChainError::ProtoEncoding { .. }),
            ),
    {
        let copy = ExecRequestProto {
            signer_addr: self.signer_addr.clone(),
            contract_addr: self.contract_addr.clone(),
            msg: self.msg.clone(),
            funds: crate::chain::fee::clone_coins(&self.funds),
        };
        assert(execute_message(copy) == execute_message(*self));
        copy.into_any()
    }

    fn into_any(self) -> (r: Result<Any, CosmwasmError>)
        ensures
            self.spec_any() is None ==> r matches Err(
                CosmwasmError::ChainError(ChainError::ProtoEncoding { .. }),
            ),
    {
        let msg = self.into_proto();
        match msg_execute_to_any(&msg) {
            Ok(any) => Ok(any),
            Err(message) => Err(CosmwasmError::ChainError(ChainError::ProtoEncoding { message })),
        }
    }

    fn from_any(any: &Any) -> (r: Result<ExecRequestProto, CosmwasmError>)
        ensures
            match msg_execute_unwrapped(any@) {
                None => r matches Err(CosmwasmError::ChainError(ChainError::ProtoDecoding { .. })),
                Some(msg) => execute_reads(r, msg),
            },
    {
        match msg_execute_from_any(any) {
            Ok(msg) => ExecRequestProto::from_proto(msg),
            Err(message) => Err(CosmwasmError::ChainError(ChainError::ProtoDecoding { message })),
        }
    }
}

/// The answer to an execution.
#[derive(Debug, PartialEq, Eq)]
pub struct ExecResponse {
    pub res: ChainTxResponse,
}

impl ExecResponse {
    /// The payload of the response, for a reader that decodes it.
    pub fn data(&self) -> (r: Result<&Vec<u8>, DeserializeError>)
        ensures
            match self.res.res.data {
                Some(d) => r == Ok::<&Vec<u8>, DeserializeError>(&d),
                None => r == Err::<&Vec<u8>, DeserializeError>(DeserializeError::EmptyResponse),
            },
    {
        self.res.res.data()
    }

    /// The transaction response inside.
    pub fn as_ref(&self) -> (r: &ChainTxResponse)
        ensures
            *r == self.res,
    {
        &self.res
    }
}

/// The answer to a contract query.
#[derive(Debug, PartialEq, Eq)]
pub struct QueryResponse {
    pub res: ChainResponse,
}

impl QueryResponse {
    /// The payload of the response, for a reader that decodes it.
    pub fn data(&self) -> (r: Result<&Vec<u8>, DeserializeError>)
        ensures
            match self.res.data {
                Some(d) => r == Ok::<&Vec<u8>, DeserializeError>(&d),
                None => r == Err::<&Vec<u8>, DeserializeError>(DeserializeError::EmptyResponse),
            },
    {
        self.res.data()
    }

    /// The response inside.
    pub fn as_ref(&self) -> (r: &ChainResponse)
        ensures
            *r == self.res,
    {
        &self.res
    }
}

/// A request to migrate a contract to new code. `msg` is the contract's
/// own migrate message, already written as JSON.
#[derive(Debug, PartialEq, Eq)]
pub struct MigrateRequest {
    pub address: Address,
    pub new_code_id: u64,
    pub msg: Vec<u8>,
}

/// A request to migrate a contract, with its signer.
#[derive(Debug, PartialEq, Eq)]
pub struct MigrateRequestProto {
    pub signer_addr: Address,
    pub contract_addr: Address,
    pub new_code_id: u64,
    pub msg: Vec<u8>,
}

impl MigrateRequest {
    /// The request with its signer named.
    pub fn to_proto(self, signer_addr: Address) -> (r: Result<MigrateRequestProto, CosmwasmError>)
        ensures
            r == Ok::<MigrateRequestProto, CosmwasmError>(
                MigrateRequestProto {
                    signer_addr,
                    contract_addr: self.address,
                    new_code_id: self.new_code_id,
                    msg: self.msg,
                },
            ),
    {
        Ok(
            MigrateRequestProto {
                signer_addr,
                contract_addr: self.address,
                new_code_id: self.new_code_id,
                msg: self.msg,
            },
        )
    }
}

/// The message of a request to migrate.
pub open spec fn migrate_message(req: MigrateRequestProto) -> ProtoMsgMigrateContractView {
    ProtoMsgMigrateContractView {
        sender: req.signer_addr@,
        contract: req.contract_addr@,
        code_id: req.new_code_id,
        msg: req.msg@,
    }
}

/// Whether `r` is what reading the migrate message `msg` gives: the
/// sender is read first, then the contract.
pub open spec fn migrate_reads(r: Result<MigrateRequestProto, CosmwasmError>, msg: ProtoMsgMigrateContractView) -> bool {
    if account_id_parts(msg.sender) is Some && account_id_parts(msg.contract) is Some {
        r matches Ok(req) && address_reads(req.signer_addr, msg.sender) && address_reads(
            req.contract_addr,
            msg.contract,
        ) && req.new_code_id == msg.code_id && req.msg@ == msg.msg
    } else {
        r matches Err(CosmwasmError::AccountError(AccountError::Address { .. }))
    }
}

impl MigrateRequestProto {
    /// Writes the request as a message.
    pub fn into_proto(self) -> (r: ProtoMsgMigrateContract)
        ensures
            r@ == migrate_message(self),
    {
        ProtoMsgMigrateContract {
            sender: self.signer_addr.into_string(),
            contract: self.contract_addr.into_string(),
            code_id: self.new_code_id,
            msg: self.msg,
        }
    }

    /// Reads a migrate message: the sender first, then the contract.
    pub fn from_proto(msg: ProtoMsgMigrateContract) -> (r: Result<MigrateRequestProto, CosmwasmError>)
        ensures
            migrate_reads(r, msg@),
    {
        let signer_addr = match Address::from_str(msg.sender.as_str()) {
            Ok(a) => a,
            Err(e) => {
                return Err(CosmwasmError::AccountError(e));
            },
        };
        let contract_addr = match Address::from_str(msg.contract.as_str()) {
            Ok(a) => a,
            Err(e) => {
                return Err(CosmwasmError::AccountError(e));
            },
        };
        Ok(
            MigrateRequestProto {
                signer_addr,
                contract_addr,
                new_code_id: msg.code_id,
                msg: msg.msg,
            },
        )
    }
}

impl Msg for MigrateRequestProto {
    type Err = CosmwasmError;

    open spec fn spec_any(&self) -> Option<AnyView> {
        msg_migrate_envelope(migrate_message(*self))
    }

    fn to_any(&self) -> (r: Result<Any, CosmwasmError>)
        ensures
            self.spec_any() is None ==> r matches Err(
                CosmwasmError::ChainError(ChainError::ProtoEncoding { .. }),
            ),
    {
        let copy = MigrateRequestProto {
            signer_addr: self.signer_addr.clone(),
            contract_addr: self.contract_addr.clone(),
            new_code_id: self.new_code_id,
            msg: self.msg.clone(),
        };
        copy.into_any()
    }

    fn into_any(self) -> (r: Result<Any, CosmwasmError>)
        ensures
            self.spec_any() is None ==> r matches Err(
                CosmwasmError::ChainError(ChainError::ProtoEncoding { .. }),
            ),
    {
        let msg = self.into_proto();
        match msg_migrate_to_any(&msg) {
            Ok(any) => Ok(any),
            Err(message) => Err(CosmwasmError::ChainError(ChainError::ProtoEncoding { message })),
        }
    }

    fn from_any(any: &Any) -> (r: Result<MigrateRequestProto, CosmwasmError>)
        ensures
            match msg_migrate_unwrapped(any@) {
                None => r matches Err(CosmwasmError::ChainError(ChainError::ProtoDecoding { .. })),
                Some(msg) => migrate_reads(r, msg),
            },
    {
        match msg_migrate_from_any(any) {
            Ok(msg) => MigrateRequestProto::from_proto(msg),
            Err(message) => Err(CosmwasmError::ChainError(ChainError::ProtoDecoding { message })),
        }
    }
}

/// The answer to a migration.
#[derive(Debug, PartialEq, Eq)]
pub struct MigrateResponse {
    pub res: ChainTxResponse,
}

impl MigrateResponse {
    /// The payload of the response, for a reader that decodes it.
    pub fn data(&self) -> (r: Result<&Vec<u8>, DeserializeError>)
        ensures
            match self.res.res.data {
                Some(d) => r == Ok::<&Vec<u8>, DeserializeError>(&d),
                None => r == Err::<&Vec<u8>, DeserializeError>(DeserializeError::EmptyResponse),
            },
    {
        self.res.res.data()
    }

    /// The transaction response inside.
    pub fn as_ref(&self) -> (r: &ChainTxResponse)
        ensures
            *r == self.res,
    {
        &self.res
    }
}

} // verus!
