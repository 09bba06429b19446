use cosm_tome::chain::coin::{Coin, Denom};
use cosm_tome::chain::error::{ChainError, DeserializeError};
use cosm_tome::chain::msg::{Any, Msg};
use cosm_tome::chain::response::{ChainResponse, ChainTxResponse, Code, Event, Tag};
use cosm_tome::modules::auth::error::AccountError;
use cosm_tome::modules::auth::model::Address;
use cosm_tome::modules::cosmwasm::api::{
    instantiated_addresses, stored_code_ids, wasm_execute, wasm_execute_batch,
    wasm_execute_response, wasm_instantiate_batch, wasm_instantiate_batch_response,
    wasm_instantiate_response, wasm_migrate, wasm_migrate_batch, wasm_migrate_response,
    wasm_query, wasm_query_response, wasm_store_batch, wasm_store_batch_response,
    wasm_store_response,
};
use cosm_tome::modules::cosmwasm::error::CosmwasmError;
use cosm_tome::modules::cosmwasm::model::{
    AccessConfig, AccessType, ExecRequest, ExecRequestProto, InstantiateBatchResponse,
    InstantiateRequest, InstantiateRequestProto, MigrateRequest, MigrateRequestProto,
    StoreCodeBatchResponse, StoreCodeProto, StoreCodeRequest,
};
use cosm_tome::modules::tx::error::TxError;
use cosm_tome::proto::{ProtoAccessConfig, ProtoAccessType, ProtoMsgInstantiateContract};
use cosmrs::proto::cosmwasm::wasm::v1 as wasm;
use cosmrs::proto::traits::Message;

const SENDER: &str = "juno10j9gpw9t4jsz47qgnkvl5n3zlm2fz72k67rxsg";
const OTHER: &str = "juno1v9xynggs6vnrv2x5ufxdj398u2ghc5n9ya57ea";

fn addr(s: &str) -> Address {
    Address::from_str(s).unwrap()
}

fn coin(amount: u128) -> Coin {
    Coin { denom: Denom::from_str("utest").unwrap(), amount }
}

fn tag(key: &str, value: &str) -> Tag {
    Tag { key: key.to_string(), value: value.to_string() }
}

fn response(events: Vec<Event>) -> ChainTxResponse {
    ChainTxResponse { events, ..ChainTxResponse::default() }
}

fn event(kind: &str, tags: Vec<Tag>) -> Event {
    Event { type_str: kind.to_string(), attributes: tags }
}

#[test]
fn access_types_have_the_numbers_of_the_protocol() {
    let all = [AccessType::Unspecified, AccessType::Nobody, AccessType::OnlyAddress, AccessType::Everybody];
    for (n, access) in all.into_iter().enumerate() {
        assert_eq!(access.number(), n as i32);
        assert_eq!(AccessType::try_from_i32(n as i32), Ok(access));
    }
    for v in [-1, 4, 100] {
        assert_eq!(AccessType::try_from_i32(v), Err(CosmwasmError::AccessType { i: v }));
    }
    assert_eq!(AccessType::Unspecified.as_ref(), "ACCESS_TYPE_UNSPECIFIED");
    assert_eq!(AccessType::Nobody.as_ref(), "ACCESS_TYPE_NOBODY");
    assert_eq!(AccessType::OnlyAddress.as_ref(), "ACCESS_TYPE_ONLY_ADDRESS");
    assert_eq!(AccessType::Everybody.as_ref(), "ACCESS_TYPE_EVERYBODY");
    assert_eq!(AccessType::Everybody.into_proto(), Ok(ProtoAccessType::Everybody));
    assert_eq!(AccessType::OnlyAddress.into_proto(), Err(CosmwasmError::AccessType { i: 2 }));
    assert_eq!(AccessType::from_proto(ProtoAccessType::Nobody), Ok(AccessType::Nobody));
    assert_eq!(AccessType::from_proto(ProtoAccessType::AnyOfAddresses), Err(CosmwasmError::AccessType { i: 4 }));
}

#[test]
fn a_permission_names_one_address() {
    let config = AccessConfig { permission: AccessType::Everybody, account: addr(SENDER) };
    let proto = config.clone().into_proto();
    assert_eq!(proto, ProtoAccessConfig { permission: 3, addresses: vec![SENDER.to_string()] });
    assert_eq!(AccessConfig::from_proto(proto), Ok(config));
    assert_eq!(
        AccessConfig::from_proto(ProtoAccessConfig { permission: 9, addresses: vec![SENDER.to_string()] }),
        Err(CosmwasmError::AccessType { i: 9 })
    );
    assert!(matches!(
        AccessConfig::from_proto(ProtoAccessConfig { permission: 1, addresses: vec![] }),
        Err(CosmwasmError::AccountError(AccountError::Address { .. }))
    ));
    assert!(matches!(
        AccessConfig::from_proto(ProtoAccessConfig { permission: 1, addresses: vec!["x".to_string()] }),
        Err(CosmwasmError::AccountError(AccountError::Address { .. }))
    ));
}

#[test]
fn store_code_travels_as_the_message_of_the_protocol() {
    let req = StoreCodeRequest { wasm_data: vec![0, 97, 115, 109], instantiate_perms: None };
    let proto = req.to_proto(addr(SENDER)).unwrap();
    assert_eq!(
        proto,
        StoreCodeProto { signer_addr: addr(SENDER), wasm_data: vec![0, 97, 115, 109], instantiate_perms: None }
    );
    let any = proto.to_any().unwrap();
    assert_eq!(any.type_url, "/cosmwasm.wasm.v1.MsgStoreCode");
    let direct = wasm::MsgStoreCode {
        sender: SENDER.to_string(),
        wasm_byte_code: vec![0, 97, 115, 109],
        instantiate_permission: None,
    };
    assert_eq!(any.value, direct.encode_to_vec());
    assert_eq!(StoreCodeProto::from_any(&any), Ok(proto));

    let with_perms = StoreCodeProto {
        signer_addr: addr(SENDER),
        wasm_data: vec![1],
        instantiate_perms: Some(AccessConfig { permission: AccessType::Nobody, account: addr(OTHER) }),
    };
    let any = with_perms.to_any().unwrap();
    assert_eq!(StoreCodeProto::from_any(&any), Ok(with_perms));
    let msgs = wasm_store_batch(
        vec![
            StoreCodeRequest { wasm_data: vec![1], instantiate_perms: None },
            StoreCodeRequest { wasm_data: vec![2], instantiate_perms: None },
        ],
        &addr(SENDER),
    )
    .unwrap();
    assert_eq!(msgs.len(), 2);
    assert_ne!(msgs[0], msgs[1]);
}

#[test]
fn instantiate_travels_as_the_message_of_the_protocol() {
    let req = || InstantiateRequest {
        code_id: 7,
        msg: b"{}".to_vec(),
        label: "my contract".to_string(),
        admin: None,
        funds: vec![coin(5)],
    };
    let proto = req().to_proto(addr(SENDER)).unwrap();
    let any = proto.to_any().unwrap();
    assert_eq!(any.type_url, "/cosmwasm.wasm.v1.MsgInstantiateContract");
    let direct = wasm::MsgInstantiateContract {
        sender: SENDER.to_string(),
        admin: "".to_string(),
        code_id: 7,
        label: "my contract".to_string(),
        msg: b"{}".to_vec(),
        funds: vec![cosmrs::proto::cosmos::base::v1beta1::Coin { denom: "utest".to_string(), amount: "5".to_string() }],
    };
    assert_eq!(any.value, direct.encode_to_vec());
    assert_eq!(InstantiateRequestProto::from_any(&any), Ok(proto));
    let with_admin = InstantiateRequestProto {
        signer_addr: addr(SENDER),
        code_id: 1,
        msg: vec![],
        label: "l".to_string(),
        admin: Some(addr(OTHER)),
        funds: vec![],
    };
    let any = with_admin.to_any().unwrap();
    assert_eq!(with_admin.clone_for_test().into_proto().admin, OTHER);
    assert_eq!(InstantiateRequestProto::from_any(&any), Ok(with_admin));
    let msgs = wasm_instantiate_batch(vec![req(), req()], &addr(SENDER)).unwrap();
    assert_eq!(msgs, vec![direct_any(&direct), direct_any(&direct)]);
}

fn direct_any(msg: &wasm::MsgInstantiateContract) -> Any {
    Any { type_url: "/cosmwasm.wasm.v1.MsgInstantiateContract".to_string(), value: msg.encode_to_vec() }
}

trait CloneForTest {
    fn clone_for_test(&self) -> Self;
}

impl CloneForTest for InstantiateRequestProto {
    fn clone_for_test(&self) -> Self {
        InstantiateRequestProto {
            signer_addr: self.signer_addr.clone(),
            code_id: self.code_id,
            msg: self.msg.clone(),
            label: self.label.clone(),
            admin: self.admin.clone(),
            funds: self.funds.clone(),
        }
    }
}

#[test]
fn an_instantiate_message_is_read_part_by_part() {
    let msg = |sender: &str, admin: &str, amount: &str| ProtoMsgInstantiateContract {
        sender: sender.to_string(),
        admin: admin.to_string(),
        code_id: 3,
        label: "l".to_string(),
        msg: vec![1],
        funds: vec![cosm_tome::proto::ProtoCoin { denom: "utest".to_string(), amount: amount.to_string() }],
    };
    let read = InstantiateRequestProto::from_proto(msg(SENDER, "", "4")).unwrap();
    assert_eq!(read.admin, None);
    assert_eq!(read.funds, vec![coin(4)]);
    assert_eq!(InstantiateRequestProto::from_proto(msg(SENDER, OTHER, "4")).unwrap().admin, Some(addr(OTHER)));
    assert!(matches!(
        InstantiateRequestProto::from_proto(msg(SENDER, "bad", "4")),
        Err(CosmwasmError::AccountError(AccountError::Address { .. }))
    ));
    assert!(matches!(
        InstantiateRequestProto::from_proto(msg("bad", "", "4")),
        Err(CosmwasmError::AccountError(AccountError::Address { .. }))
    ));
    assert!(matches!(
        InstantiateRequestProto::from_proto(msg(SENDER, "", "four")),
        Err(CosmwasmError::ChainError(ChainError::ProtoDecoding { .. }))
    ));
}

#[test]
fn execute_and_migrate_travel_as_the_messages_of_the_protocol() {
    let exec = || ExecRequest { address: addr(OTHER), msg: b"{\"a\":1}".to_vec(), funds: vec![coin(1), coin(2)] };
    let any = wasm_execute(exec(), &addr(SENDER)).unwrap();
    assert_eq!(any.type_url, "/cosmwasm.wasm.v1.MsgExecuteContract");
    let direct = wasm::MsgExecuteContract {
        sender: SENDER.to_string(),
        contract: OTHER.to_string(),
        msg: b"{\"a\":1}".to_vec(),
        funds: vec![
            cosmrs::proto::cosmos::base::v1beta1::Coin { denom: "utest".to_string(), amount: "1".to_string() },
            cosmrs::proto::cosmos::base::v1beta1::Coin { denom: "utest".to_string(), amount: "2".to_string() },
        ],
    };
    assert_eq!(any.value, direct.encode_to_vec());
    assert_eq!(ExecRequestProto::from_any(&any), exec().to_proto(addr(SENDER)));
    assert_eq!(wasm_execute_batch(vec![exec(), exec()], &addr(SENDER)), Ok(vec![any.clone(), any.clone()]));
    assert_eq!(exec().to_proto(addr(SENDER)).unwrap().to_any(), Ok(any));

    let migrate = || MigrateRequest { address: addr(OTHER), new_code_id: 12, msg: b"{}".to_vec() };
    let any = wasm_migrate(migrate(), &addr(SENDER)).unwrap();
    assert_eq!(any.type_url, "/cosmwasm.wasm.v1.MsgMigrateContract");
    let direct = wasm::MsgMigrateContract {
        sender: SENDER.to_string(),
        contract: OTHER.to_string(),
        code_id: 12,
        msg: b"{}".to_vec(),
    };
    assert_eq!(any.value, direct.encode_to_vec());
    assert_eq!(MigrateRequestProto::from_any(&any), migrate().to_proto(addr(SENDER)));
    assert_eq!(wasm_migrate_batch(vec![migrate()], &addr(SENDER)), Ok(vec![any.clone()]));
    assert_eq!(migrate().to_proto(addr(SENDER)).unwrap().to_any(), Ok(any));

    let wrong = Any { type_url: "/cosmos.bank.v1beta1.MsgSend".to_string(), value: vec![] };
    assert!(matches!(
        ExecRequestProto::from_any(&wrong),
        Err(CosmwasmError::ChainError(ChainError::ProtoDecoding { .. }))
    ));
    assert!(matches!(
        MigrateRequestProto::from_any(&wrong),
        Err(CosmwasmError::ChainError(ChainError::ProtoDecoding { .. }))
    ));
    assert!(matches!(
        StoreCodeProto::from_any(&wrong),
        Err(CosmwasmError::ChainError(ChainError::ProtoDecoding { .. }))
    ));
    assert!(matches!(
        InstantiateRequestProto::from_any(&wrong),
        Err(CosmwasmError::ChainError(ChainError::ProtoDecoding { .. }))
    ));
}

#[test]
fn code_ids_are_read_from_the_events() {
    let res = response(vec![
        event("store_code", vec![tag("code_id", "12")]),
        event("message", vec![tag("code_id", "x")]),
        event("store_code", vec![tag("code_id", "13"), tag("checksum", "abc")]),
    ]);
    assert_eq!(stored_code_ids(&res), Ok(vec![12, 13]));
    let batch = wasm_store_batch_response(res).unwrap();
    assert_eq!(batch.code_ids, vec![12, 13]);
    let one = wasm_store_response(batch).unwrap();
    assert_eq!(one.code_id, 12);
    assert_eq!(one.as_ref().events.len(), 3);

    let bad = response(vec![event("store_code", vec![tag("code_id", "12"), tag("code_id", "-1")])]);
    assert_eq!(stored_code_ids(&bad), Err(CosmwasmError::MissingEvent));
    let too_large = response(vec![event("store_code", vec![tag("code_id", "18446744073709551616")])]);
    assert_eq!(stored_code_ids(&too_large), Err(CosmwasmError::MissingEvent));
    let greatest = response(vec![event("store_code", vec![tag("code_id", "18446744073709551615")])]);
    assert_eq!(stored_code_ids(&greatest), Ok(vec![u64::MAX]));

    assert_eq!(stored_code_ids(&response(vec![])), Ok(vec![]));
    let none = StoreCodeBatchResponse { code_ids: vec![], res: response(vec![]) };
    assert_eq!(wasm_store_response(none), Err(CosmwasmError::MissingEvent));
}

#[test]
fn contract_addresses_are_read_from_the_events() {
    let res = response(vec![
        event("instantiate", vec![tag("_contract_address", SENDER), tag("code_id", "1")]),
        event("instantiate", vec![tag("_contract_address", OTHER)]),
    ]);
    assert_eq!(instantiated_addresses(&res), Ok(vec![addr(SENDER), addr(OTHER)]));
    let batch = wasm_instantiate_batch_response(res).unwrap();
    assert_eq!(batch.addresses.len(), 2);
    let one = wasm_instantiate_response(batch).unwrap();
    assert_eq!(one.address, addr(SENDER));

    assert_eq!(instantiated_addresses(&response(vec![])), Err(CosmwasmError::MissingEvent));
    let bad = response(vec![event("instantiate", vec![tag("_contract_address", "nope")])]);
    assert!(matches!(
        instantiated_addresses(&bad),
        Err(CosmwasmError::AccountError(AccountError::Address { .. }))
    ));
    let none = InstantiateBatchResponse { addresses: vec![], res: response(vec![]) };
    assert_eq!(wasm_instantiate_response(none), Err(CosmwasmError::MissingEvent));
}

#[test]
fn answers_carry_their_payload() {
    let res = ChainTxResponse {
        res: ChainResponse { code: Code::Success, data: Some(b"{\"x\":1}".to_vec()), log: "".to_string() },
        ..ChainTxResponse::default()
    };
    let exec = wasm_execute_response(res);
    assert_eq!(exec.data(), Ok(&b"{\"x\":1}".to_vec()));
    assert_eq!(exec.as_ref().res.code, Code::Success);
    let migrate = wasm_migrate_response(ChainTxResponse::default());
    assert_eq!(migrate.data(), Err(DeserializeError::EmptyResponse));
    assert_eq!(migrate.as_ref(), &ChainTxResponse::default());

    let query = wasm_query(addr(OTHER), b"{\"config\":{}}".to_vec());
    assert_eq!(query.address, OTHER);
    assert_eq!(query.query_data, b"{\"config\":{}}".to_vec());
    let answer = wasm_query_response(vec![1, 2]);
    assert_eq!(answer.data(), Ok(&vec![1u8, 2]));
    assert_eq!(answer.as_ref().code, Code::Success);
}

#[test]
fn contract_errors_wrap_the_layers_below() {
    assert_eq!(CosmwasmError::from(ChainError::Mnemonic), CosmwasmError::ChainError(ChainError::Mnemonic));
    let account = || AccountError::Address { message: "m".to_string() };
    assert_eq!(CosmwasmError::from(account()), CosmwasmError::AccountError(account()));
    assert_eq!(
        CosmwasmError::from(TxError::BroadcastMode { i: 0 }),
        CosmwasmError::TxError(TxError::BroadcastMode { i: 0 })
    );
}
