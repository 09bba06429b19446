use cosm_tome::chain::error::ChainError;
use cosm_tome::chain::fee::GasInfo;
use cosm_tome::chain::response::{ChainResponse, Code, GrpcStatus};
use cosm_tome::clients::client::{BroadcastAnswer, SIMULATE_PATH};
use cosm_tome::modules::auth::api::ACCOUNT_PATH;
use cosm_tome::clients::cosmos_grpc::{BroadcastTxRequest, CosmosgRPC};
use cosm_tome::clients::tendermint_rpc::{BroadcastEndpoint, TendermintRPC};
use cosm_tome::clients::websocket;
use cosm_tome::modules::tx::api::{state_accepts, TxSignEvent, TxSignState};
use cosm_tome::modules::tx::error::TxError;
use cosm_tome::modules::tx::model::{BroadcastMode, RawTx};
use cosm_tome::proto::{ProtoGasInfo, ProtoTxResponse};
use cosm_tome::rpc::{AbciQuery, GrpcFailure, TxAsyncResponse, TxCommitResponse, TxResult, TxSyncResponse};
use cosmrs::proto::cosmos::tx::v1beta1::{SimulateRequest, SimulateResponse};
use cosmrs::proto::traits::Message;

fn tx() -> RawTx {
    RawTx::new(vec![1, 2], vec![3], vec![vec![4; 64]])
}

fn grpc_response(code: u32) -> ProtoTxResponse {
    ProtoTxResponse {
        height: 7,
        txhash: "HASH".to_string(),
        code,
        data: "".to_string(),
        raw_log: "raw".to_string(),
        gas_wanted: 2,
        gas_used: 1,
        events: vec![],
    }
}

#[test]
fn the_grpc_transport_keeps_its_endpoint() {
    let client = CosmosgRPC::new("http://localhost:9090".to_string());
    assert_eq!(client.endpoint(), "http://localhost:9090");
}

#[test]
fn simulation_goes_to_its_fixed_path() {
    assert_eq!(SIMULATE_PATH, "/cosmos.tx.v1beta1.Service/Simulate");
    assert_eq!(ACCOUNT_PATH, "/cosmos.auth.v1beta1.Query/Account");
}

#[test]
#[allow(deprecated)]
fn the_simulation_request_wraps_the_transaction_bytes() {
    let request = TendermintRPC::simulate_request(&tx()).unwrap();
    let direct = SimulateRequest { tx: None, tx_bytes: tx().to_bytes().unwrap() };
    assert_eq!(request, direct.encode_to_vec());
    assert_ne!(request, tx().to_bytes().unwrap());
}

#[test]
fn the_simulation_answer_is_checked_then_decoded() {
    let with_gas = SimulateResponse {
        gas_info: Some(cosmrs::proto::cosmos::base::abci::v1beta1::GasInfo { gas_wanted: 200, gas_used: 100 }),
        result: None,
    };
    let answer = |code: u32, value: Vec<u8>| AbciQuery { code, log: "log".to_string(), value };
    assert_eq!(TendermintRPC::simulate_tx(answer(0, with_gas.encode_to_vec())), Ok(GasInfo::new(200u64, 100u64)));
    let without = SimulateResponse { gas_info: None, result: None };
    assert_eq!(TendermintRPC::simulate_tx(answer(0, without.encode_to_vec())), Err(ChainError::Simulation));
    assert!(matches!(
        TendermintRPC::simulate_tx(answer(0, vec![0xff, 0xff, 0xff])),
        Err(ChainError::ProtoDecoding { .. })
    ));
    // a code other than zero is reported before the payload is looked at
    assert_eq!(
        TendermintRPC::simulate_tx(answer(3, vec![0xff])),
        Err(ChainError::CosmosSdk {
            res: ChainResponse { code: Code::Failure(3), data: Some(vec![0xff]), log: "log".to_string() }
        })
    );
}

#[test]
fn a_query_hands_on_its_payload_only_with_code_zero() {
    let ok = AbciQuery { code: 0, log: "".to_string(), value: vec![1, 2, 3] };
    assert_eq!(TendermintRPC::query_payload(ok), Ok(vec![1, 2, 3]));
    let bad = AbciQuery { code: 18, log: "unknown request".to_string(), value: vec![1] };
    assert_eq!(
        TendermintRPC::query_payload(bad),
        Err(ChainError::CosmosSdk {
            res: ChainResponse { code: Code::Failure(18), data: Some(vec![1]), log: "unknown request".to_string() }
        })
    );
}

#[test]
fn each_mode_has_its_endpoint() {
    assert_eq!(BroadcastEndpoint::for_mode(BroadcastMode::Async), BroadcastEndpoint::TxAsync);
    assert_eq!(BroadcastEndpoint::for_mode(BroadcastMode::Sync), BroadcastEndpoint::TxSync);
    assert_eq!(BroadcastEndpoint::for_mode(BroadcastMode::Block), BroadcastEndpoint::TxCommit);
    assert_eq!(BroadcastEndpoint::TxAsync.method(), "broadcast_tx_async");
    assert_eq!(BroadcastEndpoint::TxSync.method(), "broadcast_tx_sync");
    assert_eq!(BroadcastEndpoint::TxCommit.method(), "broadcast_tx_commit");
}

#[test]
fn the_websocket_transport_does_not_wait_for_blocks() {
    assert_eq!(websocket::broadcast_endpoint(BroadcastMode::Sync), Ok(BroadcastEndpoint::TxSync));
    assert_eq!(websocket::broadcast_endpoint(BroadcastMode::Async), Ok(BroadcastEndpoint::TxAsync));
    assert_eq!(websocket::broadcast_endpoint(BroadcastMode::Block), Err(TxError::BroadcastMode { i: 1 }));
    let sync = TxSyncResponse { code: 0, data: vec![], log: "".to_string(), hash: "H".to_string() };
    assert_eq!(websocket::broadcast_tx(BroadcastMode::Sync, BroadcastAnswer::Sync(sync)).unwrap().tx_hash, "H");
    let refused = TxAsyncResponse { code: 5, data: vec![], log: "".to_string(), hash: "H".to_string() };
    assert!(matches!(
        websocket::broadcast_tx(BroadcastMode::Async, BroadcastAnswer::Async(refused)),
        Err(ChainError::CosmosSdk { .. })
    ));
}

#[test]
fn the_rpc_transport_settles_each_endpoint() {
    let phase = |code: u32| TxResult { code, data: vec![], log: "l".to_string(), gas_wanted: 1, gas_used: 1, events: vec![] };
    let commit = |c: u32, d: u32| TxCommitResponse { check_tx: phase(c), deliver_tx: phase(d), hash: "H".to_string(), height: 5 };
    assert_eq!(TendermintRPC::broadcast_tx_commit(commit(0, 0)).unwrap().height, 5);
    assert!(matches!(TendermintRPC::broadcast_tx_commit(commit(1, 0)), Err(ChainError::CosmosSdk { .. })));
    assert!(matches!(TendermintRPC::broadcast_tx_commit(commit(0, 1)), Err(ChainError::CosmosSdk { .. })));
    let sync = |code: u32| TxSyncResponse { code, data: vec![], log: "l".to_string(), hash: "H".to_string() };
    assert!(TendermintRPC::broadcast_tx_sync(sync(0)).is_ok());
    assert!(TendermintRPC::broadcast_tx_sync(sync(9)).is_err());
    let asynchronous = |code: u32| TxAsyncResponse { code, data: vec![], log: "l".to_string(), hash: "H".to_string() };
    assert!(TendermintRPC::broadcast_tx_async(asynchronous(0)).is_ok());
    assert!(TendermintRPC::broadcast_tx_async(asynchronous(9)).is_err());
}

#[test]
fn the_grpc_transport_simulates() {
    let info = ProtoGasInfo { gas_wanted: 200, gas_used: 100 };
    assert_eq!(CosmosgRPC::simulate_tx(Ok(Some(info))), Ok(GasInfo::new(200u64, 100u64)));
    assert_eq!(CosmosgRPC::simulate_tx(Ok(None)), Err(ChainError::Simulation));
    let failure = GrpcFailure { status: GrpcStatus::InvalidArgument, message: "bad tx".to_string(), details: vec![1] };
    assert_eq!(
        CosmosgRPC::simulate_tx(Err(failure)),
        Err(ChainError::CosmosSdk {
            res: ChainResponse { code: Code::Failure(3), data: None, log: "bad tx".to_string() }
        })
    );
}

#[test]
fn the_grpc_transport_broadcasts_under_a_mode_number() {
    let bytes = tx().to_bytes().unwrap();
    assert_eq!(
        CosmosgRPC::broadcast_request(&tx(), BroadcastMode::Sync),
        Ok(BroadcastTxRequest { tx_bytes: bytes.clone(), mode: 2 })
    );
    assert_eq!(CosmosgRPC::broadcast_request(&tx(), BroadcastMode::Async).unwrap().mode, 3);
    assert_eq!(CosmosgRPC::broadcast_request(&tx(), BroadcastMode::Block).unwrap().mode, 1);

    let admitted = CosmosgRPC::broadcast_tx(grpc_response(0)).unwrap();
    assert_eq!(admitted.tx_hash, "HASH");
    assert_eq!(admitted.res, ChainResponse { code: Code::Success, data: Some(vec![]), log: "raw".to_string() });
    assert_eq!(
        CosmosgRPC::broadcast_tx(grpc_response(13)),
        Err(ChainError::CosmosSdk {
            res: ChainResponse { code: Code::Failure(13), data: Some(vec![]), log: "raw".to_string() }
        })
    );
    let included = CosmosgRPC::broadcast_tx_block(grpc_response(0)).unwrap();
    assert_eq!((included.height, included.gas_wanted, included.gas_used), (7, 2, 1));
    assert!(matches!(CosmosgRPC::broadcast_tx_block(grpc_response(4)), Err(ChainError::CosmosSdk { .. })));
}

#[test]
fn a_signing_waits_for_one_kind_of_event_at_a_time() {
    let account = cosm_tome::modules::auth::model::Account {
        address: "juno10j9gpw9t4jsz47qgnkvl5n3zlm2fz72k67rxsg".parse().unwrap(),
        pubkey: None,
        account_number: 1,
        sequence: 1,
    };
    assert!(state_accepts(&TxSignState::Start, &TxSignEvent::Begin));
    assert!(state_accepts(&TxSignState::AwaitingAccount, &TxSignEvent::AccountFetched(account.clone())));
    assert!(state_accepts(
        &TxSignState::AwaitingGas(account.clone()),
        &TxSignEvent::GasSimulated(GasInfo::default())
    ));
    assert!(!state_accepts(&TxSignState::Start, &TxSignEvent::GasSimulated(GasInfo::default())));
    assert!(!state_accepts(&TxSignState::AwaitingAccount, &TxSignEvent::Begin));
    assert!(!state_accepts(&TxSignState::Finished, &TxSignEvent::Begin));
    assert!(!state_accepts(&TxSignState::AwaitingGas(account.clone()), &TxSignEvent::AccountFetched(account)));
}
