use cosm_tome::chain::error::{ChainError, DeserializeError};
use cosm_tome::chain::response::{
    reinterpret_u64, AsyncChainTxResponse, ChainResponse, ChainTxResponse, Code, Event,
    GrpcStatus, Tag,
};
use cosm_tome::clients::client::{
    check_response, fits, settle, settle_async, settle_commit, settle_sync, BroadcastAnswer,
    BroadcastOutcome,
};
use cosm_tome::modules::tx::model::BroadcastMode;
use cosm_tome::proto::{ProtoEvent, ProtoEventAttribute, ProtoTxResponse};
use cosm_tome::rpc::{
    AbciQuery, GrpcFailure, TxAsyncResponse, TxCommitResponse, TxResult, TxSyncResponse,
};

fn tag(key: &str, value: &str) -> Tag {
    Tag { key: key.to_string(), value: value.to_string() }
}

fn event(kind: &str, tags: Vec<Tag>) -> Event {
    Event { type_str: kind.to_string(), attributes: tags }
}

fn tx_result(code: u32, log: &str) -> TxResult {
    TxResult {
        code,
        data: vec![1, 2, 3],
        log: log.to_string(),
        gas_wanted: 200,
        gas_used: 100,
        events: vec![event("transfer", vec![tag("amount", "10utest")])],
    }
}

fn commit(check: u32, deliver: u32) -> TxCommitResponse {
    TxCommitResponse {
        check_tx: tx_result(check, "check log"),
        deliver_tx: tx_result(deliver, "deliver log"),
        hash: "TX_HASH_0".to_string(),
        height: 1337,
    }
}

#[test]
fn find_event_tags_keeps_the_order_of_the_chain() {
    let res = ChainTxResponse {
        events: vec![
            event("store_code", vec![tag("code_id", "1"), tag("other", "x"), tag("code_id", "2")]),
            event("message", vec![tag("code_id", "99")]),
            event("store_code", vec![]),
            event("store_code", vec![tag("code_id", "3")]),
        ],
        ..ChainTxResponse::default()
    };
    let found = res.find_event_tags("store_code".to_string(), "code_id".to_string());
    let values: Vec<&str> = found.iter().map(|t| t.value.as_str()).collect();
    assert_eq!(values, vec!["1", "2", "3"]);
    assert!(res.find_event_tags("store_code".to_string(), "missing".to_string()).is_empty());
    assert!(res.find_event_tags("missing".to_string(), "code_id".to_string()).is_empty());
    assert_eq!(
        res.find_event_tag("store_code".to_string(), "code_id".to_string()),
        Some(tag("code_id", "1"))
    );
    assert_eq!(res.find_event_tag("message".to_string(), "other".to_string()), None);
}

#[test]
fn a_response_without_payload_is_empty() {
    let res = ChainResponse::default();
    assert_eq!(res.data(), Err(DeserializeError::EmptyResponse));
    let res = ChainResponse { data: Some(vec![7]), ..ChainResponse::default() };
    assert_eq!(res.data(), Ok(&vec![7u8]));
    assert_eq!(res.clone(), res);
}

#[test]
fn abci_query_is_normalised() {
    let res = ChainResponse::from_abci_query(AbciQuery { code: 5, log: "nope".to_string(), value: vec![9] });
    assert_eq!(res, ChainResponse { code: Code::Failure(5), data: Some(vec![9]), log: "nope".to_string() });
    let ok = ChainResponse::from_abci_query(AbciQuery { code: 0, log: String::new(), value: vec![] });
    assert_eq!(ok.code, Code::Success);
    assert_eq!(ok.data, Some(vec![]));
}

#[test]
fn grpc_failure_is_normalised() {
    let res = ChainResponse::from_grpc_failure(GrpcFailure {
        status: GrpcStatus::NotFound,
        message: "no such account".to_string(),
        details: vec![1],
    });
    assert_eq!(
        res,
        ChainResponse { code: Code::Failure(5), data: Some(vec![1]), log: "no such account".to_string() }
    );
}

#[test]
fn check_response_lets_only_zero_pass() {
    let ok = ChainResponse { code: Code::Success, data: None, log: "fine".to_string() };
    assert_eq!(check_response(ok.clone()), Ok(ok));
    let bad = ChainResponse { code: Code::Failure(4), data: None, log: "bad".to_string() };
    assert_eq!(check_response(bad.clone()), Err(ChainError::CosmosSdk { res: bad }));
}

#[test]
fn commit_with_code_zero_reports_the_execution() {
    let r = settle_commit(commit(0, 0)).unwrap();
    assert_eq!(r.res, ChainResponse { code: Code::Success, data: Some(vec![1, 2, 3]), log: "deliver log".to_string() });
    assert_eq!(r.height, 1337);
    assert_eq!(r.events, vec![event("transfer", vec![tag("amount", "10utest")])]);
    assert_eq!(r.gas_wanted, 200);
    assert_eq!(r.gas_used, 100);
    assert_eq!(r.tx_hash, "TX_HASH_0");
}

#[test]
fn commit_with_code_four_keeps_the_code() {
    let r = settle_commit(commit(0, 4));
    assert_eq!(
        r,
        Err(ChainError::CosmosSdk {
            res: ChainResponse { code: Code::Failure(4), data: Some(vec![1, 2, 3]), log: "deliver log".to_string() }
        })
    );
}

#[test]
fn a_failed_admission_is_reported_before_a_failed_execution() {
    let r = settle_commit(commit(7, 4));
    assert_eq!(
        r,
        Err(ChainError::CosmosSdk {
            res: ChainResponse { code: Code::Failure(7), data: Some(vec![1, 2, 3]), log: "check log".to_string() }
        })
    );
    assert!(matches!(settle_commit(commit(7, 0)), Err(ChainError::CosmosSdk { .. })));
}

#[test]
fn sync_broadcast_that_is_refused_reports_code_and_log_only() {
    let res = TxSyncResponse { code: 11, data: vec![], log: "out of gas".to_string(), hash: "H".to_string() };
    let r = settle(BroadcastMode::Sync, BroadcastAnswer::Sync(res));
    match r {
        Err(ChainError::CosmosSdk { res }) => {
            assert_eq!(res, ChainResponse { code: Code::Failure(11), data: Some(vec![]), log: "out of gas".to_string() });
        }
        other => panic!("expected a chain-reported failure, got {:?}", other),
    }
}

#[test]
fn sync_and_async_are_admitted_and_never_included() {
    let sync = TxSyncResponse { code: 0, data: vec![5], log: "ok".to_string(), hash: "H1".to_string() };
    let expected = AsyncChainTxResponse {
        res: ChainResponse { code: Code::Success, data: Some(vec![5]), log: "ok".to_string() },
        tx_hash: "H1".to_string(),
    };
    assert_eq!(
        settle(BroadcastMode::Sync, BroadcastAnswer::Sync(sync)),
        Ok(BroadcastOutcome::Admitted(expected))
    );
    let asynchronous = TxAsyncResponse { code: 0, data: vec![], log: String::new(), hash: "H2".to_string() };
    assert!(matches!(
        settle(BroadcastMode::Async, BroadcastAnswer::Async(asynchronous)),
        Ok(BroadcastOutcome::Admitted(_))
    ));
    assert!(matches!(
        settle(BroadcastMode::Block, BroadcastAnswer::Commit(commit(0, 0))),
        Ok(BroadcastOutcome::Included(_))
    ));
    let refused = TxAsyncResponse { code: 2, data: vec![], log: "no".to_string(), hash: "H3".to_string() };
    assert!(matches!(settle_async(refused), Err(ChainError::CosmosSdk { .. })));
    let taken = TxSyncResponse { code: 0, data: vec![], log: String::new(), hash: "H4".to_string() };
    assert_eq!(settle_sync(taken).unwrap().tx_hash, "H4");
}

#[test]
fn an_answer_fits_the_mode_of_its_endpoint() {
    let sync = BroadcastAnswer::Sync(TxSyncResponse { code: 0, data: vec![], log: String::new(), hash: String::new() });
    assert!(fits(BroadcastMode::Sync, &sync));
    assert!(!fits(BroadcastMode::Async, &sync));
    assert!(!fits(BroadcastMode::Block, &sync));
    assert!(fits(BroadcastMode::Block, &BroadcastAnswer::Commit(commit(0, 0))));
}

#[test]
fn grpc_tx_response_is_read_field_by_field() {
    let proto = || ProtoTxResponse {
        height: 12,
        txhash: "ABCD".to_string(),
        code: 0,
        data: "0A0B".to_string(),
        raw_log: "[]".to_string(),
        gas_wanted: 200,
        gas_used: -1,
        events: vec![ProtoEvent {
            kind: "message".to_string(),
            attributes: vec![
                ProtoEventAttribute { key: "action".to_string(), value: "send".to_string(), index: true },
                ProtoEventAttribute { key: "sender".to_string(), value: "juno1".to_string(), index: false },
            ],
        }],
    };
    let tx = ChainTxResponse::from_proto(proto());
    assert_eq!(tx.res, ChainResponse { code: Code::Success, data: Some(b"0A0B".to_vec()), log: "[]".to_string() });
    assert_eq!(tx.events, vec![event("message", vec![tag("action", "send"), tag("sender", "juno1")])]);
    assert_eq!(tx.height, 12);
    assert_eq!(tx.gas_wanted, 200);
    assert_eq!(tx.gas_used, u64::MAX);
    assert_eq!(tx.tx_hash, "ABCD");
    assert_eq!(tx.as_ref(), &tx.res);

    let admitted = AsyncChainTxResponse::from_proto(proto());
    assert_eq!(admitted.res, tx.res);
    assert_eq!(admitted.tx_hash, "ABCD");
    assert_eq!(admitted.as_ref(), &admitted.res);
}

#[test]
fn events_go_to_messages_and_back() {
    let e = event("wasm", vec![tag("a", "1"), tag("b", "2")]);
    let proto = e.into_proto();
    assert_eq!(proto.kind, "wasm");
    assert_eq!(proto.attributes.len(), 2);
    assert!(proto.attributes.iter().all(|a| a.index));
    assert_eq!(proto.attributes[1].key, "b");
    assert_eq!(Event::from_proto(proto), event("wasm", vec![tag("a", "1"), tag("b", "2")]));
    let attr = ProtoEventAttribute::from(tag("k", "v"));
    assert_eq!(attr, ProtoEventAttribute { key: "k".to_string(), value: "v".to_string(), index: true });
    assert_eq!(Tag::from(attr), tag("k", "v"));
}

#[test]
fn signed_numbers_keep_their_bits() {
    assert_eq!(reinterpret_u64(0), 0);
    assert_eq!(reinterpret_u64(5), 5);
    assert_eq!(reinterpret_u64(i64::MAX), i64::MAX as u64);
    assert_eq!(reinterpret_u64(-1), u64::MAX);
    assert_eq!(reinterpret_u64(i64::MIN), 1u64 << 63);
    for x in [-2i64, -1337, i64::MIN + 1] {
        assert_eq!(reinterpret_u64(x), x as u64);
    }
}

#[test]
fn defaults_are_empty_successes() {
    let tx = ChainTxResponse::default();
    assert_eq!(tx.res, ChainResponse { code: Code::Success, data: None, log: String::new() });
    assert!(tx.events.is_empty());
    assert_eq!((tx.gas_wanted, tx.gas_used, tx.height), (0, 0, 0));
    assert_eq!(AsyncChainTxResponse::default().tx_hash, "");
    assert_eq!(
        ChainResponse::from_contract_state(vec![1]),
        ChainResponse { code: Code::Success, data: Some(vec![1]), log: String::new() }
    );
}
