use cosm_tome::chain::error::ChainError;
use cosm_tome::chain::msg::Any;
use cosm_tome::modules::auth::api::{auth_query_account, auth_query_accounts, auth_query_params};
use cosm_tome::modules::auth::error::AccountError;
use cosm_tome::modules::auth::model::{
    Account, AccountResponse, Address, KeyAlgorithm, Params, ParamsResponse, PublicKey,
};
use cosm_tome::proto::{ProtoAuthParams, ProtoBaseAccount, ProtoPageResponse};
use cosmrs::proto::cosmos::auth::v1beta1::BaseAccount;
use cosmrs::proto::traits::Message;

const JUNO_A: &str = "juno10j9gpw9t4jsz47qgnkvl5n3zlm2fz72k67rxsg";
const JUNO_B: &str = "juno1v9xynggs6vnrv2x5ufxdj398u2ghc5n9ya57ea";

fn encoded_account(address: &str, pub_key: Option<cosmrs::Any>, number: u64, sequence: u64) -> Any {
    let base = BaseAccount { address: address.to_string(), pub_key, account_number: number, sequence };
    Any { type_url: "/cosmos.auth.v1beta1.BaseAccount".to_string(), value: base.encode_to_vec() }
}

fn secp_any() -> cosmrs::Any {
    let key = cosmrs::crypto::secp256k1::SigningKey::from_slice(&[7u8; 32]).unwrap().public_key();
    key.to_any().unwrap()
}

#[test]
fn an_address_is_read_from_its_text() {
    let a = Address::from_str(JUNO_A).unwrap();
    assert_eq!(a.as_ref(), JUNO_A);
    assert_eq!(a.prefix(), "juno");
    assert_eq!(a.to_bytes().len(), 20);
    assert_eq!(a.clone(), a);
    assert_eq!(a.clone().into_string(), JUNO_A);
    let parsed: Address = JUNO_B.parse().unwrap();
    assert_ne!(parsed, a);
}

#[test]
fn upper_case_text_gives_the_lower_case_address() {
    let upper = JUNO_A.to_uppercase();
    let a = Address::from_str(&upper).unwrap();
    assert_eq!(a.as_ref(), JUNO_A);
    assert_eq!(a, Address::from_str(JUNO_A).unwrap());
}

#[test]
fn text_that_is_no_address_is_refused() {
    for s in ["", "juno", "juno1", "juno10j9gpw9t4jsz47qgnkvl5n3zlm2fz72k67rxsh", "not an address"] {
        assert!(matches!(Address::from_str(s), Err(AccountError::Address { .. })), "{}", s);
    }
}

#[test]
fn an_address_is_made_of_prefix_and_bytes() {
    let a = Address::from_str(JUNO_A).unwrap();
    let made = Address::new("juno", &a.to_bytes()).unwrap();
    assert_eq!(made, a);
    let other = Address::new("cosmos", &a.to_bytes()).unwrap();
    assert_eq!(other.prefix(), "cosmos");
    assert_eq!(other.to_bytes(), a.to_bytes());
    assert_ne!(other.as_ref(), a.as_ref());
    assert!(other.as_ref().starts_with("cosmos1"));
    assert!(Address::new("a1", &[1u8]).is_ok());
    assert!(Address::new("juno", &[0u8; 255]).is_ok());
}

#[test]
fn parts_that_make_no_account_id_are_refused() {
    assert!(matches!(Address::new("juno", &[]), Err(AccountError::AccountIdParse { .. })));
    assert!(matches!(Address::new("juno", &[0u8; 256]), Err(AccountError::AccountIdParse { .. })));
    assert!(matches!(Address::new("Juno", &[1u8; 20]), Err(AccountError::AccountIdParse { .. })));
    assert!(matches!(Address::new("ju-no", &[1u8; 20]), Err(AccountError::AccountIdParse { .. })));
}

#[test]
fn an_account_message_is_read() {
    let proto = ProtoBaseAccount { address: JUNO_A.to_string(), pub_key: None, account_number: 1337, sequence: 1 };
    let account = Account::from_proto(proto).unwrap();
    assert_eq!(
        account,
        Account { address: Address::from_str(JUNO_A).unwrap(), pubkey: None, account_number: 1337, sequence: 1 }
    );
    assert_eq!(account.clone(), account);

    let any = secp_any();
    let proto = ProtoBaseAccount {
        address: JUNO_A.to_string(),
        pub_key: Some(Any { type_url: any.type_url.clone(), value: any.value.clone() }),
        account_number: 2,
        sequence: 3,
    };
    let account = Account::from_proto(proto).unwrap();
    let raw = cosmrs::crypto::secp256k1::SigningKey::from_slice(&[7u8; 32]).unwrap().public_key().to_bytes();
    assert_eq!(account.pubkey, Some(PublicKey { algorithm: KeyAlgorithm::Secp256k1, key: raw }));
}

#[test]
fn an_account_message_with_bad_parts_is_refused() {
    let bad_address = ProtoBaseAccount { address: "nope".to_string(), pub_key: None, account_number: 0, sequence: 0 };
    assert!(matches!(Account::from_proto(bad_address), Err(AccountError::Address { .. })));
    let bad_key = ProtoBaseAccount {
        address: JUNO_A.to_string(),
        pub_key: Some(Any { type_url: "/unknown.Key".to_string(), value: vec![1, 2] }),
        account_number: 0,
        sequence: 0,
    };
    assert!(matches!(
        Account::from_proto(bad_key),
        Err(AccountError::ChainError(ChainError::Crypto { .. }))
    ));
    let short_key = ProtoBaseAccount {
        address: JUNO_A.to_string(),
        pub_key: Some(Any { type_url: "/cosmos.crypto.secp256k1.PubKey".to_string(), value: vec![10, 2, 1, 2] }),
        account_number: 0,
        sequence: 0,
    };
    assert!(matches!(
        Account::from_proto(short_key),
        Err(AccountError::ChainError(ChainError::Crypto { .. }))
    ));
}

#[test]
fn the_answer_to_an_account_query_is_read() {
    let res = auth_query_account(Some(encoded_account(JUNO_A, None, 1337, 1))).unwrap();
    assert_eq!(res.account.sequence, 1);
    assert_eq!(res.account.account_number, 1337);
    assert_eq!(res.account.address.as_ref(), JUNO_A);
    assert_eq!(res.account.pubkey, None);
    let with_key = AccountResponse::from_query(Some(encoded_account(JUNO_B, Some(secp_any()), 5, 6))).unwrap();
    assert!(with_key.account.pubkey.is_some());
}

#[test]
fn an_answer_without_a_usable_account_is_refused() {
    match auth_query_account(None) {
        Err(AccountError::Address { message }) => assert_eq!(message, "Invalid account address"),
        other => panic!("expected an address error, got {:?}", other),
    }
    let garbage = Any { type_url: "/cosmos.auth.v1beta1.BaseAccount".to_string(), value: vec![0xff, 0xff] };
    assert!(matches!(
        auth_query_account(Some(garbage)),
        Err(AccountError::ChainError(ChainError::ProtoDecoding { .. }))
    ));
    assert!(matches!(
        auth_query_account(Some(encoded_account("nope", None, 1, 1))),
        Err(AccountError::Address { .. })
    ));
}

#[test]
fn a_page_of_accounts_is_read_in_order() {
    let page = ProtoPageResponse { next_key: vec![1, 2], total: 9 };
    let res = auth_query_accounts(
        vec![encoded_account(JUNO_A, None, 1, 10), encoded_account(JUNO_B, None, 2, 20)],
        Some(page),
    )
    .unwrap();
    assert_eq!(res.accounts.len(), 2);
    assert_eq!(res.accounts[0].address.as_ref(), JUNO_A);
    assert_eq!(res.accounts[1].sequence, 20);
    let next = res.next.unwrap();
    assert_eq!((next.next_key, next.total), (vec![1, 2], 9));

    let failed = auth_query_accounts(
        vec![encoded_account(JUNO_A, None, 1, 10), encoded_account("bad", None, 2, 20)],
        None,
    );
    assert!(matches!(failed, Err(AccountError::Address { .. })));
    assert_eq!(auth_query_accounts(vec![], None).unwrap().accounts.len(), 0);
}

#[test]
fn parameters_are_read_field_by_field() {
    let proto = ProtoAuthParams {
        max_memo_characters: 256,
        tx_sig_limit: 7,
        tx_size_cost_per_byte: 10,
        sig_verify_cost_ed25519: 590,
        sig_verify_cost_secp256k1: 1000,
    };
    let params = Params::from_proto(proto);
    assert_eq!(params.max_memo_characters, 256);
    assert_eq!(params.tx_sig_limit, 7);
    assert_eq!(params.tx_size_cost_per_byte, 10);
    assert_eq!(params.sig_verify_cost_ed25519, 590);
    assert_eq!(params.sig_verify_cost_secp256k1, 1000);
    assert_eq!(params.into_proto(), proto);
    assert_eq!(auth_query_params(Some(proto)), ParamsResponse { params: Some(params) });
    assert_eq!(auth_query_params(None), ParamsResponse { params: None });
}

#[test]
fn errors_wrap_the_layer_below() {
    let chain = || ChainError::Simulation;
    assert_eq!(AccountError::from(chain()), AccountError::ChainError(chain()));
}
