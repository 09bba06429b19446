use cosm_tome::chain::error::ChainError;
use cosm_tome::chain::msg::Any;
use cosm_tome::modules::auth::error::AccountError;
use cosm_tome::modules::auth::model::{Address, KeyAlgorithm, PublicKey};
use cosm_tome::modules::tendermint::api::query_height;
use cosm_tome::modules::tendermint::error::TendermintError;
use cosm_tome::modules::tendermint::model::{BlockResponse, Validator, ValidatorSetResponse};
use cosm_tome::proto::{ProtoPageResponse, ProtoValidator};
use cosmrs::proto::tendermint::types::{Block, BlockId};

const VALOPER: &str = "juno10j9gpw9t4jsz47qgnkvl5n3zlm2fz72k67rxsg";

fn secp_any() -> cosmrs::Any {
    cosmrs::crypto::secp256k1::SigningKey::from_slice(&[7u8; 32]).unwrap().public_key().to_any().unwrap()
}

fn validator(address: &str, key: Option<Any>) -> ProtoValidator {
    ProtoValidator { address: address.to_string(), pub_key: key, voting_power: 10, proposer_priority: -3 }
}

#[test]
fn a_block_needs_its_id_and_itself() {
    let id = BlockId { hash: vec![1, 2, 3], part_set_header: None };
    let block = Block { header: None, data: None, evidence: None, last_commit: None };
    assert_eq!(
        BlockResponse::try_from(Some(id.clone()), Some(block.clone())),
        Ok(BlockResponse { id: id.clone(), block: block.clone() })
    );
    assert_eq!(BlockResponse::try_from(None, Some(block.clone())), Err(TendermintError::MissingBlockId));
    assert_eq!(BlockResponse::try_from(Some(id.clone()), None), Err(TendermintError::MissingBlock));
    assert_eq!(BlockResponse::try_from(None, None), Err(TendermintError::MissingBlockId));
    let parts = BlockResponse { id: id.clone(), block: block.clone() }.into_parts();
    assert_eq!(parts, (Some(id), Some(block)));
}

#[test]
fn a_validator_is_read_and_written() {
    let any = secp_any();
    let key = Any { type_url: any.type_url.clone(), value: any.value.clone() };
    let v = Validator::from_proto(validator(VALOPER, Some(key.clone()))).unwrap();
    assert_eq!(v.address, Address::from_str(VALOPER).unwrap());
    assert_eq!(v.voting_power, 10);
    assert_eq!(v.proposer_priority, -3);
    let raw = cosmrs::crypto::secp256k1::SigningKey::from_slice(&[7u8; 32]).unwrap().public_key().to_bytes();
    assert_eq!(v.pubkey, Some(PublicKey { algorithm: KeyAlgorithm::Secp256k1, key: raw }));
    assert_eq!(v.into_proto(), Ok(validator(VALOPER, Some(key))));

    let without = Validator::from_proto(validator(VALOPER, None)).unwrap();
    assert_eq!(without.pubkey, None);
    assert_eq!(without.into_proto(), Ok(validator(VALOPER, None)));
}

#[test]
fn a_validator_with_bad_parts_is_refused() {
    assert!(matches!(
        Validator::from_proto(validator("nope", None)),
        Err(TendermintError::AccountError(AccountError::Address { .. }))
    ));
    let bad = Any { type_url: "/cosmos.crypto.secp256k1.PubKey".to_string(), value: vec![10, 1, 0] };
    assert!(matches!(
        Validator::from_proto(validator(VALOPER, Some(bad))),
        Err(TendermintError::ChainError(ChainError::Crypto { .. }))
    ));
    let unusable = Validator {
        address: Address::from_str(VALOPER).unwrap(),
        pubkey: Some(PublicKey { algorithm: KeyAlgorithm::Secp256k1, key: vec![1, 2, 3] }),
        voting_power: 0,
        proposer_priority: 0,
    };
    assert!(matches!(unusable.into_proto(), Err(TendermintError::ChainError(ChainError::Crypto { .. }))));
}

#[test]
fn a_validator_set_is_read_in_order() {
    let page = ProtoPageResponse { next_key: vec![], total: 2 };
    let set = ValidatorSetResponse::try_from(
        42,
        vec![validator(VALOPER, None), validator(VALOPER, None)],
        Some(page),
    )
    .unwrap();
    assert_eq!(set.block_height, 42);
    assert_eq!(set.validators.len(), 2);
    assert_eq!(set.next.unwrap().total, 2);
    let any = secp_any();
    let key = Any { type_url: any.type_url.clone(), value: any.value.clone() };
    let with_keys =
        ValidatorSetResponse::try_from(7, vec![validator(VALOPER, None), validator(VALOPER, Some(key))], None)
            .unwrap();
    let raw = cosmrs::crypto::secp256k1::SigningKey::from_slice(&[7u8; 32]).unwrap().public_key().to_bytes();
    assert_eq!(with_keys.validators[0].pubkey, None);
    assert_eq!(
        with_keys.validators[1].pubkey,
        Some(PublicKey { algorithm: KeyAlgorithm::Secp256k1, key: raw })
    );
    let bad_key = Any { type_url: "/cosmos.crypto.secp256k1.PubKey".to_string(), value: vec![10, 1, 0] };
    assert!(matches!(
        ValidatorSetResponse::try_from(7, vec![validator(VALOPER, Some(bad_key))], None),
        Err(TendermintError::ChainError(ChainError::Crypto { .. }))
    ));
    let failed = ValidatorSetResponse::try_from(42, vec![validator(VALOPER, None), validator("x", None)], None);
    assert!(matches!(failed, Err(TendermintError::AccountError(AccountError::Address { .. }))));
    assert_eq!(ValidatorSetResponse::try_from(-1, vec![], None).unwrap().block_height, u64::MAX);
}

#[test]
fn a_validator_set_is_written_in_order() {
    let set = ValidatorSetResponse::try_from(42, vec![validator(VALOPER, None)], None).unwrap();
    assert_eq!(set.into_parts(), Ok((42, vec![validator(VALOPER, None)], None)));
    let unusable = ValidatorSetResponse {
        block_height: u64::MAX,
        validators: vec![Validator {
            address: Address::from_str(VALOPER).unwrap(),
            pubkey: Some(PublicKey { algorithm: KeyAlgorithm::Ed25519, key: vec![1] }),
            voting_power: 0,
            proposer_priority: 0,
        }],
        next: None,
    };
    assert!(matches!(unusable.into_parts(), Err(TendermintError::ChainError(ChainError::Crypto { .. }))));
    let empty = ValidatorSetResponse { block_height: u64::MAX, validators: vec![], next: None };
    assert_eq!(empty.into_parts(), Ok((-1, vec![], None)));
}

#[test]
fn heights_keep_their_bits() {
    assert_eq!(query_height(0), 0);
    assert_eq!(query_height(42), 42);
    assert_eq!(query_height(i64::MAX as u64), i64::MAX);
    assert_eq!(query_height(u64::MAX), -1);
    assert_eq!(query_height(1u64 << 63), i64::MIN);
}

#[test]
fn consensus_errors_wrap_the_layers_below() {
    assert_eq!(TendermintError::from(ChainError::Mnemonic), TendermintError::ChainError(ChainError::Mnemonic));
    let account = || AccountError::Address { message: "m".to_string() };
    assert_eq!(TendermintError::from(account()), TendermintError::AccountError(account()));
}
