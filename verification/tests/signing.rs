use cosm_tome::chain::coin::{Coin, Denom};
use cosm_tome::chain::error::ChainError;
use cosm_tome::chain::fee::Fee;
use cosm_tome::chain::msg::Any;
use cosm_tome::modules::auth::model::{Account, Address, KeyAlgorithm, PublicKey};
use cosm_tome::modules::tx::model::RawTx;
use cosm_tome::signing_key::key::{
    build_sign_doc, mnemonic_to_signing_key, sign_parts_with, Key, KeyringParams, SigningKey,
};
use cosmrs::crypto::secp256k1;
use cosmrs::tx::{Body, SignDoc, SignerInfo};

const PHRASE: &str = "abandon abandon abandon abandon abandon abandon abandon abandon abandon abandon abandon abandon abandon abandon abandon abandon abandon abandon abandon abandon abandon abandon abandon art";
const PATH: &str = "m/44'/118'/0'/0/0";

fn raw_key() -> SigningKey {
    SigningKey { name: "raw".to_string(), key: Key::Raw(vec![7u8; 32]) }
}

fn mnemonic_key() -> SigningKey {
    SigningKey { name: "words".to_string(), key: Key::Mnemonic(PHRASE.to_string()) }
}

fn account(pubkey: Option<PublicKey>) -> Account {
    Account {
        address: Address::from_str("juno10j9gpw9t4jsz47qgnkvl5n3zlm2fz72k67rxsg").unwrap(),
        pubkey,
        account_number: 1337,
        sequence: 1,
    }
}

fn fee() -> Fee {
    Fee::new(Coin { denom: Denom::from_str("utest").unwrap(), amount: 15 }, 150u64, None, None)
}

fn msgs() -> Vec<Any> {
    vec![Any { type_url: "/cosmos.bank.v1beta1.MsgSend".to_string(), value: vec![10, 0, 18, 0] }]
}

fn direct(secret: &[u8], timeout: u64, memo: &str, chain_id: &str) -> Vec<u8> {
    let key = secp256k1::SigningKey::from_slice(secret).unwrap();
    let any = cosmrs::Any { type_url: "/cosmos.bank.v1beta1.MsgSend".to_string(), value: vec![10, 0, 18, 0] };
    let body = Body::new(vec![any], memo, cosmrs::tendermint::block::Height::try_from(timeout).unwrap());
    let fee = cosmrs::tx::Fee::from_amount_and_gas(cosmrs::Coin::new(15, "utest").unwrap(), 150u64);
    let auth = SignerInfo::single_direct(Some(key.public_key()), 1).auth_info(fee);
    let doc = SignDoc::new(&body, &auth, &chain_id.parse().unwrap(), 1337).unwrap();
    doc.sign(&key).unwrap().to_bytes().unwrap()
}

#[test]
fn a_raw_key_has_the_public_key_of_its_scheme() {
    let public = raw_key().public_key(PATH).unwrap();
    let expected = secp256k1::SigningKey::from_slice(&[7u8; 32]).unwrap().public_key().to_bytes();
    assert_eq!(public, PublicKey { algorithm: KeyAlgorithm::Secp256k1, key: expected });
    assert_eq!(public.key.len(), 33);
    assert_ne!(public.key, vec![7u8; 32]);
    assert_eq!(raw_key().secret(PATH), Ok(vec![7u8; 32]));
}

#[test]
fn bytes_that_are_no_key_are_a_crypto_error() {
    for bytes in [vec![], vec![0u8; 32], vec![1u8; 33], vec![255u8; 32]] {
        let key = SigningKey { name: "bad".to_string(), key: Key::Raw(bytes.clone()) };
        assert!(matches!(key.public_key(PATH), Err(ChainError::Crypto { .. })), "{:?}", bytes);
        assert!(matches!(key.to_addr("juno", PATH), Err(ChainError::Crypto { .. })));
        assert!(matches!(
            key.sign(msgs(), 0, "", account(None), fee(), "test-1", PATH),
            Err(ChainError::Crypto { .. })
        ));
    }
}

#[test]
fn a_mnemonic_gives_the_address_of_its_derived_key() {
    let addr = mnemonic_key().to_addr("cosmos", PATH).unwrap();
    assert_eq!(addr.as_ref(), "cosmos1r5v5srda7xfth3hn2s26txvrcrntldjumt8mhl");
    assert_eq!(addr.prefix(), "cosmos");
    assert_eq!(addr.to_bytes().len(), 20);

    let seed = cosmrs::bip32::Mnemonic::new(PHRASE, cosmrs::bip32::Language::English).unwrap().to_seed("");
    let direct = secp256k1::SigningKey::derive_from_path(seed, &PATH.parse().unwrap()).unwrap();
    assert_eq!(addr.as_ref(), direct.public_key().account_id("cosmos").unwrap().as_ref());
    assert_eq!(mnemonic_key().public_key(PATH).unwrap().key, direct.public_key().to_bytes());

    let other = mnemonic_key().to_addr("cosmos", "m/44'/118'/0'/0/1").unwrap();
    assert_ne!(other, addr);
    let juno = mnemonic_key().to_addr("juno", PATH).unwrap();
    assert_eq!(juno.to_bytes(), addr.to_bytes());
    assert_ne!(juno.as_ref(), addr.as_ref());
}

#[test]
fn bad_words_and_bad_paths_are_told_apart() {
    let bad_words = SigningKey { name: "k".to_string(), key: Key::Mnemonic("not a mnemonic".to_string()) };
    assert_eq!(bad_words.public_key(PATH), Err(ChainError::Mnemonic));
    assert_eq!(bad_words.to_addr("juno", PATH), Err(ChainError::Mnemonic));
    assert_eq!(bad_words.public_key("nonsense"), Err(ChainError::Mnemonic));
    assert_eq!(mnemonic_key().public_key("nonsense"), Err(ChainError::DerviationPath));
    assert_eq!(mnemonic_key().to_addr("juno", "m/44'/x"), Err(ChainError::DerviationPath));
    assert_eq!(mnemonic_to_signing_key("abandon", PATH), Err(ChainError::Mnemonic));
    assert_eq!(mnemonic_to_signing_key(PHRASE, ""), Err(ChainError::DerviationPath));
    assert_eq!(mnemonic_to_signing_key(PHRASE, PATH).unwrap().len(), 32);
    assert_eq!(
        mnemonic_key().sign(msgs(), 0, "", account(None), fee(), "test-1", "bad"),
        Err(ChainError::DerviationPath)
    );
}

#[test]
fn an_empty_prefix_gives_an_address_without_one() {
    let addr = raw_key().to_addr("", PATH).unwrap();
    assert_eq!(addr.prefix(), "");
    assert!(addr.as_ref().starts_with('1'));
    assert_eq!(addr.to_bytes(), raw_key().to_addr("juno", PATH).unwrap().to_bytes());
    let direct = secp256k1::SigningKey::from_slice(&[7u8; 32]).unwrap().public_key().account_id("").unwrap();
    assert_eq!(addr.as_ref(), direct.as_ref());
    assert_eq!(addr, Address::new("", &addr.to_bytes()).unwrap());
}

#[test]
fn an_address_has_the_prefix_that_was_asked_for() {
    for prefix in ["juno", "cosmos", "osmo", "a1", "test"] {
        let addr = raw_key().to_addr(prefix, PATH).unwrap();
        assert_eq!(addr.prefix(), prefix);
        assert_eq!(addr.to_bytes().len(), 20);
        assert_eq!(Address::from_str(addr.as_ref()), Ok(addr));
    }
}

#[test]
fn a_prefix_that_is_none_is_a_crypto_error() {
    assert!(matches!(raw_key().to_addr("JUNO", PATH), Err(ChainError::Crypto { .. })));
    assert!(matches!(raw_key().to_addr("ju no", PATH), Err(ChainError::Crypto { .. })));
}

#[test]
fn signing_gives_what_the_chain_library_gives() {
    let tx = raw_key().sign(msgs(), 0, "hello", account(None), fee(), "test-1", PATH).unwrap();
    assert_eq!(tx.to_bytes().unwrap(), direct(&[7u8; 32], 0, "hello", "test-1"));
    assert_eq!(tx.signatures().len(), 1);
    assert_eq!(tx.signatures()[0].len(), 64);

    // the same inputs give the same transaction
    let again = raw_key().sign(msgs(), 0, "hello", account(None), fee(), "test-1", PATH).unwrap();
    assert_eq!(again, tx);

    // every input is signed over
    let other_memo = raw_key().sign(msgs(), 0, "bye", account(None), fee(), "test-1", PATH).unwrap();
    assert_ne!(other_memo.signatures(), tx.signatures());
    let other_chain = raw_key().sign(msgs(), 0, "hello", account(None), fee(), "test-2", PATH).unwrap();
    assert_eq!(other_chain.body_bytes(), tx.body_bytes());
    assert_ne!(other_chain.signatures(), tx.signatures());
    let later = raw_key().sign(msgs(), 9, "hello", account(None), fee(), "test-1", PATH).unwrap();
    assert_eq!(later.to_bytes().unwrap(), direct(&[7u8; 32], 9, "hello", "test-1"));
}

#[test]
fn a_mnemonic_key_signs_with_its_derived_key() {
    let secret = mnemonic_to_signing_key(PHRASE, PATH).unwrap();
    let tx = mnemonic_key().sign(msgs(), 0, "", account(None), fee(), "test-1", PATH).unwrap();
    assert_eq!(tx.to_bytes().unwrap(), direct(&secret, 0, "", "test-1"));
}

#[test]
fn the_public_key_of_the_account_is_named_where_it_is_known() {
    let known = raw_key().public_key(PATH).unwrap();
    let with_key = raw_key().sign(msgs(), 0, "", account(Some(known)), fee(), "test-1", PATH).unwrap();
    let without = raw_key().sign(msgs(), 0, "", account(None), fee(), "test-1", PATH).unwrap();
    assert_eq!(with_key, without);

    let foreign = mnemonic_key().public_key(PATH).unwrap();
    let named = raw_key().sign(msgs(), 0, "", account(Some(foreign)), fee(), "test-1", PATH).unwrap();
    assert_ne!(named.auth_info_bytes(), without.auth_info_bytes());
    assert_eq!(named.body_bytes(), without.body_bytes());
}

#[test]
fn a_public_key_that_is_none_cannot_be_encoded() {
    let broken = PublicKey { algorithm: KeyAlgorithm::Secp256k1, key: vec![1, 2, 3] };
    let r = raw_key().sign(msgs(), 0, "", account(Some(broken)), fee(), "test-1", PATH);
    assert!(matches!(r, Err(ChainError::ProtoEncoding { .. })));
}

#[test]
fn a_timeout_beyond_the_heights_is_refused() {
    let r = raw_key().sign(msgs(), u64::MAX, "", account(None), fee(), "test-1", PATH);
    assert!(matches!(r, Err(ChainError::Tendermint { .. })));
    let r = raw_key().sign(msgs(), (i64::MAX as u64) + 1, "", account(None), fee(), "test-1", PATH);
    assert!(matches!(r, Err(ChainError::Tendermint { .. })));
    assert!(raw_key().sign(msgs(), i64::MAX as u64, "", account(None), fee(), "test-1", PATH).is_ok());
}

#[test]
fn a_chain_id_that_is_none_is_refused() {
    for id in ["", "has space", "a/b", &"x".repeat(51)] {
        let r = raw_key().sign(msgs(), 0, "", account(None), fee(), id, PATH);
        assert_eq!(r, Err(ChainError::ChainId { chain_id: id.to_string() }));
    }
    assert!(raw_key().sign(msgs(), 0, "", account(None), fee(), &"x".repeat(50), PATH).is_ok());
    // the timeout is looked at before the chain id
    let r = raw_key().sign(msgs(), u64::MAX, "", account(None), fee(), "", PATH);
    assert!(matches!(r, Err(ChainError::Tendermint { .. })));
}

#[test]
fn a_key_in_the_secret_store_has_to_be_resolved() {
    let params = KeyringParams { service: "svc".to_string(), key_name: "main".to_string() };
    let stored = SigningKey { name: "k".to_string(), key: Key::Keyring(params) };
    assert_eq!(stored.public_key(PATH), Err(ChainError::Keyring { message: "main".to_string() }));
    assert_eq!(stored.secret(PATH), Err(ChainError::Keyring { message: "main".to_string() }));
    assert!(matches!(stored.to_addr("juno", PATH), Err(ChainError::Keyring { .. })));
    assert!(matches!(
        stored.sign(msgs(), 0, "", account(None), fee(), "test-1", PATH),
        Err(ChainError::Keyring { .. })
    ));
    assert_eq!(stored.keyring_params().unwrap().service, "svc");
    let resolved = stored.resolved(PHRASE.to_string());
    assert_eq!(resolved, SigningKey { name: "k".to_string(), key: Key::Mnemonic(PHRASE.to_string()) });
    assert_eq!(resolved.to_addr("cosmos", PATH), mnemonic_key().to_addr("cosmos", PATH));
    assert_eq!(raw_key().resolved("x".to_string()), raw_key());
    assert!(raw_key().keyring_params().is_none());
}

#[test]
fn random_mnemonics_are_usable_and_differ() {
    let a = SigningKey::random_mnemonic("test_key".to_string());
    let b = SigningKey::random_mnemonic("test_key".to_string());
    assert_eq!(a.name, "test_key");
    assert!(matches!(a.key, Key::Mnemonic(_)));
    assert_ne!(a.key, b.key);
    assert!(a.to_addr("juno", PATH).is_ok());
}

#[test]
fn the_halves_of_a_transaction_are_built_then_signed() {
    let public = raw_key().public_key(PATH).unwrap();
    let (body, auth) = build_sign_doc(&msgs(), 0, "hello", &account(None), &fee(), public, "test-1").unwrap();
    let tx = sign_parts_with(body.clone(), auth.clone(), "test-1", 1337, &vec![7u8; 32]).unwrap();
    assert_eq!(tx.body_bytes(), &body);
    assert_eq!(tx.auth_info_bytes(), &auth);
    assert_eq!(tx.to_bytes().unwrap(), direct(&[7u8; 32], 0, "hello", "test-1"));
    assert_eq!(RawTx::from_bytes(&tx.to_bytes().unwrap()), Ok(tx));
    assert!(matches!(
        sign_parts_with(body, auth, "test-1", 1337, &vec![]),
        Err(ChainError::Crypto { .. })
    ));
}

#[test]
fn a_fee_with_payer_and_granter_is_signed_over() {
    let payer = Address::from_str("juno10j9gpw9t4jsz47qgnkvl5n3zlm2fz72k67rxsg").unwrap();
    let granter = Address::from_str("juno1v9xynggs6vnrv2x5ufxdj398u2ghc5n9ya57ea").unwrap();
    let coin = Coin { denom: Denom::from_str("utest").unwrap(), amount: 15 };
    let with = Fee::new(coin, 150u64, Some(payer), Some(granter));
    let a = raw_key().sign(msgs(), 0, "", account(None), with, "test-1", PATH).unwrap();
    let b = raw_key().sign(msgs(), 0, "", account(None), fee(), "test-1", PATH).unwrap();
    assert_ne!(a.auth_info_bytes(), b.auth_info_bytes());
    let auth = cosmrs::proto::cosmos::tx::v1beta1::AuthInfo::decode_bytes(a.auth_info_bytes());
    assert_eq!(auth.0, "juno10j9gpw9t4jsz47qgnkvl5n3zlm2fz72k67rxsg");
    assert_eq!(auth.1, "juno1v9xynggs6vnrv2x5ufxdj398u2ghc5n9ya57ea");
}

trait DecodeBytes {
    fn decode_bytes(bytes: &[u8]) -> (String, String);
}

impl DecodeBytes for cosmrs::proto::cosmos::tx::v1beta1::AuthInfo {
    fn decode_bytes(bytes: &[u8]) -> (String, String) {
        let info: Self = cosmrs::proto::traits::Message::decode(bytes).unwrap();
        let fee = info.fee.unwrap();
        (fee.payer, fee.granter)
    }
}
