//! The calls that this library makes into `cosmrs` and the crates behind it.
//!
//! Every function here hands plain values to `cosmrs` and hands plain
//! values back; its body is the call and the change of types around it.
//! What such a call returns is stated, not proved: for an encoding or a
//! cryptographic result by a name that stands for the outside function, for
//! a short rule by the rule itself.

use crate::chain::fee::{Fee, FeeView};
use crate::chain::msg::{Any, AnyView};
use crate::modules::auth::model::{KeyAlgorithm, PublicKey};
use crate::proto::{ProtoBaseAccount, ProtoGasInfo};
use cosmrs::proto::cosmos::tx::v1beta1 as tx_proto;
use cosmrs::proto::traits::{Message, MessageExt};
use cosmrs::ErrorReport;
use vstd::prelude::*;

verus! {

/// The longest byte string that an account id may hold.
pub const MAX_ACCOUNT_ID_LEN: usize = 255;

/// Whether `c` may stand in the human-readable prefix of an account id.
pub open spec fn is_prefix_char(c: char) -> bool {
    ('a' <= c <= 'z') || ('0' <= c <= '9')
}

/// What `AccountId::new` accepts: a prefix of lower-case letters and digits
/// only, and between 1 and 255 bytes.
pub open spec fn valid_account_parts(prefix: Seq<char>, bytes: Seq<u8>) -> bool {
    &&& forall|i: int| 0 <= i < prefix.len() ==> is_prefix_char(#[trigger] prefix[i])
    &&& 1 <= bytes.len() <= MAX_ACCOUNT_ID_LEN
}

/// The lower-case Bech32 text of `bytes` under the prefix `prefix`, as
/// `subtle_encoding::bech32::encode` gives it.
pub uninterp spec fn bech32_text(prefix: Seq<char>, bytes: Seq<u8>) -> Seq<char>;

/// The prefix and the bytes that `AccountId::from_str` reads out of `s`, or
/// `None` where it refuses `s`.
pub uninterp spec fn account_id_parts(s: Seq<char>) -> Option<(Seq<char>, Seq<u8>)>;

/// `cosmrs::AccountId::new`, followed by `String::from`. The call succeeds
/// exactly on valid parts and gives the Bech32 text of the bytes under the
/// prefix; on failure the report's text comes back.
#[verifier::external_body]
pub(crate) fn account_id_new(prefix: &str, bytes: &[u8]) -> (r: Result<String, String>)
    ensures
        r is Ok <==> valid_account_parts(prefix@, bytes@),
        r matches Ok(text) ==> text@ == bech32_text(prefix@, bytes@),
{
    cosmrs::AccountId::new(prefix, bytes).map(String::from).map_err(|e| e.to_string())
}

/// `cosmrs::AccountId::from_str`. On success the id's text, prefix and bytes
/// come back: the parts are those that the call read out of `s`, they are
/// valid, and the text is their Bech32 text. On failure the report's text
/// comes back.
#[verifier::external_body]
pub(crate) fn account_id_from_str(s: &str) -> (r: Result<(String, String, Vec<u8>), String>)
    ensures
        r is Err ==> account_id_parts(s@) is None,
        r matches Ok(id) ==> {
            &&& account_id_parts(s@) == Some((id.1@, id.2@))
            &&& valid_account_parts(id.1@, id.2@)
            &&& id.0@ == bech32_text(id.1@, id.2@)
        },
{
    match s.parse::<cosmrs::AccountId>() {
        Ok(id) => Ok((id.to_string(), id.prefix().to_owned(), id.to_bytes())),
        Err(e) => Err(e.to_string()),
    }
}

/// The public key that `cosmrs::crypto::PublicKey::try_from` reads out of
/// an envelope with this type name and value, or `None` where it refuses
/// the envelope.
pub uninterp spec fn public_key_of_any(type_url: Seq<char>, value: Seq<u8>) -> Option<
    (KeyAlgorithm, Seq<u8>),
>;

/// `cosmrs::crypto::PublicKey::try_from(&Any)`. On success the scheme of the
/// key and its bytes (`to_bytes`) come back; on failure, or for a scheme
/// other than the two that `cosmrs` knows, the report's text.
#[verifier::external_body]
pub(crate) fn public_key_from_any(any: &Any) -> (r: Result<PublicKey, String>)
    ensures
        r matches Ok(key) ==> public_key_of_any(any.type_url@, any.value@) == Some(key@),
        r is Err ==> public_key_of_any(any.type_url@, any.value@) is None,
{
    let any = cosmrs::Any { type_url: any.type_url.clone(), value: any.value.clone() };
    let key = cosmrs::crypto::PublicKey::try_from(&any).map_err(|e| e.to_string())?;
    match cosmrs::tendermint::PublicKey::from(key) {
        cosmrs::tendermint::PublicKey::Secp256k1(_) => Ok(
            PublicKey { algorithm: KeyAlgorithm::Secp256k1, key: key.to_bytes() },
        ),
        cosmrs::tendermint::PublicKey::Ed25519(_) => Ok(
            PublicKey { algorithm: KeyAlgorithm::Ed25519, key: key.to_bytes() },
        ),
        _ => Err(String::from("unsupported public key")),
    }
}

/// The account that `cosmrs::crypto::PublicKey::account_id` gives the key
/// under `prefix`, as a prefix and bytes, or `None` where the call fails.
pub uninterp spec fn public_key_account(key: (KeyAlgorithm, Seq<u8>), prefix: Seq<char>) -> Option<
    (Seq<char>, Seq<u8>),
>;

/// `cosmrs::crypto::PublicKey::account_id`, for the key with these bytes.
/// On success the id's text, prefix and bytes come back: the prefix is the
/// one that was asked for, the parts are valid, and the text is their
/// Bech32 text. The bytes are those that the call makes the id of
/// (`tendermint::account::Id::from` on the key); the id itself is not
/// decoded. A key that `tendermint` does not take, or a failing call, gives
/// the report's text.
#[verifier::external_body]
pub(crate) fn public_key_account_id(key: &PublicKey, prefix: &str) -> (r: Result<
    (String, String, Vec<u8>),
    String,
>)
    ensures
        r is Err ==> public_key_account(key@, prefix@) is None,
        r matches Ok(id) ==> {
            &&& public_key_account(key@, prefix@) == Some((id.1@, id.2@))
            &&& id.1@ == prefix@
            &&& valid_account_parts(id.1@, id.2@)
            &&& id.0@ == bech32_text(id.1@, id.2@)
        },
{
    let raw = match key.algorithm {
        KeyAlgorithm::Secp256k1 => cosmrs::tendermint::PublicKey::from_raw_secp256k1(&key.key),
        KeyAlgorithm::Ed25519 => cosmrs::tendermint::PublicKey::from_raw_ed25519(&key.key),
    };
    let raw = raw.ok_or(String::from("invalid public key"))?;
    let id = cosmrs::crypto::PublicKey::from(raw).account_id(prefix).map_err(|e| e.to_string())?;
    let bytes = cosmrs::tendermint::account::Id::from(raw).as_bytes().to_vec();
    Ok((String::from(id), prefix.to_owned(), bytes))
}

/// The public key of the secp256k1 secret key `secret`, in compressed SEC1
/// form, or `None` where the bytes are no secret key.
pub uninterp spec fn secp256k1_public(secret: Seq<u8>) -> Option<Seq<u8>>;

/// `cosmrs::crypto::secp256k1::SigningKey::from_slice`, then `public_key`
/// and `to_bytes`.
#[verifier::external_body]
pub(crate) fn secp256k1_public_key(secret: &[u8]) -> (r: Result<Vec<u8>, String>)
    ensures
        r matches Ok(key) ==> secp256k1_public(secret@) == Some(key@),
        r is Err ==> secp256k1_public(secret@) is None,
{
    match cosmrs::crypto::secp256k1::SigningKey::from_slice(secret) {
        Ok(key) => Ok(key.public_key().to_bytes()),
        Err(e) => Err(e.to_string()),
    }
}

/// The signature of `message` under the secp256k1 secret key `secret`, or
/// `None` where the bytes are no secret key or signing fails. Signing is
/// deterministic: the same key and message give the same signature.
pub uninterp spec fn secp256k1_signature(secret: Seq<u8>, message: Seq<u8>) -> Option<Seq<u8>>;

/// `cosmrs::crypto::secp256k1::SigningKey::from_slice`, then `sign` and the
/// signature's bytes.
#[verifier::external_body]
pub(crate) fn secp256k1_sign(secret: &[u8], message: &[u8]) -> (r: Result<Vec<u8>, String>)
    ensures
        r matches Ok(sig) ==> secp256k1_signature(secret@, message@) == Some(sig@),
        r is Err ==> secp256k1_signature(secret@, message@) is None,
{
    let key = cosmrs::crypto::secp256k1::SigningKey::from_slice(secret).map_err(|e| e.to_string())?;
    key.sign(message).map(|sig| sig.to_vec()).map_err(|e| e.to_string())
}

/// Why no key comes out of a mnemonic and a derivation path.
#[derive(Copy, Clone, Debug, PartialEq, Eq, Structural)]
pub enum DerivationFailure {
    /// The phrase is no English BIP-39 mnemonic.
    Mnemonic,
    /// The path is no BIP-32 derivation path, or cannot be followed.
    Path,
}

/// The secret key that BIP-32 derives along `path` from the seed of the
/// BIP-39 mnemonic `phrase` (English, empty password).
pub uninterp spec fn derived_secret(phrase: Seq<char>, path: Seq<char>) -> Result<
    Seq<u8>,
    DerivationFailure,
>;

/// An outcome of a derivation with the key's bytes as a sequence.
pub open spec fn secret_view(r: Result<Vec<u8>, DerivationFailure>) -> Result<
    Seq<u8>,
    DerivationFailure,
> {
    match r {
        Ok(secret) => Ok(secret@),
        Err(e) => Err(e),
    }
}

/// `bip32::Mnemonic::new` and `to_seed("")`, the path's `parse`, and
/// `bip32::XPrv::derive_from_path`; the derived key's bytes come back. A
/// phrase that is refused is `Mnemonic`; a path that does not parse, or a
/// derivation that fails, is `Path`.
#[verifier::external_body]
pub(crate) fn mnemonic_secret(phrase: &str, path: &str) -> (r: Result<Vec<u8>, DerivationFailure>)
    ensures
        secret_view(r) == derived_secret(phrase@, path@),
{
    let mnemonic = cosmrs::bip32::Mnemonic::new(phrase, cosmrs::bip32::Language::English)
        .map_err(|_| DerivationFailure::Mnemonic)?;
    let path: cosmrs::bip32::DerivationPath = path.parse().map_err(|_| DerivationFailure::Path)?;
    let key = cosmrs::bip32::XPrv::derive_from_path(mnemonic.to_seed(""), &path)
        .map_err(|_| DerivationFailure::Path)?;
    Ok(key.to_bytes().to_vec())
}

/// Whether `phrase` is a mnemonic: no derivation from it, along whatever
/// path, is refused for the phrase's sake.
pub open spec fn is_mnemonic(phrase: Seq<char>) -> bool {
    forall|path: Seq<char>|
        !(#[trigger] derived_secret(phrase, path) matches Err(DerivationFailure::Mnemonic))
}

/// `bip32::Mnemonic::random` with the system's generator, in English. Each
/// call draws a new phrase, so the phrase has no name; what holds of every
/// one is that it is a mnemonic: the words and the checksum that `random`
/// writes are those that `Mnemonic::new` asks for, so no derivation from
/// the phrase fails for the phrase's sake.
#[verifier::external_body]
pub(crate) fn random_phrase() -> (phrase: String)
    ensures
        is_mnemonic(phrase@),
{
    let mnemonic = cosmrs::bip32::Mnemonic::random(
        cosmrs::bip32::secp256k1::elliptic_curve::rand_core::OsRng,
        Default::default(),
    );
    mnemonic.phrase().to_string()
}

/// The greatest block height: heights must also fit a signed 64-bit number.
pub const MAX_HEIGHT: u64 = 0x7fff_ffff_ffff_ffff;

/// `tendermint::block::Height::try_from`: a height is accepted exactly when
/// it is at most `MAX_HEIGHT`. The error's text comes back otherwise.
#[verifier::external_body]
pub(crate) fn check_height(height: u64) -> (r: Result<(), String>)
    ensures
        r is Ok <==> height <= MAX_HEIGHT,
{
    cosmrs::tendermint::block::Height::try_from(height).map(|_| ()).map_err(|e| e.to_string())
}

/// The longest chain id, in characters.
pub const MAX_CHAIN_ID_LEN: usize = 50;

/// Whether `c` may stand in a chain id: a letter, a digit, or one of
/// `- _ .`.
pub open spec fn is_chain_id_char(c: char) -> bool {
    ('a' <= c <= 'z') || ('A' <= c <= 'Z') || ('0' <= c <= '9') || c == '-' || c == '_' || c == '.'
}

/// What `tendermint::chain::Id` accepts: between 1 and 50 characters, each
/// a letter, a digit, or one of `- _ .`.
pub open spec fn valid_chain_id(s: Seq<char>) -> bool {
    &&& 1 <= s.len() <= MAX_CHAIN_ID_LEN
    &&& forall|i: int| 0 <= i < s.len() ==> is_chain_id_char(#[trigger] s[i])
}

/// `tendermint::chain::Id::from_str`: succeeds exactly on a valid chain id.
#[verifier::external_body]
pub(crate) fn check_chain_id(chain_id: &str) -> (r: bool)
    ensures
        r == valid_chain_id(chain_id@),
{
    chain_id.parse::<cosmrs::tendermint::chain::Id>().is_ok()
}

/// The protobuf encoding of a transaction body with these messages, memo
/// and timeout height, or `None` where encoding fails.
pub uninterp spec fn tx_body_encoding(msgs: Seq<AnyView>, memo: Seq<char>, timeout_height: u64) -> Option<
    Seq<u8>,
>;

/// `cosmrs::tx::Body::new`, then `into_bytes`.
#[verifier::external_body]
pub(crate) fn tx_body_to_bytes(msgs: &Vec<Any>, memo: &str, timeout_height: u64) -> (r: Result<
    Vec<u8>,
    String,
>)
    requires
        timeout_height <= MAX_HEIGHT,
    ensures
        r matches Ok(b) ==> tx_body_encoding(msgs.deep_view(), memo@, timeout_height) == Some(b@),
        r is Err ==> tx_body_encoding(msgs.deep_view(), memo@, timeout_height) is None,
{
    let height = cosmrs::tendermint::block::Height::try_from(timeout_height)
        .map_err(|e| e.to_string())?;
    let msgs = msgs.iter().map(|m| cosmrs::Any { type_url: m.type_url.clone(), value: m.value.clone() });
    cosmrs::tx::Body::new(msgs, memo, height).into_bytes().map_err(|e| e.to_string())
}

/// The protobuf encoding of `fee` as `cosmrs` writes it, or `None` where a
/// coin or an address of the fee is refused or encoding fails.
pub uninterp spec fn fee_encoding(fee: FeeView) -> Option<Seq<u8>>;

/// Builds a `cosmrs::tx::Fee` (`Coin::new` for each coin,
/// `AccountId::from_str` for payer and granter), turns it into its message
/// and calls `MessageExt::to_bytes`.
#[verifier::external_body]
pub(crate) fn fee_to_bytes(fee: &Fee) -> (r: Result<Vec<u8>, String>)
    ensures
        r matches Ok(b) ==> fee_encoding(fee@) == Some(b@),
        r is Err ==> fee_encoding(fee@) is None,
{
    let report = |e: ErrorReport| e.to_string();
    let coins = fee.amount.iter().map(|c| cosmrs::Coin::new(c.amount, c.denom.as_ref()));
    let amount = coins.collect::<Result<Vec<_>, _>>().map_err(report)?;
    let payer = fee.payer.as_ref().map(|a| a.as_ref().parse()).transpose().map_err(report)?;
    let granter = fee.granter.as_ref().map(|a| a.as_ref().parse()).transpose().map_err(report)?;
    let fee = cosmrs::tx::Fee { amount, gas_limit: fee.gas_limit.value(), payer, granter };
    tx_proto::Fee::from(fee).to_bytes().map_err(|e| e.to_string())
}

/// The protobuf encoding of the auth info of one signer who signs
/// directly: the signer's public key if known, the sequence number, and the
/// fee in its encoded form. `None` where the key or the fee is refused or
/// encoding fails.
pub uninterp spec fn auth_info_encoding(
    key: Option<(KeyAlgorithm, Seq<u8>)>,
    sequence: u64,
    fee_bytes: Seq<u8>,
) -> Option<Seq<u8>>;

/// `cosmrs::tx::SignerInfo::single_direct`, `auth_info` and `into_bytes`,
/// on the key (`from_raw_secp256k1` or `from_raw_ed25519`) and on the fee
/// that `fee_bytes` decode to (`Message::decode`, `Fee::try_from`).
#[verifier::external_body]
pub(crate) fn auth_info_to_bytes(key: &Option<PublicKey>, sequence: u64, fee_bytes: &[u8]) -> (r: Result<
    Vec<u8>,
    String,
>)
    ensures
        r matches Ok(b) ==> auth_info_encoding(key.deep_view(), sequence, fee_bytes@) == Some(b@),
        r is Err ==> auth_info_encoding(key.deep_view(), sequence, fee_bytes@) is None,
{
    let report = |e: ErrorReport| e.to_string();
    let key = key.as_ref().map(|k| match k.algorithm {
        KeyAlgorithm::Secp256k1 => cosmrs::tendermint::PublicKey::from_raw_secp256k1(&k.key),
        KeyAlgorithm::Ed25519 => cosmrs::tendermint::PublicKey::from_raw_ed25519(&k.key),
    }.ok_or(String::from("invalid public key"))).transpose()?.map(Into::into);
    let fee = tx_proto::Fee::decode(fee_bytes).map_err(|e| e.to_string())?;
    let fee = cosmrs::tx::Fee::try_from(fee).map_err(report)?;
    cosmrs::tx::SignerInfo::single_direct(key, sequence).auth_info(fee).into_bytes().map_err(report)
}

/// The protobuf encoding of the sign document over these parts, or `None`
/// where encoding fails.
pub uninterp spec fn sign_doc_encoding(
    body_bytes: Seq<u8>,
    auth_info_bytes: Seq<u8>,
    chain_id: Seq<char>,
    account_number: u64,
) -> Option<Seq<u8>>;

/// `cosmrs::tx::SignDoc::into_bytes`, on a document with these fields.
#[verifier::external_body]
pub(crate) fn sign_doc_to_bytes(
    body_bytes: &Vec<u8>,
    auth_info_bytes: &Vec<u8>,
    chain_id: &str,
    account_number: u64,
) -> (r: Result<Vec<u8>, String>)
    ensures
        r matches Ok(b) ==> sign_doc_encoding(body_bytes@, auth_info_bytes@, chain_id@, account_number)
            == Some(b@),
        r is Err ==> sign_doc_encoding(body_bytes@, auth_info_bytes@, chain_id@, account_number)
            is None,
{
    let doc = cosmrs::tx::SignDoc {
        body_bytes: body_bytes.clone(),
        auth_info_bytes: auth_info_bytes.clone(),
        chain_id: chain_id.to_owned(),
        account_number,
    };
    doc.into_bytes().map_err(|e| e.to_string())
}

/// The protobuf encoding of a raw transaction with these parts, or `None`
/// where encoding fails.
pub uninterp spec fn tx_raw_encoding(
    body_bytes: Seq<u8>,
    auth_info_bytes: Seq<u8>,
    signatures: Seq<Seq<u8>>,
) -> Option<Seq<u8>>;

/// The parts of the raw transaction that `bytes` decode to, or `None` where
/// they are no raw transaction.
pub uninterp spec fn tx_raw_decoding(bytes: Seq<u8>) -> Option<(Seq<u8>, Seq<u8>, Seq<Seq<u8>>)>;

/// `MessageExt::to_bytes` on a `TxRaw` with these fields. Beside the name
/// of the result the contract states that the bytes decode to the same
/// fields again: `prost` writes each of the three fields under its own tag
/// and reads them back into the same places.
#[verifier::external_body]
pub(crate) fn tx_raw_to_bytes(
    body_bytes: &Vec<u8>,
    auth_info_bytes: &Vec<u8>,
    signatures: &Vec<Vec<u8>>,
) -> (r: Result<Vec<u8>, String>)
    ensures
        r matches Ok(b) ==> {
            &&& tx_raw_encoding(body_bytes@, auth_info_bytes@, signatures.deep_view()) == Some(b@)
            &&& tx_raw_decoding(b@) == Some((body_bytes@, auth_info_bytes@, signatures.deep_view()))
        },
        r is Err ==> tx_raw_encoding(body_bytes@, auth_info_bytes@, signatures.deep_view()) is None,
{
    let raw = tx_proto::TxRaw {
        body_bytes: body_bytes.clone(),
        auth_info_bytes: auth_info_bytes.clone(),
        signatures: signatures.clone(),
    };
    raw.to_bytes().map_err(|e| e.to_string())
}

/// `Message::decode` for `TxRaw`: the three fields of the message, or the
/// decoder's complaint.
#[verifier::external_body]
pub(crate) fn tx_raw_from_bytes(bytes: &[u8]) -> (r: Result<(Vec<u8>, Vec<u8>, Vec<Vec<u8>>), String>)
    ensures
        r matches Ok(t) ==> tx_raw_decoding(bytes@) == Some((t.0@, t.1@, t.2.deep_view())),
        r is Err ==> tx_raw_decoding(bytes@) is None,
{
    let raw = tx_proto::TxRaw::decode(bytes).map_err(|e| e.to_string())?;
    Ok((raw.body_bytes, raw.auth_info_bytes, raw.signatures))
}

/// The protobuf encoding of the request to simulate the transaction with
/// these bytes, or `None` where encoding fails.
pub uninterp spec fn simulate_request_encoding(tx_bytes: Seq<u8>) -> Option<Seq<u8>>;

/// `MessageExt::to_bytes` on a `SimulateRequest` that holds the
/// transaction's bytes and no decoded transaction.
#[verifier::external_body]
#[allow(deprecated)]
pub(crate) fn simulate_request_to_bytes(tx_bytes: &Vec<u8>) -> (r: Result<Vec<u8>, String>)
    ensures
        r matches Ok(b) ==> simulate_request_encoding(tx_bytes@) == Some(b@),
        r is Err ==> simulate_request_encoding(tx_bytes@) is None,
{
    let request = tx_proto::SimulateRequest { tx: None, tx_bytes: tx_bytes.clone() };
    request.to_bytes().map_err(|e| e.to_string())
}

/// The gas information of the simulation response that `bytes` decode to:
/// `None` where they are no such response, `Some(None)` where the response
/// holds no gas information.
pub uninterp spec fn simulate_response_decoding(bytes: Seq<u8>) -> Option<Option<ProtoGasInfo>>;

/// `Message::decode` for `SimulateResponse`; its gas information comes
/// back, or the decoder's complaint.
#[verifier::external_body]
pub(crate) fn simulate_response_from_bytes(bytes: &[u8]) -> (r: Result<Option<ProtoGasInfo>, String>)
    ensures
        r matches Ok(info) ==> simulate_response_decoding(bytes@) == Some(info),
        r is Err ==> simulate_response_decoding(bytes@) is None,
{
    let response = tx_proto::SimulateResponse::decode(bytes).map_err(|e| e.to_string())?;
    Ok(response.gas_info.map(|g| ProtoGasInfo { gas_wanted: g.gas_wanted, gas_used: g.gas_used }))
}

/// What a decoded base account holds: the address text, the public key's
/// envelope if there is one, the account number and the sequence number.
pub struct BaseAccountView {
    pub address: Seq<char>,
    pub pub_key: Option<AnyView>,
    pub account_number: u64,
    pub sequence: u64,
}

/// The fields of the account message `account`.
pub open spec fn base_account_view(account: ProtoBaseAccount) -> BaseAccountView {
    BaseAccountView {
        address: account.address@,
        pub_key: account.pub_key.deep_view(),
        account_number: account.account_number,
        sequence: account.sequence,
    }
}

/// The base account that `bytes` decode to, or `None` where they are none.
pub uninterp spec fn base_account_decoding(bytes: Seq<u8>) -> Option<BaseAccountView>;

/// `Message::decode` for `BaseAccount`; its fields come back, or the
/// decoder's complaint.
#[verifier::external_body]
pub(crate) fn base_account_from_bytes(bytes: &[u8]) -> (r: Result<ProtoBaseAccount, String>)
    ensures
        r matches Ok(account) ==> base_account_decoding(bytes@) == Some(base_account_view(account)),
        r is Err ==> base_account_decoding(bytes@) is None,
{
    let account = cosmrs::proto::cosmos::auth::v1beta1::BaseAccount::decode(bytes)
        .map_err(|e| e.to_string())?;
    let pub_key = account.pub_key.map(|k| Any { type_url: k.type_url, value: k.value });
    Ok(ProtoBaseAccount {
        address: account.address,
        pub_key,
        account_number: account.account_number,
        sequence: account.sequence,
    })
}

/// The envelope that `cosmrs::crypto::PublicKey::to_any` makes of the key,
/// or `None` where `tendermint` does not take the key's bytes or encoding
/// fails.
pub uninterp spec fn public_key_envelope(key: (KeyAlgorithm, Seq<u8>)) -> Option<AnyView>;

/// `cosmrs::crypto::PublicKey::to_any`, for the key with these bytes
/// (`from_raw_secp256k1` or `from_raw_ed25519`).
#[verifier::external_body]
pub(crate) fn public_key_to_any(key: &PublicKey) -> (r: Result<Any, String>)
    ensures
        r matches Ok(any) ==> public_key_envelope(key@) == Some(any@),
        r is Err ==> public_key_envelope(key@) is None,
{
    let raw = match key.algorithm {
        KeyAlgorithm::Secp256k1 => cosmrs::tendermint::PublicKey::from_raw_secp256k1(&key.key),
        KeyAlgorithm::Ed25519 => cosmrs::tendermint::PublicKey::from_raw_ed25519(&key.key),
    };
    let key = cosmrs::crypto::PublicKey::from(raw.ok_or(String::from("invalid public key"))?);
    let any = key.to_any().map_err(|e| e.to_string())?;
    Ok(Any { type_url: any.type_url, value: any.value })
}

/// The id of a block as the chain's messages carry it. The library hands
/// it on and never looks inside.
#[verifier::external_type_specification]
#[verifier::external_body]
pub struct ExBlockId(cosmrs::proto::tendermint::types::BlockId);

/// A block as the chain's messages carry it. The library hands it on and
/// never looks inside.
#[verifier::external_type_specification]
#[verifier::external_body]
pub struct ExBlock(cosmrs::proto::tendermint::types::Block);

} // verus!
