//! Signing keys, and the assembly and signing of a transaction.

use crate::chain::error::ChainError;
use crate::chain::fee::{Fee, FeeView};
use crate::chain::msg::{Any, AnyView};
use crate::modules::auth::model::{Account, AccountView, Address, KeyAlgorithm, PublicKey};
use crate::modules::tx::model::{RawTx, RawTxView};
use crate::sdk::{
    auth_info_encoding, auth_info_to_bytes, bech32_text, check_chain_id, check_height,
    derived_secret, fee_encoding, fee_to_bytes, is_mnemonic, mnemonic_secret, public_key_account, public_key_account_id, random_phrase,
    secp256k1_public, secp256k1_public_key, secp256k1_sign, secp256k1_signature,
    sign_doc_encoding, sign_doc_to_bytes, tx_body_encoding, tx_body_to_bytes, valid_chain_id,
    DerivationFailure, MAX_HEIGHT,
};
use vstd::prelude::*;

verus! {

/// Where the platform's secret store keeps a mnemonic.
#[derive(Debug, PartialEq, Eq)]
pub struct KeyringParams {
    pub service: String,
    pub key_name: String,
}

/// The source of a private key.
#[derive(Debug, PartialEq, Eq)]
#[non_exhaustive]
pub enum Key {
    /// The bytes of the private key itself.
    Raw(Vec<u8>),
    /// A BIP-39 mnemonic, from which the key is derived along a path.
    Mnemonic(String),
    /// A mnemonic that the platform's secret store keeps. It has to be
    /// resolved into a `Mnemonic` before the key can be used.
    Keyring(KeyringParams),
}

/// What a key source holds: the bytes of a raw key, the characters of a
/// mnemonic, or nothing yet.
pub enum KeyView {
    Raw(Seq<u8>),
    Mnemonic(Seq<char>),
    Keyring { service: Seq<char>, key_name: Seq<char> },
}

impl DeepView for Key {
    type V = KeyView;

    open spec fn deep_view(&self) -> KeyView {
        match self {
            Key::Raw(bytes) => KeyView::Raw(bytes@),
            Key::Mnemonic(phrase) => KeyView::Mnemonic(phrase@),
            Key::Keyring(params) => KeyView::Keyring {
                service: params.service@,
                key_name: params.key_name@,
            },
        }
    }
}

impl View for Key {
    type V = KeyView;

    open spec fn view(&self) -> KeyView {
        self.deep_view()
    }
}

/// A private key under a name that people can read.
#[derive(Debug, PartialEq, Eq)]
pub struct SigningKey {
    pub name: String,
    pub key: Key,
}

/// The failures that signing can end with. Where the library writes the
/// error's text itself, the failure carries that text.
pub enum SignFailure {
    /// The key is still a reference into the secret store; the error names
    /// the key.
    Keyring(Seq<char>),
    /// The phrase is no mnemonic.
    Mnemonic,
    /// The derivation path cannot be parsed or followed.
    DerivationPath,
    /// The key's bytes are no key, or signing failed.
    Crypto,
    /// The timeout height is no block height.
    Tendermint,
    /// The chain id is not accepted; the error carries it.
    ChainId(Seq<char>),
    /// A part of the transaction could not be encoded.
    ProtoEncoding,
    /// The fee denom does not follow the denom syntax; the error carries
    /// it as its name.
    Denom(Seq<char>),
}

/// Whether the error `e` is the failure `kind`: of its kind, and with its
/// text where the failure carries one.
pub open spec fn is_failure(e: ChainError, kind: SignFailure) -> bool {
    match kind {
        SignFailure::Keyring(key_name) => e matches ChainError::Keyring { message } && message@
            == key_name,
        SignFailure::Mnemonic => e is Mnemonic,
        SignFailure::DerivationPath => e is DerviationPath,
        SignFailure::Crypto => e is Crypto,
        SignFailure::Tendermint => e is Tendermint,
        SignFailure::ChainId(text) => e matches ChainError::ChainId { chain_id } && chain_id@
            == text,
        SignFailure::ProtoEncoding => e is ProtoEncoding,
        SignFailure::Denom(text) => e matches ChainError::Denom { name } && name@ == text,
    }
}

/// The bytes of the private key behind `key`: those of a raw key as they
/// are, those of a mnemonic by derivation along `derivation_path`.
pub open spec fn secret_of(key: KeyView, derivation_path: Seq<char>) -> Result<Seq<u8>, SignFailure> {
    match key {
        KeyView::Raw(bytes) => Ok(bytes),
        KeyView::Mnemonic(phrase) => match derived_secret(phrase, derivation_path) {
            Ok(secret) => Ok(secret),
            Err(DerivationFailure::Mnemonic) => Err(SignFailure::Mnemonic),
            Err(DerivationFailure::Path) => Err(SignFailure::DerivationPath),
        },
        KeyView::Keyring { service, key_name } => Err(SignFailure::Keyring(key_name)),
    }
}

/// The public key that belongs to `key`.
pub open spec fn public_key_of(key: KeyView, derivation_path: Seq<char>) -> Result<
    (KeyAlgorithm, Seq<u8>),
    SignFailure,
> {
    match secret_of(key, derivation_path) {
        Err(e) => Err(e),
        Ok(secret) => match secp256k1_public(secret) {
            Some(public) => Ok((KeyAlgorithm::Secp256k1, public)),
            None => Err(SignFailure::Crypto),
        },
    }
}

/// The address that `key` signs for under the prefix `prefix`, as a prefix
/// and the bytes of the account id.
pub open spec fn address_of(key: KeyView, prefix: Seq<char>, derivation_path: Seq<char>) -> Result<
    (Seq<char>, Seq<u8>),
    SignFailure,
> {
    match public_key_of(key, derivation_path) {
        Err(e) => Err(e),
        Ok(public) => match public_key_account(public, prefix) {
            Some(parts) => Ok(parts),
            None => Err(SignFailure::Crypto),
        },
    }
}

/// The public key that a transaction of `account` names as its signer's:
/// the one that the account has, or else the one that belongs to `key`.
pub open spec fn signer_key(key: KeyView, account: AccountView, derivation_path: Seq<char>) -> Result<
    (KeyAlgorithm, Seq<u8>),
    SignFailure,
> {
    match account.pubkey {
        Some(known) => Ok(known),
        None => public_key_of(key, derivation_path),
    }
}

/// The two encoded halves of a transaction that is ready to be signed.
pub struct SignParts {
    pub body_bytes: Seq<u8>,
    pub auth_info_bytes: Seq<u8>,
}

/// The encoded body and auth info of the transaction that carries `msgs`
/// for `account`, or the failure that stops its assembly. The timeout is
/// looked at first, then the chain id, then the body, then the fee, then
/// the auth info around the fee.
pub open spec fn sign_parts(
    msgs: Seq<AnyView>,
    timeout_height: u64,
    memo: Seq<char>,
    sequence: u64,
    fee: FeeView,
    public_key: (KeyAlgorithm, Seq<u8>),
    chain_id: Seq<char>,
) -> Result<SignParts, SignFailure> {
    if timeout_height > MAX_HEIGHT {
        Err(SignFailure::Tendermint)
    } else if !valid_chain_id(chain_id) {
        Err(SignFailure::ChainId(chain_id))
    } else {
        match tx_body_encoding(msgs, memo, timeout_height) {
            None => Err(SignFailure::ProtoEncoding),
            Some(body_bytes) => match fee_encoding(fee) {
                None => Err(SignFailure::ProtoEncoding),
                Some(fee_bytes) => match auth_info_encoding(Some(public_key), sequence, fee_bytes) {
                    None => Err(SignFailure::ProtoEncoding),
                    Some(auth_info_bytes) => Ok(SignParts { body_bytes, auth_info_bytes }),
                },
            },
        }
    }
}

/// The raw transaction that comes of signing `parts` for the account
/// numbered `account_number` on the chain `chain_id`: the two halves and
/// one signature, that of `secret` over the encoded sign document.
pub open spec fn signed_parts(
    parts: SignParts,
    chain_id: Seq<char>,
    account_number: u64,
    secret: Seq<u8>,
) -> Result<RawTxView, SignFailure> {
    match sign_doc_encoding(parts.body_bytes, parts.auth_info_bytes, chain_id, account_number) {
        None => Err(SignFailure::Crypto),
        Some(doc) => match secp256k1_signature(secret, doc) {
            None => Err(SignFailure::Crypto),
            Some(signature) => Ok(
                RawTxView {
                    body_bytes: parts.body_bytes,
                    auth_info_bytes: parts.auth_info_bytes,
                    signatures: seq![signature],
                },
            ),
        },
    }
}

/// What signing gives. The signer's public key is settled first; then the
/// transaction is assembled; then the private key is brought forth; then
/// the sign document is signed.
pub open spec fn sign_outcome(
    key: KeyView,
    msgs: Seq<AnyView>,
    timeout_height: u64,
    memo: Seq<char>,
    account: AccountView,
    fee: FeeView,
    chain_id: Seq<char>,
    derivation_path: Seq<char>,
) -> Result<RawTxView, SignFailure> {
    match signer_key(key, account, derivation_path) {
        Err(e) => Err(e),
        Ok(public_key) => match sign_parts(
            msgs,
            timeout_height,
            memo,
            account.sequence,
            fee,
            public_key,
            chain_id,
        ) {
            Err(e) => Err(e),
            Ok(parts) => match secret_of(key, derivation_path) {
                Err(e) => Err(e),
                Ok(secret) => signed_parts(parts, chain_id, account.account_number, secret),
            },
        },
    }
}

/// Whether the result `r` of an operation is what `expected` says: the
/// value with the expected view, or an error of the expected kind.
pub open spec fn raw_tx_result_is(r: Result<RawTx, ChainError>, expected: Result<RawTxView, SignFailure>) -> bool {
    match expected {
        Ok(view) => r matches Ok(tx) && tx@ == view,
        Err(kind) => r matches Err(e) && is_failure(e, kind),
    }
}

/// The private key of a mnemonic, derived along a path.
pub fn mnemonic_to_signing_key(mnemonic: &str, derivation_path: &str) -> (r: Result<
    Vec<u8>,
    ChainError,
>)
    ensures
        match secret_of(KeyView::Mnemonic(mnemonic@), derivation_path@) {
            Ok(secret) => r matches Ok(s) && s@ == secret,
            Err(kind) => r matches Err(e) && is_failure(e, kind),
        },
{
    match mnemonic_secret(mnemonic, derivation_path) {
        Ok(secret) => Ok(secret),
        Err(DerivationFailure::Mnemonic) => Err(ChainError::Mnemonic),
        Err(DerivationFailure::Path) => Err(ChainError::DerviationPath),
    }
}

/// Assembles the two encoded halves of a transaction: the body over the
/// messages, memo and timeout, and the auth info over the signer's public
/// key, the account's sequence number and the fee.
pub fn build_sign_doc(
    msgs: &Vec<Any>,
    timeout_height: u64,
    memo: &str,
    account: &Account,
    fee: &Fee,
    public_key: PublicKey,
    chain_id: &str,
) -> (r: Result<(Vec<u8>, Vec<u8>), ChainError>)
    ensures
        match sign_parts(
            msgs.deep_view(),
            timeout_height,
            memo@,
            account.sequence,
            fee@,
            public_key@,
            chain_id@,
        ) {
            Ok(parts) => r matches Ok(p) && p.0@ == parts.body_bytes && p.1@
                == parts.auth_info_bytes,
            Err(kind) => r matches Err(e) && is_failure(e, kind),
        },
{
    match check_height(timeout_height) {
        Ok(_) => {},
        Err(message) => {
            return Err(ChainError::Tendermint { message });
        },
    }
    if !check_chain_id(chain_id) {
        return Err(ChainError::ChainId { chain_id: chain_id.to_owned() });
    }
    let body_bytes = match tx_body_to_bytes(msgs, memo, timeout_height) {
        Ok(b) => b,
        Err(message) => {
            return Err(ChainError::ProtoEncoding { message });
        },
    };
    let fee_bytes = match fee_to_bytes(fee) {
        Ok(b) => b,
        Err(message) => {
            return Err(ChainError::ProtoEncoding { message });
        },
    };
    let signer = Some(public_key);
    let auth_info_bytes = match auth_info_to_bytes(&signer, account.sequence, fee_bytes.as_slice()) {
        Ok(b) => b,
        Err(message) => {
            return Err(ChainError::ProtoEncoding { message });
        },
    };
    Ok((body_bytes, auth_info_bytes))
}

/// Signs an assembled transaction: the sign document over the two halves,
/// the chain id and the account number is encoded and signed with
/// `secret`, and the halves and the signature make the raw transaction.
pub fn sign_parts_with(
    body_bytes: Vec<u8>,
    auth_info_bytes: Vec<u8>,
    chain_id: &str,
    account_number: u64,
    secret: &Vec<u8>,
) -> (r: Result<RawTx, ChainError>)
    ensures
        raw_tx_result_is(
            r,
            signed_parts(
                SignParts { body_bytes: body_bytes@, auth_info_bytes: auth_info_bytes@ },
                chain_id@,
                account_number,
                secret@,
            ),
        ),
{
    let doc = match sign_doc_to_bytes(&body_bytes, &auth_info_bytes, chain_id, account_number) {
        Ok(d) => d,
        Err(message) => {
            return Err(ChainError::Crypto { message });
        },
    };
    let signature = match secp256k1_sign(secret.as_slice(), doc.as_slice()) {
        Ok(s) => s,
        Err(message) => {
            return Err(ChainError::Crypto { message });
        },
    };
    let ghost sig = signature@;
    assert(signature.deep_view() =~= sig);
    let mut signatures: Vec<Vec<u8>> = Vec::new();
    signatures.push(signature);
    assert(signatures.deep_view() =~= seq![sig]);
    Ok(RawTx::new(body_bytes, auth_info_bytes, signatures))
}

impl SigningKey {
    /// The bytes of the private key. A raw key must be a secp256k1 key for
    /// anything to come of them later; a key in the secret store has none
    /// until it is resolved.
    pub fn secret(&self, derivation_path: &str) -> (r: Result<Vec<u8>, ChainError>)
        ensures
            match secret_of(self.key@, derivation_path@) {
                Ok(secret) => r matches Ok(s) && s@ == secret,
                Err(kind) => r matches Err(e) && is_failure(e, kind),
            },
    {
        match &self.key {
            Key::Raw(bytes) => Ok(bytes.clone()),
            Key::Mnemonic(phrase) => mnemonic_to_signing_key(phrase.as_str(), derivation_path),
            Key::Keyring(params) => Err(ChainError::Keyring { message: params.key_name.clone() }),
        }
    }

    /// The public key that belongs to this key.
    pub fn public_key(&self, derivation_path: &str) -> (r: Result<PublicKey, ChainError>)
        ensures
            match public_key_of(self.key@, derivation_path@) {
                Ok(public) => r matches Ok(k) && k@ == public,
                Err(kind) => r matches Err(e) && is_failure(e, kind),
            },
    {
        let secret = match self.secret(derivation_path) {
            Ok(s) => s,
            Err(e) => {
                return Err(e);
            },
        };
        match secp256k1_public_key(secret.as_slice()) {
            Ok(key) => Ok(PublicKey { algorithm: KeyAlgorithm::Secp256k1, key }),
            Err(message) => Err(ChainError::Crypto { message }),
        }
    }

    /// Signs a transaction that carries `msgs` for `account`.
    ///
    /// The transaction names the account's public key as its signer's, or
    /// the key's own where the account has none yet. Nothing is retried: the
    /// first failure is the result.
    pub fn sign(
        &self,
        msgs: Vec<Any>,
        timeout_height: u64,
        memo: &str,
        account: Account,
        fee: Fee,
        chain_id: &str,
        derivation_path: &str,
    ) -> (r: Result<RawTx, ChainError>)
        ensures
            raw_tx_result_is(
                r,
                sign_outcome(
                    self.key@,
                    msgs.deep_view(),
                    timeout_height,
                    memo@,
                    account@,
                    fee@,
                    chain_id@,
                    derivation_path@,
                ),
            ),
    {
        let public_key = match &account.pubkey {
            Some(known) => known.clone(),
            None => match self.public_key(derivation_path) {
                Ok(k) => k,
                Err(e) => {
                    return Err(e);
                },
            },
        };
        let (body_bytes, auth_info_bytes) = match build_sign_doc(
            &msgs,
            timeout_height,
            memo,
            &account,
            &fee,
            public_key,
            chain_id,
        ) {
            Ok(parts) => parts,
            Err(e) => {
                return Err(e);
            },
        };
        let secret = match self.secret(derivation_path) {
            Ok(s) => s,
            Err(e) => {
                return Err(e);
            },
        };
        sign_parts_with(body_bytes, auth_info_bytes, chain_id, account.account_number, &secret)
    }

    /// The address that this key signs for under the prefix `prefix`: an
    /// address with that prefix.
    pub fn to_addr(&self, prefix: &str, derivation_path: &str) -> (r: Result<Address, ChainError>)
        ensures
            match address_of(self.key@, prefix@, derivation_path@) {
                Ok(parts) => r matches Ok(a) && parts.0 == prefix@ && a.spec_prefix() == prefix@
                    && a.spec_bytes() == parts.1 && a@ == bech32_text(prefix@, parts.1),
                Err(kind) => r matches Err(e) && is_failure(e, kind),
            },
    {
        let public = match self.public_key(derivation_path) {
            Ok(k) => k,
            Err(e) => {
                return Err(e);
            },
        };
        match public_key_account_id(&public, prefix) {
            Ok(id) => Ok(Address::from_parts(id.0, id.1, id.2)),
            Err(message) => Err(ChainError::Crypto { message }),
        }
    }

    /// A key named `key_name` over a freshly drawn mnemonic. Whatever was
    /// drawn is a mnemonic: no use of the key fails for the phrase's sake.
    pub fn random_mnemonic(key_name: String) -> (k: SigningKey)
        ensures
            k.name == key_name,
            k.key matches Key::Mnemonic(phrase) && is_mnemonic(phrase@),
    {
        SigningKey { name: key_name, key: Key::Mnemonic(random_phrase()) }
    }

    /// This key with the secret store's answer put in: a key that refers
    /// to the store becomes a mnemonic key over `phrase`; any other key
    /// stays as it is.
    pub fn resolved(self, phrase: String) -> (k: SigningKey)
        ensures
            k.name == self.name,
            match self.key {
                Key::Keyring(_) => k.key == Key::Mnemonic(phrase),
                _ => k.key == self.key,
            },
    {
        let SigningKey { name, key } = self;
        let key = match key {
            Key::Keyring(_) => Key::Mnemonic(phrase),
            other => other,
        };
        SigningKey { name, key }
    }

    /// Where the secret store keeps this key's mnemonic, if that is where
    /// it is.
    pub fn keyring_params(&self) -> (p: Option<&KeyringParams>)
        ensures
            match self.key {
                Key::Keyring(params) => p == Some(&params),
                _ => p is None,
            },
    {
        match &self.key {
            Key::Keyring(params) => Some(params),
            _ => None,
        }
    }
}

} // verus!
