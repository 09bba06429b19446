//! Addresses, public keys and accounts.

use crate::chain::msg::Any;
use crate::chain::request::PaginationResponse;
use crate::modules::auth::error::AccountError;
use crate::proto::{ProtoAuthParams, ProtoBaseAccount};
use crate::chain::error::ChainError;
use crate::sdk::{
    account_id_from_str, account_id_new, account_id_parts, base_account_decoding,
    base_account_from_bytes, base_account_view, bech32_text, public_key_from_any,
    public_key_of_any, valid_account_parts, BaseAccountView,
};
use vstd::prelude::*;

verus! {

/// The address of an account: a human-readable prefix and the bytes of the
/// account id, written together as Bech32 text.
#[derive(Debug, PartialEq, Eq, PartialOrd, Ord)]
pub struct Address {
    bech32: String,
    prefix: String,
    bytes: Vec<u8>,
}

impl View for Address {
    type V = Seq<char>;

    /// The Bech32 text of the address.
    closed spec fn view(&self) -> Seq<char> {
        self.bech32@
    }
}

impl DeepView for Address {
    type V = Seq<char>;

    open spec fn deep_view(&self) -> Seq<char> {
        self@
    }
}

impl Clone for Address {
    fn clone(&self) -> (r: Self)
        ensures
            r@ == self@,
            r.spec_prefix() == self.spec_prefix(),
            r.spec_bytes() == self.spec_bytes(),
    {
        proof {
            use_type_invariant(self);
        }
        Address {
            bech32: self.bech32.clone(),
            prefix: self.prefix.clone(),
            bytes: self.bytes.clone(),
        }
    }
}

impl Address {
    #[verifier::type_invariant]
    spec fn well_formed(&self) -> bool {
        &&& valid_account_parts(self.prefix@, self.bytes@)
        &&& self.bech32@ == bech32_text(self.prefix@, self.bytes@)
    }

    /// The human-readable prefix.
    pub closed spec fn spec_prefix(&self) -> Seq<char> {
        self.prefix@
    }

    /// The bytes of the account id.
    pub closed spec fn spec_bytes(&self) -> Seq<u8> {
        self.bytes@
    }

    /// The address of the account id `bytes` under `prefix`. The prefix
    /// must be lower-case letters and digits, and there must be between 1
    /// and 255 bytes; anything else is `AccountIdParse`.
    pub fn new(prefix: &str, bytes: &[u8]) -> (r: Result<Address, AccountError>)
        ensures
            valid_account_parts(prefix@, bytes@) ==> (r matches Ok(a) && a.spec_prefix() == prefix@
                && a.spec_bytes() == bytes@ && a@ == bech32_text(prefix@, bytes@)),
            !valid_account_parts(prefix@, bytes@) ==> r matches Err(
                AccountError::AccountIdParse { .. },
            ),
    {
        match account_id_new(prefix, bytes) {
            Ok(bech32) => Ok(
                Address { bech32, prefix: prefix.to_owned(), bytes: vstd::slice::slice_to_vec(bytes) },
            ),
            Err(message) => Err(AccountError::AccountIdParse { message }),
        }
    }

    /// Reads an address from its Bech32 text; text that holds no account id
    /// is `Address`.
    pub fn from_str(s: &str) -> (r: Result<Address, AccountError>)
        ensures
            match account_id_parts(s@) {
                Some(parts) => r matches Ok(a) && a.spec_prefix() == parts.0 && a.spec_bytes()
                    == parts.1 && a@ == bech32_text(parts.0, parts.1),
                None => r matches Err(AccountError::Address { .. }),
            },
    {
        match account_id_from_str(s) {
            Ok(id) => Ok(Address { bech32: id.0, prefix: id.1, bytes: id.2 }),
            Err(message) => Err(AccountError::Address { message }),
        }
    }

    /// The address of an account id that was read apart already.
    pub(crate) fn from_parts(bech32: String, prefix: String, bytes: Vec<u8>) -> (a: Address)
        requires
            valid_account_parts(prefix@, bytes@),
            bech32@ == bech32_text(prefix@, bytes@),
        ensures
            a@ == bech32@,
            a.spec_prefix() == prefix@,
            a.spec_bytes() == bytes@,
    {
        Address { bech32, prefix, bytes }
    }

    /// The human-readable prefix.
    pub fn prefix(&self) -> (p: &str)
        ensures
            p@ == self.spec_prefix(),
    {
        self.prefix.as_str()
    }

    /// The bytes of the account id.
    pub fn to_bytes(&self) -> (b: Vec<u8>)
        ensures
            b@ == self.spec_bytes(),
    {
        self.bytes.clone()
    }

    /// The Bech32 text of the address.
    pub fn as_ref(&self) -> (s: &str)
        ensures
            s@ == self@,
    {
        self.bech32.as_str()
    }

    /// Gives up the address for its Bech32 text.
    pub fn into_string(self) -> (s: String)
        ensures
            s@ == self@,
    {
        self.bech32
    }

    /// An address is the Bech32 text of its own prefix and bytes, and those
    /// are valid parts.
    pub fn parts_are_valid(&self)
        ensures
            valid_account_parts(self.spec_prefix(), self.spec_bytes()),
            self@ == bech32_text(self.spec_prefix(), self.spec_bytes()),
    {
        proof {
            use_type_invariant(self);
        }
    }
}

impl std::str::FromStr for Address {
    type Err = AccountError;

    /// Reads an address from its Bech32 text, as `Address::from_str` does;
    /// text that holds no account id is `Address`.
    fn from_str(s: &str) -> (r: Result<Self, AccountError>)
        ensures
            match account_id_parts(s@) {
                Some(parts) => r matches Ok(a) && a.spec_prefix() == parts.0 && a.spec_bytes()
                    == parts.1 && a@ == bech32_text(parts.0, parts.1),
                None => r matches Err(AccountError::Address { .. }),
            },
    {
        Address::from_str(s)
    }
}

/// The signature schemes whose public keys an account may have.
#[derive(Copy, Clone, Debug, PartialEq, Eq, Structural, Hash)]
pub enum KeyAlgorithm {
    Secp256k1,
    Ed25519,
}

/// A public key: the scheme and the key's bytes in the scheme's own
/// encoding.
#[derive(Debug, PartialEq, Eq)]
pub struct PublicKey {
    pub algorithm: KeyAlgorithm,
    pub key: Vec<u8>,
}

impl DeepView for PublicKey {
    type V = (KeyAlgorithm, Seq<u8>);

    open spec fn deep_view(&self) -> (KeyAlgorithm, Seq<u8>) {
        (self.algorithm, self.key@)
    }
}

impl View for PublicKey {
    type V = (KeyAlgorithm, Seq<u8>);

    open spec fn view(&self) -> (KeyAlgorithm, Seq<u8>) {
        self.deep_view()
    }
}

impl Clone for PublicKey {
    fn clone(&self) -> (r: Self)
        ensures
            r@ == self@,
    {
        PublicKey { algorithm: self.algorithm, key: self.key.clone() }
    }
}

/// An account as the chain knows it.
#[derive(Debug, PartialEq, Eq)]
pub struct Account {
    /// The Bech32 address of the account.
    pub address: Address,
    /// The public key, once the account has signed a transaction.
    pub pubkey: Option<PublicKey>,
    /// The number of the account on its chain.
    pub account_number: u64,
    /// The number of transactions that the account has signed so far.
    pub sequence: u64,
}

/// What an account holds: the text of its address, its public key, and
/// its two numbers.
pub struct AccountView {
    pub address: Seq<char>,
    pub pubkey: Option<(KeyAlgorithm, Seq<u8>)>,
    pub account_number: u64,
    pub sequence: u64,
}

impl DeepView for Account {
    type V = AccountView;

    open spec fn deep_view(&self) -> AccountView {
        AccountView {
            address: self.address@,
            pubkey: self.pubkey.deep_view(),
            account_number: self.account_number,
            sequence: self.sequence,
        }
    }
}

impl View for Account {
    type V = AccountView;

    open spec fn view(&self) -> AccountView {
        self.deep_view()
    }
}

impl Clone for Account {
    fn clone(&self) -> (r: Self)
        ensures
            r@ == self@,
    {
        let pubkey = match &self.pubkey {
            Some(k) => Some(k.clone()),
            None => None,
        };
        Account {
            address: self.address.clone(),
            pubkey,
            account_number: self.account_number,
            sequence: self.sequence,
        }
    }
}

/// What reading the account message `proto` gives: the address is read
/// first, then the public key where there is one.
pub open spec fn account_of_proto(proto: BaseAccountView) -> Result<AccountView, bool> {
    match account_id_parts(proto.address) {
        None => Err(true),
        Some(parts) => match proto.pub_key {
            None => Ok(
                AccountView {
                    address: bech32_text(parts.0, parts.1),
                    pubkey: None,
                    account_number: proto.account_number,
                    sequence: proto.sequence,
                },
            ),
            Some(any) => match public_key_of_any(any.type_url, any.value) {
                None => Err(false),
                Some(key) => Ok(
                    AccountView {
                        address: bech32_text(parts.0, parts.1),
                        pubkey: Some(key),
                        account_number: proto.account_number,
                        sequence: proto.sequence,
                    },
                ),
            },
        },
    }
}

impl Account {
    /// Reads an account message. An address that is none is `Address`; a
    /// public key that is none is a `Crypto` error of the chain layer.
    pub fn from_proto(proto: ProtoBaseAccount) -> (r: Result<Account, AccountError>)
        ensures
            match account_of_proto(base_account_view(proto)) {
                Ok(view) => r matches Ok(a) && a@ == view,
                Err(true) => r matches Err(AccountError::Address { .. }),
                Err(false) => r matches Err(
                    AccountError::ChainError(ChainError::Crypto { .. }),
                ),
            },
    {
        let address = match Address::from_str(proto.address.as_str()) {
            Ok(a) => a,
            Err(e) => {
                return Err(e);
            },
        };
        let pubkey = match &proto.pub_key {
            None => None,
            Some(any) => match public_key_from_any(any) {
                Ok(key) => Some(key),
                Err(message) => {
                    return Err(AccountError::ChainError(ChainError::Crypto { message }));
                },
            },
        };
        Ok(
            Account {
                address,
                pubkey,
                account_number: proto.account_number,
                sequence: proto.sequence,
            },
        )
    }
}

/// The answer to a query for one account.
#[derive(Debug, PartialEq, Eq)]
pub struct AccountResponse {
    pub account: Account,
}

/// What the answer to an account query comes to. `account` is the
/// envelope in the response, if the chain sent one.
pub open spec fn account_of_response(account: Option<Any>) -> Result<AccountView, AccountFailure> {
    match account {
        None => Err(AccountFailure::Missing),
        Some(any) => match base_account_decoding(any.value@) {
            None => Err(AccountFailure::Undecodable),
            Some(base) => match account_of_proto(base) {
                Ok(view) => Ok(view),
                Err(true) => Err(AccountFailure::Address),
                Err(false) => Err(AccountFailure::PublicKey),
            },
        },
    }
}

/// Why an account query gives no account.
pub enum AccountFailure {
    /// The response holds no account.
    Missing,
    /// The account's bytes are no base account.
    Undecodable,
    /// The account's address is none.
    Address,
    /// The account's public key is none.
    PublicKey,
}

impl AccountResponse {
    /// Reads the account out of the answer to an account query. A response
    /// without an account is an `Address` error, as is an account whose
    /// address is none; bytes that are no base account are a decoding
    /// error; an unusable public key is a `Crypto` error.
    pub fn from_query(account: Option<Any>) -> (r: Result<AccountResponse, AccountError>)
        ensures
            match account_of_response(account) {
                Ok(view) => r matches Ok(res) && res.account@ == view,
                Err(AccountFailure::Missing) => r matches Err(AccountError::Address { .. }),
                Err(AccountFailure::Address) => r matches Err(AccountError::Address { .. }),
                Err(AccountFailure::Undecodable) => r matches Err(
                    AccountError::ChainError(ChainError::ProtoDecoding { .. }),
                ),
                Err(AccountFailure::PublicKey) => r matches Err(
                    AccountError::ChainError(ChainError::Crypto { .. }),
                ),
            },
    {
        let any = match account {
            Some(a) => a,
            None => {
                return Err(AccountError::Address { message: "Invalid account address".to_owned() });
            },
        };
        let base = match base_account_from_bytes(any.value.as_slice()) {
            Ok(b) => b,
            Err(message) => {
                return Err(AccountError::ChainError(ChainError::ProtoDecoding { message }));
            },
        };
        match Account::from_proto(base) {
            Ok(account) => Ok(AccountResponse { account }),
            Err(e) => Err(e),
        }
    }
}

/// The answer to a query for a page of accounts.
#[derive(Debug, PartialEq, Eq)]
pub struct AccountsResponse {
    pub accounts: Vec<Account>,
    pub next: Option<PaginationResponse>,
}

/// The numbers that govern authentication on a chain.
#[derive(Copy, Clone, Debug, PartialEq, Eq, Structural, Hash)]
pub struct Params {
    pub max_memo_characters: u64,
    pub tx_sig_limit: u64,
    pub tx_size_cost_per_byte: u64,
    pub sig_verify_cost_ed25519: u64,
    pub sig_verify_cost_secp256k1: u64,
}

/// The answer to a query for the authentication parameters.
#[derive(Copy, Clone, Debug, PartialEq, Eq, Structural, Hash)]
pub struct ParamsResponse {
    pub params: Option<Params>,
}

impl Params {
    /// Reads a parameters message, field by field.
    pub fn from_proto(p: ProtoAuthParams) -> (r: Params)
        ensures
            r.max_memo_characters == p.max_memo_characters,
            r.tx_sig_limit == p.tx_sig_limit,
            r.tx_size_cost_per_byte == p.tx_size_cost_per_byte,
            r.sig_verify_cost_ed25519 == p.sig_verify_cost_ed25519,
            r.sig_verify_cost_secp256k1 == p.sig_verify_cost_secp256k1,
    {
        Params {
            max_memo_characters: p.max_memo_characters,
            tx_sig_limit: p.tx_sig_limit,
            tx_size_cost_per_byte: p.tx_size_cost_per_byte,
            sig_verify_cost_ed25519: p.sig_verify_cost_ed25519,
            sig_verify_cost_secp256k1: p.sig_verify_cost_secp256k1,
        }
    }

    /// Writes the parameters as a message, field by field.
    pub fn into_proto(self) -> (r: ProtoAuthParams)
        ensures
            r.max_memo_characters == self.max_memo_characters,
            r.tx_sig_limit == self.tx_sig_limit,
            r.tx_size_cost_per_byte == self.tx_size_cost_per_byte,
            r.sig_verify_cost_ed25519 == self.sig_verify_cost_ed25519,
            r.sig_verify_cost_secp256k1 == self.sig_verify_cost_secp256k1,
    {
        ProtoAuthParams {
            max_memo_characters: self.max_memo_characters,
            tx_sig_limit: self.tx_sig_limit,
            tx_size_cost_per_byte: self.tx_size_cost_per_byte,
            sig_verify_cost_ed25519: self.sig_verify_cost_ed25519,
            sig_verify_cost_secp256k1: self.sig_verify_cost_secp256k1,
        }
    }
}

} // verus!
