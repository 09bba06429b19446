//! What the consensus queries answer: a block, or a set of validators.

use crate::chain::error::ChainError;
use crate::chain::request::PaginationResponse;
use crate::chain::response::{bits_as_u64, reinterpret_u64};
use crate::modules::auth::error::AccountError;
use crate::modules::auth::model::{Address, PublicKey};
use crate::modules::bank::model::{address_reads, next_page};
use crate::modules::tendermint::api::{bits_as_i64, query_height};
use crate::modules::tendermint::error::TendermintError;
use crate::proto::{ProtoPageResponse, ProtoValidator};
use crate::sdk::{
    account_id_parts, public_key_envelope, public_key_from_any, public_key_of_any,
    public_key_to_any,
};
use cosmrs::proto::tendermint::types::{Block, BlockId};
use vstd::prelude::*;

verus! {

/// The latest block and its id.
#[derive(Debug, PartialEq)]
pub struct BlockResponse {
    pub id: BlockId,
    pub block: Block,
}

impl BlockResponse {
    /// Reads the answer to a query for the latest block: both the id and
    /// the block have to be there, and the id is looked for first.
    pub fn try_from(block_id: Option<BlockId>, block: Option<Block>) -> (r: Result<
        BlockResponse,
        TendermintError,
    >)
        ensures
            r == match (block_id, block) {
                (None, _) => Err::<BlockResponse, TendermintError>(TendermintError::MissingBlockId),
                (Some(_), None) => Err::<BlockResponse, TendermintError>(
                    TendermintError::MissingBlock,
                ),
                (Some(id), Some(b)) => Ok::<BlockResponse, TendermintError>(
                    BlockResponse { id, block: b },
                ),
            },
    {
        let id = match block_id {
            Some(id) => id,
            None => {
                return Err(TendermintError::MissingBlockId);
            },
        };
        match block {
            Some(block) => Ok(BlockResponse { id, block }),
            None => Err(TendermintError::MissingBlock),
        }
    }

    /// The parts of a response that carries this block.
    pub fn into_parts(self) -> (r: (Option<BlockId>, Option<Block>))
        ensures
            r.0 == Some(self.id),
            r.1 == Some(self.block),
    {
        (Some(self.id), Some(self.block))
    }
}

/// One validator of a set.
#[derive(Debug, PartialEq, Eq)]
pub struct Validator {
    pub address: Address,
    pub pubkey: Option<PublicKey>,
    pub voting_power: i64,
    pub proposer_priority: i64,
}

/// Whether the validator `v` is what the validator message `val` says: its
/// address read from the text, its public key read out of the envelope
/// where there is one, and the two numbers as they are.
pub open spec fn validator_reads(v: Validator, val: ProtoValidator) -> bool {
    &&& address_reads(v.address, val.address@)
    &&& v.voting_power == val.voting_power
    &&& v.proposer_priority == val.proposer_priority
    &&& match val.pub_key {
        None => v.pubkey is None,
        Some(any) => v.pubkey matches Some(k) && public_key_of_any(any.type_url@, any.value@)
            == Some(k@),
    }
}

impl Validator {
    /// Reads a validator message: the address first, then the public key
    /// where there is one.
    pub fn from_proto(val: ProtoValidator) -> (r: Result<Validator, TendermintError>)
        ensures
            match account_id_parts(val.address@) {
                None => r matches Err(
                    TendermintError::AccountError(AccountError::Address { .. }),
                ),
                Some(_) => match val.pub_key {
                    None => r matches Ok(v) && validator_reads(v, val),
                    Some(any) => match public_key_of_any(any.type_url@, any.value@) {
                        None => r matches Err(
                            TendermintError::ChainError(ChainError::Crypto { .. }),
                        ),
                        Some(key) => r matches Ok(v) && validator_reads(v, val),
                    },
                },
            },
    {
        let address = match Address::from_str(val.address.as_str()) {
            Ok(a) => a,
            Err(e) => {
                return Err(TendermintError::AccountError(e));
            },
        };
        let pubkey = match &val.pub_key {
            None => None,
            Some(any) => match public_key_from_any(any) {
                Ok(key) => Some(key),
                Err(message) => {
                    return Err(TendermintError::ChainError(ChainError::Crypto { message }));
                },
            },
        };
        Ok(
            Validator {
                address,
                pubkey,
                voting_power: val.voting_power,
                proposer_priority: val.proposer_priority,
            },
        )
    }

    /// Writes the validator as a message. A public key that cannot be put
    /// into its envelope is a `Crypto` error.
    pub fn into_proto(self) -> (r: Result<ProtoValidator, TendermintError>)
        ensures
            match self.pubkey {
                None => r matches Ok(p) && p.address@ == self.address@ && p.pub_key is None
                    && p.voting_power == self.voting_power && p.proposer_priority
                    == self.proposer_priority,
                Some(key) => match public_key_envelope(key@) {
                    Some(view) => r matches Ok(p) && p.address@ == self.address@ && (
                    p.pub_key matches Some(any) && any@ == view) && p.voting_power
                        == self.voting_power && p.proposer_priority == self.proposer_priority,
                    None => r matches Err(TendermintError::ChainError(ChainError::Crypto { .. })),
                },
            },
    {
        let pub_key = match &self.pubkey {
            None => None,
            Some(key) => match public_key_to_any(key) {
                Ok(any) => Some(any),
                Err(message) => {
                    return Err(TendermintError::ChainError(ChainError::Crypto { message }));
                },
            },
        };
        Ok(
            ProtoValidator {
                address: self.address.into_string(),
                pub_key,
                voting_power: self.voting_power,
                proposer_priority: self.proposer_priority,
            },
        )
    }
}

/// Whether the validator message `val` can be read: its address is one,
/// and so is its public key where it has one.
pub open spec fn validator_readable(val: ProtoValidator) -> bool {
    &&& account_id_parts(val.address@) is Some
    &&& match val.pub_key {
        None => true,
        Some(any) => public_key_of_any(any.type_url@, any.value@) is Some,
    }
}

/// Whether `k` is the place of the first validator message of `vals` that
/// cannot be read.
pub open spec fn first_unreadable_validator(vals: Seq<ProtoValidator>, k: int) -> bool {
    &&& 0 <= k < vals.len()
    &&& !validator_readable(vals[k])
    &&& forall|j: int| 0 <= j < k ==> validator_readable(#[trigger] vals[j])
}

/// The validators at a height, page by page.
#[derive(Debug, PartialEq, Eq)]
pub struct ValidatorSetResponse {
    pub block_height: u64,
    pub validators: Vec<Validator>,
    pub next: Option<PaginationResponse>,
}

impl ValidatorSetResponse {
    /// Reads the answer to a query for a validator set. The validators are
    /// read in order, each with its address, its public key and its two
    /// numbers, and the first that cannot be read ends the work; the height
    /// keeps its bits.
    pub fn try_from(
        block_height: i64,
        validators: Vec<ProtoValidator>,
        pagination: Option<ProtoPageResponse>,
    ) -> (r: Result<ValidatorSetResponse, TendermintError>)
        ensures
            r matches Ok(set) ==> {
                &&& set.block_height == bits_as_u64(block_height)
                &&& set.validators.len() == validators.len()
                &&& forall|i: int|
                    0 <= i < set.validators.len() ==> validator_reads(
                        #[trigger] set.validators[i],
                        validators[i],
                    )
                &&& match pagination {
                    Some(p) => set.next matches Some(n) && n.next_key == p.next_key && n.total
                        == p.total,
                    None => set.next is None,
                }
            },
            r matches Ok(_) ==> forall|i: int|
                0 <= i < validators.len() ==> validator_readable(#[trigger] validators[i]),
            r matches Err(e) ==> exists|k: int|
                first_unreadable_validator(validators@, k) && if account_id_parts(
                    validators[k].address@,
                ) is None {
                    e matches TendermintError::AccountError(AccountError::Address { .. })
                } else {
                    e matches TendermintError::ChainError(ChainError::Crypto { .. })
                },
    {
        let ghost all = validators@;
        let mut out: Vec<Validator> = Vec::new();
        for val in it: validators
            invariant
                it.seq() == all,
                out.len() == it.index(),
                all == validators@,
                forall|i: int| 0 <= i < out.len() ==> validator_reads(#[trigger] out[i], all[i]),
                forall|i: int| 0 <= i < out.len() ==> validator_readable(#[trigger] all[i]),
        {
            let ghost k = out.len() as int;
            assert(val == all[k]);
            match Validator::from_proto(val) {
                Ok(v) => {
                    assert(validator_readable(all[k]));
                    out.push(v);
                },
                Err(e) => {
                    assert(!validator_readable(all[k]));
                    assert(first_unreadable_validator(all, k));
                    return Err(e);
                },
            }
        }
        Ok(
            ValidatorSetResponse {
                block_height: reinterpret_u64(block_height),
                validators: out,
                next: next_page(pagination),
            },
        )
    }
}

/// Whether the validator `v` can be written as a message: its public key,
/// where it has one, can be put into its envelope.
pub open spec fn validator_writable(v: Validator) -> bool {
    match v.pubkey {
        None => true,
        Some(key) => public_key_envelope(key@) is Some,
    }
}

/// Whether the message `p` is what the validator `v` is written as.
pub open spec fn validator_written(p: ProtoValidator, v: Validator) -> bool {
    &&& p.address@ == v.address@
    &&& p.voting_power == v.voting_power
    &&& p.proposer_priority == v.proposer_priority
    &&& match v.pubkey {
        None => p.pub_key is None,
        Some(key) => p.pub_key matches Some(any) && public_key_envelope(key@) == Some(any@),
    }
}

impl ValidatorSetResponse {
    /// The parts of a response that carries this validator set: the height
    /// with the same bits as a signed number, the validators in order, and
    /// the page response. A public key that cannot be put into its envelope
    /// is a `Crypto` error.
    pub fn into_parts(self) -> (r: Result<
        (i64, Vec<ProtoValidator>, Option<crate::proto::ProtoPageResponse>),
        TendermintError,
    >)
        ensures
            match r {
                Ok(parts) => {
                    &&& parts.0 == bits_as_i64(self.block_height)
                    &&& parts.1.len() == self.validators.len()
                    &&& forall|i: int|
                        0 <= i < parts.1.len() ==> validator_written(
                            #[trigger] parts.1[i],
                            self.validators[i],
                        )
                    &&& match self.next {
                        Some(n) => parts.2 matches Some(p) && p.next_key == n.next_key && p.total
                            == n.total,
                        None => parts.2 is None,
                    }
                },
                Err(e) => e matches TendermintError::ChainError(ChainError::Crypto { .. })
                    && exists|k: int|
                    0 <= k < self.validators.len() && !validator_writable(
                        #[trigger] self.validators[k],
                    ) && forall|j: int|
                        0 <= j < k ==> validator_writable(#[trigger] self.validators[j]),
            },
    {
        let ValidatorSetResponse { block_height, validators, next } = self;
        let ghost all = validators@;
        let mut out: Vec<ProtoValidator> = Vec::new();
        for v in it: validators
            invariant
                it.seq() == all,
                all == self.validators@,
                out.len() == it.index(),
                forall|i: int| 0 <= i < out.len() ==> validator_written(#[trigger] out[i], all[i]),
                forall|i: int| 0 <= i < out.len() ==> validator_writable(#[trigger] all[i]),
        {
            let ghost k = out.len() as int;
            assert(v == all[k]);
            match v.into_proto() {
                Ok(p) => {
                    assert(validator_writable(all[k]));
                    out.push(p);
                },
                Err(e) => {
                    assert(!validator_writable(all[k]));
                    return Err(e);
                },
            }
        }
        let pagination = match next {
            Some(n) => Some(n.into_proto()),
            None => None,
        };
        Ok((query_height(block_height), out, pagination))
    }
}

} // verus!
