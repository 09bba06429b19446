//! What a caller asks for: pages of a listing, and options for a
//! transaction.

use crate::chain::fee::Fee;
use crate::modules::auth::model::Account;
use crate::proto::{ProtoPageRequest, ProtoPageResponse};
use vstd::prelude::*;

verus! {

/// Where a page starts when it is addressed by a number.
#[derive(Copy, Clone, Debug, PartialEq, Eq, Structural, Hash)]
pub struct OffsetParams {
    pub offset: u64,
    pub count_total: bool,
}

impl Default for OffsetParams {
    fn default() -> (r: OffsetParams)
        ensures
            r == (OffsetParams { offset: 0, count_total: false }),
    {
        OffsetParams { offset: 0, count_total: false }
    }
}

/// Where a page starts.
#[derive(Debug, PartialEq, Eq, Hash)]
pub enum PageID {
    /// The key that the previous page named as its successor.
    Key(Vec<u8>),
    /// A numeric offset, for when no key is at hand.
    Offset(OffsetParams),
}

/// A request for one page of a listing.
#[derive(Debug, PartialEq, Eq, Hash)]
pub struct PaginationRequest {
    pub page: PageID,
    pub limit: u64,
    pub reverse: bool,
}

impl PaginationRequest {
    /// Writes the request as a message. A page addressed by key has offset
    /// zero and counts no total; a page addressed by offset has an empty
    /// key.
    pub fn into_proto(self) -> (r: ProtoPageRequest)
        ensures
            r.limit == self.limit,
            r.reverse == self.reverse,
            match self.page {
                PageID::Key(key) => r.key == key && r.offset == 0 && !r.count_total,
                PageID::Offset(o) => r.key@.len() == 0 && r.offset == o.offset && r.count_total
                    == o.count_total,
            },
    {
        let (key, offset) = match self.page {
            PageID::Key(key) => (key, OffsetParams::default()),
            PageID::Offset(offset) => (Vec::new(), offset),
        };
        ProtoPageRequest {
            key,
            offset: offset.offset,
            count_total: offset.count_total,
            limit: self.limit,
            reverse: self.reverse,
        }
    }

    /// Reads a page request message: by offset where the key is empty, by
    /// key otherwise.
    pub fn from_proto(p: ProtoPageRequest) -> (r: PaginationRequest)
        ensures
            r.limit == p.limit,
            r.reverse == p.reverse,
            p.key@.len() == 0 ==> r.page == PageID::Offset(
                OffsetParams { offset: p.offset, count_total: p.count_total },
            ),
            p.key@.len() != 0 ==> r.page == PageID::Key(p.key),
    {
        let page = if p.key.len() == 0 {
            PageID::Offset(OffsetParams { offset: p.offset, count_total: p.count_total })
        } else {
            PageID::Key(p.key)
        };
        PaginationRequest { page, limit: p.limit, reverse: p.reverse }
    }
}

/// What a page of a listing says of the rest: the key of the next page and
/// the total count, where it was asked for.
#[derive(Debug, PartialEq, Eq, Hash)]
pub struct PaginationResponse {
    pub next_key: Vec<u8>,
    pub total: u64,
}

impl Default for PaginationResponse {
    fn default() -> (r: PaginationResponse)
        ensures
            r.next_key@.len() == 0,
            r.total == 0,
    {
        PaginationResponse { next_key: Vec::new(), total: 0 }
    }
}

impl PaginationResponse {
    /// Reads a page response message.
    pub fn from_proto(p: ProtoPageResponse) -> (r: PaginationResponse)
        ensures
            r.next_key == p.next_key,
            r.total == p.total,
    {
        PaginationResponse { next_key: p.next_key, total: p.total }
    }

    /// Writes the page response as a message.
    pub fn into_proto(self) -> (r: ProtoPageResponse)
        ensures
            r.next_key == self.next_key,
            r.total == self.total,
    {
        ProtoPageResponse { next_key: self.next_key, total: self.total }
    }
}

/// A page request keeps what it says when it is written as a message and
/// read back, unless it addresses its page by an empty key: a message
/// cannot tell an empty key from none.
pub proof fn lemma_page_request_round_trip(r: PaginationRequest, p: ProtoPageRequest, back: PaginationRequest)
    requires
        !(r.page matches PageID::Key(k) && k@.len() == 0),
        p.limit == r.limit,
        p.reverse == r.reverse,
        match r.page {
            PageID::Key(key) => p.key == key && p.offset == 0 && !p.count_total,
            PageID::Offset(o) => p.key@.len() == 0 && p.offset == o.offset && p.count_total
                == o.count_total,
        },
        back.limit == p.limit,
        back.reverse == p.reverse,
        p.key@.len() == 0 ==> back.page == PageID::Offset(
            OffsetParams { offset: p.offset, count_total: p.count_total },
        ),
        p.key@.len() != 0 ==> back.page == PageID::Key(p.key),
    ensures
        back == r,
{
}

/// The memo of a transaction whose caller gave none.
pub const DEFAULT_MEMO: &'static str = "Made with cosm-tome client";

/// What a caller may set for one transaction.
#[derive(Debug, PartialEq, Eq)]
pub struct TxOptions {
    /// The block height after which the chain no longer takes the
    /// transaction.
    pub timeout_height: Option<u64>,
    /// The fee to pay; without one the fee is found by simulation.
    pub fee: Option<Fee>,
    /// The account to sign for; without one the account is queried.
    pub account: Option<Account>,
    /// Free text that goes into the transaction.
    pub memo: String,
}

impl Default for TxOptions {
    fn default() -> (r: TxOptions)
        ensures
            r.timeout_height == Some(0u64),
            r.fee is None,
            r.account is None,
            r.memo@ == DEFAULT_MEMO@,
    {
        TxOptions {
            fee: None,
            account: None,
            timeout_height: Some(0),
            memo: DEFAULT_MEMO.to_owned(),
        }
    }
}

} // verus!
