//! Status codes and the normalised shapes of what a chain node answers.

use crate::chain::error::DeserializeError;
use crate::proto::{ProtoEvent, ProtoEventAttribute, ProtoTxResponse};
use crate::rpc::{AbciQuery, GrpcFailure, TxAsyncResponse, TxCommitResponse, TxResult, TxSyncResponse};
use vstd::prelude::*;
use vstd::std_specs::convert::FromSpecImpl;
use vstd::string::StrSliceExecFns;

verus! {

/// Number of status values that a gRPC call can end with (`0` to `16`).
pub const GRPC_STATUS_COUNT: u32 = 17;

/// The one status code of this library.
///
/// ABCI result codes, gRPC status codes and HTTP-side numeric codes all land
/// here: zero is success, every other number is a failure that keeps its
/// number.
#[derive(Copy, Clone, Debug, PartialEq, Eq, Structural, PartialOrd, Ord, Hash)]
pub enum Code {
    Success,
    Failure(u32),
}

/// The code that stands for the wire number `n`.
pub open spec fn code_of(n: int) -> Code {
    if n == 0 {
        Code::Success
    } else {
        Code::Failure(n as u32)
    }
}

impl Code {
    /// A code is well formed when its failure number is not zero, so that
    /// each wire number has exactly one code.
    pub open spec fn wf(self) -> bool {
        match self {
            Code::Success => true,
            Code::Failure(n) => n != 0,
        }
    }

    /// The wire number that this code stands for.
    pub open spec fn spec_value(self) -> u32 {
        match self {
            Code::Success => 0,
            Code::Failure(n) => n,
        }
    }

    /// Whether this code means success.
    pub open spec fn spec_is_ok(self) -> bool {
        self == Code::Success
    }

    /// Whether this code means failure.
    pub open spec fn spec_is_err(self) -> bool {
        self != Code::Success
    }

    /// Whether this code means success.
    #[verifier::when_used_as_spec(spec_is_ok)]
    pub fn is_ok(self) -> (b: bool)
        ensures
            b == (self == Code::Success),
    {
        match self {
            Code::Success => true,
            Code::Failure(_) => false,
        }
    }

    /// Whether this code means failure.
    #[verifier::when_used_as_spec(spec_is_err)]
    pub fn is_err(self) -> (b: bool)
        ensures
            b == (self != Code::Success),
    {
        !self.is_ok()
    }

    /// The wire number that this code stands for.
    #[verifier::when_used_as_spec(spec_value)]
    pub fn value(self) -> (n: u32)
        ensures
            n == self.spec_value(),
    {
        match self {
            Code::Success => 0,
            Code::Failure(err) => err,
        }
    }

    /// The code of a gRPC call that ended with the status number `status`,
    /// or `None` where gRPC knows no such status.
    pub fn from_grpc_status(status: i32) -> (c: Option<Code>)
        ensures
            0 <= status < GRPC_STATUS_COUNT ==> c == Some(code_of(status as int)),
            !(0 <= status < GRPC_STATUS_COUNT) ==> c is None,
    {
        if 0 <= status && status < 17 {
            Some(Code::from(status as u32))
        } else {
            None
        }
    }
}

impl Default for Code {
    fn default() -> (c: Code)
        ensures
            c == Code::Success,
    {
        Code::Success
    }
}

impl From<u32> for Code {
    fn from(value: u32) -> (c: Code) {
        match value {
            0 => Code::Success,
            err => Code::Failure(err),
        }
    }
}

impl FromSpecImpl<u32> for Code {
    open spec fn obeys_from_spec() -> bool {
        true
    }

    open spec fn from_spec(value: u32) -> Code {
        code_of(value as int)
    }
}

impl From<u16> for Code {
    fn from(value: u16) -> (c: Code) {
        match value {
            0 => Code::Success,
            err => Code::Failure(err as u32),
        }
    }
}

impl FromSpecImpl<u16> for Code {
    open spec fn obeys_from_spec() -> bool {
        true
    }

    open spec fn from_spec(value: u16) -> Code {
        code_of(value as int)
    }
}

impl From<u8> for Code {
    fn from(value: u8) -> (c: Code) {
        match value {
            0 => Code::Success,
            err => Code::Failure(err as u32),
        }
    }
}

impl FromSpecImpl<u8> for Code {
    open spec fn obeys_from_spec() -> bool {
        true
    }

    open spec fn from_spec(value: u8) -> Code {
        code_of(value as int)
    }
}

impl From<Code> for u32 {
    fn from(code: Code) -> (n: u32) {
        match code {
            Code::Success => 0,
            Code::Failure(err) => err,
        }
    }
}

impl FromSpecImpl<Code> for u32 {
    open spec fn obeys_from_spec() -> bool {
        true
    }

    open spec fn from_spec(code: Code) -> u32 {
        code.spec_value()
    }
}

/// Zero is the only wire number that gives `Ok`; every other number gives
/// the failure that carries it.
pub proof fn lemma_code_of_number(n: u32)
    ensures
        code_of(n as int).wf(),
        code_of(n as int) == Code::Success <==> n == 0,
        n != 0 ==> code_of(n as int) == Code::Failure(n),
        code_of(n as int).spec_value() == n,
{
}

/// Two wire numbers give the same code only if they are the same number.
pub proof fn lemma_code_of_injective(a: u32, b: u32)
    requires
        code_of(a as int) == code_of(b as int),
    ensures
        a == b,
{
}

/// A well-formed code is the code of its own wire number.
pub proof fn lemma_code_value_round_trip(c: Code)
    requires
        c.wf(),
    ensures
        code_of(c.spec_value() as int) == c,
{
}


/// The status of a finished gRPC call, one variant for each status that the
/// protocol defines, in the order of their numbers.
#[derive(Copy, Clone, Debug, PartialEq, Eq, Structural, Hash)]
pub enum GrpcStatus {
    Done,
    Cancelled,
    Unknown,
    InvalidArgument,
    DeadlineExceeded,
    NotFound,
    AlreadyExists,
    PermissionDenied,
    ResourceExhausted,
    FailedPrecondition,
    Aborted,
    OutOfRange,
    Unimplemented,
    Internal,
    Unavailable,
    DataLoss,
    Unauthenticated,
}

impl GrpcStatus {
    /// The number that gRPC sends for this status.
    pub open spec fn number(self) -> u32 {
        match self {
            GrpcStatus::Done => 0,
            GrpcStatus::Cancelled => 1,
            GrpcStatus::Unknown => 2,
            GrpcStatus::InvalidArgument => 3,
            GrpcStatus::DeadlineExceeded => 4,
            GrpcStatus::NotFound => 5,
            GrpcStatus::AlreadyExists => 6,
            GrpcStatus::PermissionDenied => 7,
            GrpcStatus::ResourceExhausted => 8,
            GrpcStatus::FailedPrecondition => 9,
            GrpcStatus::Aborted => 10,
            GrpcStatus::OutOfRange => 11,
            GrpcStatus::Unimplemented => 12,
            GrpcStatus::Internal => 13,
            GrpcStatus::Unavailable => 14,
            GrpcStatus::DataLoss => 15,
            GrpcStatus::Unauthenticated => 16,
        }
    }
}

impl From<GrpcStatus> for Code {
    fn from(value: GrpcStatus) -> (c: Code) {
        match value {
            GrpcStatus::Done => Code::Success,
            GrpcStatus::Cancelled => Code::Failure(1),
            GrpcStatus::Unknown => Code::Failure(2),
            GrpcStatus::InvalidArgument => Code::Failure(3),
            GrpcStatus::DeadlineExceeded => Code::Failure(4),
            GrpcStatus::NotFound => Code::Failure(5),
            GrpcStatus::AlreadyExists => Code::Failure(6),
            GrpcStatus::PermissionDenied => Code::Failure(7),
            GrpcStatus::ResourceExhausted => Code::Failure(8),
            GrpcStatus::FailedPrecondition => Code::Failure(9),
            GrpcStatus::Aborted => Code::Failure(10),
            GrpcStatus::OutOfRange => Code::Failure(11),
            GrpcStatus::Unimplemented => Code::Failure(12),
            GrpcStatus::Internal => Code::Failure(13),
            GrpcStatus::Unavailable => Code::Failure(14),
            GrpcStatus::DataLoss => Code::Failure(15),
            GrpcStatus::Unauthenticated => Code::Failure(16),
        }
    }
}

impl FromSpecImpl<GrpcStatus> for Code {
    open spec fn obeys_from_spec() -> bool {
        true
    }

    open spec fn from_spec(value: GrpcStatus) -> Code {
        code_of(value.number() as int)
    }
}

/// Of the gRPC statuses only `Done` gives `Success`, and two statuses give
/// the same code only if they are the same status.
pub proof fn lemma_grpc_status_code(a: GrpcStatus, b: GrpcStatus)
    ensures
        code_of(a.number() as int).wf(),
        code_of(a.number() as int) == Code::Success <==> a == GrpcStatus::Done,
        code_of(a.number() as int) == code_of(b.number() as int) ==> a == b,
        a.number() < GRPC_STATUS_COUNT,
{
}


/// A signed 64-bit number read as the unsigned number with the same bits.
pub open spec fn bits_as_u64(x: i64) -> u64 {
    if x >= 0 {
        x as u64
    } else {
        (x + 0x1_0000_0000_0000_0000) as u64
    }
}

/// The unsigned number with the bits of `x`: what a cast gives.
pub fn reinterpret_u64(x: i64) -> (r: u64)
    ensures
        r == bits_as_u64(x),
{
    if x >= 0 {
        x as u64
    } else {
        let low: u64 = (x - i64::MIN) as u64;
        low + 0x8000_0000_0000_0000u64
    }
}

/// One attribute of an event: a key and its value.
#[derive(Debug, PartialEq, Eq, Hash)]
pub struct Tag {
    pub key: String,
    pub value: String,
}

/// What a tag holds: the characters of its key and of its value.
pub struct TagView {
    pub key: Seq<char>,
    pub value: Seq<char>,
}

impl DeepView for Tag {
    type V = TagView;

    open spec fn deep_view(&self) -> TagView {
        TagView { key: self.key@, value: self.value@ }
    }
}

impl View for Tag {
    type V = TagView;

    open spec fn view(&self) -> TagView {
        self.deep_view()
    }
}

impl Clone for Tag {
    fn clone(&self) -> (r: Self)
        ensures
            r@ == self@,
    {
        Tag { key: self.key.clone(), value: self.value.clone() }
    }
}

impl From<ProtoEventAttribute> for Tag {
    fn from(attr: ProtoEventAttribute) -> (r: Tag) {
        Tag { key: attr.key, value: attr.value }
    }
}

impl FromSpecImpl<ProtoEventAttribute> for Tag {
    open spec fn obeys_from_spec() -> bool {
        true
    }

    open spec fn from_spec(attr: ProtoEventAttribute) -> Tag {
        Tag { key: attr.key, value: attr.value }
    }
}

impl From<Tag> for ProtoEventAttribute {
    fn from(tag: Tag) -> (r: ProtoEventAttribute) {
        ProtoEventAttribute { key: tag.key, value: tag.value, index: true }
    }
}

impl FromSpecImpl<Tag> for ProtoEventAttribute {
    open spec fn obeys_from_spec() -> bool {
        true
    }

    open spec fn from_spec(tag: Tag) -> ProtoEventAttribute {
        ProtoEventAttribute { key: tag.key, value: tag.value, index: true }
    }
}

/// Something that happened while a transaction ran: a type and attributes.
#[derive(Debug, PartialEq, Eq, Hash)]
pub struct Event {
    pub type_str: String,
    pub attributes: Vec<Tag>,
}

/// What an event holds: the characters of its type, and its tags.
pub struct EventView {
    pub type_str: Seq<char>,
    pub attributes: Seq<TagView>,
}

impl DeepView for Event {
    type V = EventView;

    open spec fn deep_view(&self) -> EventView {
        EventView { type_str: self.type_str@, attributes: self.attributes.deep_view() }
    }
}

impl View for Event {
    type V = EventView;

    open spec fn view(&self) -> EventView {
        self.deep_view()
    }
}

/// The tags that `attrs` become, one for one and in order.
pub open spec fn tags_of_attributes(attrs: Seq<ProtoEventAttribute>) -> Seq<Tag> {
    Seq::new(attrs.len(), |i: int| Tag { key: attrs[i].key, value: attrs[i].value })
}

/// The attributes that `tags` become, one for one and in order, each marked
/// as indexed.
pub open spec fn attributes_of_tags(tags: Seq<Tag>) -> Seq<ProtoEventAttribute> {
    Seq::new(
        tags.len(),
        |i: int| ProtoEventAttribute { key: tags[i].key, value: tags[i].value, index: true },
    )
}

/// The event that the message `e` stands for.
pub open spec fn event_of_proto(e: ProtoEvent) -> EventParts {
    EventParts { type_str: e.kind, attributes: tags_of_attributes(e.attributes@) }
}

/// An event taken apart: its type and its tags.
pub struct EventParts {
    pub type_str: String,
    pub attributes: Seq<Tag>,
}

impl Event {
    /// The type and the tags of this event.
    pub open spec fn parts(&self) -> EventParts {
        EventParts { type_str: self.type_str, attributes: self.attributes@ }
    }

    /// Reads an event message: the type is kept and each attribute becomes
    /// a tag.
    pub fn from_proto(e: ProtoEvent) -> (r: Event)
        ensures
            r.parts() == event_of_proto(e),
    {
        let ProtoEvent { kind, attributes } = e;
        let ghost all = attributes@;
        let mut tags: Vec<Tag> = Vec::new();
        for a in it: attributes
            invariant
                it.seq() == all,
                tags.len() == it.index(),
                forall|j: int| 0 <= j < tags.len() ==> tags[j] == tags_of_attributes(all)[j],
        {
            tags.push(Tag { key: a.key, value: a.value });
        }
        assert(tags@ =~= tags_of_attributes(all));
        Event { type_str: kind, attributes: tags }
    }

    /// Writes this event as a message: the type is kept and each tag becomes
    /// an indexed attribute.
    pub fn into_proto(self) -> (r: ProtoEvent)
        ensures
            r.kind == self.type_str,
            r.attributes@ == attributes_of_tags(self.attributes@),
    {
        let Event { type_str, attributes } = self;
        let ghost all = attributes@;
        let mut attrs: Vec<ProtoEventAttribute> = Vec::new();
        for t in it: attributes
            invariant
                it.seq() == all,
                attrs.len() == it.index(),
                forall|j: int| 0 <= j < attrs.len() ==> attrs[j] == attributes_of_tags(all)[j],
        {
            attrs.push(ProtoEventAttribute { key: t.key, value: t.value, index: true });
        }
        assert(attrs@ =~= attributes_of_tags(all));
        ProtoEvent { kind: type_str, attributes: attrs }
    }
}

/// The events that the messages `events` stand for, one for one and in
/// order.
pub open spec fn events_of_proto(events: Seq<ProtoEvent>) -> Seq<EventParts> {
    Seq::new(events.len(), |i: int| event_of_proto(events[i]))
}

/// The parts of each event of `events`, in order.
pub open spec fn event_parts(events: Seq<Event>) -> Seq<EventParts> {
    Seq::new(events.len(), |i: int| events[i].parts())
}

/// What every answer of a chain comes down to: a status code, the payload if
/// there is one, and a log line.
#[derive(Debug, PartialEq, Eq)]
pub struct ChainResponse {
    pub code: Code,
    pub data: Option<Vec<u8>>,
    pub log: String,
}

/// What a response holds: its code, the bytes of its payload, and the
/// characters of its log.
pub struct ChainResponseView {
    pub code: Code,
    pub data: Option<Seq<u8>>,
    pub log: Seq<char>,
}

impl DeepView for ChainResponse {
    type V = ChainResponseView;

    open spec fn deep_view(&self) -> ChainResponseView {
        ChainResponseView { code: self.code, data: self.data.deep_view(), log: self.log@ }
    }
}

impl View for ChainResponse {
    type V = ChainResponseView;

    open spec fn view(&self) -> ChainResponseView {
        self.deep_view()
    }
}

impl Default for ChainResponse {
    fn default() -> (r: ChainResponse)
        ensures
            r.code == Code::Success,
            r.data is None,
            r.log@.len() == 0,
    {
        ChainResponse { code: Code::Success, data: None, log: String::new() }
    }
}

impl Clone for ChainResponse {
    fn clone(&self) -> (r: Self)
        ensures
            r@ == self@,
    {
        let data = match &self.data {
            Some(d) => Some(d.clone()),
            None => None,
        };
        ChainResponse { code: self.code, data, log: self.log.clone() }
    }
}

impl ChainResponse {
    /// The payload, for a reader that decodes it; a response without one is
    /// `EmptyResponse`.
    pub fn data(&self) -> (r: Result<&Vec<u8>, DeserializeError>)
        ensures
            match self.data {
                Some(d) => r == Ok::<&Vec<u8>, DeserializeError>(&d),
                None => r == Err::<&Vec<u8>, DeserializeError>(DeserializeError::EmptyResponse),
            },
    {
        match &self.data {
            Some(d) => Ok(d),
            None => Err(DeserializeError::EmptyResponse),
        }
    }

    /// The answer to an ABCI query, normalised: its code, its value as the
    /// payload, its log.
    pub fn from_abci_query(res: AbciQuery) -> (r: ChainResponse)
        ensures
            r.code == code_of(res.code as int),
            r.data == Some(res.value),
            r.log == res.log,
    {
        ChainResponse { code: Code::from(res.code), data: Some(res.value), log: res.log }
    }

    /// One phase of a transaction, normalised: its code, its data as the
    /// payload, its log.
    pub fn from_tx_result(res: TxResult) -> (r: ChainResponse)
        ensures
            r.code == code_of(res.code as int),
            r.data == Some(res.data),
            r.log == res.log,
    {
        ChainResponse { code: Code::from(res.code), data: Some(res.data), log: res.log }
    }

    /// A failed gRPC call, normalised: the code of its status, its details
    /// as the payload, its message as the log.
    pub fn from_grpc_failure(res: GrpcFailure) -> (r: ChainResponse)
        ensures
            r.code == code_of(res.status.number() as int),
            r.data == Some(res.details),
            r.log == res.message,
    {
        ChainResponse { code: Code::from(res.status), data: Some(res.details), log: res.message }
    }

    /// The state that a contract query returned: always a success, with the
    /// returned bytes as the payload and an empty log.
    pub fn from_contract_state(data: Vec<u8>) -> (r: ChainResponse)
        ensures
            r.code == Code::Success,
            r.data == Some(data),
            r.log@.len() == 0,
    {
        ChainResponse { code: Code::Success, data: Some(data), log: String::new() }
    }
}

/// What a node answers when a transaction was only handed in: the
/// normalised response and the transaction's hash. Nothing of its execution
/// is known yet.
#[derive(Debug, PartialEq, Eq)]
pub struct AsyncChainTxResponse {
    pub res: ChainResponse,
    pub tx_hash: String,
}

impl Default for AsyncChainTxResponse {
    fn default() -> (r: AsyncChainTxResponse)
        ensures
            r.res.code == Code::Success,
            r.res.data is None,
            r.res.log@.len() == 0,
            r.tx_hash@.len() == 0,
    {
        AsyncChainTxResponse { res: ChainResponse::default(), tx_hash: String::new() }
    }
}

impl AsyncChainTxResponse {
    /// The normalised response inside.
    pub fn as_ref(&self) -> (r: &ChainResponse)
        ensures
            *r == self.res,
    {
        &self.res
    }

    /// Reads the `TxResponse` of a gRPC broadcast. The payload is the bytes
    /// of the message's `data` text.
    pub fn from_proto(res: ProtoTxResponse) -> (r: AsyncChainTxResponse)
        ensures
            r.res.code == code_of(res.code as int),
            r.res.data matches Some(d) && d@ == vstd::utf8::encode_utf8(res.data@),
            r.res.log == res.raw_log,
            r.tx_hash == res.txhash,
    {
        let data = res.data.as_str().as_bytes_vec();
        AsyncChainTxResponse {
            res: ChainResponse { code: Code::from(res.code), data: Some(data), log: res.raw_log },
            tx_hash: res.txhash,
        }
    }

    /// Reads the answer to `broadcast_tx_async`.
    pub fn from_tx_async(res: TxAsyncResponse) -> (r: AsyncChainTxResponse)
        ensures
            r.res.code == code_of(res.code as int),
            r.res.data == Some(res.data),
            r.res.log == res.log,
            r.tx_hash == res.hash,
    {
        AsyncChainTxResponse {
            res: ChainResponse { code: Code::from(res.code), data: Some(res.data), log: res.log },
            tx_hash: res.hash,
        }
    }

    /// Reads the answer to `broadcast_tx_sync`.
    pub fn from_tx_sync(res: TxSyncResponse) -> (r: AsyncChainTxResponse)
        ensures
            r.res.code == code_of(res.code as int),
            r.res.data == Some(res.data),
            r.res.log == res.log,
            r.tx_hash == res.hash,
    {
        AsyncChainTxResponse {
            res: ChainResponse { code: Code::from(res.code), data: Some(res.data), log: res.log },
            tx_hash: res.hash,
        }
    }
}

/// What a node answers once a transaction is in a block: the normalised
/// response of its execution, the events it emitted, the gas it asked for
/// and used, its hash and the height of the block.
#[derive(Debug, PartialEq, Eq)]
pub struct ChainTxResponse {
    pub res: ChainResponse,
    pub events: Vec<Event>,
    pub gas_wanted: u64,
    pub gas_used: u64,
    pub tx_hash: String,
    pub height: u64,
}

/// The tags of `attrs` whose key is `key`, in order.
pub open spec fn tags_with_key(attrs: Seq<TagView>, key: Seq<char>) -> Seq<TagView>
    decreases attrs.len(),
{
    if attrs.len() == 0 {
        Seq::empty()
    } else {
        let before = tags_with_key(attrs.drop_last(), key);
        if attrs.last().key == key {
            before.push(attrs.last())
        } else {
            before
        }
    }
}

/// The tags with key `key` of the events of type `event_type`, in the order
/// of the events and, within one event, of its attributes.
pub open spec fn event_tags(events: Seq<EventView>, event_type: Seq<char>, key: Seq<char>) -> Seq<
    TagView,
>
    decreases events.len(),
{
    if events.len() == 0 {
        Seq::empty()
    } else {
        let before = event_tags(events.drop_last(), event_type, key);
        if events.last().type_str == event_type {
            before + tags_with_key(events.last().attributes, key)
        } else {
            before
        }
    }
}

impl Default for ChainTxResponse {
    fn default() -> (r: ChainTxResponse)
        ensures
            r.res.code == Code::Success,
            r.res.data is None,
            r.res.log@.len() == 0,
            r.events@.len() == 0,
            r.gas_wanted == 0,
            r.gas_used == 0,
            r.tx_hash@.len() == 0,
            r.height == 0,
    {
        ChainTxResponse {
            res: ChainResponse::default(),
            events: Vec::new(),
            gas_wanted: 0,
            gas_used: 0,
            tx_hash: String::new(),
            height: 0,
        }
    }
}

impl ChainTxResponse {
    /// The normalised response inside.
    pub fn as_ref(&self) -> (r: &ChainResponse)
        ensures
            *r == self.res,
    {
        &self.res
    }

    /// Every tag named `key_name` of every event of type `event_type`, in
    /// the order in which the chain emitted them.
    pub fn find_event_tags(&self, event_type: String, key_name: String) -> (tags: Vec<&Tag>)
        ensures
            tags.deep_view() == event_tags(self.events.deep_view(), event_type@, key_name@),
    {
        let mut found: Vec<&Tag> = Vec::new();
        let ghost all = self.events.deep_view();
        let mut i: usize = 0;
        while i < self.events.len()
            invariant
                i <= self.events.len(),
                all == self.events.deep_view(),
                found.deep_view() == event_tags(all.take(i as int), event_type@, key_name@),
            decreases self.events.len() - i,
        {
            let event = &self.events[i];
            let ghost before = found.deep_view();
            proof {
                assert(all.take(i + 1).drop_last() =~= all.take(i as int));
                assert(all.take(i + 1).last() == event.deep_view());
            }
            if event.type_str == event_type {
                let ghost attrs = event.attributes.deep_view();
                let mut j: usize = 0;
                while j < event.attributes.len()
                    invariant
                        j <= event.attributes.len(),
                        attrs == event.attributes.deep_view(),
                        found.deep_view() == before + tags_with_key(attrs.take(j as int), key_name@),
                    decreases event.attributes.len() - j,
                {
                    let attr = &event.attributes[j];
                    proof {
                        assert(attrs.take(j + 1).drop_last() =~= attrs.take(j as int));
                        assert(attrs.take(j + 1).last() == attr.deep_view());
                    }
                    let ghost so_far = found.deep_view();
                    if attr.key == key_name {
                        found.push(attr);
                        assert(found.deep_view() =~= so_far.push(attr.deep_view()));
                    }
                    j += 1;
                }
                assert(attrs.take(j as int) =~= attrs);
            }
            i += 1;
        }
        assert(all.take(i as int) =~= all);
        found
    }

    /// The first tag named `key_name` of an event of type `event_type`, if
    /// there is one.
    pub fn find_event_tag(&self, event_type: String, key_name: String) -> (tag: Option<Tag>)
        ensures
            ({
                let all = event_tags(self.events.deep_view(), event_type@, key_name@);
                match tag {
                    Some(t) => all.len() > 0 && t@ == all[0],
                    None => all.len() == 0,
                }
            }),
    {
        let tags = self.find_event_tags(event_type, key_name);
        if tags.len() > 0 {
            Some(tags[0].clone())
        } else {
            None
        }
    }

    /// Reads the answer to `broadcast_tx_commit`: the response, the events
    /// and the gas are those of the execution, not of the admission check.
    pub fn from_tx_commit(res: TxCommitResponse) -> (r: ChainTxResponse)
        ensures
            r.res.code == code_of(res.deliver_tx.code as int),
            r.res.data == Some(res.deliver_tx.data),
            r.res.log == res.deliver_tx.log,
            r.events == res.deliver_tx.events,
            r.gas_wanted == bits_as_u64(res.deliver_tx.gas_wanted),
            r.gas_used == bits_as_u64(res.deliver_tx.gas_used),
            r.tx_hash == res.hash,
            r.height == res.height,
    {
        let TxCommitResponse { check_tx: _, deliver_tx, hash, height } = res;
        ChainTxResponse {
            res: ChainResponse {
                code: Code::from(deliver_tx.code),
                data: Some(deliver_tx.data),
                log: deliver_tx.log,
            },
            events: deliver_tx.events,
            gas_wanted: reinterpret_u64(deliver_tx.gas_wanted),
            gas_used: reinterpret_u64(deliver_tx.gas_used),
            tx_hash: hash,
            height,
        }
    }

    /// Reads the `TxResponse` of a gRPC broadcast. The payload is the bytes
    /// of the message's `data` text; gas and height keep their bits.
    pub fn from_proto(res: ProtoTxResponse) -> (r: ChainTxResponse)
        ensures
            r.res.code == code_of(res.code as int),
            r.res.data matches Some(d) && d@ == vstd::utf8::encode_utf8(res.data@),
            r.res.log == res.raw_log,
            event_parts(r.events@) == events_of_proto(res.events@),
            r.gas_wanted == bits_as_u64(res.gas_wanted),
            r.gas_used == bits_as_u64(res.gas_used),
            r.tx_hash == res.txhash,
            r.height == bits_as_u64(res.height),
    {
        let ProtoTxResponse { height, txhash, code, data, raw_log, gas_wanted, gas_used, events } =
            res;
        let ghost all = events@;
        let mut out: Vec<Event> = Vec::new();
        for e in it: events
            invariant
                it.seq() == all,
                out.len() == it.index(),
                forall|j: int| 0 <= j < out.len() ==> out[j].parts() == event_of_proto(all[j]),
        {
            out.push(Event::from_proto(e));
        }
        assert(event_parts(out@) =~= events_of_proto(all));
        let payload = data.as_str().as_bytes_vec();
        ChainTxResponse {
            res: ChainResponse { code: Code::from(code), data: Some(payload), log: raw_log },
            events: out,
            gas_wanted: reinterpret_u64(gas_wanted),
            gas_used: reinterpret_u64(gas_used),
            tx_hash: txhash,
            height: reinterpret_u64(height),
        }
    }
}

/// Searching attributes by key finds tags of that key only, and no more
/// tags than there are attributes.
pub proof fn lemma_tags_with_key(attrs: Seq<TagView>, key: Seq<char>)
    ensures
        tags_with_key(attrs, key).len() <= attrs.len(),
        forall|i: int|
            0 <= i < tags_with_key(attrs, key).len() ==> (#[trigger] tags_with_key(attrs, key)[i]).key
                == key,
    decreases attrs.len(),
{
    if attrs.len() > 0 {
        lemma_tags_with_key(attrs.drop_last(), key);
    }
}

/// Searching events by type and key finds tags of that key only.
pub proof fn lemma_event_tags_have_the_key(events: Seq<EventView>, event_type: Seq<char>, key: Seq<char>)
    ensures
        forall|i: int|
            0 <= i < event_tags(events, event_type, key).len() ==> (#[trigger] event_tags(
                events,
                event_type,
                key,
            )[i]).key == key,
    decreases events.len(),
{
    if events.len() > 0 {
        lemma_event_tags_have_the_key(events.drop_last(), event_type, key);
        lemma_tags_with_key(events.last().attributes, key);
        let before = event_tags(events.drop_last(), event_type, key);
        let found = tags_with_key(events.last().attributes, key);
        let all = event_tags(events, event_type, key);
        assert forall|i: int| 0 <= i < all.len() implies (#[trigger] all[i]).key == key by {
            if events.last().type_str == event_type {
                assert(all == before + found);
                if i < before.len() {
                    assert(all[i] == before[i]);
                } else {
                    assert(all[i] == found[i - before.len()]);
                }
            } else {
                assert(all == before);
            }
        }
    }
}

/// Events of another type add nothing to a search.
pub proof fn lemma_event_tags_skip_other_types(events: Seq<EventView>, event_type: Seq<char>, key: Seq<char>)
    requires
        forall|i: int| 0 <= i < events.len() ==> (#[trigger] events[i]).type_str != event_type,
    ensures
        event_tags(events, event_type, key).len() == 0,
    decreases events.len(),
{
    if events.len() > 0 {
        assert forall|i: int| 0 <= i < events.drop_last().len() implies (#[trigger] events.drop_last()[i]).type_str
            != event_type by {
            assert(events.drop_last()[i] == events[i]);
        }
        lemma_event_tags_skip_other_types(events.drop_last(), event_type, key);
    }
}

} // verus!
