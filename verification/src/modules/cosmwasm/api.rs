//! What the contract module asks of a node, and what the answers come to.

use crate::chain::error::ChainError;
use crate::chain::msg::{Any, AnyView, Msg};
use crate::chain::response::{event_tags, ChainResponse, ChainTxResponse, TagView};
use crate::modules::auth::error::AccountError;
use crate::modules::auth::model::Address;
use crate::modules::bank::model::address_reads;
use crate::modules::cosmwasm::error::CosmwasmError;
use crate::modules::cosmwasm::model::{
    ExecRequest, ExecRequestProto, ExecResponse, InstantiateBatchResponse, InstantiateRequest,
    InstantiateRequestProto, InstantiateResponse, MigrateRequest, MigrateRequestProto,
    MigrateResponse, QueryResponse, StoreCodeBatchResponse, StoreCodeProto, StoreCodeRequest,
    StoreCodeResponse,
};
use crate::sdk::account_id_parts;
use crate::text::{parse_u64, reads_as, reads_within};
use vstd::prelude::*;

verus! {

/// The path of the handler that answers contract queries.
pub const SMART_CONTRACT_STATE_PATH: &'static str = "/cosmwasm.wasm.v1.Query/SmartContractState";

/// The type of the event that tells of a stored code.
pub const STORE_CODE_EVENT: &'static str = "store_code";

/// The key of the tag that names a stored code's id.
pub const CODE_ID_KEY: &'static str = "code_id";

/// The type of the event that tells of a new contract.
pub const INSTANTIATE_EVENT: &'static str = "instantiate";

/// The key of the tag that names a new contract's address.
pub const CONTRACT_ADDRESS_KEY: &'static str = "_contract_address";

/// The messages of a batch of requests to store code, signed by `sender`,
/// in order; `None` where one of them cannot be put into its envelope.
pub open spec fn store_envelopes(reqs: Seq<StoreCodeRequest>, sender: Address) -> Option<Seq<AnyView>>
    decreases reqs.len(),
{
    if reqs.len() == 0 {
        Some(Seq::empty())
    } else {
        let last = StoreCodeProto {
            signer_addr: sender,
            wasm_data: reqs.last().wasm_data,
            instantiate_perms: reqs.last().instantiate_perms,
        };
        match (store_envelopes(reqs.drop_last(), sender), last.spec_any()) {
            (Some(before), Some(any)) => Some(before.push(any)),
            _ => None,
        }
    }
}

/// The messages of a batch of requests to store code, ready to be signed by
/// `sender`.
pub fn wasm_store_batch(reqs: Vec<StoreCodeRequest>, sender: &Address) -> (r: Result<
    Vec<Any>,
    CosmwasmError,
>)
    ensures
        match store_envelopes(reqs@, *sender) {
            Some(views) => r matches Ok(msgs) && msgs.deep_view() == views,
            None => r matches Err(CosmwasmError::ChainError(ChainError::ProtoEncoding { .. })),
        },
{
    let ghost all = reqs@;
    let mut msgs: Vec<Any> = Vec::new();
    for req in it: reqs
        invariant
            it.seq() == all,
            msgs.len() == it.index(),
            store_envelopes(all.take(msgs.len() as int), *sender) == Some(msgs.deep_view()),
    {
        let ghost k = msgs.len() as int;
        let ghost before = msgs.deep_view();
        proof {
            assert(all.take(k + 1).drop_last() =~= all.take(k));
            assert(all.take(k + 1).last() == req);
        }
        let proto = StoreCodeProto {
            signer_addr: sender.clone(),
            wasm_data: req.wasm_data,
            instantiate_perms: req.instantiate_perms,
        };
        match proto.into_any() {
            Ok(any) => {
                msgs.push(any);
                assert(msgs.deep_view() =~= before.push(any@));
            },
            Err(e) => {
                proof {
                    lemma_store_envelopes_prefix(all, *sender, k + 1);
                }
                return Err(e);
            },
        }
    }
    assert(all.take(msgs.len() as int) =~= all);
    Ok(msgs)
}

/// If a prefix of a batch has a request without an envelope, so has the
/// whole batch.
pub proof fn lemma_store_envelopes_prefix(reqs: Seq<StoreCodeRequest>, sender: Address, n: int)
    requires
        0 <= n <= reqs.len(),
        store_envelopes(reqs.take(n), sender) is None,
    ensures
        store_envelopes(reqs, sender) is None,
    decreases reqs.len() - n,
{
    if n < reqs.len() {
        assert(reqs.take(n + 1).drop_last() =~= reqs.take(n));
        lemma_store_envelopes_prefix(reqs, sender, n + 1);
    } else {
        assert(reqs.take(n) =~= reqs);
    }
}

/// Whether every tag of `tags` has a value that reads as a 64-bit number.
pub open spec fn all_numbers(tags: Seq<TagView>) -> bool {
    forall|i: int| 0 <= i < tags.len() ==> reads_within((#[trigger] tags[i]).value, u64::MAX as nat)
}

/// The ids of the codes that a transaction stored: the values of the
/// `code_id` tags of its `store_code` events, in order. A value that is no
/// number means that the event is not what it should be: `MissingEvent`.
pub fn stored_code_ids(res: &ChainTxResponse) -> (r: Result<Vec<u64>, CosmwasmError>)
    ensures
        ({
            let tags = event_tags(res.events.deep_view(), STORE_CODE_EVENT@, CODE_ID_KEY@);
            if all_numbers(tags) {
                &&& r matches Ok(ids)
                &&& ids.len() == tags.len()
                &&& forall|i: int| 0 <= i < ids.len() ==> reads_as(tags[i].value, #[trigger] ids[i] as nat)
            } else {
                r == Err::<Vec<u64>, CosmwasmError>(CosmwasmError::MissingEvent)
            }
        }),
{
    let tags = res.find_event_tags(STORE_CODE_EVENT.to_owned(), CODE_ID_KEY.to_owned());
    let ghost views = tags.deep_view();
    let mut ids: Vec<u64> = Vec::new();
    let mut i: usize = 0;
    while i < tags.len()
        invariant
            i <= tags.len(),
            views == tags.deep_view(),
            views == event_tags(res.events.deep_view(), STORE_CODE_EVENT@, CODE_ID_KEY@),
            ids.len() == i,
            forall|j: int| 0 <= j < i ==> reads_as(views[j].value, #[trigger] ids[j] as nat),
        decreases tags.len() - i,
    {
        assert(views[i as int] == tags[i as int]@);
        match parse_u64(tags[i].value.as_str()) {
            Some(id) => {
                ids.push(id);
            },
            None => {
                assert(!reads_within(views[i as int].value, u64::MAX as nat));
                return Err(CosmwasmError::MissingEvent);
            },
        }
        i += 1;
    }
    assert(all_numbers(views)) by {
        assert forall|j: int| 0 <= j < views.len() implies reads_within(
            (#[trigger] views[j]).value,
            u64::MAX as nat,
        ) by {
            assert(reads_as(views[j].value, ids[j] as nat));
        }
    }
    Ok(ids)
}

/// The answer to a batch of stored codes, with the ids that the chain
/// gave.
pub fn wasm_store_batch_response(res: ChainTxResponse) -> (r: Result<
    StoreCodeBatchResponse,
    CosmwasmError,
>)
    ensures
        ({
            let tags = event_tags(res.events.deep_view(), STORE_CODE_EVENT@, CODE_ID_KEY@);
            if all_numbers(tags) {
                &&& r matches Ok(batch)
                &&& batch.res == res
                &&& batch.code_ids.len() == tags.len()
                &&& forall|i: int|
                    0 <= i < batch.code_ids.len() ==> reads_as(
                        tags[i].value,
                        #[trigger] batch.code_ids[i] as nat,
                    )
            } else {
                r == Err::<StoreCodeBatchResponse, CosmwasmError>(CosmwasmError::MissingEvent)
            }
        }),
{
    match stored_code_ids(&res) {
        Ok(code_ids) => Ok(StoreCodeBatchResponse { code_ids, res }),
        Err(e) => Err(e),
    }
}

/// The answer to a single stored code: the first id of the batch. A batch
/// without an id lacks its event.
pub fn wasm_store_response(batch: StoreCodeBatchResponse) -> (r: Result<
    StoreCodeResponse,
    CosmwasmError,
>)
    ensures
        batch.code_ids.len() == 0 ==> r == Err::<StoreCodeResponse, CosmwasmError>(
            CosmwasmError::MissingEvent,
        ),
        batch.code_ids.len() > 0 ==> r == Ok::<StoreCodeResponse, CosmwasmError>(
            StoreCodeResponse { code_id: batch.code_ids[0], res: batch.res },
        ),
{
    if batch.code_ids.len() == 0 {
        Err(CosmwasmError::MissingEvent)
    } else {
        Ok(StoreCodeResponse { code_id: batch.code_ids[0], res: batch.res })
    }
}

/// The messages of a batch of requests to instantiate, signed by `sender`,
/// in order; `None` where one of them cannot be put into its envelope.
pub open spec fn instantiate_envelopes(reqs: Seq<InstantiateRequest>, sender: Address) -> Option<
    Seq<AnyView>,
>
    decreases reqs.len(),
{
    if reqs.len() == 0 {
        Some(Seq::empty())
    } else {
        let last = InstantiateRequestProto {
            signer_addr: sender,
            code_id: reqs.last().code_id,
            msg: reqs.last().msg,
            label: reqs.last().label,
            admin: reqs.last().admin,
            funds: reqs.last().funds,
        };
        match (instantiate_envelopes(reqs.drop_last(), sender), last.spec_any()) {
            (Some(before), Some(any)) => Some(before.push(any)),
            _ => None,
        }
    }
}

/// If a prefix of a batch has a request without an envelope, so has the
/// whole batch.
pub proof fn lemma_instantiate_envelopes_prefix(reqs: Seq<InstantiateRequest>, sender: Address, n: int)
    requires
        0 <= n <= reqs.len(),
        instantiate_envelopes(reqs.take(n), sender) is None,
    ensures
        instantiate_envelopes(reqs, sender) is None,
    decreases reqs.len() - n,
{
    if n < reqs.len() {
        assert(reqs.take(n + 1).drop_last() =~= reqs.take(n));
        lemma_instantiate_envelopes_prefix(reqs, sender, n + 1);
    } else {
        assert(reqs.take(n) =~= reqs);
    }
}

/// The messages of a batch of requests to instantiate, ready to be signed
/// by `sender`.
pub fn wasm_instantiate_batch(reqs: Vec<InstantiateRequest>, sender: &Address) -> (r: Result<
    Vec<Any>,
    CosmwasmError,
>)
    ensures
        match instantiate_envelopes(reqs@, *sender) {
            Some(views) => r matches Ok(msgs) && msgs.deep_view() == views,
            None => r matches Err(CosmwasmError::ChainError(ChainError::ProtoEncoding { .. })),
        },
{
    let ghost all = reqs@;
    let mut msgs: Vec<Any> = Vec::new();
    for req in it: reqs
        invariant
            it.seq() == all,
            msgs.len() == it.index(),
            instantiate_envelopes(all.take(msgs.len() as int), *sender) == Some(msgs.deep_view()),
    {
        let ghost k = msgs.len() as int;
        let ghost before = msgs.deep_view();
        proof {
            assert(all.take(k + 1).drop_last() =~= all.take(k));
            assert(all.take(k + 1).last() == req);
        }
        let proto = InstantiateRequestProto {
            signer_addr: sender.clone(),
            code_id: req.code_id,
            msg: req.msg,
            label: req.label,
            admin: req.admin,
            funds: req.funds,
        };
        match proto.into_any() {
            Ok(any) => {
                msgs.push(any);
                assert(msgs.deep_view() =~= before.push(any@));
            },
            Err(e) => {
                proof {
                    lemma_instantiate_envelopes_prefix(all, *sender, k + 1);
                }
                return Err(e);
            },
        }
    }
    assert(all.take(msgs.len() as int) =~= all);
    Ok(msgs)
}

/// Whether `k` is the place of the first tag of `tags` whose value is no
/// address.
pub open spec fn first_bad_address(tags: Seq<TagView>, k: int) -> bool {
    &&& 0 <= k < tags.len()
    &&& account_id_parts(tags[k].value) is None
    &&& forall|j: int| 0 <= j < k ==> account_id_parts((#[trigger] tags[j]).value) is Some
}

/// The addresses of the contracts that a transaction instantiated: the
/// values of the `_contract_address` tags of its `instantiate` events, in
/// order. Without such a tag the event is missing; a value that is no
/// address is an `Address` error.
pub fn instantiated_addresses(res: &ChainTxResponse) -> (r: Result<Vec<Address>, CosmwasmError>)
    ensures
        ({
            let tags = event_tags(res.events.deep_view(), INSTANTIATE_EVENT@, CONTRACT_ADDRESS_KEY@);
            if tags.len() == 0 {
                r == Err::<Vec<Address>, CosmwasmError>(CosmwasmError::MissingEvent)
            } else {
                match r {
                    Ok(addrs) => {
                        &&& addrs.len() == tags.len()
                        &&& forall|i: int|
                            0 <= i < addrs.len() ==> address_reads(#[trigger] addrs[i], tags[i].value)
                    },
                    Err(e) => (exists|k: int| first_bad_address(tags, k))
                        && e matches CosmwasmError::AccountError(AccountError::Address { .. }),
                }
            }
        }),
{
    let tags = res.find_event_tags(INSTANTIATE_EVENT.to_owned(), CONTRACT_ADDRESS_KEY.to_owned());
    if tags.len() == 0 {
        return Err(CosmwasmError::MissingEvent);
    }
    let ghost views = tags.deep_view();
    let mut addrs: Vec<Address> = Vec::new();
    let mut i: usize = 0;
    while i < tags.len()
        invariant
            i <= tags.len(),
            views == tags.deep_view(),
            views.len() > 0,
            views == event_tags(res.events.deep_view(), INSTANTIATE_EVENT@, CONTRACT_ADDRESS_KEY@),
            addrs.len() == i,
            forall|j: int| 0 <= j < i ==> address_reads(#[trigger] addrs[j], views[j].value),
        decreases tags.len() - i,
    {
        assert(views[i as int] == tags[i as int]@);
        match Address::from_str(tags[i].value.as_str()) {
            Ok(a) => {
                addrs.push(a);
            },
            Err(e) => {
                assert(first_bad_address(views, i as int)) by {
                    assert forall|j: int| 0 <= j < i implies account_id_parts(
                        (#[trigger] views[j]).value,
                    ) is Some by {
                        assert(address_reads(addrs[j], views[j].value));
                    }
                }
                return Err(CosmwasmError::AccountError(e));
            },
        }
        i += 1;
    }
    Ok(addrs)
}

/// The answer to a batch of instantiations, with the addresses of the new
/// contracts.
pub fn wasm_instantiate_batch_response(res: ChainTxResponse) -> (r: Result<
    InstantiateBatchResponse,
    CosmwasmError,
>)
    ensures
        ({
            let tags = event_tags(res.events.deep_view(), INSTANTIATE_EVENT@, CONTRACT_ADDRESS_KEY@);
            if tags.len() == 0 {
                r == Err::<InstantiateBatchResponse, CosmwasmError>(CosmwasmError::MissingEvent)
            } else {
                match r {
                    Ok(batch) => {
                        &&& batch.res == res
                        &&& batch.addresses.len() == tags.len()
                        &&& forall|i: int|
                            0 <= i < batch.addresses.len() ==> address_reads(
                                #[trigger] batch.addresses[i],
                                tags[i].value,
                            )
                    },
                    Err(e) => (exists|k: int| first_bad_address(tags, k))
                        && e matches CosmwasmError::AccountError(AccountError::Address { .. }),
                }
            }
        }),
{
    match instantiated_addresses(&res) {
        Ok(addresses) => Ok(InstantiateBatchResponse { addresses, res }),
        Err(e) => Err(e),
    }
}

/// The answer to a single instantiation: the first address of the batch.
pub fn wasm_instantiate_response(batch: InstantiateBatchResponse) -> (r: Result<
    InstantiateResponse,
    CosmwasmError,
>)
    ensures
        batch.addresses.len() == 0 ==> r == Err::<InstantiateResponse, CosmwasmError>(
            CosmwasmError::MissingEvent,
        ),
        batch.addresses.len() > 0 ==> (r matches Ok(one) && one.address == batch.addresses[0]
            && one.res == batch.res),
{
    let InstantiateBatchResponse { addresses, res } = batch;
    let mut addresses = addresses;
    if addresses.len() == 0 {
        Err(CosmwasmError::MissingEvent)
    } else {
        let address = addresses.swap_remove(0);
        Ok(InstantiateResponse { address, res })
    }
}

/// The envelope of the request `req` to execute, signed by `sender`, or
/// `None` where it cannot be put into one.
pub open spec fn execute_envelope(req: ExecRequest, sender: Address) -> Option<AnyView> {
    (ExecRequestProto {
        signer_addr: sender,
        contract_addr: req.address,
        msg: req.msg,
        funds: req.funds,
    }).spec_any()
}

/// Whether `k` is the place of the first request of `reqs` that has no
/// envelope.
pub open spec fn first_unsent_execute(reqs: Seq<ExecRequest>, sender: Address, k: int) -> bool {
    &&& 0 <= k < reqs.len()
    &&& execute_envelope(reqs[k], sender) is None
    &&& forall|j: int| 0 <= j < k ==> execute_envelope(#[trigger] reqs[j], sender) is Some
}

/// The message of one request to execute, ready to be signed by `sender`.
pub fn wasm_execute(req: ExecRequest, sender: &Address) -> (r: Result<Any, CosmwasmError>)
    ensures
        match execute_envelope(req, *sender) {
            Some(view) => r matches Ok(any) && any@ == view,
            None => r matches Err(CosmwasmError::ChainError(ChainError::ProtoEncoding { .. })),
        },
{
    let proto = ExecRequestProto {
        signer_addr: sender.clone(),
        contract_addr: req.address,
        msg: req.msg,
        funds: req.funds,
    };
    proto.into_any()
}

/// The messages of a batch of requests to execute, ready to be signed by
/// `sender`: one message for each request, in order. The first request
/// that cannot be put into its envelope ends the work.
pub fn wasm_execute_batch(reqs: Vec<ExecRequest>, sender: &Address) -> (r: Result<
    Vec<Any>,
    CosmwasmError,
>)
    ensures
        match r {
            Ok(msgs) => msgs.len() == reqs.len() && forall|i: int|
                0 <= i < msgs.len() ==> execute_envelope(#[trigger] reqs[i], *sender) == Some(
                    msgs[i]@,
                ),
            Err(e) => e matches CosmwasmError::ChainError(ChainError::ProtoEncoding { .. })
                && exists|k: int| first_unsent_execute(reqs@, *sender, k),
        },
{
    let ghost all = reqs@;
    let mut msgs: Vec<Any> = Vec::new();
    for req in it: reqs
        invariant
            it.seq() == all,
            all == reqs@,
            msgs.len() == it.index(),
            forall|i: int|
                0 <= i < msgs.len() ==> execute_envelope(#[trigger] all[i], *sender) == Some(
                    msgs[i]@,
                ),
    {
        let ghost k = msgs.len() as int;
        assert(req == all[k]);
        match wasm_execute(req, sender) {
            Ok(any) => {
                msgs.push(any);
            },
            Err(e) => {
                assert(first_unsent_execute(all, *sender, k));
                return Err(e);
            },
        }
    }
    Ok(msgs)
}

/// The answer to an execution that is in a block.
pub fn wasm_execute_response(res: ChainTxResponse) -> (r: ExecResponse)
    ensures
        r.res == res,
{
    ExecResponse { res }
}

/// The envelope of the request `req` to migrate, signed by `sender`, or
/// `None` where it cannot be put into one.
pub open spec fn migrate_envelope(req: MigrateRequest, sender: Address) -> Option<AnyView> {
    (MigrateRequestProto {
        signer_addr: sender,
        contract_addr: req.address,
        new_code_id: req.new_code_id,
        msg: req.msg,
    }).spec_any()
}

/// Whether `k` is the place of the first request of `reqs` that has no
/// envelope.
pub open spec fn first_unsent_migrate(reqs: Seq<MigrateRequest>, sender: Address, k: int) -> bool {
    &&& 0 <= k < reqs.len()
    &&& migrate_envelope(reqs[k], sender) is None
    &&& forall|j: int| 0 <= j < k ==> migrate_envelope(#[trigger] reqs[j], sender) is Some
}

/// The message of one request to migrate, ready to be signed by `sender`.
pub fn wasm_migrate(req: MigrateRequest, sender: &Address) -> (r: Result<Any, CosmwasmError>)
    ensures
        match migrate_envelope(req, *sender) {
            Some(view) => r matches Ok(any) && any@ == view,
            None => r matches Err(CosmwasmError::ChainError(ChainError::ProtoEncoding { .. })),
        },
{
    let proto = MigrateRequestProto {
        signer_addr: sender.clone(),
        contract_addr: req.address,
        new_code_id: req.new_code_id,
        msg: req.msg,
    };
    proto.into_any()
}

/// The messages of a batch of requests to migrate, ready to be signed by
/// `sender`: one message for each request, in order. The first request
/// that cannot be put into its envelope ends the work.
pub fn wasm_migrate_batch(reqs: Vec<MigrateRequest>, sender: &Address) -> (r: Result<
    Vec<Any>,
    CosmwasmError,
>)
    ensures
        match r {
            Ok(msgs) => msgs.len() == reqs.len() && forall|i: int|
                0 <= i < msgs.len() ==> migrate_envelope(#[trigger] reqs[i], *sender) == Some(
                    msgs[i]@,
                ),
            Err(e) => e matches CosmwasmError::ChainError(ChainError::ProtoEncoding { .. })
                && exists|k: int| first_unsent_migrate(reqs@, *sender, k),
        },
{
    let ghost all = reqs@;
    let mut msgs: Vec<Any> = Vec::new();
    for req in it: reqs
        invariant
            it.seq() == all,
            all == reqs@,
            msgs.len() == it.index(),
            forall|i: int|
                0 <= i < msgs.len() ==> migrate_envelope(#[trigger] all[i], *sender) == Some(
                    msgs[i]@,
                ),
    {
        let ghost k = msgs.len() as int;
        assert(req == all[k]);
        match wasm_migrate(req, sender) {
            Ok(any) => {
                msgs.push(any);
            },
            Err(e) => {
                assert(first_unsent_migrate(all, *sender, k));
                return Err(e);
            },
        }
    }
    Ok(msgs)
}

/// The answer to a migration that is in a block.
pub fn wasm_migrate_response(res: ChainTxResponse) -> (r: MigrateResponse)
    ensures
        r.res == res,
{
    MigrateResponse { res }
}

/// A query of a contract's state: the contract's address and the query in
/// JSON.
#[derive(Debug, PartialEq, Eq)]
pub struct SmartContractStateRequest {
    pub address: String,
    pub query_data: Vec<u8>,
}

/// The request that asks the contract at `address` the query `payload`.
pub fn wasm_query(address: Address, payload: Vec<u8>) -> (r: SmartContractStateRequest)
    ensures
        r.address@ == address@,
        r.query_data == payload,
{
    SmartContractStateRequest { address: address.into_string(), query_data: payload }
}

/// The answer to a contract query: a success that carries the returned
/// state.
pub fn wasm_query_response(data: Vec<u8>) -> (r: QueryResponse)
    ensures
        r.res.code == crate::chain::response::Code::Success,
        r.res.data == Some(data),
        r.res.log@.len() == 0,
{
    QueryResponse { res: ChainResponse::from_contract_state(data) }
}

} // verus!
