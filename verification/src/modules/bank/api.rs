//! What the bank module asks of a node, and what the answers come to.

use crate::chain::coin::{valid_denom, Coin};
use crate::chain::error::ChainError;
use crate::chain::msg::{Any, Msg};
use crate::envelope::msg_send_to_any;
use crate::chain::response::ChainTxResponse;
use crate::modules::bank::error::BankError;
use crate::modules::bank::model::{
    coin_error_fits, coin_matches, coin_readable, coins_are, coins_error_fits, coins_from_proto,
    first_bad_unit, metadata_error_fits, metadata_reads, next_page, params_error_fits,
    params_read, send_message, sendable, BalanceResponse, BalancesResponse, DenomMetadata,
    DenomMetadataResponse, DenomsMetadataResponse, Params, ParamsResponse, SendRequest,
    SendResponse,
};
use crate::proto::{
    ProtoBankParams, ProtoCoin, ProtoMetadata, ProtoMsgSend, ProtoPageResponse,
};
use vstd::prelude::*;

verus! {

/// The path of the query for one balance of an address.
pub const BALANCE_PATH: &'static str = "/cosmos.bank.v1beta1.Query/Balance";

/// The path of the query for all balances of an address.
pub const ALL_BALANCES_PATH: &'static str = "/cosmos.bank.v1beta1.Query/AllBalances";

/// The path of the query for the balances that an address may spend.
pub const SPENDABLE_BALANCES_PATH: &'static str = "/cosmos.bank.v1beta1.Query/SpendableBalances";

/// The path of the query for the supply of one denom.
pub const SUPPLY_OF_PATH: &'static str = "/cosmos.bank.v1beta1.Query/SupplyOf";

/// The path of the query for the supply of all denoms.
pub const TOTAL_SUPPLY_PATH: &'static str = "/cosmos.bank.v1beta1.Query/TotalSupply";

/// The path of the query for the metadata of one denom.
pub const DENOM_METADATA_PATH: &'static str = "/cosmos.bank.v1beta1.Query/DenomMetadata";

/// The path of the query for the metadata of all denoms.
pub const DENOMS_METADATA_PATH: &'static str = "/cosmos.bank.v1beta1.Query/DenomsMetadata";

/// The path of the query for the parameters of the bank module.
pub const PARAMS_PATH: &'static str = "/cosmos.bank.v1beta1.Query/Params";

/// Whether every transfer of `reqs` can be sent: each has at least one
/// coin, and no coin of amount zero.
pub open spec fn all_sendable(reqs: Seq<SendRequest>) -> bool {
    forall|i: int| 0 <= i < reqs.len() ==> sendable((#[trigger] reqs[i]).amounts.deep_view())
}

/// Whether `k` is the place of the first transfer of `reqs` that has no
/// envelope.
pub open spec fn first_unsendable(reqs: Seq<SendRequest>, k: int) -> bool {
    &&& 0 <= k < reqs.len()
    &&& reqs[k].spec_any() is None
    &&& forall|j: int| 0 <= j < k ==> (#[trigger] reqs[j]).spec_any() is Some
}

/// One transfer of no coins, or with a coin of amount zero, at whatever
/// place, is enough for the batch not to be sendable; and such a transfer
/// has no envelope.
pub proof fn lemma_one_empty_amount_refuses_the_batch(reqs: Seq<SendRequest>, k: int)
    requires
        0 <= k < reqs.len(),
        !sendable(reqs[k].amounts.deep_view()),
    ensures
        !all_sendable(reqs),
        reqs[k].spec_any() is None,
{
}

/// The messages of a batch of transfers, in order, ready to be signed.
///
/// Every transfer is judged before anything else is done: if one of them,
/// at whatever place, has no coins or a coin of amount zero, the batch is
/// refused as `EmptyAmount`. Nothing is encoded by then, and nothing has
/// been asked of a node. Only a batch of sendable transfers is put into
/// envelopes, and there the first transfer that cannot be encoded ends the
/// work.
pub fn bank_send_batch(reqs: Vec<SendRequest>) -> (r: Result<Vec<Any>, BankError>)
    ensures
        !all_sendable(reqs@) ==> r == Err::<Vec<Any>, BankError>(BankError::EmptyAmount),
        all_sendable(reqs@) ==> match r {
            Ok(msgs) => {
                &&& msgs.len() == reqs.len()
                &&& forall|i: int|
                    0 <= i < msgs.len() ==> (#[trigger] reqs[i]).spec_any() == Some(msgs[i]@)
            },
            Err(e) => e matches BankError::ChainError(ChainError::ProtoEncoding { .. })
                && exists|k: int| first_unsendable(reqs@, k),
        },
{
    let ghost all = reqs@;
    let mut protos: Vec<ProtoMsgSend> = Vec::new();
    for req in it: reqs
        invariant
            it.seq() == all,
            all == reqs@,
            protos.len() == it.index(),
            forall|i: int|
                0 <= i < protos.len() ==> sendable((#[trigger] all[i]).amounts.deep_view())
                    && protos[i]@ == send_message(all[i].from@, all[i].to@, all[i].amounts.deep_view()),
    {
        let ghost k = protos.len() as int;
        assert(req == all[k]);
        match req.into_proto() {
            Ok(msg) => {
                protos.push(msg);
            },
            Err(e) => {
                assert(!sendable(all[k].amounts.deep_view()));
                return Err(e);
            },
        }
    }
    assert(all_sendable(all));
    let mut msgs: Vec<Any> = Vec::new();
    let mut i: usize = 0;
    while i < protos.len()
        invariant
            i <= protos.len(),
            protos.len() == all.len(),
            all == reqs@,
            msgs.len() == i,
            forall|j: int|
                0 <= j < protos.len() ==> sendable((#[trigger] all[j]).amounts.deep_view())
                    && protos[j]@ == send_message(all[j].from@, all[j].to@, all[j].amounts.deep_view()),
            forall|j: int| 0 <= j < i ==> (#[trigger] all[j]).spec_any() == Some(msgs[j]@),
        decreases protos.len() - i,
    {
        assert(sendable(all[i as int].amounts.deep_view()));
        match msg_send_to_any(&protos[i]) {
            Ok(any) => {
                msgs.push(any);
            },
            Err(message) => {
                assert(first_unsendable(all, i as int));
                return Err(BankError::ChainError(ChainError::ProtoEncoding { message }));
            },
        }
        i += 1;
    }
    Ok(msgs)
}

/// The messages of a single transfer.
pub fn bank_send(req: SendRequest) -> (r: Result<Vec<Any>, BankError>)
    ensures
        !sendable(req.amounts.deep_view()) ==> r == Err::<Vec<Any>, BankError>(
            BankError::EmptyAmount,
        ),
        sendable(req.amounts.deep_view()) ==> match req.spec_any() {
            Some(view) => r matches Ok(msgs) && msgs.len() == 1 && msgs[0]@ == view,
            None => r matches Err(BankError::ChainError(ChainError::ProtoEncoding { .. })),
        },
{
    let mut reqs: Vec<SendRequest> = Vec::new();
    reqs.push(req);
    assert(reqs@[0] == req);
    assert(reqs@.len() == 1);
    let ghost batch = reqs@;
    let r = bank_send_batch(reqs);
    proof {
        if sendable(req.amounts.deep_view()) {
            assert(all_sendable(batch));
            if r is Err {
                let k = choose|k: int| first_unsendable(batch, k);
                assert(k == 0);
            }
        } else {
            lemma_one_empty_amount_refuses_the_batch(batch, 0);
        }
    }
    r
}

/// The answer to a transfer that is in a block.
pub fn send_response(res: ChainTxResponse) -> (r: SendResponse)
    ensures
        r.res == res,
{
    SendResponse { res }
}

/// The balance in the answer to a balance or supply query.
pub fn bank_query_balance(balance: ProtoCoin) -> (r: Result<BalanceResponse, BankError>)
    ensures
        coin_readable(balance@) ==> (r matches Ok(b) && coin_matches(b.balance@, balance@)),
        !coin_readable(balance@) ==> (r matches Err(BankError::ChainError(e)) && coin_error_fits(
            e,
            balance@,
        )),
{
    let ghost view = balance@;
    match Coin::from_proto(balance) {
        Ok(coin) => {
            assert(crate::text::reads_within(view.amount, u128::MAX as nat)) by {
                assert(crate::text::reads_as(view.amount, coin.amount as nat));
            }
            Ok(BalanceResponse { balance: coin })
        },
        Err(e) => Err(BankError::ChainError(e)),
    }
}

/// The balances in the answer to a query for a page of balances or of
/// supplies, and what the page says of the next.
pub fn bank_query_balances(balances: Vec<ProtoCoin>, pagination: Option<ProtoPageResponse>) -> (r:
    Result<BalancesResponse, BankError>)
    ensures
        match r {
            Ok(b) => {
                &&& coins_are(b.balances@, balances.deep_view())
                &&& match pagination {
                    Some(p) => b.next matches Some(n) && n.next_key == p.next_key && n.total
                        == p.total,
                    None => b.next is None,
                }
            },
            Err(BankError::ChainError(e)) => coins_error_fits(e, balances.deep_view()),
            Err(_) => false,
        },
{
    match coins_from_proto(balances) {
        Ok(coins) => Ok(BalancesResponse { balances: coins, next: next_page(pagination) }),
        Err(e) => Err(BankError::ChainError(e)),
    }
}

/// The metadata in the answer to a query for one denom.
pub fn bank_query_denom_metadata(metadata: Option<ProtoMetadata>) -> (r: Result<
    DenomMetadataResponse,
    BankError,
>)
    ensures
        match metadata {
            None => r matches Ok(m) && m.meta is None,
            Some(meta) => match r {
                Ok(m) => m.meta matches Some(read) && metadata_reads(read, meta),
                Err(BankError::ChainError(e)) => metadata_error_fits(e, meta),
                Err(_) => false,
            },
        },
{
    match metadata {
        None => Ok(DenomMetadataResponse { meta: None }),
        Some(meta) => match DenomMetadata::from_proto(meta) {
            Ok(m) => Ok(DenomMetadataResponse { meta: Some(m) }),
            Err(e) => Err(BankError::ChainError(e)),
        },
    }
}

/// The metadata in the answer to a query for a page of denoms.
pub fn bank_query_denoms_metadata(
    metadatas: Vec<ProtoMetadata>,
    pagination: Option<ProtoPageResponse>,
) -> (r: Result<DenomsMetadataResponse, BankError>)
    ensures
        match r {
            Ok(m) => {
                &&& m.metas.len() == metadatas.len()
                &&& forall|i: int|
                    0 <= i < m.metas.len() ==> metadata_reads(#[trigger] m.metas[i], metadatas[i])
                &&& match pagination {
                    Some(p) => m.next matches Some(n) && n.next_key == p.next_key && n.total
                        == p.total,
                    None => m.next is None,
                }
            },
            Err(BankError::ChainError(e)) => exists|k: int|
                0 <= k < metadatas.len() && metadata_error_fits(e, #[trigger] metadatas[k])
                    && forall|j: int|
                    0 <= j < k ==> !exists|b: int| first_bad_unit(
                        (#[trigger] metadatas[j]).denom_units@,
                        b,
                    ),
            Err(_) => false,
        },
{
    let ghost all = metadatas@;
    let mut metas: Vec<DenomMetadata> = Vec::new();
    for meta in it: metadatas
        invariant
            it.seq() == all,
            all == metadatas@,
            metas.len() == it.index(),
            forall|i: int| 0 <= i < metas.len() ==> metadata_reads(#[trigger] metas[i], all[i]),
    {
        let ghost k = metas.len() as int;
        assert(meta == all[k]);
        match DenomMetadata::from_proto(meta) {
            Ok(m) => {
                metas.push(m);
            },
            Err(e) => {
                proof {
                    assert forall|j: int| 0 <= j < k implies !exists|b: int|
                        first_bad_unit((#[trigger] all[j]).denom_units@, b) by {
                        assert(metadata_reads(metas[j], all[j]));
                        if exists|b: int| first_bad_unit(all[j].denom_units@, b) {
                            let b = choose|b: int| first_bad_unit(all[j].denom_units@, b);
                            assert(valid_denom(all[j].denom_units[b].denom@));
                        }
                    }
                }
                return Err(BankError::ChainError(e));
            },
        }
    }
    Ok(DenomsMetadataResponse { metas, next: next_page(pagination) })
}

/// The parameters in the answer to a parameters query.
pub fn bank_query_params(params: Option<ProtoBankParams>) -> (r: Result<ParamsResponse, BankError>)
    ensures
        match params {
            None => r matches Ok(p) && p.params is None,
            Some(proto) => match r {
                Ok(p) => p.params matches Some(read) && params_read(read, proto),
                Err(BankError::ChainError(e)) => params_error_fits(e, proto),
                Err(_) => false,
            },
        },
{
    match params {
        None => Ok(ParamsResponse { params: None }),
        Some(p) => match Params::from_proto(p) {
            Ok(params) => Ok(ParamsResponse { params: Some(params) }),
            Err(e) => Err(BankError::ChainError(e)),
        },
    }
}

} // verus!
