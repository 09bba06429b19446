//! What the bank module speaks: balances, denom metadata, parameters and
//! transfers.

use crate::chain::coin::{valid_denom, Coin, CoinView, Denom};
use crate::chain::error::ChainError;
use crate::chain::msg::{Any, AnyView, Msg};
use crate::chain::request::PaginationResponse;
use crate::chain::response::ChainTxResponse;
use crate::envelope::{msg_send_envelope, msg_send_from_any, msg_send_to_any, msg_send_unwrapped};
use crate::modules::auth::error::AccountError;
use crate::modules::auth::model::Address;
use crate::modules::bank::error::BankError;
use crate::proto::{
    ProtoBankParams, ProtoCoin, ProtoCoinView, ProtoDenomUnit, ProtoMetadata, ProtoMsgSend,
    ProtoMsgSendView, ProtoPageResponse, ProtoSendEnabled,
};
use crate::sdk::account_id_parts;
use crate::text::{decimal_text, reads_as, reads_within};
use vstd::prelude::*;
use vstd::string::StringExecFns;

verus! {

/// Whether the coin message `p` can be read: its denom follows the syntax
/// and its amount is decimal text of a number that fits in 128 bits.
pub open spec fn coin_readable(p: ProtoCoinView) -> bool {
    valid_denom(p.denom) && reads_within(p.amount, u128::MAX as nat)
}

/// Whether the coin `c` is what the coin message `p` says.
pub open spec fn coin_matches(c: CoinView, p: ProtoCoinView) -> bool {
    c.denom == p.denom && reads_as(p.amount, c.amount as nat)
}

/// Whether `e` is the error of reading the unreadable coin message `p`.
pub open spec fn coin_error_fits(e: ChainError, p: ProtoCoinView) -> bool {
    if !valid_denom(p.denom) {
        e matches ChainError::Denom { name } && name@ == p.denom
    } else {
        e is ProtoDecoding
    }
}

/// Whether `k` is the place of the first coin message of `coins` that
/// cannot be read.
pub open spec fn first_unreadable(coins: Seq<ProtoCoinView>, k: int) -> bool {
    &&& 0 <= k < coins.len()
    &&& !coin_readable(coins[k])
    &&& forall|j: int| 0 <= j < k ==> coin_readable(#[trigger] coins[j])
}

/// Whether the coins `v` are what the coin messages `coins` say, one for
/// one and in order.
pub open spec fn coins_are(v: Seq<Coin>, coins: Seq<ProtoCoinView>) -> bool {
    &&& v.len() == coins.len()
    &&& forall|i: int|
        0 <= i < v.len() ==> coin_readable(#[trigger] coins[i]) && coin_matches(v[i]@, coins[i])
}

/// Whether `e` is the error of reading `coins` in order: that of the first
/// coin message that cannot be read.
pub open spec fn coins_error_fits(e: ChainError, coins: Seq<ProtoCoinView>) -> bool {
    exists|k: int| first_unreadable(coins, k) && coin_error_fits(e, coins[k])
}

/// Reads coin messages in order; the first one that cannot be read ends
/// the work with its error.
pub fn coins_from_proto(coins: Vec<ProtoCoin>) -> (r: Result<Vec<Coin>, ChainError>)
    ensures
        match r {
            Ok(v) => coins_are(v@, coins.deep_view()),
            Err(e) => coins_error_fits(e, coins.deep_view()),
        },
{
    let ghost all = coins@;
    let ghost views = coins.deep_view();
    let mut out: Vec<Coin> = Vec::new();
    for c in it: coins
        invariant
            it.seq() == all,
            all == coins@,
            views == coins.deep_view(),
            out.len() == it.index(),
            forall|i: int|
                0 <= i < out.len() ==> coin_readable(#[trigger] views[i]) && coin_matches(
                    out[i]@,
                    views[i],
                ),
    {
        let ghost k = out.len() as int;
        let ghost view = c@;
        assert(views[k] == view);
        match Coin::from_proto(c) {
            Ok(coin) => {
                assert(reads_within(view.amount, u128::MAX as nat)) by {
                    assert(reads_as(view.amount, coin.amount as nat));
                }
                out.push(coin);
            },
            Err(e) => {
                assert(first_unreadable(views, k));
                return Err(e);
            },
        }
    }
    Ok(out)
}

/// Writes coins as messages, one for one and in order.
pub fn coins_into_proto(coins: Vec<Coin>) -> (r: Vec<ProtoCoin>)
    ensures
        r.len() == coins.len(),
        forall|i: int|
            0 <= i < r.len() ==> (#[trigger] r[i]).denom@ == coins[i].denom@ && r[i].amount@
                == decimal_text(coins[i].amount as nat),
{
    let ghost all = coins@;
    let mut out: Vec<ProtoCoin> = Vec::new();
    for c in it: coins
        invariant
            it.seq() == all,
            out.len() == it.index(),
            forall|i: int|
                0 <= i < out.len() ==> (#[trigger] out[i]).denom@ == all[i].denom@
                    && out[i].amount@ == decimal_text(all[i].amount as nat),
    {
        out.push(c.into_proto());
    }
    out
}

/// The answer to a query for one balance.
#[derive(Debug, PartialEq, Eq)]
pub struct BalanceResponse {
    pub balance: Coin,
}

/// The answer to a query for a page of balances.
#[derive(Debug, PartialEq, Eq)]
pub struct BalancesResponse {
    pub balances: Vec<Coin>,
    pub next: Option<PaginationResponse>,
}

/// The page response of a listing, read where there is one.
pub fn next_page(pagination: Option<ProtoPageResponse>) -> (r: Option<PaginationResponse>)
    ensures
        match pagination {
            Some(p) => r matches Some(n) && n.next_key == p.next_key && n.total == p.total,
            None => r is None,
        },
{
    match pagination {
        Some(p) => Some(PaginationResponse::from_proto(p)),
        None => None,
    }
}

/// One unit of a denom and its power of ten against the base unit.
#[derive(Debug, PartialEq, Eq)]
pub struct DenomUnit {
    /// The name of the unit, such as `uatom`.
    pub denom: Denom,
    /// The power of ten by which one unit exceeds the base unit.
    pub exponent: u32,
    /// Other names of the unit.
    pub aliases: Vec<String>,
}

impl DenomUnit {
    /// Reads a denom unit message; its denom must follow the denom syntax.
    pub fn from_proto(du: ProtoDenomUnit) -> (r: Result<DenomUnit, ChainError>)
        ensures
            valid_denom(du.denom@) ==> (r matches Ok(u) && u.denom@ == du.denom@ && u.exponent
                == du.exponent && u.aliases == du.aliases),
            !valid_denom(du.denom@) ==> (r matches Err(ChainError::Denom { name }) && name@
                == du.denom@),
    {
        match Denom::from_str(du.denom.as_str()) {
            Ok(denom) => Ok(DenomUnit { denom, exponent: du.exponent, aliases: du.aliases }),
            Err(e) => Err(e),
        }
    }

    /// Writes the denom unit as a message.
    pub fn into_proto(self) -> (r: ProtoDenomUnit)
        ensures
            r.denom@ == self.denom@,
            r.exponent == self.exponent,
            r.aliases == self.aliases,
    {
        ProtoDenomUnit {
            denom: self.denom.into_string(),
            exponent: self.exponent,
            aliases: self.aliases,
        }
    }
}

/// What a chain knows of a denom beyond its name.
#[derive(Debug, PartialEq, Eq)]
pub struct DenomMetadata {
    pub description: String,
    pub denom_units: Vec<DenomUnit>,
    /// The base denom: the unit with exponent zero.
    pub base: String,
    /// The denom that clients should show.
    pub display: String,
    /// The name of the token, such as `Cosmos Atom`.
    pub name: String,
    /// The symbol of the token on exchanges, such as `ATOM`.
    pub symbol: String,
    pub uri: String,
    pub uri_hash: String,
}

/// Whether `k` is the place of the first denom unit of `units` whose denom
/// does not follow the denom syntax.
pub open spec fn first_bad_unit(units: Seq<ProtoDenomUnit>, k: int) -> bool {
    &&& 0 <= k < units.len()
    &&& !valid_denom(units[k].denom@)
    &&& forall|j: int| 0 <= j < k ==> valid_denom(#[trigger] units[j].denom@)
}

/// Whether the metadata `m` is what the metadata message `meta` says:
/// every text as it is, and the units one for one with valid denoms.
pub open spec fn metadata_reads(m: DenomMetadata, meta: ProtoMetadata) -> bool {
    &&& m.description == meta.description
    &&& m.base == meta.base
    &&& m.display == meta.display
    &&& m.name == meta.name
    &&& m.symbol == meta.symbol
    &&& m.uri == meta.uri
    &&& m.uri_hash == meta.uri_hash
    &&& m.denom_units.len() == meta.denom_units.len()
    &&& forall|i: int|
        0 <= i < m.denom_units.len() ==> {
            &&& valid_denom(#[trigger] meta.denom_units[i].denom@)
            &&& m.denom_units[i].denom@ == meta.denom_units[i].denom@
            &&& m.denom_units[i].exponent == meta.denom_units[i].exponent
            &&& m.denom_units[i].aliases == meta.denom_units[i].aliases
        }
}

/// Whether `e` is the error of reading the metadata message `meta`: the
/// first of its denoms that does not follow the denom syntax, refused under
/// its own name.
pub open spec fn metadata_error_fits(e: ChainError, meta: ProtoMetadata) -> bool {
    exists|k: int|
        first_bad_unit(meta.denom_units@, k) && (e matches ChainError::Denom { name } && name@
            == meta.denom_units[k].denom@)
}

impl DenomMetadata {
    /// Reads a metadata message. Its denom units are read in order; the
    /// first denom that does not follow the denom syntax ends the work.
    pub fn from_proto(meta: ProtoMetadata) -> (r: Result<DenomMetadata, ChainError>)
        ensures
            match r {
                Ok(m) => metadata_reads(m, meta),
                Err(e) => metadata_error_fits(e, meta),
            },
    {
        let ProtoMetadata { description, denom_units, base, display, name, symbol, uri, uri_hash } =
            meta;
        let ghost all = denom_units@;
        let mut units: Vec<DenomUnit> = Vec::new();
        for du in it: denom_units
            invariant
                it.seq() == all,
                all == meta.denom_units@,
                units.len() == it.index(),
                forall|i: int|
                    0 <= i < units.len() ==> {
                        &&& valid_denom(#[trigger] all[i].denom@)
                        &&& units[i].denom@ == all[i].denom@
                        &&& units[i].exponent == all[i].exponent
                        &&& units[i].aliases == all[i].aliases
                    },
        {
            let ghost k = units.len() as int;
            let ghost cur = du;
            assert(cur == all[k]);
            match DenomUnit::from_proto(du) {
                Ok(unit) => {
                    assert(valid_denom(all[k].denom@));
                    units.push(unit);
                },
                Err(e) => {
                    assert(!valid_denom(all[k].denom@));
                    assert(first_bad_unit(all, k));
                    assert(all == meta.denom_units@);
                    return Err(e);
                },
            }
        }
        Ok(
            DenomMetadata {
                description,
                denom_units: units,
                base,
                display,
                name,
                symbol,
                uri,
                uri_hash,
            },
        )
    }

    /// Writes the metadata as a message.
    pub fn into_proto(self) -> (r: ProtoMetadata)
        ensures
            r.description == self.description,
            r.base == self.base,
            r.display == self.display,
            r.name == self.name,
            r.symbol == self.symbol,
            r.uri == self.uri,
            r.uri_hash == self.uri_hash,
            r.denom_units.len() == self.denom_units.len(),
            forall|i: int|
                0 <= i < r.denom_units.len() ==> {
                    &&& (#[trigger] r.denom_units[i]).denom@ == self.denom_units[i].denom@
                    &&& r.denom_units[i].exponent == self.denom_units[i].exponent
                    &&& r.denom_units[i].aliases == self.denom_units[i].aliases
                },
    {
        let DenomMetadata { description, denom_units, base, display, name, symbol, uri, uri_hash } =
            self;
        let ghost all = denom_units@;
        let mut units: Vec<ProtoDenomUnit> = Vec::new();
        for du in it: denom_units
            invariant
                it.seq() == all,
                units.len() == it.index(),
                forall|i: int|
                    0 <= i < units.len() ==> {
                        &&& (#[trigger] units[i]).denom@ == all[i].denom@
                        &&& units[i].exponent == all[i].exponent
                        &&& units[i].aliases == all[i].aliases
                    },
        {
            units.push(du.into_proto());
        }
        ProtoMetadata { description, denom_units: units, base, display, name, symbol, uri, uri_hash }
    }
}

/// The answer to a query for the metadata of one denom.
#[derive(Debug, PartialEq, Eq)]
pub struct DenomMetadataResponse {
    pub meta: Option<DenomMetadata>,
}

/// The answer to a query for a page of denom metadata.
#[derive(Debug, PartialEq, Eq)]
pub struct DenomsMetadataResponse {
    pub metas: Vec<DenomMetadata>,
    pub next: Option<PaginationResponse>,
}

/// Whether a denom may be sent.
#[derive(Debug, PartialEq, Eq, Hash)]
pub struct SendEnabled {
    pub denom: Denom,
    pub enabled: bool,
}

impl SendEnabled {
    /// Reads a send-enabled message; its denom must follow the denom
    /// syntax.
    pub fn from_proto(se: ProtoSendEnabled) -> (r: Result<SendEnabled, ChainError>)
        ensures
            valid_denom(se.denom@) ==> (r matches Ok(s) && s.denom@ == se.denom@ && s.enabled
                == se.enabled),
            !valid_denom(se.denom@) ==> (r matches Err(ChainError::Denom { name }) && name@
                == se.denom@),
    {
        match Denom::from_str(se.denom.as_str()) {
            Ok(denom) => Ok(SendEnabled { denom, enabled: se.enabled }),
            Err(e) => Err(e),
        }
    }

    /// Writes the entry as a message.
    pub fn into_proto(self) -> (r: ProtoSendEnabled)
        ensures
            r.denom@ == self.denom@,
            r.enabled == self.enabled,
    {
        ProtoSendEnabled { denom: self.denom.into_string(), enabled: self.enabled }
    }
}

/// The parameters of the bank module.
#[derive(Debug, PartialEq, Eq, Hash)]
pub struct Params {
    pub send_enabled: Vec<SendEnabled>,
    pub default_send_enabled: bool,
}

/// Whether `k` is the place of the first entry of `entries` whose denom
/// does not follow the denom syntax.
pub open spec fn first_bad_entry(entries: Seq<ProtoSendEnabled>, k: int) -> bool {
    &&& 0 <= k < entries.len()
    &&& !valid_denom(entries[k].denom@)
    &&& forall|j: int| 0 <= j < k ==> valid_denom(#[trigger] entries[j].denom@)
}

/// Whether the parameters `params` are what the parameters message `p`
/// says: the entries one for one, with valid denoms.
pub open spec fn params_read(params: Params, p: ProtoBankParams) -> bool {
    &&& params.default_send_enabled == p.default_send_enabled
    &&& params.send_enabled.len() == p.send_enabled.len()
    &&& forall|i: int|
        0 <= i < params.send_enabled.len() ==> {
            &&& valid_denom(#[trigger] p.send_enabled[i].denom@)
            &&& params.send_enabled[i].denom@ == p.send_enabled[i].denom@
            &&& params.send_enabled[i].enabled == p.send_enabled[i].enabled
        }
}

/// Whether `e` is the error of reading the parameters message `p`: the
/// first of its denoms that does not follow the denom syntax, refused under
/// its own name.
pub open spec fn params_error_fits(e: ChainError, p: ProtoBankParams) -> bool {
    exists|k: int|
        first_bad_entry(p.send_enabled@, k) && (e matches ChainError::Denom { name } && name@
            == p.send_enabled[k].denom@)
}

impl Params {
    /// Reads a parameters message. Its entries are read in order; the
    /// first denom that does not follow the denom syntax ends the work.
    pub fn from_proto(p: ProtoBankParams) -> (r: Result<Params, ChainError>)
        ensures
            match r {
                Ok(params) => params_read(params, p),
                Err(e) => params_error_fits(e, p),
            },
    {
        let ProtoBankParams { send_enabled, default_send_enabled } = p;
        let ghost all = send_enabled@;
        let mut entries: Vec<SendEnabled> = Vec::new();
        for se in it: send_enabled
            invariant
                it.seq() == all,
                all == p.send_enabled@,
                entries.len() == it.index(),
                forall|i: int|
                    0 <= i < entries.len() ==> {
                        &&& valid_denom(#[trigger] all[i].denom@)
                        &&& entries[i].denom@ == all[i].denom@
                        &&& entries[i].enabled == all[i].enabled
                    },
        {
            let ghost k = entries.len() as int;
            let ghost cur = se;
            assert(cur == all[k]);
            match SendEnabled::from_proto(se) {
                Ok(entry) => {
                    assert(valid_denom(all[k].denom@));
                    entries.push(entry);
                },
                Err(e) => {
                    assert(!valid_denom(all[k].denom@));
                    assert(first_bad_entry(all, k));
                    assert(all == p.send_enabled@);
                    return Err(e);
                },
            }
        }
        Ok(Params { send_enabled: entries, default_send_enabled })
    }

    /// Writes the parameters as a message.
    pub fn into_proto(self) -> (r: ProtoBankParams)
        ensures
            r.default_send_enabled == self.default_send_enabled,
            r.send_enabled.len() == self.send_enabled.len(),
            forall|i: int|
                0 <= i < r.send_enabled.len() ==> {
                    &&& (#[trigger] r.send_enabled[i]).denom@ == self.send_enabled[i].denom@
                    &&& r.send_enabled[i].enabled == self.send_enabled[i].enabled
                },
    {
        let Params { send_enabled, default_send_enabled } = self;
        let ghost all = send_enabled@;
        let mut entries: Vec<ProtoSendEnabled> = Vec::new();
        for se in it: send_enabled
            invariant
                it.seq() == all,
                entries.len() == it.index(),
                forall|i: int|
                    0 <= i < entries.len() ==> {
                        &&& (#[trigger] entries[i]).denom@ == all[i].denom@
                        &&& entries[i].enabled == all[i].enabled
                    },
        {
            entries.push(se.into_proto());
        }
        ProtoBankParams { send_enabled: entries, default_send_enabled }
    }
}

/// The answer to a query for the bank parameters.
#[derive(Debug, PartialEq, Eq, Hash)]
pub struct ParamsResponse {
    pub params: Option<Params>,
}

/// A transfer of coins from one address to another.
#[derive(Debug, PartialEq, Eq)]
pub struct SendRequest {
    pub from: Address,
    pub to: Address,
    pub amounts: Vec<Coin>,
}

/// The message form of a transfer is the transfer itself.
pub type SendRequestProto = SendRequest;

/// The answer to a transfer that was broadcast and included in a block.
#[derive(Debug, PartialEq, Eq)]
pub struct SendResponse {
    pub res: ChainTxResponse,
}

/// Whether `amounts` can be sent: there is at least one coin, and no coin
/// has amount zero.
pub open spec fn sendable(amounts: Seq<CoinView>) -> bool {
    amounts.len() > 0 && forall|i: int| 0 <= i < amounts.len() ==> (#[trigger] amounts[i]).amount != 0
}

/// The coin messages of `amounts`, one for one and in order.
pub open spec fn coin_messages(amounts: Seq<CoinView>) -> Seq<ProtoCoinView> {
    Seq::new(
        amounts.len(),
        |i: int| ProtoCoinView { denom: amounts[i].denom, amount: decimal_text(amounts[i].amount as nat) },
    )
}

/// The transfer message of a transfer from `from` to `to` of `amounts`.
pub open spec fn send_message(from: Seq<char>, to: Seq<char>, amounts: Seq<CoinView>) -> ProtoMsgSendView {
    ProtoMsgSendView { from_address: from, to_address: to, amount: coin_messages(amounts) }
}

/// The text in which amounts are listed: each coin followed by a space.
pub open spec fn amounts_text(amounts: Seq<CoinView>) -> Seq<char>
    decreases amounts.len(),
{
    if amounts.len() == 0 {
        Seq::empty()
    } else {
        amounts_text(amounts.drop_last()) + decimal_text(amounts.last().amount as nat)
            + amounts.last().denom + seq![' ']
    }
}

/// Whether `r` is what reading the transfer message `msg` gives: the
/// sender's address is read first, then the receiver's, then the coins in
/// order, and the first part that cannot be read decides the error.
pub open spec fn send_request_reads(r: Result<SendRequest, BankError>, msg: ProtoMsgSendView) -> bool {
    if account_id_parts(msg.from_address) is None || account_id_parts(msg.to_address) is None {
        r matches Err(BankError::AccountError(AccountError::Address { .. }))
    } else {
        match r {
            Ok(req) => {
                &&& address_reads(req.from, msg.from_address)
                &&& address_reads(req.to, msg.to_address)
                &&& coins_are(req.amounts@, msg.amount)
            },
            Err(BankError::ChainError(e)) => coins_error_fits(e, msg.amount),
            Err(_) => false,
        }
    }
}

/// Whether the address `a` is what the text `s` reads as.
pub open spec fn address_reads(a: Address, s: Seq<char>) -> bool {
    match account_id_parts(s) {
        Some(parts) => a.spec_prefix() == parts.0 && a.spec_bytes() == parts.1 && a@
            == crate::sdk::bech32_text(parts.0, parts.1),
        None => false,
    }
}

impl SendRequest {
    /// Whether an amount is missing: no coin at all, or a coin of zero.
    pub fn has_empty_amount(&self) -> (r: bool)
        ensures
            r == !sendable(self.amounts.deep_view()),
    {
        if self.amounts.len() == 0 {
            return true;
        }
        let mut i: usize = 0;
        while i < self.amounts.len()
            invariant
                i <= self.amounts.len(),
                forall|j: int| 0 <= j < i ==> (#[trigger] self.amounts.deep_view()[j]).amount != 0,
            decreases self.amounts.len() - i,
        {
            if self.amounts[i].amount == 0 {
                assert(self.amounts.deep_view()[i as int].amount == 0);
                return true;
            }
            i += 1;
        }
        false
    }

    /// Writes the transfer as a message. A transfer of no coins, or with a
    /// coin of amount zero, has no message: it is refused as `EmptyAmount`
    /// before anything is sent anywhere.
    pub fn into_proto(self) -> (r: Result<ProtoMsgSend, BankError>)
        ensures
            !sendable(self.amounts.deep_view()) ==> r == Err::<ProtoMsgSend, BankError>(
                BankError::EmptyAmount,
            ),
            sendable(self.amounts.deep_view()) ==> (r matches Ok(msg) && msg@ == send_message(
                self.from@,
                self.to@,
                self.amounts.deep_view(),
            )),
    {
        if self.has_empty_amount() {
            return Err(BankError::EmptyAmount);
        }
        let ghost amounts = self.amounts.deep_view();
        let SendRequest { from, to, amounts: coins } = self;
        let amount = coins_into_proto(coins);
        assert(amount.deep_view() =~= coin_messages(amounts));
        Ok(ProtoMsgSend { from_address: from.into_string(), to_address: to.into_string(), amount })
    }

    /// Reads a transfer message: the sender's address first, then the
    /// receiver's, then the coins in order. Amounts are not judged here.
    pub fn from_proto(msg: ProtoMsgSend) -> (r: Result<SendRequest, BankError>)
        ensures
            send_request_reads(r, msg@),
    {
        let from = match Address::from_str(msg.from_address.as_str()) {
            Ok(a) => a,
            Err(e) => {
                return Err(BankError::AccountError(e));
            },
        };
        let to = match Address::from_str(msg.to_address.as_str()) {
            Ok(a) => a,
            Err(e) => {
                return Err(BankError::AccountError(e));
            },
        };
        match coins_from_proto(msg.amount) {
            Ok(amounts) => Ok(SendRequest { from, to, amounts }),
            Err(e) => Err(BankError::ChainError(e)),
        }
    }

    /// The transfer in words: who sends, what, and to whom.
    pub fn to_string(&self) -> (s: String)
        ensures
            s@ == self.from@ + " sends "@ + amounts_text(self.amounts.deep_view()) + "-> "@
                + self.to@,
    {
        let mut out = self.from.as_ref().to_owned();
        out.append(" sends ");
        let ghost head = out@;
        let ghost all = self.amounts.deep_view();
        let mut i: usize = 0;
        while i < self.amounts.len()
            invariant
                i <= self.amounts.len(),
                all == self.amounts.deep_view(),
                out@ == head + amounts_text(all.take(i as int)),
            decreases self.amounts.len() - i,
        {
            proof {
                assert(all.take(i + 1).drop_last() =~= all.take(i as int));
                assert(all.take(i + 1).last() == self.amounts[i as int]@);
            }
            let coin = self.amounts[i].to_string();
            out.append(coin.as_str());
            out.append(" ");
            proof {
                reveal_strlit(" ");
                assert(" "@ =~= seq![' ']);
                assert(out@ =~= head + amounts_text(all.take(i + 1)));
            }
            i += 1;
        }
        assert(all.take(i as int) =~= all);
        out.append("-> ");
        out.append(self.to.as_ref());
        out
    }
}

impl Msg for SendRequest {
    type Err = BankError;

    open spec fn spec_any(&self) -> Option<AnyView> {
        if sendable(self.amounts.deep_view()) {
            msg_send_envelope(send_message(self.from@, self.to@, self.amounts.deep_view()))
        } else {
            None
        }
    }

    fn to_any(&self) -> (r: Result<Any, BankError>)
        ensures
            !sendable(self.amounts.deep_view()) ==> r == Err::<Any, BankError>(
                BankError::EmptyAmount,
            ),
            sendable(self.amounts.deep_view()) && self.spec_any() is None ==> r matches Err(
                BankError::ChainError(ChainError::ProtoEncoding { .. }),
            ),
    {
        let copy = SendRequest {
            from: self.from.clone(),
            to: self.to.clone(),
            amounts: crate::chain::fee::clone_coins(&self.amounts),
        };
        copy.into_any()
    }

    fn into_any(self) -> (r: Result<Any, BankError>)
        ensures
            !sendable(self.amounts.deep_view()) ==> r == Err::<Any, BankError>(
                BankError::EmptyAmount,
            ),
            sendable(self.amounts.deep_view()) && self.spec_any() is None ==> r matches Err(
                BankError::ChainError(ChainError::ProtoEncoding { .. }),
            ),
    {
        let msg = match self.into_proto() {
            Ok(m) => m,
            Err(e) => {
                return Err(e);
            },
        };
        match msg_send_to_any(&msg) {
            Ok(any) => Ok(any),
            Err(message) => Err(BankError::ChainError(ChainError::ProtoEncoding { message })),
        }
    }

    fn from_any(any: &Any) -> (r: Result<SendRequest, BankError>)
        ensures
            match msg_send_unwrapped(any@) {
                None => r matches Err(BankError::ChainError(ChainError::ProtoDecoding { .. })),
                Some(msg) => send_request_reads(r, msg),
            },
    {
        match msg_send_from_any(any) {
            Ok(msg) => SendRequest::from_proto(msg),
            Err(message) => Err(BankError::ChainError(ChainError::ProtoDecoding { message })),
        }
    }
}

} // verus!
