//! Gas, fees, and the rule that turns simulated gas into a fee.

use crate::chain::coin::{Coin, CoinView, Denom};
use crate::modules::auth::model::Address;
use crate::proto::ProtoGasInfo;
use crate::text::{decimal_text, digit_value, digits_value, is_digit, is_digits, u128_to_string};
use vstd::string::StringExecFns;
use vstd::prelude::*;
use vstd::std_specs::convert::{FromSpec, FromSpecImpl, IntoSpec};

verus! {

/// An amount of gas, the unit in which a chain measures execution.
#[derive(Copy, Clone, Debug, PartialEq, Eq, Structural, PartialOrd, Ord, Hash)]
pub struct Gas(u64);

impl Gas {
    /// The amount as a number.
    pub closed spec fn spec_value(self) -> u64 {
        self.0
    }

    /// The amount as a number.
    #[verifier::when_used_as_spec(spec_value)]
    pub fn value(self) -> (v: u64)
        ensures
            v == self.spec_value(),
    {
        self.0
    }

    /// The amount in words: the number in decimal, then ` gas`.
    pub fn to_string(&self) -> (s: String)
        ensures
            s@ == decimal_text(self.spec_value() as nat) + " gas"@,
    {
        let mut out = u128_to_string(self.0 as u128);
        out.append(" gas");
        out
    }
}

impl Default for Gas {
    fn default() -> (g: Gas)
        ensures
            g.spec_value() == 0,
    {
        Gas(0)
    }
}

impl From<u64> for Gas {
    fn from(g: u64) -> (r: Gas)
        ensures
            r.spec_value() == g,
    {
        Gas(g)
    }
}

impl FromSpecImpl<u64> for Gas {
    open spec fn obeys_from_spec() -> bool {
        true
    }

    closed spec fn from_spec(g: u64) -> Gas {
        Gas(g)
    }
}

impl From<u32> for Gas {
    fn from(g: u32) -> (r: Gas)
        ensures
            r.spec_value() == g,
    {
        Gas(g as u64)
    }
}

impl FromSpecImpl<u32> for Gas {
    open spec fn obeys_from_spec() -> bool {
        true
    }

    closed spec fn from_spec(g: u32) -> Gas {
        Gas(g as u64)
    }
}

impl From<u16> for Gas {
    fn from(g: u16) -> (r: Gas)
        ensures
            r.spec_value() == g,
    {
        Gas(g as u64)
    }
}

impl FromSpecImpl<u16> for Gas {
    open spec fn obeys_from_spec() -> bool {
        true
    }

    closed spec fn from_spec(g: u16) -> Gas {
        Gas(g as u64)
    }
}

impl From<u8> for Gas {
    fn from(g: u8) -> (r: Gas)
        ensures
            r.spec_value() == g,
    {
        Gas(g as u64)
    }
}

impl FromSpecImpl<u8> for Gas {
    open spec fn obeys_from_spec() -> bool {
        true
    }

    closed spec fn from_spec(g: u8) -> Gas {
        Gas(g as u64)
    }
}

impl From<Gas> for u64 {
    fn from(g: Gas) -> (r: u64)
        ensures
            r == g.spec_value(),
    {
        g.0
    }
}

impl FromSpecImpl<Gas> for u64 {
    open spec fn obeys_from_spec() -> bool {
        true
    }

    open spec fn from_spec(g: Gas) -> u64 {
        g.spec_value()
    }
}

/// Whatever the width of the number it was made from, a gas amount has that
/// number as its value.
pub proof fn lemma_gas_from_number(a: u64, b: u32, c: u16, d: u8)
    ensures
        <Gas as FromSpec<u64>>::from_spec(a).spec_value() == a,
        <Gas as FromSpec<u32>>::from_spec(b).spec_value() == b,
        <Gas as FromSpec<u16>>::from_spec(c).spec_value() == c,
        <Gas as FromSpec<u8>>::from_spec(d).spec_value() == d,
{
}

/// What a simulation reports: the gas that the transaction asked for and
/// the gas that it used.
#[derive(Copy, Clone, Debug, PartialEq, Eq, Structural, PartialOrd, Ord, Hash)]
pub struct GasInfo {
    pub gas_wanted: Gas,
    pub gas_used: Gas,
}

impl Default for GasInfo {
    fn default() -> (g: GasInfo)
        ensures
            g.gas_wanted.spec_value() == 0,
            g.gas_used.spec_value() == 0,
    {
        GasInfo { gas_wanted: Gas(0), gas_used: Gas(0) }
    }
}

impl GasInfo {
    /// Gas information from anything that converts into gas amounts.
    pub fn new<W: Into<Gas>, U: Into<Gas>>(gas_wanted: W, gas_used: U) -> (r: GasInfo)
        ensures
            W::obeys_into_spec() ==> r.gas_wanted == gas_wanted.into_spec(),
            U::obeys_into_spec() ==> r.gas_used == gas_used.into_spec(),
    {
        GasInfo { gas_wanted: gas_wanted.into(), gas_used: gas_used.into() }
    }

    /// The gas information in words: what was wanted, then what was used.
    pub fn to_string(&self) -> (s: String)
        ensures
            s@ == "wanted: "@ + decimal_text(self.gas_wanted.spec_value() as nat) + " gas used: "@
                + decimal_text(self.gas_used.spec_value() as nat) + " gas"@,
    {
        let mut out = "wanted: ".to_owned();
        let wanted = u128_to_string(self.gas_wanted.0 as u128);
        out.append(wanted.as_str());
        out.append(" gas used: ");
        let used = u128_to_string(self.gas_used.0 as u128);
        out.append(used.as_str());
        out.append(" gas");
        out
    }

    /// Reads a gas information message.
    pub fn from_proto(info: ProtoGasInfo) -> (r: GasInfo)
        ensures
            r.gas_wanted.spec_value() == info.gas_wanted,
            r.gas_used.spec_value() == info.gas_used,
    {
        GasInfo { gas_wanted: Gas(info.gas_wanted), gas_used: Gas(info.gas_used) }
    }

    /// Writes the gas information as a message.
    pub fn into_proto(self) -> (r: ProtoGasInfo)
        ensures
            r.gas_wanted == self.gas_wanted.spec_value(),
            r.gas_used == self.gas_used.spec_value(),
    {
        ProtoGasInfo { gas_wanted: self.gas_wanted.0, gas_used: self.gas_used.0 }
    }
}

/// What a transaction pays: coins, a ceiling on the gas it may use, and
/// optionally who pays and who granted the allowance.
#[derive(Debug, PartialEq, Eq)]
pub struct Fee {
    pub amount: Vec<Coin>,
    pub gas_limit: Gas,
    pub payer: Option<Address>,
    pub granter: Option<Address>,
}

/// What a fee holds: its coins, its gas limit, and the texts of the
/// addresses of payer and granter.
pub struct FeeView {
    pub amount: Seq<CoinView>,
    pub gas_limit: u64,
    pub payer: Option<Seq<char>>,
    pub granter: Option<Seq<char>>,
}

impl DeepView for Fee {
    type V = FeeView;

    open spec fn deep_view(&self) -> FeeView {
        FeeView {
            amount: self.amount.deep_view(),
            gas_limit: self.gas_limit.spec_value(),
            payer: self.payer.deep_view(),
            granter: self.granter.deep_view(),
        }
    }
}

impl View for Fee {
    type V = FeeView;

    open spec fn view(&self) -> FeeView {
        self.deep_view()
    }
}

/// A copy of `coins`, coin by coin.
pub fn clone_coins(coins: &Vec<Coin>) -> (r: Vec<Coin>)
    ensures
        r.deep_view() == coins.deep_view(),
{
    let mut out: Vec<Coin> = Vec::new();
    let mut i: usize = 0;
    while i < coins.len()
        invariant
            i <= coins.len(),
            out.len() == i,
            forall|j: int| 0 <= j < i ==> out[j]@ == coins[j]@,
        decreases coins.len() - i,
    {
        out.push(coins[i].clone());
        i += 1;
    }
    assert(out.deep_view() =~= coins.deep_view());
    out
}

/// A copy of an optional address.
pub fn clone_address(a: &Option<Address>) -> (r: Option<Address>)
    ensures
        r.deep_view() == a.deep_view(),
{
    match a {
        Some(x) => Some(x.clone()),
        None => None,
    }
}

impl Clone for Fee {
    fn clone(&self) -> (r: Self)
        ensures
            r@ == self@,
    {
        Fee {
            amount: clone_coins(&self.amount),
            gas_limit: self.gas_limit,
            payer: clone_address(&self.payer),
            granter: clone_address(&self.granter),
        }
    }
}

impl Default for Fee {
    fn default() -> (f: Fee)
        ensures
            f.amount@.len() == 0,
            f.gas_limit.spec_value() == 0,
            f.payer is None,
            f.granter is None,
    {
        Fee { amount: Vec::new(), gas_limit: Gas(0), payer: None, granter: None }
    }
}

impl Fee {
    /// A fee of one coin.
    pub fn new<G: Into<Gas>>(
        amount: Coin,
        gas_limit: G,
        payer: Option<Address>,
        granter: Option<Address>,
    ) -> (f: Fee)
        ensures
            f.amount@ == seq![amount],
            G::obeys_into_spec() ==> f.gas_limit == gas_limit.into_spec(),
            f.payer == payer,
            f.granter == granter,
    {
        let mut coins: Vec<Coin> = Vec::new();
        coins.push(amount);
        assert(coins@ =~= seq![amount]);
        Fee { amount: coins, gas_limit: gas_limit.into(), payer, granter }
    }
}

/// A factor that is not negative: `numerator / denominator`, exactly.
///
/// Gas prices and gas adjustments are such factors. They are kept as
/// fractions so that a fee is the same number wherever it is computed.
#[derive(Copy, Clone, Debug, PartialEq, Eq, Hash)]
pub struct Ratio {
    numerator: u64,
    denominator: u64,
}

impl Ratio {
    #[verifier::type_invariant]
    spec fn well_formed(&self) -> bool {
        self.denominator > 0
    }

    /// The numerator.
    pub closed spec fn num(&self) -> nat {
        self.numerator as nat
    }

    /// The denominator.
    pub closed spec fn den(&self) -> nat {
        self.denominator as nat
    }

    /// The factor `numerator / denominator`; there is none over zero.
    pub fn new(numerator: u64, denominator: u64) -> (r: Option<Ratio>)
        ensures
            denominator == 0 ==> r is None,
            denominator != 0 ==> (r matches Some(q) && q.num() == numerator && q.den()
                == denominator),
    {
        if denominator == 0 {
            None
        } else {
            Some(Ratio { numerator, denominator })
        }
    }

    /// The numerator.
    pub fn numerator(&self) -> (n: u64)
        ensures
            n == self.num(),
    {
        self.numerator
    }

    /// The denominator, which is never zero.
    pub fn denominator(&self) -> (d: u64)
        ensures
            d == self.den(),
            d > 0,
    {
        proof {
            use_type_invariant(self);
        }
        self.denominator
    }
}

/// The least whole number that is not below `a / b`, for `b` above zero.
pub open spec fn ceil_div(a: nat, b: nat) -> nat {
    if a % b == 0 {
        a / b
    } else {
        a / b + 1
    }
}

/// The gas limit for a transaction that used `gas_used` in simulation:
/// the usage times the adjustment `adj_num / adj_den`, rounded up.
pub open spec fn gas_limit_for(gas_used: nat, adj_num: nat, adj_den: nat) -> nat {
    ceil_div(gas_used * adj_num, adj_den)
}

/// The fee for that transaction: its gas limit times the price
/// `price_num / price_den`, rounded up.
pub open spec fn fee_amount_for(
    gas_used: nat,
    adj_num: nat,
    adj_den: nat,
    price_num: nat,
    price_den: nat,
) -> nat {
    ceil_div(gas_limit_for(gas_used, adj_num, adj_den) * price_num, price_den)
}

/// `n`, or the greatest 64-bit number where `n` does not fit.
pub open spec fn saturated(n: nat) -> u64 {
    if n > u64::MAX {
        u64::MAX
    } else {
        n as u64
    }
}

/// Rounding up never falls short: `ceil_div(a, b) * b >= a`.
pub proof fn lemma_ceil_div_covers(a: nat, b: nat)
    requires
        b > 0,
    ensures
        ceil_div(a, b) * b >= a,
{
    let c = ceil_div(a, b);
    assert(a == b * (a / b) + a % b && 0 <= a % b < b) by (nonlinear_arith)
        requires
            b > 0,
    ;
    assert(c * b >= a) by (nonlinear_arith)
        requires
            a == b * (a / b) + a % b,
            0 <= a % b < b,
            c == if a % b == 0 {
                a / b
            } else {
                a / b + 1
            },
    ;
}

/// Rounding up goes no further than needed: every `q` with `q * b >= a` is
/// at least `ceil_div(a, b)`.
pub proof fn lemma_ceil_div_is_least(a: nat, b: nat, q: nat)
    requires
        b > 0,
        q * b >= a,
    ensures
        ceil_div(a, b) <= q,
{
    let c = ceil_div(a, b);
    assert(a == b * (a / b) + a % b && 0 <= a % b < b) by (nonlinear_arith)
        requires
            b > 0,
    ;
    assert(c <= q) by (nonlinear_arith)
        requires
            q * b >= a,
            b > 0,
            a == b * (a / b) + a % b,
            0 <= a % b < b,
            c == if a % b == 0 {
                a / b
            } else {
                a / b + 1
            },
    ;
}

/// Rounding up keeps order: a larger dividend never gives a smaller result.
pub proof fn lemma_ceil_div_monotonic(a1: nat, a2: nat, b: nat)
    requires
        b > 0,
        a1 <= a2,
    ensures
        ceil_div(a1, b) <= ceil_div(a2, b),
{
    lemma_ceil_div_covers(a2, b);
    lemma_ceil_div_is_least(a1, b, ceil_div(a2, b));
}

/// Scaling by a larger factor never gives less: if `n1 / d1 <= n2 / d2`
/// then `ceil(x * n1 / d1) <= ceil(x * n2 / d2)`.
pub proof fn lemma_scale_monotonic_in_factor(x: nat, n1: nat, d1: nat, n2: nat, d2: nat)
    requires
        d1 > 0,
        d2 > 0,
        n1 * d2 <= n2 * d1,
    ensures
        ceil_div(x * n1, d1) <= ceil_div(x * n2, d2),
{
    lemma_ceil_div_covers(x * n2, d2);
    let q2 = ceil_div(x * n2, d2);
    assert(q2 * d1 >= x * n1) by (nonlinear_arith)
        requires
            q2 * d2 >= x * n2,
            n1 * d2 <= n2 * d1,
            d1 > 0,
            d2 > 0,
    ;
    lemma_ceil_div_is_least(x * n1, d1, q2);
}

/// The fee rule grows with the gas used: more gas in simulation never
/// means a lower gas limit or a lower fee.
pub proof fn lemma_fee_monotonic_in_gas_used(
    g1: nat,
    g2: nat,
    adj_num: nat,
    adj_den: nat,
    price_num: nat,
    price_den: nat,
)
    requires
        adj_den > 0,
        price_den > 0,
        g1 <= g2,
    ensures
        gas_limit_for(g1, adj_num, adj_den) <= gas_limit_for(g2, adj_num, adj_den),
        fee_amount_for(g1, adj_num, adj_den, price_num, price_den) <= fee_amount_for(
            g2,
            adj_num,
            adj_den,
            price_num,
            price_den,
        ),
        saturated(gas_limit_for(g1, adj_num, adj_den)) <= saturated(
            gas_limit_for(g2, adj_num, adj_den),
        ),
        saturated(fee_amount_for(g1, adj_num, adj_den, price_num, price_den)) <= saturated(
            fee_amount_for(g2, adj_num, adj_den, price_num, price_den),
        ),
{
    assert(g1 * adj_num <= g2 * adj_num) by (nonlinear_arith)
        requires
            g1 <= g2,
    ;
    lemma_ceil_div_monotonic(g1 * adj_num, g2 * adj_num, adj_den);
    let l1 = gas_limit_for(g1, adj_num, adj_den);
    let l2 = gas_limit_for(g2, adj_num, adj_den);
    assert(l1 * price_num <= l2 * price_num) by (nonlinear_arith)
        requires
            l1 <= l2,
    ;
    lemma_ceil_div_monotonic(l1 * price_num, l2 * price_num, price_den);
}

/// The fee rule grows with the gas adjustment: a larger adjustment never
/// means a lower gas limit or a lower fee.
pub proof fn lemma_fee_monotonic_in_adjustment(
    gas_used: nat,
    n1: nat,
    d1: nat,
    n2: nat,
    d2: nat,
    price_num: nat,
    price_den: nat,
)
    requires
        d1 > 0,
        d2 > 0,
        price_den > 0,
        n1 * d2 <= n2 * d1,
    ensures
        gas_limit_for(gas_used, n1, d1) <= gas_limit_for(gas_used, n2, d2),
        fee_amount_for(gas_used, n1, d1, price_num, price_den) <= fee_amount_for(
            gas_used,
            n2,
            d2,
            price_num,
            price_den,
        ),
        saturated(gas_limit_for(gas_used, n1, d1)) <= saturated(gas_limit_for(gas_used, n2, d2)),
        saturated(fee_amount_for(gas_used, n1, d1, price_num, price_den)) <= saturated(
            fee_amount_for(gas_used, n2, d2, price_num, price_den),
        ),
{
    lemma_scale_monotonic_in_factor(gas_used, n1, d1, n2, d2);
    let l1 = gas_limit_for(gas_used, n1, d1);
    let l2 = gas_limit_for(gas_used, n2, d2);
    assert(l1 * price_num <= l2 * price_num) by (nonlinear_arith)
        requires
            l1 <= l2,
    ;
    lemma_ceil_div_monotonic(l1 * price_num, l2 * price_num, price_den);
}

/// The fee rule grows with the gas price: a larger price never means a
/// lower fee, and the gas limit does not depend on the price at all.
pub proof fn lemma_fee_monotonic_in_price(
    gas_used: nat,
    adj_num: nat,
    adj_den: nat,
    n1: nat,
    d1: nat,
    n2: nat,
    d2: nat,
)
    requires
        adj_den > 0,
        d1 > 0,
        d2 > 0,
        n1 * d2 <= n2 * d1,
    ensures
        fee_amount_for(gas_used, adj_num, adj_den, n1, d1) <= fee_amount_for(
            gas_used,
            adj_num,
            adj_den,
            n2,
            d2,
        ),
        saturated(fee_amount_for(gas_used, adj_num, adj_den, n1, d1)) <= saturated(
            fee_amount_for(gas_used, adj_num, adj_den, n2, d2),
        ),
{
    lemma_scale_monotonic_in_factor(gas_limit_for(gas_used, adj_num, adj_den), n1, d1, n2, d2);
}

/// With an adjustment of at least one, the gas limit covers the gas used.
pub proof fn lemma_gas_limit_covers_usage(gas_used: nat, adj_num: nat, adj_den: nat)
    requires
        adj_den > 0,
        adj_num >= adj_den,
    ensures
        gas_limit_for(gas_used, adj_num, adj_den) >= gas_used,
{
    lemma_ceil_div_covers(gas_used * adj_num, adj_den);
    let l = gas_limit_for(gas_used, adj_num, adj_den);
    assert(l >= gas_used) by (nonlinear_arith)
        requires
            l * adj_den >= gas_used * adj_num,
            adj_num >= adj_den,
            adj_den > 0,
    ;
}

/// `a / b` rounded up.
fn ceil_div_u128(a: u128, b: u128) -> (q: u128)
    requires
        b > 0,
    ensures
        q == ceil_div(a as nat, b as nat),
{
    let q = a / b;
    if a % b == 0 {
        q
    } else {
        assert(q < a) by (nonlinear_arith)
            requires
                q == a / b,
                a % b != 0,
                b > 0,
        ;
        q + 1
    }
}

/// The gas limit and the fee amount for `gas_used` gas under a gas
/// adjustment and a gas price: `ceil(gas_used * adjustment)` and
/// `ceil(gas_limit * price)`, each cut at the greatest 64-bit number.
pub fn gas_limit_and_fee(gas_used: u64, gas_price: &Ratio, gas_adjustment: &Ratio) -> (r: (
    u64,
    u128,
))
    ensures
        r.0 == saturated(
            gas_limit_for(gas_used as nat, gas_adjustment.num(), gas_adjustment.den()),
        ),
        r.1 == saturated(
            fee_amount_for(
                gas_used as nat,
                gas_adjustment.num(),
                gas_adjustment.den(),
                gas_price.num(),
                gas_price.den(),
            ),
        ),
{
    let adj_num = gas_adjustment.numerator();
    let adj_den = gas_adjustment.denominator();
    let price_num = gas_price.numerator();
    let price_den = gas_price.denominator();
    assert(gas_used * adj_num <= u128::MAX) by (nonlinear_arith)
        requires
            gas_used <= u64::MAX,
            adj_num <= u64::MAX,
    ;
    let limit: u128 = ceil_div_u128(gas_used as u128 * adj_num as u128, adj_den as u128);
    let gas_limit: u64 = if limit > u64::MAX as u128 {
        u64::MAX
    } else {
        limit as u64
    };
    let amount: u128 = match limit.checked_mul(price_num as u128) {
        Some(product) => {
            let exact = ceil_div_u128(product, price_den as u128);
            if exact > u64::MAX as u128 {
                u64::MAX as u128
            } else {
                exact
            }
        },
        None => {
            proof {
                let a = ceil_div((limit * price_num) as nat, price_den as nat);
                lemma_ceil_div_covers((limit * price_num) as nat, price_den as nat);
                assert(a > u64::MAX) by (nonlinear_arith)
                    requires
                        a * price_den >= limit * price_num,
                        limit * price_num > u128::MAX,
                        price_den <= u64::MAX,
                ;
            }
            u64::MAX as u128
        },
    };
    (gas_limit, amount)
}

/// The fee that a simulation leads to: one coin of `denom` for the fee
/// amount, the gas limit, and nobody named as payer or granter.
pub fn fee_from_gas(denom: Denom, gas_info: GasInfo, gas_price: &Ratio, gas_adjustment: &Ratio) -> (f: Fee)
    ensures
        f.amount@.len() == 1,
        f.amount@[0].denom == denom,
        f.amount@[0].amount == saturated(
            fee_amount_for(
                gas_info.gas_used.spec_value() as nat,
                gas_adjustment.num(),
                gas_adjustment.den(),
                gas_price.num(),
                gas_price.den(),
            ),
        ),
        f.gas_limit.spec_value() == saturated(
            gas_limit_for(
                gas_info.gas_used.spec_value() as nat,
                gas_adjustment.num(),
                gas_adjustment.den(),
            ),
        ),
        f.payer is None,
        f.granter is None,
{
    let (gas_limit, amount) = gas_limit_and_fee(gas_info.gas_used.value(), gas_price, gas_adjustment);
    let mut coins: Vec<Coin> = Vec::new();
    coins.push(Coin { denom, amount });
    Fee { amount: coins, gas_limit: Gas(gas_limit), payer: None, granter: None }
}

/// Ten to the power of `n`.
pub open spec fn pow10(n: nat) -> nat
    decreases n,
{
    if n == 0 {
        1
    } else {
        10 * pow10((n - 1) as nat)
    }
}

/// The place of the first `.` in `s`, or the length of `s` where there is
/// none.
pub open spec fn dot_index(s: Seq<char>) -> int
    decreases s.len(),
{
    if s.len() == 0 || s[0] == '.' {
        0
    } else {
        1 + dot_index(s.drop_first())
    }
}

/// What stands before the first `.` of `s`.
pub open spec fn whole_part(s: Seq<char>) -> Seq<char> {
    s.take(dot_index(s))
}

/// What stands after the first `.` of `s`; nothing where there is no `.`.
pub open spec fn fraction_part(s: Seq<char>) -> Seq<char> {
    if dot_index(s) < s.len() {
        s.skip(dot_index(s) + 1)
    } else {
        Seq::empty()
    }
}

/// The factor that the decimal text `s` spells, as a numerator and a
/// denominator: digits, and optionally a `.` and more digits. The digits
/// without the `.` are the numerator; the denominator is ten to the number
/// of digits after the `.`. Any other text spells no factor.
pub open spec fn decimal_of(s: Seq<char>) -> Option<(nat, nat)> {
    let whole = whole_part(s);
    let fraction = fraction_part(s);
    if is_digits(whole) && (dot_index(s) == s.len() || is_digits(fraction)) {
        Some((digits_value(whole + fraction), pow10(fraction.len())))
    } else {
        None
    }
}

proof fn lemma_dot_index(s: Seq<char>, i: int)
    requires
        0 <= i <= s.len(),
        forall|j: int| 0 <= j < i ==> s[j] != '.',
        i == s.len() || s[i] == '.',
    ensures
        dot_index(s) == i,
    decreases i,
{
    if i > 0 {
        let rest = s.drop_first();
        assert forall|j: int| 0 <= j < i - 1 implies rest[j] != '.' by {
            assert(rest[j] == s[j + 1]);
        }
        lemma_dot_index(rest, i - 1);
    }
}

proof fn lemma_digits_value_step(t: Seq<char>, k: int)
    requires
        0 <= k < t.len(),
    ensures
        digits_value(t.take(k + 1)) == digits_value(t.take(k)) * 10 + digit_value(t[k]),
{
    assert(t.take(k + 1).drop_last() =~= t.take(k));
    assert(t.take(k + 1).last() == t[k]);
}

proof fn lemma_digits_value_grows(t: Seq<char>, k: int)
    requires
        0 <= k <= t.len(),
        forall|i: int| 0 <= i < t.len() ==> is_digit(#[trigger] t[i]),
    ensures
        digits_value(t.take(k)) <= digits_value(t),
    decreases t.len() - k,
{
    if k < t.len() {
        lemma_digits_value_step(t, k);
        lemma_digits_value_grows(t, k + 1);
        assert(is_digit(t[k]));
    } else {
        assert(t.take(k) =~= t);
    }
}

proof fn lemma_pow10_grows(a: nat, b: nat)
    requires
        a <= b,
    ensures
        pow10(a) <= pow10(b),
        pow10(a) >= 1,
    decreases b,
{
    if b > a {
        lemma_pow10_grows(a, (b - 1) as nat);
    } else if a > 0 {
        lemma_pow10_grows((a - 1) as nat, (a - 1) as nat);
    }
}

fn byte_is_digit(b: u8) -> (r: bool)
    ensures
        r == is_digit(b as char),
{
    b >= 0x30 && b <= 0x39
}

impl Ratio {
    /// Reads a factor from decimal text such as `0.025` or `2`: digits,
    /// and optionally a `.` and more digits. Text that spells no factor
    /// gives none, and so does a factor whose numerator or denominator
    /// does not fit in 64 bits.
    pub fn from_decimal(s: &str) -> (r: Option<Ratio>)
        ensures
            match decimal_of(s@) {
                Some((n, d)) => if n <= u64::MAX && d <= u64::MAX {
                    r matches Some(q) && q.num() == n && q.den() == d
                } else {
                    r is None
                },
                None => r is None,
            },
    {
        if !s.is_ascii() {
            proof {
                let i = choose|i: int| 0 <= i < s@.len() && !('\0' <= #[trigger] s@[i] <= '\u{7f}');
                let dot = dot_index(s@);
                lemma_dot_bounds(s@);
                if i < dot {
                    assert(whole_part(s@)[i] == s@[i]);
                } else if i > dot {
                    assert(fraction_part(s@)[i - dot - 1] == s@[i]);
                }
            }
            return None;
        }
        proof {
            vstd::string::is_ascii_spec_bytes(s);
        }
        let bytes = s.as_bytes();
        let n = bytes.len();
        let mut dot: usize = 0;
        while dot < n && bytes[dot] != 0x2e
            invariant
                dot <= n,
                n == s@.len(),
                n == bytes@.len(),
                forall|j: int| 0 <= j < n ==> bytes@[j] == s@[j] as u8,
                forall|j: int| 0 <= j < n ==> '\0' <= #[trigger] s@[j] <= '\u{7f}',
                forall|j: int| 0 <= j < dot ==> s@[j] != '.',
            decreases n - dot,
        {
            assert(s@[dot as int] as u8 as char == s@[dot as int]);
            dot += 1;
        }
        proof {
            if dot < n {
                assert(s@[dot as int] as u8 as char == s@[dot as int]);
            }
            lemma_dot_index(s@, dot as int);
        }
        let ghost whole = whole_part(s@);
        let ghost fraction = fraction_part(s@);
        let ghost digits = whole + fraction;
        if dot == 0 || (dot < n && n - dot == 1) {
            return None;
        }
        let mut numerator: u64 = 0;
        let mut i: usize = 0;
        while i < dot
            invariant
                i <= dot <= n,
                n == s@.len(),
                n == bytes@.len(),
                whole == whole_part(s@),
                fraction == fraction_part(s@),
                digits == whole + fraction,
                dot_index(s@) == dot,
                forall|j: int| 0 <= j < n ==> bytes@[j] == s@[j] as u8,
                forall|j: int| 0 <= j < n ==> '\0' <= #[trigger] s@[j] <= '\u{7f}',
                forall|j: int| 0 <= j < i ==> is_digit(#[trigger] whole[j]),
                numerator == digits_value(digits.take(i as int)),
            decreases dot - i,
        {
            let b = bytes[i];
            assert(s@[i as int] as u8 as char == s@[i as int]);
            assert(whole[i as int] == s@[i as int]);
            assert(digits[i as int] == whole[i as int]);
            if !byte_is_digit(b) {
                return None;
            }
            let d: u64 = (b - 0x30) as u64;
            proof {
                lemma_digits_value_step(digits, i as int);
            }
            if numerator > (u64::MAX - d) / 10 {
                proof {
                    if is_digits(whole) && (dot == n || is_digits(fraction)) {
                        lemma_digits_value_grows(digits, i + 1);
                    }
                }
                return None;
            }
            numerator = numerator * 10 + d;
            i += 1;
        }
        assert(is_digits(whole));
        let mut denominator: u64 = 1;
        let mut k: usize = if dot < n {
            dot + 1
        } else {
            n
        };
        let start = k;
        while k < n
            invariant
                start <= k <= n,
                dot < n ==> start == dot + 1,
                dot == n ==> start == n,
                0 < dot <= n,
                n == s@.len(),
                n == bytes@.len(),
                whole == whole_part(s@),
                fraction == fraction_part(s@),
                digits == whole + fraction,
                dot_index(s@) == dot,
                is_digits(whole),
                forall|j: int| 0 <= j < n ==> bytes@[j] == s@[j] as u8,
                forall|j: int| 0 <= j < n ==> '\0' <= #[trigger] s@[j] <= '\u{7f}',
                forall|j: int| 0 <= j < k - start ==> is_digit(#[trigger] fraction[j]),
                numerator == digits_value(digits.take(dot + (k - start))),
                denominator == pow10((k - start) as nat),
            decreases n - k,
        {
            let b = bytes[k];
            let ghost j = (k - start) as int;
            assert(s@[k as int] as u8 as char == s@[k as int]);
            assert(fraction[j] == s@[k as int]);
            assert(digits[dot + j] == fraction[j]);
            if !byte_is_digit(b) {
                return None;
            }
            let d: u64 = (b - 0x30) as u64;
            proof {
                lemma_digits_value_step(digits, dot + j);
            }
            if numerator > (u64::MAX - d) / 10 {
                proof {
                    if is_digits(fraction) {
                        lemma_digits_value_grows(digits, dot + j + 1);
                    }
                }
                return None;
            }
            if denominator > u64::MAX / 10 {
                proof {
                    lemma_pow10_grows((j + 1) as nat, fraction.len());
                }
                return None;
            }
            numerator = numerator * 10 + d;
            denominator = denominator * 10;
            k += 1;
        }
        proof {
            assert(digits.take(digits.len() as int) =~= digits);
            lemma_pow10_grows(0, fraction.len());
        }
        Some(Ratio { numerator, denominator })
    }
}

proof fn lemma_dot_bounds(s: Seq<char>)
    ensures
        0 <= dot_index(s) <= s.len(),
        dot_index(s) < s.len() ==> s[dot_index(s)] == '.',
    decreases s.len(),
{
    if s.len() != 0 && s[0] != '.' {
        lemma_dot_bounds(s.drop_first());
    }
}

} // verus!
