//! Token identifiers and amounts of tokens.

use crate::chain::error::ChainError;
use crate::proto::ProtoCoin;
use crate::text::{decimal_text, parse_u128, reads_as, reads_within, u128_to_string};
use vstd::prelude::*;
use vstd::string::StringExecFns;

verus! {

/// The shortest denom, in characters.
pub const MIN_DENOM_LEN: usize = 3;

/// The longest denom, in characters.
pub const MAX_DENOM_LEN: usize = 128;

/// Whether `c` may open a denom: a Latin letter of either case.
pub open spec fn is_denom_start(c: char) -> bool {
    ('a' <= c <= 'z') || ('A' <= c <= 'Z')
}

/// Whether `c` may stand after the first character of a denom: a letter, a
/// digit, or one of `/ : . _ -`.
pub open spec fn is_denom_char(c: char) -> bool {
    is_denom_start(c) || ('0' <= c <= '9') || c == '/' || c == ':' || c == '.' || c == '_' || c
        == '-'
}

/// The denom syntax: a letter, then between 2 and 127 further characters,
/// each a letter, a digit or one of `/ : . _ -`.
pub open spec fn valid_denom(s: Seq<char>) -> bool {
    &&& MIN_DENOM_LEN <= s.len() <= MAX_DENOM_LEN
    &&& is_denom_start(s[0])
    &&& forall|i: int| 1 <= i < s.len() ==> is_denom_char(#[trigger] s[i])
}

fn byte_is_denom_start(b: u8) -> (r: bool)
    ensures
        r == is_denom_start(b as char),
{
    (b >= 0x61 && b <= 0x7a) || (b >= 0x41 && b <= 0x5a)
}

fn byte_is_denom_char(b: u8) -> (r: bool)
    ensures
        r == is_denom_char(b as char),
{
    byte_is_denom_start(b) || (b >= 0x30 && b <= 0x39) || b == 0x2f || b == 0x3a || b == 0x2e
        || b == 0x5f || b == 0x2d
}

/// Whether `s` follows the denom syntax.
pub fn is_valid_denom(s: &str) -> (r: bool)
    ensures
        r == valid_denom(s@),
{
    if !s.is_ascii() {
        proof {
            let i = choose|i: int| 0 <= i < s@.len() && !('\0' <= #[trigger] s@[i] <= '\u{7f}');
            assert(!is_denom_char(s@[i]));
        }
        return false;
    }
    proof {
        vstd::string::is_ascii_spec_bytes(s);
    }
    let bytes = s.as_bytes();
    let n = bytes.len();
    if n < MIN_DENOM_LEN || n > MAX_DENOM_LEN {
        return false;
    }
    assert(s@[0] as u8 as char == s@[0]);
    if !byte_is_denom_start(bytes[0]) {
        return false;
    }
    let mut i: usize = 1;
    while i < n
        invariant
            1 <= i <= n,
            n == s@.len(),
            n == bytes@.len(),
            vstd::string::is_ascii(s),
            forall|j: int| 0 <= j < n ==> bytes@[j] == s@[j] as u8,
            forall|j: int| 1 <= j < i ==> is_denom_char(#[trigger] s@[j]),
        decreases n - i,
    {
        assert(s@[i as int] as u8 as char == s@[i as int]);
        if !byte_is_denom_char(bytes[i]) {
            return false;
        }
        i += 1;
    }
    true
}

/// A token identifier that follows the denom syntax.
#[derive(Debug, PartialEq, Eq, PartialOrd, Ord, Hash)]
pub struct Denom(String);

impl View for Denom {
    type V = Seq<char>;

    closed spec fn view(&self) -> Seq<char> {
        self.0@
    }
}

impl DeepView for Denom {
    type V = Seq<char>;

    open spec fn deep_view(&self) -> Seq<char> {
        self@
    }
}

impl Clone for Denom {
    fn clone(&self) -> (r: Self)
        ensures
            r@ == self@,
    {
        proof {
            use_type_invariant(self);
        }
        Denom(self.0.clone())
    }
}

impl Denom {
    #[verifier::type_invariant]
    spec fn well_formed(&self) -> bool {
        valid_denom(self.0@)
    }

    /// Checks `s` against the denom syntax. Text that follows it becomes a
    /// denom with the same characters; any other text is refused under its
    /// own name.
    pub fn from_str(s: &str) -> (r: Result<Denom, ChainError>)
        ensures
            valid_denom(s@) ==> (r matches Ok(d) && d@ == s@),
            !valid_denom(s@) ==> (r matches Err(ChainError::Denom { name }) && name@ == s@),
    {
        if is_valid_denom(s) {
            Ok(Denom(s.to_owned()))
        } else {
            Err(ChainError::Denom { name: s.to_owned() })
        }
    }

    /// The text of this denom, which follows the denom syntax.
    pub fn as_ref(&self) -> (s: &str)
        ensures
            s@ == self@,
            valid_denom(s@),
    {
        proof {
            use_type_invariant(self);
        }
        self.0.as_str()
    }

    /// Gives up the denom for its text.
    pub fn into_string(self) -> (s: String)
        ensures
            s@ == self@,
            valid_denom(s@),
    {
        proof {
            use_type_invariant(&self);
        }
        self.0
    }
}

impl std::str::FromStr for Denom {
    type Err = ChainError;

    /// Checks `s` against the denom syntax, as `Denom::from_str` does: text
    /// that follows it becomes a denom with the same characters; any other
    /// text is refused under its own name.
    fn from_str(s: &str) -> (r: Result<Self, ChainError>)
        ensures
            valid_denom(s@) ==> (r matches Ok(d) && d@ == s@),
            !valid_denom(s@) ==> (r matches Err(ChainError::Denom { name }) && name@ == s@),
    {
        Denom::from_str(s)
    }
}

/// An amount of one token.
#[derive(Debug, PartialEq, Eq, Hash)]
pub struct Coin {
    pub denom: Denom,
    pub amount: u128,
}

/// What a coin holds: the characters of its denom, and its amount.
pub struct CoinView {
    pub denom: Seq<char>,
    pub amount: u128,
}

impl DeepView for Coin {
    type V = CoinView;

    open spec fn deep_view(&self) -> CoinView {
        CoinView { denom: self.denom@, amount: self.amount }
    }
}

impl View for Coin {
    type V = CoinView;

    open spec fn view(&self) -> CoinView {
        self.deep_view()
    }
}

impl Clone for Coin {
    fn clone(&self) -> (r: Self)
        ensures
            r@ == self@,
    {
        Coin { denom: self.denom.clone(), amount: self.amount }
    }
}

impl Coin {
    /// The coin as the chain prints it: the amount in decimal, then the
    /// denom, with nothing between.
    pub fn to_string(&self) -> (s: String)
        ensures
            s@ == decimal_text(self.amount as nat) + self.denom@,
    {
        let mut out = u128_to_string(self.amount);
        out.append(self.denom.as_ref());
        out
    }

    /// Reads a coin message. The denom is checked first; then the amount
    /// must be decimal text of a number that fits in 128 bits.
    pub fn from_proto(coin: ProtoCoin) -> (r: Result<Coin, ChainError>)
        ensures
            !valid_denom(coin.denom@) ==> (r matches Err(ChainError::Denom { name }) && name@
                == coin.denom@),
            valid_denom(coin.denom@) && !reads_within(coin.amount@, u128::MAX as nat) ==> (r matches Err(
                ChainError::ProtoDecoding { .. },
            )),
            valid_denom(coin.denom@) && reads_within(coin.amount@, u128::MAX as nat) ==> (r matches Ok(c)
                && c.denom@ == coin.denom@ && reads_as(coin.amount@, c.amount as nat)),
    {
        let denom = match Denom::from_str(coin.denom.as_str()) {
            Ok(d) => d,
            Err(e) => {
                return Err(e);
            },
        };
        match parse_u128(coin.amount.as_str()) {
            Ok(amount) => Ok(Coin { denom, amount }),
            Err(message) => Err(ChainError::ProtoDecoding { message }),
        }
    }

    /// Writes the coin as a message: the denom's text and the amount in
    /// decimal.
    pub fn into_proto(self) -> (r: ProtoCoin)
        ensures
            r.denom@ == self.denom@,
            r.amount@ == decimal_text(self.amount as nat),
    {
        let amount = u128_to_string(self.amount);
        ProtoCoin { denom: self.denom.into_string(), amount }
    }
}

/// A coin survives its message form: the message that `into_proto` writes
/// for a coin is readable, and read back it is that coin again.
pub proof fn lemma_coin_message_round_trip(coin: CoinView, message_denom: Seq<char>, message_amount: Seq<char>)
    requires
        valid_denom(coin.denom),
        message_denom == coin.denom,
        message_amount == decimal_text(coin.amount as nat),
    ensures
        valid_denom(message_denom),
        reads_within(message_amount, u128::MAX as nat),
        forall|n: nat| reads_as(message_amount, n) ==> n == coin.amount,
{
    crate::text::lemma_decimal_text_reads_back(coin.amount as nat);
    assert(reads_as(message_amount, coin.amount as nat));
    assert forall|n: nat| reads_as(message_amount, n) implies n == coin.amount by {
        crate::text::lemma_reads_as_unique(message_amount, n, coin.amount as nat);
    }
}

} // verus!
