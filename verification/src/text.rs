//! Numbers as decimal text, and the std calls that read and write them.

use vstd::prelude::*;

verus! {

/// Whether `c` is one of the ten decimal digits.
pub open spec fn is_digit(c: char) -> bool {
    '0' <= c <= '9'
}

/// The number that the digit `c` stands for.
pub open spec fn digit_value(c: char) -> nat {
    (c as nat - '0' as nat) as nat
}

/// The digit that stands for `d`, a number below ten.
pub open spec fn digit_char(d: nat) -> char {
    (d + '0' as nat) as char
}

/// Whether `s` is made of decimal digits only, and of at least one.
pub open spec fn is_digits(s: Seq<char>) -> bool {
    s.len() > 0 && forall|i: int| 0 <= i < s.len() ==> is_digit(#[trigger] s[i])
}

/// The number that the digits `s` spell, the first digit weighing most.
pub open spec fn digits_value(s: Seq<char>) -> nat
    decreases s.len(),
{
    if s.len() == 0 {
        0
    } else {
        digits_value(s.drop_last()) * 10 + digit_value(s.last())
    }
}

/// The decimal text of `n`: no sign, no leading zero but for zero itself.
pub open spec fn decimal_text(n: nat) -> Seq<char>
    decreases n,
{
    if n < 10 {
        seq![digit_char(n)]
    } else {
        decimal_text(n / 10).push(digit_char(n % 10))
    }
}

/// Whether the text `s` is read as the number `n`: an optional `+`, then
/// digits that spell `n`. Nothing else may stand in `s`, not even a space.
pub open spec fn reads_as(s: Seq<char>, n: nat) -> bool {
    let digits = if s.len() > 0 && s[0] == '+' {
        s.drop_first()
    } else {
        s
    };
    is_digits(digits) && digits_value(digits) == n
}

/// Whether the text `s` is read as some number up to `max`.
pub open spec fn reads_within(s: Seq<char>, max: nat) -> bool {
    exists|n: nat| n <= max && #[trigger] reads_as(s, n)
}

/// `u128::to_string`: the decimal text of `n`.
#[verifier::external_body]
pub(crate) fn u128_to_string(n: u128) -> (s: String)
    ensures
        s@ == decimal_text(n as nat),
{
    n.to_string()
}

/// `str::parse::<u128>`: succeeds exactly on an optional `+` followed by
/// digits whose number fits in 128 bits, and gives that number. On failure
/// the message of std's error comes back.
#[verifier::external_body]
pub(crate) fn parse_u128(s: &str) -> (r: Result<u128, String>)
    ensures
        r matches Ok(n) ==> reads_as(s@, n as nat),
        r is Err ==> !reads_within(s@, u128::MAX as nat),
{
    s.parse::<u128>().map_err(|e| e.to_string())
}

/// `str::parse::<u64>`: succeeds exactly on an optional `+` followed by
/// digits whose number fits in 64 bits, and gives that number.
#[verifier::external_body]
pub(crate) fn parse_u64(s: &str) -> (r: Option<u64>)
    ensures
        r matches Some(n) ==> reads_as(s@, n as nat),
        r is None ==> !reads_within(s@, u64::MAX as nat),
{
    s.parse::<u64>().ok()
}

/// A text is read as at most one number.
pub proof fn lemma_reads_as_unique(s: Seq<char>, a: nat, b: nat)
    requires
        reads_as(s, a),
        reads_as(s, b),
    ensures
        a == b,
{
}

/// The decimal text of a number is read as that number again: it is made
/// of digits only, it carries no sign, and its digits spell the number.
pub proof fn lemma_decimal_text_reads_back(n: nat)
    ensures
        is_digits(decimal_text(n)),
        digits_value(decimal_text(n)) == n,
        reads_as(decimal_text(n), n),
    decreases n,
{
    let s = decimal_text(n);
    if n < 10 {
        assert(s.len() == 1);
        assert(s[0] == digit_char(n));
        assert(is_digit(s[0]));
        assert(s.drop_last() =~= Seq::<char>::empty());
        assert(digits_value(s.drop_last()) == 0);
        assert(digit_value(s.last()) == n);
    } else {
        let p = decimal_text(n / 10);
        lemma_decimal_text_reads_back(n / 10);
        assert(s == p.push(digit_char(n % 10)));
        assert(s.drop_last() =~= p);
        assert(s.last() == digit_char(n % 10));
        assert(is_digit(s.last()));
        assert(digit_value(s.last()) == n % 10);
        assert forall|i: int| 0 <= i < s.len() implies is_digit(#[trigger] s[i]) by {
            if i < p.len() {
                assert(s[i] == p[i]);
            }
        }
        assert(s[0] == p[0]);
    }
    assert(is_digit(s[0]));
}

} // verus!
