//! The four textual encodings of a UUID, held as its 128-bit value.

use vstd::arithmetic::power2::pow2;
use vstd::prelude::*;

use crate::options::Format;

verus! {

/// The lowercase hex digit of `d`, for `0 <= d < 16`.
pub open spec fn hex_digit(d: int) -> char {
    seq!['0', '1', '2', '3', '4', '5', '6', '7', '8', '9', 'a', 'b', 'c', 'd', 'e', 'f'][d]
}

/// The decimal digit of `d`, for `0 <= d < 10`.
pub open spec fn decimal_digit(d: int) -> char {
    seq!['0', '1', '2', '3', '4', '5', '6', '7', '8', '9'][d]
}

/// The `i`-th group of four bits of `u`, counted from the most significant.
pub open spec fn nibble(u: u128, i: int) -> int {
    (u as int / pow2((4 * (31 - i)) as nat) as int) % 16
}

/// `u` as 32 lowercase hex digits, most significant first.
pub open spec fn simple_text(u: u128) -> Seq<char> {
    Seq::new(32, |i: int| hex_digit(nibble(u, i)))
}

/// `u` in the 8-4-4-4-12 hyphenated form.
pub open spec fn hyphenated_text(u: u128) -> Seq<char> {
    let s = simple_text(u);
    s.subrange(0, 8) + seq!['-'] + s.subrange(8, 12) + seq!['-'] + s.subrange(12, 16) + seq!['-']
        + s.subrange(16, 20) + seq!['-'] + s.subrange(20, 32)
}

/// `u` as a URN: `urn:uuid:` and the hyphenated form.
pub open spec fn urn_text(u: u128) -> Seq<char> {
    "urn:uuid:"@ + hyphenated_text(u)
}

/// `n` in decimal, without leading zeros.
pub open spec fn decimal_text(n: nat) -> Seq<char>
    decreases n,
{
    if n < 10 {
        seq![decimal_digit(n as int)]
    } else {
        decimal_text(n / 10).push(decimal_digit((n % 10) as int))
    }
}

/// `u` in the encoding `f`.
pub open spec fn encoded(u: u128, f: Format) -> Seq<char> {
    match f {
        Format::Hex => simple_text(u),
        Format::Normal => hyphenated_text(u),
        Format::Urn => urn_text(u),
        Format::Integer => decimal_text(u as nat),
    }
}

spec fn pow10(k: nat) -> nat
    decreases k,
{
    if k == 0 {
        1
    } else {
        10 * pow10((k - 1) as nat)
    }
}

/// A number below `10^k` has at most `k` decimal digits; one of at least
/// `10^k` has more than `k`.
proof fn lemma_decimal_len(n: nat, k: nat)
    ensures
        k >= 1 && n < pow10(k) ==> decimal_text(n).len() <= k,
        n >= pow10(k) ==> decimal_text(n).len() > k,
    decreases n,
{
    if n >= 10 {
        if k >= 1 {
            let p = pow10((k - 1) as nat);
            assert(n < 10 * p ==> n / 10 < p) by (nonlinear_arith);
            assert(n >= 10 * p ==> n / 10 >= p) by (nonlinear_arith);
            lemma_decimal_len(n / 10, (k - 1) as nat);
        }
        if k == 0 {
            lemma_decimal_len(n / 10, 0);
        }
    } else {
        if k >= 1 {
            assert(pow10((k - 1) as nat) >= 1) by {
                lemma_pow10_positive((k - 1) as nat);
            }
        }
    }
}

proof fn lemma_pow10_positive(k: nat)
    ensures
        pow10(k) >= 1,
    decreases k,
{
    if k > 0 {
        lemma_pow10_positive((k - 1) as nat);
    }
}

/// Every encoding of a UUID is at most `f.char_length()` characters long;
/// all but the decimal one have exactly that length.
pub proof fn lemma_encoded_len(u: u128, f: Format)
    ensures
        encoded(u, f).len() <= f.max_len(),
        f != Format::Integer ==> encoded(u, f).len() == f.max_len(),
{
    reveal_strlit("urn:uuid:");
    if f == Format::Integer {
        reveal_with_fuel(pow10, 40);
        assert(pow10(39) == 1000000000000000000000000000000000000000nat);
        lemma_decimal_len(u as nat, 39);
    }
}

impl Format {
    /// The length of the longest encoding of a UUID in this format.
    pub open spec fn max_len(self) -> nat {
        match self {
            Format::Normal => 36,
            Format::Hex => 32,
            Format::Urn => 45,
            Format::Integer => 39,
        }
    }

    /// The number of characters that the longest UUID takes in this format.
    pub fn char_length(&self) -> (r: usize)
        ensures
            r == self.max_len(),
            forall|u: u128| #[trigger] encoded(u, *self).len() <= r,
            exists|u: u128| #[trigger] encoded(u, *self).len() == r,
    {
        proof {
            assert forall|u: u128| #[trigger] encoded(u, *self).len() <= self.max_len() by {
                lemma_encoded_len(u, *self);
            }
            if *self == Format::Integer {
                reveal_with_fuel(pow10, 40);
                assert(pow10(38) == 100000000000000000000000000000000000000nat);
                lemma_decimal_len(u128::MAX as nat, 38);
                lemma_encoded_len(u128::MAX, *self);
                assert(encoded(u128::MAX, *self).len() == 39);
            } else {
                lemma_encoded_len(0, *self);
            }
        }
        match self {
            Format::Normal => 36,
            Format::Hex => 32,
            Format::Urn => 45,
            Format::Integer => 39,
        }
    }
}

/// Relies on `uuid::Uuid::simple` and its `Display`: 32 lowercase hex digits
/// of the value, most significant first.
#[verifier::external_body]
fn simple_string(u: u128) -> (r: String)
    ensures
        r@ == simple_text(u),
{
    uuid::Uuid::from_u128(u).simple().to_string()
}

/// Relies on `uuid::Uuid::hyphenated` and its `Display`: the lowercase
/// 8-4-4-4-12 form.
#[verifier::external_body]
fn hyphenated_string(u: u128) -> (r: String)
    ensures
        r@ == hyphenated_text(u),
{
    uuid::Uuid::from_u128(u).hyphenated().to_string()
}

/// Relies on `uuid::Uuid::urn` and its `Display`: `urn:uuid:` followed by the
/// lowercase hyphenated form.
#[verifier::external_body]
fn urn_string(u: u128) -> (r: String)
    ensures
        r@ == urn_text(u),
{
    uuid::Uuid::from_u128(u).urn().to_string()
}

fn digit_str(d: u128) -> (r: &'static str)
    requires
        d < 10,
    ensures
        r@ == seq![decimal_digit(d as int)],
{
    proof {
        reveal_strlit("0");
        reveal_strlit("1");
        reveal_strlit("2");
        reveal_strlit("3");
        reveal_strlit("4");
        reveal_strlit("5");
        reveal_strlit("6");
        reveal_strlit("7");
        reveal_strlit("8");
        reveal_strlit("9");
    }
    let r = match d {
        0 => "0",
        1 => "1",
        2 => "2",
        3 => "3",
        4 => "4",
        5 => "5",
        6 => "6",
        7 => "7",
        8 => "8",
        _ => "9",
    };
    assert(r@ =~= seq![decimal_digit(d as int)]);
    r
}

/// Appends `n` in decimal to `out`.
fn push_decimal(n: u128, out: &mut String)
    ensures
        final(out)@ == old(out)@ + decimal_text(n as nat),
    decreases n,
{
    if n >= 10 {
        push_decimal(n / 10, out);
    }
    out.append(digit_str(n % 10));
    assert(out@ =~= old(out)@ + decimal_text(n as nat));
}

fn decimal_string(u: u128) -> (r: String)
    ensures
        r@ == decimal_text(u as nat),
{
    let mut s = String::new();
    push_decimal(u, &mut s);
    assert(s@ =~= decimal_text(u as nat));
    s
}

/// Encodes the UUID with value `u` in the encoding `format`.
pub fn format_uuid(u: u128, format: Format) -> (r: String)
    ensures
        r@ == encoded(u, format),
{
    match format {
        Format::Hex => simple_string(u),
        Format::Normal => hyphenated_string(u),
        Format::Urn => urn_string(u),
        Format::Integer => decimal_string(u),
    }
}

} // verus!
