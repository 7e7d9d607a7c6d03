//! Small text builders shared by the manifests and messages.

use vstd::prelude::*;
use vstd::string::*;

verus! {

/// The ASCII digit for `d` (for `d < 10`).
pub open spec fn digit_char(d: nat) -> char {
    (48 + d) as char
}

/// Decimal representation of a natural number, most significant digit first,
/// without leading zeros.
pub open spec fn decimal(n: nat) -> Seq<char>
    decreases n,
{
    if n < 10 {
        seq![digit_char(n)]
    } else {
        decimal(n / 10).push(digit_char(n % 10))
    }
}

/// Decimal representation of a signed integer: a minus sign before the digits of
/// its absolute value when it is negative.
pub open spec fn signed_decimal(n: int) -> Seq<char> {
    if n < 0 {
        seq!['-'].add(decimal((-n) as nat))
    } else {
        decimal(n as nat)
    }
}

/// Appends one character to a string.
///
/// Trusted: `String::push` appends `c` at the end of the string.
#[verifier::external_body]
pub(crate) fn string_push(s: &mut String, c: char)
    ensures
        final(s)@ == old(s)@.push(c),
{
    s.push(c);
}

/// Appends the decimal digits of `n` to `s`.
pub fn push_decimal(s: &mut String, n: u64)
    ensures
        final(s)@ == old(s)@ + decimal(n as nat),
    decreases n,
{
    if n >= 10 {
        push_decimal(s, n / 10);
    }
    let d: u64 = n % 10;
    let c: char = (48u8 + (d as u8)) as char;
    proof {
        assert(c == digit_char(d as nat));
    }
    string_push(s, c);
    proof {
        if n >= 10 {
            assert(decimal(n as nat) == decimal((n / 10) as nat).push(digit_char((n % 10) as nat)));
        }
    }
}

/// Appends the decimal text of `n` to `s`, with a minus sign where it is negative.
pub fn push_signed_decimal(s: &mut String, n: i32)
    ensures
        final(s)@ == old(s)@ + signed_decimal(n as int),
{
    if n < 0 {
        string_push(s, '-');
        let m: i64 = -(n as i64);
        push_decimal(s, m as u64);
        assert(seq!['-'].add(decimal((-n) as nat)) =~= seq!['-'] + decimal((-n) as nat));
        assert(old(s)@ + seq!['-'] + decimal((-n) as nat) =~= old(s)@ + signed_decimal(n as int));
    } else {
        push_decimal(s, n as u64);
    }
}

/// Whether a string equals a text.
pub fn eq_str(s: &String, lit: &str) -> (r: bool)
    ensures
        r == (s@ == lit@),
{
    let t: String = lit.to_owned();
    *s == t
}

} // verus!
