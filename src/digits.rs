use vstd::prelude::*;
use vstd::string::*;

verus! {

/// The ten decimal digits, in order.
pub open spec fn digit_chars() -> Seq<char> {
    "0123456789"@
}

/// The character of a decimal digit.
pub open spec fn digit(v: int) -> char {
    digit_chars()[v]
}

/// A value below one hundred as exactly two digits.
pub open spec fn pad2(v: int) -> Seq<char> {
    seq![digit(v / 10), digit(v % 10)]
}

/// A value below ten thousand as exactly four digits.
pub open spec fn pad4(v: int) -> Seq<char> {
    seq![digit(v / 1000), digit((v / 100) % 10), digit((v / 10) % 10), digit(v % 10)]
}

/// Decimal notation of a natural number, without leading zeros.
pub open spec fn decimal(n: nat) -> Seq<char>
    decreases n,
{
    if n < 10 {
        seq![digit(n as int)]
    } else {
        decimal(n / 10).push(digit((n % 10) as int))
    }
}

/// Decimal notation of an integer, with a leading minus sign when negative.
pub open spec fn signed_decimal(n: int) -> Seq<char> {
    if n < 0 {
        seq!['-'] + decimal((-n) as nat)
    } else {
        decimal(n as nat)
    }
}

/// Appends the digit `v` to `s`.
pub fn push_digit(s: &mut String, v: u64)
    requires
        v < 10,
    ensures
        final(s)@ == old(s)@.push(digit(v as int)),
{
    let all: &str = "0123456789";
    proof {
        reveal_strlit("0123456789");
    }
    let one = all.substring_char(v as usize, v as usize + 1);
    assert(one@ =~= seq![digit(v as int)]);
    s.append(one);
}

/// Appends `v` as two digits.
pub fn push_pad2(s: &mut String, v: u64)
    requires
        v < 100,
    ensures
        final(s)@ == old(s)@ + pad2(v as int),
{
    push_digit(s, v / 10);
    push_digit(s, v % 10);
    assert(final(s)@ =~= old(s)@ + pad2(v as int));
}

/// Appends `v` as four digits.
pub fn push_pad4(s: &mut String, v: u64)
    requires
        v < 10000,
    ensures
        final(s)@ == old(s)@ + pad4(v as int),
{
    push_digit(s, v / 1000);
    push_digit(s, (v / 100) % 10);
    push_digit(s, (v / 10) % 10);
    push_digit(s, v % 10);
    assert(final(s)@ =~= old(s)@ + pad4(v as int));
}

/// Appends the decimal notation of `n`.
pub fn push_decimal(s: &mut String, n: u64)
    ensures
        final(s)@ == old(s)@ + decimal(n as nat),
    decreases n,
{
    if n >= 10 {
        push_decimal(s, n / 10);
        push_digit(s, n % 10);
        assert(final(s)@ =~= old(s)@ + decimal(n as nat));
    } else {
        push_digit(s, n);
        assert(final(s)@ =~= old(s)@ + decimal(n as nat));
    }
}

/// Appends the decimal notation of a signed integer.
pub fn push_signed_decimal(s: &mut String, n: i64)
    ensures
        final(s)@ == old(s)@ + signed_decimal(n as int),
{
    if n < 0 {
        s.append("-");
        proof {
            reveal_strlit("-");
        }
        let magnitude: u64 = ((-(n + 1)) as u64) + 1;
        push_decimal(s, magnitude);
        assert(final(s)@ =~= old(s)@ + signed_decimal(n as int));
    } else {
        push_decimal(s, n as u64);
    }
}

} // verus!
