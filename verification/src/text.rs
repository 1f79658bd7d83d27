//! Decimal text for integers, and the means to build a line from pieces.

use vstd::prelude::*;
use vstd::string::StringExecFns;

verus! {

/// The character that stands for the digit `d`, for `0 <= d <= 9`.
pub open spec fn digit_char(d: int) -> char {
    if d == 0 {
        '0'
    } else if d == 1 {
        '1'
    } else if d == 2 {
        '2'
    } else if d == 3 {
        '3'
    } else if d == 4 {
        '4'
    } else if d == 5 {
        '5'
    } else if d == 6 {
        '6'
    } else if d == 7 {
        '7'
    } else if d == 8 {
        '8'
    } else {
        '9'
    }
}

/// The digits of `n` in base ten, most significant first, without leading
/// zeros; `0` is written as the single digit `0`.
pub open spec fn unsigned_decimal(n: nat) -> Seq<char>
    decreases n,
{
    if n < 10 {
        seq![digit_char(n as int)]
    } else {
        unsigned_decimal(n / 10).push(digit_char((n % 10) as int))
    }
}

/// The decimal text of `n`: a minus sign in front of the digits of `-n`
/// where `n` is negative, the digits of `n` alone where it is not.
pub open spec fn decimal(n: int) -> Seq<char> {
    if n < 0 {
        seq!['-'] + unsigned_decimal((-n) as nat)
    } else {
        unsigned_decimal(n as nat)
    }
}

/// The texts that the strings of `lines` hold.
pub open spec fn texts(lines: Seq<String>) -> Seq<Seq<char>> {
    Seq::new(lines.len(), |i: int| lines[i]@)
}

/// The one-character text of a single digit.
fn digit_text(d: u64) -> (s: &'static str)
    requires
        d < 10,
    ensures
        s@ == seq![digit_char(d as int)],
{
    proof {
        reveal_strlit("0");
        reveal_strlit("1");
        reveal_strlit("2");
        reveal_strlit("3");
        reveal_strlit("4");
        reveal_strlit("5");
        reveal_strlit("6");
        reveal_strlit("7");
        reveal_strlit("8");
        reveal_strlit("9");
    }
    let s = if d == 0 {
        "0"
    } else if d == 1 {
        "1"
    } else if d == 2 {
        "2"
    } else if d == 3 {
        "3"
    } else if d == 4 {
        "4"
    } else if d == 5 {
        "5"
    } else if d == 6 {
        "6"
    } else if d == 7 {
        "7"
    } else if d == 8 {
        "8"
    } else {
        "9"
    };
    assert(s@ =~= seq![digit_char(d as int)]);
    s
}

/// Appends the digits of `n` to `out`.
pub fn push_unsigned(out: &mut String, n: u64)
    ensures
        final(out)@ == old(out)@ + unsigned_decimal(n as nat),
    decreases n,
{
    if n >= 10 {
        push_unsigned(out, n / 10);
    }
    let d: u64 = n % 10;
    out.append(digit_text(d));
    assert(out@ =~= old(out)@ + unsigned_decimal(n as nat));
}

/// Appends the decimal text of `value` to `out`.
pub fn push_decimal(out: &mut String, value: i64)
    ensures
        final(out)@ == old(out)@ + decimal(value as int),
{
    if value < 0 {
        out.append("-");
        proof {
            reveal_strlit("-");
        }
        // The magnitude of the least `i64` does not fit in an `i64`, but the
        // magnitude of `value + 1` does, and one more fits in a `u64`.
        let magnitude: u64 = ((-(value + 1)) as u64) + 1;
        push_unsigned(out, magnitude);
        assert(out@ =~= old(out)@ + decimal(value as int));
    } else {
        push_unsigned(out, value as u64);
    }
}

/// The decimal text of `value` as a string of its own.
pub fn decimal_text(value: i64) -> (s: String)
    ensures
        s@ == decimal(value as int),
{
    let mut s = String::new();
    push_decimal(&mut s, value);
    assert(s@ =~= decimal(value as int));
    s
}

} // verus!
