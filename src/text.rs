//! Decimal rendering of integers, as used on the turntable's wire.
use vstd::prelude::*;

verus! {

/// The ASCII digit for `d`, which lies in `0..10`.
pub open spec fn digit_char(d: int) -> char {
    seq!['0', '1', '2', '3', '4', '5', '6', '7', '8', '9'][d]
}

/// The decimal digits of `n`, most significant first, without leading zeros.
pub open spec fn decimal(n: nat) -> Seq<char>
    decreases n,
{
    if n < 10 {
        seq![digit_char(n as int)]
    } else {
        decimal(n / 10).push(digit_char((n % 10) as int))
    }
}

/// `v` written in decimal, with a leading `-` when it is negative.
pub open spec fn signed_decimal(v: int) -> Seq<char> {
    if v < 0 {
        seq!['-'] + decimal((-v) as nat)
    } else {
        decimal(v as nat)
    }
}

/// A quantity held in hundredths, written with exactly two decimals:
/// `-3050` is `-30.50`, `5` is `0.05`.
pub open spec fn fixed2(v: int) -> Seq<char> {
    let m = if v < 0 { -v } else { v };
    let sign = if v < 0 { seq!['-'] } else { Seq::<char>::empty() };
    sign + decimal((m / 100) as nat) + seq!['.', digit_char((m % 100) / 10), digit_char(m % 10)]
}

fn digit_str(d: u64) -> (r: &'static str)
    requires
        d < 10,
    ensures
        r@ == seq![digit_char(d as int)],
{
    proof {
        reveal_strlit("0");
        reveal_strlit("1");
        reveal_strlit("2");
        reveal_strlit("3");
        reveal_strlit("4");
        reveal_strlit("5");
        reveal_strlit("6");
        reveal_strlit("7");
        reveal_strlit("8");
        reveal_strlit("9");
    }
    match d {
        0 => "0",
        1 => "1",
        2 => "2",
        3 => "3",
        4 => "4",
        5 => "5",
        6 => "6",
        7 => "7",
        8 => "8",
        _ => "9",
    }
}

/// Appends the decimal digits of `n` to `s`.
pub fn push_decimal(s: &mut String, n: u64)
    ensures
        final(s)@ == old(s)@ + decimal(n as nat),
    decreases n,
{
    if n >= 10 {
        push_decimal(s, n / 10);
    }
    s.append(digit_str(n % 10));
    assert(s@ =~= old(s)@ + decimal(n as nat));
}

/// Appends `v` in decimal, with a leading `-` when it is negative.
pub fn push_signed_decimal(s: &mut String, v: i64)
    ensures
        final(s)@ == old(s)@ + signed_decimal(v as int),
{
    proof {
        reveal_strlit("-");
    }
    let m: u64 = if v < 0 {
        s.append("-");
        (-(v as i128)) as u64
    } else {
        v as u64
    };
    push_decimal(s, m);
    assert(s@ =~= old(s)@ + signed_decimal(v as int));
}

/// Appends `v`, a quantity in hundredths, with exactly two decimals.
pub fn push_fixed2(s: &mut String, v: i64)
    ensures
        final(s)@ == old(s)@ + fixed2(v as int),
{
    proof {
        reveal_strlit("-");
        reveal_strlit(".");
    }
    let m: u64 = if v < 0 {
        s.append("-");
        (-(v as i128)) as u64
    } else {
        v as u64
    };
    push_decimal(s, m / 100);
    s.append(".");
    s.append(digit_str((m % 100) / 10));
    s.append(digit_str(m % 10));
    assert(s@ =~= old(s)@ + fixed2(v as int));
}

} // verus!
