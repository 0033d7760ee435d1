//! Decimal text of numbers given in thousandths, as vector drawings expect it:
//! no trailing zeros after the point, and no point for whole numbers.

use vstd::prelude::*;

verus! {

/// The character of the decimal digit `d`.
pub open spec fn digit(d: int) -> char
    recommends
        0 <= d < 10,
{
    seq!['0', '1', '2', '3', '4', '5', '6', '7', '8', '9'][d]
}

/// Decimal digits of `n`, most significant first, without leading zeros.
pub open spec fn digits(n: nat) -> Seq<char>
    decreases n,
{
    if n < 10 {
        seq![digit(n as int)]
    } else {
        digits(n / 10).push(digit((n % 10) as int))
    }
}

/// The part after the point of a fraction of `f` thousandths (`f < 1000`):
/// nothing for zero, else the point and the digits up to the last non-zero one.
pub open spec fn fraction_text(f: nat) -> Seq<char> {
    if f == 0 {
        seq![]
    } else if f % 100 == 0 {
        seq!['.', digit((f / 100) as int)]
    } else if f % 10 == 0 {
        seq!['.', digit((f / 100) as int), digit((f / 10 % 10) as int)]
    } else {
        seq!['.', digit((f / 100) as int), digit((f / 10 % 10) as int), digit((f % 10) as int)]
    }
}

pub open spec fn abs(t: int) -> nat {
    if t < 0 {
        (-t) as nat
    } else {
        t as nat
    }
}

/// Text of the number `t / 1000`: its sign, its whole part and its fraction.
pub open spec fn decimal_text(t: int) -> Seq<char> {
    (if t < 0 {
        seq!['-']
    } else {
        seq![]
    }) + digits(abs(t) / 1000) + fraction_text(abs(t) % 1000)
}

fn digit_str(d: u128) -> (r: &'static str)
    requires
        d < 10,
    ensures
        r@ == seq![digit(d as int)],
{
    proof {
        reveal_strlit("0");
        reveal_strlit("1");
        reveal_strlit("2");
        reveal_strlit("3");
        reveal_strlit("4");
        reveal_strlit("5");
        reveal_strlit("6");
        reveal_strlit("7");
        reveal_strlit("8");
        reveal_strlit("9");
    }
    match d {
        0 => "0",
        1 => "1",
        2 => "2",
        3 => "3",
        4 => "4",
        5 => "5",
        6 => "6",
        7 => "7",
        8 => "8",
        _ => "9",
    }
}

/// Appends the decimal digits of `n`.
pub fn push_digits(s: &mut String, n: u128)
    ensures
        final(s)@ == old(s)@ + digits(n as nat),
    decreases n,
{
    if n >= 10 {
        push_digits(s, n / 10);
    }
    s.append(digit_str(n % 10));
    assert(final(s)@ =~= old(s)@ + digits(n as nat));
}

/// Appends the text of the number `t / 1000`.
pub fn push_decimal(s: &mut String, t: i128)
    requires
        t > i128::MIN,
    ensures
        final(s)@ == old(s)@ + decimal_text(t as int),
{
    let ghost start = s@;
    proof {
        reveal_strlit("-");
        reveal_strlit(".");
    }
    if t < 0 {
        s.append("-");
    }
    let a: u128 = if t < 0 {
        (-t) as u128
    } else {
        t as u128
    };
    assert(a as int == abs(t as int));
    push_digits(s, a / 1000);
    let f: u128 = a % 1000;
    if f != 0 {
        s.append(".");
        s.append(digit_str(f / 100));
        if f % 100 != 0 {
            s.append(digit_str(f / 10 % 10));
            if f % 10 != 0 {
                s.append(digit_str(f % 10));
            }
        }
    }
    assert(s@ =~= start + decimal_text(t as int));
}

} // verus!
