//! The decimal text of integers, and joining strings.

use vstd::prelude::*;
use vstd::string::*;

verus! {

/// The character of a decimal digit.
pub open spec fn digit_char(d: int) -> char {
    if d == 0 {
        '0'
    } else if d == 1 {
        '1'
    } else if d == 2 {
        '2'
    } else if d == 3 {
        '3'
    } else if d == 4 {
        '4'
    } else if d == 5 {
        '5'
    } else if d == 6 {
        '6'
    } else if d == 7 {
        '7'
    } else if d == 8 {
        '8'
    } else {
        '9'
    }
}

/// The decimal digits of a natural number, without leading zeros.
pub open spec fn decimal_digits(n: nat) -> Seq<char>
    decreases n,
{
    if n < 10 {
        seq![digit_char(n as int)]
    } else {
        decimal_digits(n / 10).push(digit_char((n % 10) as int))
    }
}

/// The decimal text of an integer: a minus sign before the digits of a
/// negative number.
pub open spec fn decimal_text(x: int) -> Seq<char> {
    if x < 0 {
        seq!['-'] + decimal_digits((-x) as nat)
    } else {
        decimal_digits(x as nat)
    }
}

/// A decimal digit as a string of one character.
fn digit_str(d: u8) -> (r: &'static str)
    requires
        d < 10,
    ensures
        r@ == seq![digit_char(d as int)],
{
    proof {
        reveal_strlit("0");
        reveal_strlit("1");
        reveal_strlit("2");
        reveal_strlit("3");
        reveal_strlit("4");
        reveal_strlit("5");
        reveal_strlit("6");
        reveal_strlit("7");
        reveal_strlit("8");
        reveal_strlit("9");
    }
    let r = if d == 0 {
        "0"
    } else if d == 1 {
        "1"
    } else if d == 2 {
        "2"
    } else if d == 3 {
        "3"
    } else if d == 4 {
        "4"
    } else if d == 5 {
        "5"
    } else if d == 6 {
        "6"
    } else if d == 7 {
        "7"
    } else if d == 8 {
        "8"
    } else {
        "9"
    };
    assert(r@ =~= seq![digit_char(d as int)]);
    r
}

/// The decimal digits of a natural number.
fn nat_to_string(n: u128) -> (s: String)
    ensures
        s@ == decimal_digits(n as nat),
    decreases n,
{
    if n < 10 {
        owned(digit_str(n as u8))
    } else {
        let s = concat2(nat_to_string(n / 10), digit_str((n % 10) as u8));
        assert(s@ =~= decimal_digits((n / 10) as nat).push(digit_char((n % 10) as int)));
        s
    }
}

/// The decimal text of an integer.
pub(crate) fn int_to_string(x: i128) -> (s: String)
    ensures
        s@ == decimal_text(x as int),
{
    if x < 0 {
        proof {
            reveal_strlit("-");
        }
        let magnitude: u128 = if x == i128::MIN {
            0x8000_0000_0000_0000_0000_0000_0000_0000
        } else {
            (-x) as u128
        };
        let s = concat2(owned("-"), nat_to_string(magnitude).as_str());
        assert(s@ =~= seq!['-'] + decimal_digits((-x) as nat));
        s
    } else {
        nat_to_string(x as u128)
    }
}

/// A copy of a string slice as a `String`.
pub(crate) fn owned(s: &str) -> (r: String)
    ensures
        r@ == s@,
{
    s.to_owned()
}

/// `a` followed by `b`.
pub(crate) fn concat2(a: String, b: &str) -> (r: String)
    ensures
        r@ == a@ + b@,
{
    let mut out = a;
    out.append(b);
    out
}

} // verus!
