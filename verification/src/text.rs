//! Numbers written out as text.

use vstd::prelude::*;
use vstd::string::StringExecFns;

verus! {

/// The character for the digit `d`: `0` to `9`, then `a` to `f`.
pub open spec fn digit_char(d: int) -> char {
    if d < 10 {
        ('0' as int + d) as char
    } else {
        ('a' as int + d - 10) as char
    }
}

/// `n` written in decimal: its digits, the most significant first, without
/// leading zeros; the single digit `0` for 0.
pub open spec fn decimal(n: nat) -> Seq<char>
    decreases n,
{
    if n < 10 {
        seq![digit_char(n as int)]
    } else {
        decimal(n / 10).push(digit_char((n % 10) as int))
    }
}

/// `n` written in hexadecimal, in the same way, with the letters in lower
/// case.
pub open spec fn hexadecimal(n: nat) -> Seq<char>
    decreases n,
{
    if n < 16 {
        seq![digit_char(n as int)]
    } else {
        hexadecimal(n / 16).push(digit_char((n % 16) as int))
    }
}

/// The character for the digit `d`, with the letters in upper case.
pub open spec fn capital_digit_char(d: int) -> char {
    if d < 10 {
        ('0' as int + d) as char
    } else {
        ('A' as int + d - 10) as char
    }
}

/// `n` written in hexadecimal with the letters in upper case.
pub open spec fn capital_hexadecimal(n: nat) -> Seq<char>
    decreases n,
{
    if n < 16 {
        seq![capital_digit_char(n as int)]
    } else {
        capital_hexadecimal(n / 16).push(capital_digit_char((n % 16) as int))
    }
}

/// The text of one digit.
fn digit_str(d: usize) -> (text: &'static str)
    requires
        d < 16,
    ensures
        text@ == seq![digit_char(d as int)],
{
    proof {
        reveal_strlit("0");
        reveal_strlit("1");
        reveal_strlit("2");
        reveal_strlit("3");
        reveal_strlit("4");
        reveal_strlit("5");
        reveal_strlit("6");
        reveal_strlit("7");
        reveal_strlit("8");
        reveal_strlit("9");
        reveal_strlit("a");
        reveal_strlit("b");
        reveal_strlit("c");
        reveal_strlit("d");
        reveal_strlit("e");
        reveal_strlit("f");
    }
    let text: &'static str = match d {
        0 => "0",
        1 => "1",
        2 => "2",
        3 => "3",
        4 => "4",
        5 => "5",
        6 => "6",
        7 => "7",
        8 => "8",
        9 => "9",
        10 => "a",
        11 => "b",
        12 => "c",
        13 => "d",
        14 => "e",
        _ => "f",
    };
    assert(text@ =~= seq![digit_char(d as int)]);
    text
}

/// The text of one digit, with the letters in upper case.
fn capital_digit_str(d: usize) -> (text: &'static str)
    requires
        d < 16,
    ensures
        text@ == seq![capital_digit_char(d as int)],
{
    proof {
        reveal_strlit("A");
        reveal_strlit("B");
        reveal_strlit("C");
        reveal_strlit("D");
        reveal_strlit("E");
        reveal_strlit("F");
    }
    let text: &'static str = match d {
        10 => "A",
        11 => "B",
        12 => "C",
        13 => "D",
        14 => "E",
        15 => "F",
        _ => digit_str(d),
    };
    assert(text@ =~= seq![capital_digit_char(d as int)]);
    text
}

/// Appends `n`, written in decimal, to `text`.
pub fn push_decimal(text: &mut String, n: usize)
    ensures
        final(text)@ == old(text)@ + decimal(n as nat),
    decreases n,
{
    if n >= 10 {
        push_decimal(text, n / 10);
    }
    text.append(digit_str(n % 10));
    assert(text@ =~= old(text)@ + decimal(n as nat));
}

/// Appends `n`, written in hexadecimal, to `text`.
pub fn push_hexadecimal(text: &mut String, n: usize)
    ensures
        final(text)@ == old(text)@ + hexadecimal(n as nat),
    decreases n,
{
    if n >= 16 {
        push_hexadecimal(text, n / 16);
    }
    text.append(digit_str(n % 16));
    assert(text@ =~= old(text)@ + hexadecimal(n as nat));
}

/// Appends `n`, written in hexadecimal with the letters in upper case, to
/// `text`.
pub fn push_capital_hexadecimal(text: &mut String, n: usize)
    ensures
        final(text)@ == old(text)@ + capital_hexadecimal(n as nat),
    decreases n,
{
    if n >= 16 {
        push_capital_hexadecimal(text, n / 16);
    }
    text.append(capital_digit_str(n % 16));
    assert(text@ =~= old(text)@ + capital_hexadecimal(n as nat));
}

} // verus!
