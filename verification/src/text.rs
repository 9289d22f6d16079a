//! Small pieces of text that the views put together.

use vstd::prelude::*;
use vstd::string::StringExecFns;

verus! {

/// The strings of a list, each by its view.
pub open spec fn strings_view(strings: Seq<String>) -> Seq<Seq<char>> {
    strings.map_values(|s: String| s@)
}

/// The character of the decimal digit `d`.
pub open spec fn digit_of(d: nat) -> char
    recommends
        d < 10,
{
    if d == 0 {
        '0'
    } else if d == 1 {
        '1'
    } else if d == 2 {
        '2'
    } else if d == 3 {
        '3'
    } else if d == 4 {
        '4'
    } else if d == 5 {
        '5'
    } else if d == 6 {
        '6'
    } else if d == 7 {
        '7'
    } else if d == 8 {
        '8'
    } else {
        '9'
    }
}

/// The decimal numeral of `n`, without leading zeros.
pub open spec fn decimal_of(n: nat) -> Seq<char>
    decreases n,
{
    if n < 10 {
        seq![digit_of(n)]
    } else {
        decimal_of(n / 10).push(digit_of(n % 10))
    }
}

/// The numeral of one digit.
fn digit(d: usize) -> (s: &'static str)
    requires
        d < 10,
    ensures
        s@ == seq![digit_of(d as nat)],
{
    proof {
        reveal_strlit("0");
        reveal_strlit("1");
        reveal_strlit("2");
        reveal_strlit("3");
        reveal_strlit("4");
        reveal_strlit("5");
        reveal_strlit("6");
        reveal_strlit("7");
        reveal_strlit("8");
        reveal_strlit("9");
    }
    let s = if d == 0 {
        "0"
    } else if d == 1 {
        "1"
    } else if d == 2 {
        "2"
    } else if d == 3 {
        "3"
    } else if d == 4 {
        "4"
    } else if d == 5 {
        "5"
    } else if d == 6 {
        "6"
    } else if d == 7 {
        "7"
    } else if d == 8 {
        "8"
    } else {
        "9"
    };
    s
}

/// The decimal numeral of `n`.
pub fn decimal(n: usize) -> (s: String)
    ensures
        s@ == decimal_of(n as nat),
    decreases n,
{
    if n < 10 {
        String::from_str(digit(n))
    } else {
        let head = decimal(n / 10);
        let s = head.concat(digit(n % 10));
        s
    }
}

/// `prefix`, then `middle`, then `suffix`, as one string.
pub fn framed(prefix: &str, middle: &str, suffix: &str) -> (s: String)
    ensures
        s@ == prefix@ + middle@ + suffix@,
{
    String::from_str(prefix).concat(middle).concat(suffix)
}

} // verus!
