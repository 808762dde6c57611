//! Rendering unsigned integers as decimal strings, verified against a
//! sequence-level specification.

use vstd::prelude::*;

verus! {

/// The character for one decimal digit.
pub open spec fn spec_digit_char(d: nat) -> char {
    if d == 0 {
        '0'
    } else if d == 1 {
        '1'
    } else if d == 2 {
        '2'
    } else if d == 3 {
        '3'
    } else if d == 4 {
        '4'
    } else if d == 5 {
        '5'
    } else if d == 6 {
        '6'
    } else if d == 7 {
        '7'
    } else if d == 8 {
        '8'
    } else {
        '9'
    }
}

/// The decimal rendering of `n`, most significant digit first, with no
/// leading zeros (except for `n == 0`, which renders as `"0"`).
pub open spec fn spec_dec_seq(n: nat) -> Seq<char>
    decreases n,
{
    if n < 10 {
        seq![spec_digit_char(n)]
    } else {
        spec_dec_seq(n / 10) + seq![spec_digit_char(n % 10)]
    }
}

/// A one-character string slice for one decimal digit.
fn digit_str(d: u128) -> (r: &'static str)
    requires
        d < 10,
    ensures
        r@ =~= seq![spec_digit_char(d as nat)],
{
    proof {
        reveal_strlit("0");
        reveal_strlit("1");
        reveal_strlit("2");
        reveal_strlit("3");
        reveal_strlit("4");
        reveal_strlit("5");
        reveal_strlit("6");
        reveal_strlit("7");
        reveal_strlit("8");
        reveal_strlit("9");
    }
    match d {
        0 => "0",
        1 => "1",
        2 => "2",
        3 => "3",
        4 => "4",
        5 => "5",
        6 => "6",
        7 => "7",
        8 => "8",
        _ => "9",
    }
}

/// Render `n` in decimal.
pub fn u128_to_dec(n: u128) -> (r: String)
    ensures
        r@ =~= spec_dec_seq(n as nat),
    decreases n,
{
    if n < 10 {
        digit_str(n).to_owned()
    } else {
        let mut r = u128_to_dec(n / 10);
        r.append(digit_str(n % 10));
        r
    }
}

/// Render `n` in decimal.
pub fn usize_to_dec(n: usize) -> (r: String)
    ensures
        r@ =~= spec_dec_seq(n as nat),
{
    u128_to_dec(n as u128)
}

/// Render `n` in decimal, with a leading minus sign when negative.
pub fn i128_to_dec(n: i128) -> (r: String)
    ensures
        n >= 0 ==> r@ =~= spec_dec_seq(n as nat),
        n < 0 ==> r@ =~= seq!['-'] + spec_dec_seq((-(n as int)) as nat),
{
    if n >= 0 {
        u128_to_dec(n as u128)
    } else {
        proof {
            reveal_strlit("-");
        }
        let mut r: String = "-".to_owned();
        let mag: u128 = if n == i128::MIN {
            170141183460469231731687303715884105728u128
        } else {
            (-n) as u128
        };
        r.append(u128_to_dec(mag).as_str());
        r
    }
}

} // verus!
