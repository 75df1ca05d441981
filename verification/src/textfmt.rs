//! Verified text formatting: decimal rendering of integers and the
//! one-decimal display of an elapsed time measured in tenths of a second.

use vstd::prelude::*;

verus! {

/// The decimal digit character for a value below ten.
pub open spec fn dec_digit(d: nat) -> char {
    if d == 0 {
        '0'
    } else if d == 1 {
        '1'
    } else if d == 2 {
        '2'
    } else if d == 3 {
        '3'
    } else if d == 4 {
        '4'
    } else if d == 5 {
        '5'
    } else if d == 6 {
        '6'
    } else if d == 7 {
        '7'
    } else if d == 8 {
        '8'
    } else {
        '9'
    }
}

/// The decimal digit string of a natural number, most significant digit
/// first, with no leading zeros (a lone zero for zero itself).
pub open spec fn dec_seq(n: nat) -> Seq<char>
    decreases n,
{
    if n < 10 {
        seq![dec_digit(n)]
    } else {
        dec_seq(n / 10).push(dec_digit(n % 10))
    }
}

/// An elapsed time of `ds` tenths of a second, shown with one decimal:
/// whole seconds, a dot, then the tenths digit.
pub open spec fn elapsed_display(ds: nat) -> Seq<char> {
    dec_seq(ds / 10) + "."@ + seq![dec_digit(ds % 10)]
}

/// Returns the one-character string of a single decimal digit.
fn digit_str(d: u64) -> (r: &'static str)
    requires
        d < 10,
    ensures
        r@ == seq![dec_digit(d as nat)],
{
    proof {
        reveal_strlit("0");
        reveal_strlit("1");
        reveal_strlit("2");
        reveal_strlit("3");
        reveal_strlit("4");
        reveal_strlit("5");
        reveal_strlit("6");
        reveal_strlit("7");
        reveal_strlit("8");
        reveal_strlit("9");
    }
    let r: &'static str = match d {
        0 => "0",
        1 => "1",
        2 => "2",
        3 => "3",
        4 => "4",
        5 => "5",
        6 => "6",
        7 => "7",
        8 => "8",
        _ => "9",
    };
    proof {
        assert(r@ =~= seq![dec_digit(d as nat)]);
    }
    r
}

/// Renders a number in decimal, most significant digit first.
pub fn decimal_string(n: u64) -> (r: String)
    ensures
        r@ == dec_seq(n as nat),
    decreases n,
{
    if n < 10 {
        String::from_str(digit_str(n))
    } else {
        let mut s = decimal_string(n / 10);
        s.append(digit_str(n % 10));
        proof {
            assert(s@ =~= dec_seq(n as nat));
        }
        s
    }
}

/// Renders `ds` tenths of a second as seconds with one decimal place,
/// such as thirty tenths giving the digits three, dot, zero.
pub fn elapsed_string(ds: u64) -> (r: String)
    ensures
        r@ == elapsed_display(ds as nat),
{
    let mut s = decimal_string(ds / 10);
    s.append(".");
    s.append(digit_str(ds % 10));
    proof {
        assert(s@ =~= elapsed_display(ds as nat));
    }
    s
}

/// Rounds a duration in milliseconds to the nearest tenth of a second,
/// halves rounding up.
pub fn round_millis_to_deciseconds(ms: u64) -> (ds: u64)
    requires
        ms + 50 <= u64::MAX,
    ensures
        ds == (ms + 50) / 100,
{
    (ms + 50) / 100
}

/// The number of tenths of a second between a start instant and a later
/// instant, both on the same clock.
pub fn elapsed_deciseconds(start_ds: u64, now_ds: u64) -> (r: u64)
    requires
        start_ds <= now_ds,
    ensures
        r == now_ds - start_ds,
{
    now_ds - start_ds
}

} // verus!
