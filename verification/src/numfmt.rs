//! Decimal formatting of integers, used for diagnostic messages and for
//! building `/proc` paths.

use vstd::prelude::*;

verus! {

/// The character for one decimal digit.
pub open spec fn spec_digit(d: int) -> char {
    if d == 0 {
        '0'
    } else if d == 1 {
        '1'
    } else if d == 2 {
        '2'
    } else if d == 3 {
        '3'
    } else if d == 4 {
        '4'
    } else if d == 5 {
        '5'
    } else if d == 6 {
        '6'
    } else if d == 7 {
        '7'
    } else if d == 8 {
        '8'
    } else {
        '9'
    }
}

/// The decimal digits of `n`, most significant first, with no sign and no
/// leading zeros (a single `'0'` for zero).
pub open spec fn spec_dec(n: nat) -> Seq<char>
    decreases n,
{
    if n < 10 {
        seq![spec_digit(n as int)]
    } else {
        spec_dec(n / 10) + seq![spec_digit((n % 10) as int)]
    }
}

/// The decimal form of a signed value: a leading `'-'` when negative.
pub open spec fn spec_dec_i32(n: int) -> Seq<char> {
    if n < 0 {
        seq!['-'] + spec_dec((-n) as nat)
    } else {
        spec_dec(n as nat)
    }
}

fn digit_str(d: u32) -> (r: String)
    requires
        d < 10,
    ensures
        r@ == seq![spec_digit(d as int)],
{
    let s: &str = match d {
        0 => "0",
        1 => "1",
        2 => "2",
        3 => "3",
        4 => "4",
        5 => "5",
        6 => "6",
        7 => "7",
        8 => "8",
        _ => "9",
    };
    proof {
        reveal_strlit("0");
        reveal_strlit("1");
        reveal_strlit("2");
        reveal_strlit("3");
        reveal_strlit("4");
        reveal_strlit("5");
        reveal_strlit("6");
        reveal_strlit("7");
        reveal_strlit("8");
        reveal_strlit("9");
        assert(s@ =~= seq![spec_digit(d as int)]);
    }
    String::from_str(s)
}

/// Formats an unsigned value in decimal.
pub fn u32_to_string(n: u32) -> (r: String)
    ensures
        r@ == spec_dec(n as nat),
{
    let mut s: String = digit_str(n % 10);
    let mut m: u32 = n / 10;
    proof {
        assert(m == 0 ==> s@ == spec_dec(n as nat));
        assert(m > 0 ==> spec_dec(n as nat) == spec_dec(m as nat) + s@);
    }
    while m > 0
        invariant
            if m == 0 {
                s@ == spec_dec(n as nat)
            } else {
                spec_dec(n as nat) == spec_dec(m as nat) + s@
            },
        decreases m,
    {
        let d: String = digit_str(m % 10);
        let ghost old_m = m as nat;
        let ghost old_s = s@;
        s = d.concat(s.as_str());
        m = m / 10;
        proof {
            if m == 0 {
                assert(spec_dec(old_m) == seq![spec_digit((old_m % 10) as int)]);
                assert(s@ =~= spec_dec(old_m) + old_s);
            } else {
                assert(spec_dec(old_m) == spec_dec(old_m / 10) + seq![spec_digit(
                    (old_m % 10) as int,
                )]);
                assert(spec_dec(m as nat) + s@ =~= spec_dec(old_m) + old_s);
            }
        }
    }
    s
}

/// Formats a signed value in decimal.
pub fn i32_to_string(n: i32) -> (r: String)
    ensures
        r@ == spec_dec_i32(n as int),
{
    if n >= 0 {
        u32_to_string(n as u32)
    } else {
        let mag: u32 = if n == i32::MIN {
            0x8000_0000u32
        } else {
            (-n) as u32
        };
        let tail = u32_to_string(mag);
        let r = String::from_str("-").concat(tail.as_str());
        proof {
            reveal_strlit("-");
            assert(r@ =~= seq!['-'] + spec_dec(mag as nat));
        }
        r
    }
}

} // verus!
