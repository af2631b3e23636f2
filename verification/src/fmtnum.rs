//! Decimal rendering of band numbers, with the zero-padding the tile
//! naming scheme asks for.
use vstd::prelude::*;
use vstd::string::*;

verus! {

/// The decimal digit character for `d`.
pub open spec fn digit_char(d: int) -> char {
    if d == 0 {
        '0'
    } else if d == 1 {
        '1'
    } else if d == 2 {
        '2'
    } else if d == 3 {
        '3'
    } else if d == 4 {
        '4'
    } else if d == 5 {
        '5'
    } else if d == 6 {
        '6'
    } else if d == 7 {
        '7'
    } else if d == 8 {
        '8'
    } else {
        '9'
    }
}

/// The decimal representation of `n`, most significant digit first,
/// with no leading zeros (a single `'0'` for zero itself).
pub open spec fn dec_rep(n: nat) -> Seq<char>
    decreases n,
{
    if n < 10 {
        seq![digit_char(n as int)]
    } else {
        dec_rep(n / 10).push(digit_char((n % 10) as int))
    }
}

/// `dec_rep`, left-padded with `'0'` to at least two characters.
pub open spec fn dec_rep2(n: nat) -> Seq<char> {
    if n < 10 {
        seq!['0'] + dec_rep(n)
    } else {
        dec_rep(n)
    }
}

/// `dec_rep`, left-padded with `'0'` to at least three characters.
pub open spec fn dec_rep3(n: nat) -> Seq<char> {
    if n < 10 {
        seq!['0', '0'] + dec_rep(n)
    } else if n < 100 {
        seq!['0'] + dec_rep(n)
    } else {
        dec_rep(n)
    }
}

/// The one-character string for the decimal digit `d`.
fn digit_str(d: u64) -> (r: &'static str)
    requires
        d < 10,
    ensures
        r@ == seq![digit_char(d as int)],
{
    proof {
        reveal_strlit("0");
        reveal_strlit("1");
        reveal_strlit("2");
        reveal_strlit("3");
        reveal_strlit("4");
        reveal_strlit("5");
        reveal_strlit("6");
        reveal_strlit("7");
        reveal_strlit("8");
        reveal_strlit("9");
    }
    let r = if d == 0 {
        "0"
    } else if d == 1 {
        "1"
    } else if d == 2 {
        "2"
    } else if d == 3 {
        "3"
    } else if d == 4 {
        "4"
    } else if d == 5 {
        "5"
    } else if d == 6 {
        "6"
    } else if d == 7 {
        "7"
    } else if d == 8 {
        "8"
    } else {
        "9"
    };
    proof {
        assert(r@ =~= seq![digit_char(d as int)]);
    }
    r
}

/// Renders `n` in decimal, no padding.
pub fn fmt_u64(n: u64) -> (s: String)
    ensures
        s@ == dec_rep(n as nat),
    decreases n,
{
    if n < 10 {
        String::from_str(digit_str(n))
    } else {
        let mut s = fmt_u64(n / 10);
        s.append(digit_str(n % 10));
        proof {
            assert(s@ =~= dec_rep(n as nat));
        }
        s
    }
}

/// Renders `n` in decimal, zero-padded to at least two digits.
pub fn fmt_u64_pad2(n: u64) -> (s: String)
    ensures
        s@ == dec_rep2(n as nat),
{
    if n < 10 {
        let mut s = String::from_str("0");
        let d = fmt_u64(n);
        s.append(d.as_str());
        proof {
            reveal_strlit("0");
            assert(s@ =~= dec_rep2(n as nat));
        }
        s
    } else {
        fmt_u64(n)
    }
}

/// Renders `n` in decimal, zero-padded to at least three digits.
pub fn fmt_u64_pad3(n: u64) -> (s: String)
    ensures
        s@ == dec_rep3(n as nat),
{
    if n < 100 {
        let mut s = String::from_str("0");
        let d = fmt_u64_pad2(n);
        s.append(d.as_str());
        proof {
            reveal_strlit("0");
            assert(s@ =~= dec_rep3(n as nat));
        }
        s
    } else {
        fmt_u64(n)
    }
}

} // verus!
