use vstd::prelude::*;
use vstd::string::StringExecFns;

verus! {

/// The decimal digit character for `d` in 0..10.
pub open spec fn dec_digit(d: int) -> char {
    if d == 0 {
        '0'
    } else if d == 1 {
        '1'
    } else if d == 2 {
        '2'
    } else if d == 3 {
        '3'
    } else if d == 4 {
        '4'
    } else if d == 5 {
        '5'
    } else if d == 6 {
        '6'
    } else if d == 7 {
        '7'
    } else if d == 8 {
        '8'
    } else {
        '9'
    }
}

/// Decimal representation of a non-negative integer, most significant
/// digit first, with no leading zeros (a lone zero for 0).
pub open spec fn dec_seq(n: int) -> Seq<char>
    recommends
        n >= 0,
    decreases n,
{
    if n < 10 {
        seq![dec_digit(n)]
    } else {
        dec_seq(n / 10).push(dec_digit(n % 10))
    }
}

/// Appends the decimal digit character for `d` to `s`.
fn push_digit(s: &mut String, d: u128)
    requires
        d < 10,
    ensures
        final(s)@ == old(s)@ + seq![dec_digit(d as int)],
{
    let lit: &str = if d == 0 {
        "0"
    } else if d == 1 {
        "1"
    } else if d == 2 {
        "2"
    } else if d == 3 {
        "3"
    } else if d == 4 {
        "4"
    } else if d == 5 {
        "5"
    } else if d == 6 {
        "6"
    } else if d == 7 {
        "7"
    } else if d == 8 {
        "8"
    } else {
        "9"
    };
    proof {
        reveal_strlit("0");
        reveal_strlit("1");
        reveal_strlit("2");
        reveal_strlit("3");
        reveal_strlit("4");
        reveal_strlit("5");
        reveal_strlit("6");
        reveal_strlit("7");
        reveal_strlit("8");
        reveal_strlit("9");
        assert(lit@ =~= seq![dec_digit(d as int)]);
    }
    s.append(lit);
}

/// Appends the decimal representation of `n` to `s`.
pub fn push_dec_u128(s: &mut String, n: u128)
    ensures
        final(s)@ == old(s)@ + dec_seq(n as int),
    decreases n,
{
    if n >= 10 {
        push_dec_u128(s, n / 10);
        push_digit(s, n % 10);
        proof {
            assert(s@ =~= old(s)@ + dec_seq(n as int));
        }
    } else {
        push_digit(s, n);
    }
}

/// The decimal representation of `n` as a fresh string.
pub fn u128_to_dec_string(n: u128) -> (s: String)
    ensures
        s@ == dec_seq(n as int),
{
    let mut s = String::new();
    push_dec_u128(&mut s, n);
    proof {
        assert(s@ =~= dec_seq(n as int));
    }
    s
}

/// The rendering of a severity code: the ordinal written in decimal,
/// with a minus sign for the disabled case.
pub open spec fn severity_seq(v: int) -> Seq<char> {
    if v == -1 {
        "-1"@
    } else if v == 0 {
        "0"@
    } else if v == 1 {
        "1"@
    } else if v == 2 {
        "2"@
    } else {
        "3"@
    }
}

/// Renders a severity code from the scale used by this crate
/// (-1 through 2, and 3 for the unavailable sentinel).
pub fn severity_str(v: i8) -> (r: &'static str)
    requires
        -1 <= v <= 3,
    ensures
        r@ == severity_seq(v as int),
{
    if v == -1 {
        "-1"
    } else if v == 0 {
        "0"
    } else if v == 1 {
        "1"
    } else if v == 2 {
        "2"
    } else {
        "3"
    }
}

} // verus!
