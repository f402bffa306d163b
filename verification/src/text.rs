//! Decimal rendering of unsigned integers, used when the weather summary
//! interpolates the cloud-coverage percentage.

use vstd::prelude::*;

verus! {

/// The decimal digit character for a value below ten.
pub open spec fn dec_digit(d: nat) -> char
    recommends
        d < 10,
{
    if d == 0 {
        '0'
    } else if d == 1 {
        '1'
    } else if d == 2 {
        '2'
    } else if d == 3 {
        '3'
    } else if d == 4 {
        '4'
    } else if d == 5 {
        '5'
    } else if d == 6 {
        '6'
    } else if d == 7 {
        '7'
    } else if d == 8 {
        '8'
    } else {
        '9'
    }
}

/// The decimal representation of a natural number, most significant digit
/// first, with no leading zeros (a single `'0'` for zero).
pub open spec fn dec_rep(n: nat) -> Seq<char>
    decreases n,
{
    if n < 10 {
        seq![dec_digit(n)]
    } else {
        dec_rep(n / 10).push(dec_digit(n % 10))
    }
}

fn append_digit(buf: &mut String, d: u64)
    requires
        d < 10,
    ensures
        final(buf)@ == old(buf)@ + seq![dec_digit(d as nat)],
{
    match d {
        0 => {
            proof { reveal_strlit("0"); }
            buf.append("0");
        },
        1 => {
            proof { reveal_strlit("1"); }
            buf.append("1");
        },
        2 => {
            proof { reveal_strlit("2"); }
            buf.append("2");
        },
        3 => {
            proof { reveal_strlit("3"); }
            buf.append("3");
        },
        4 => {
            proof { reveal_strlit("4"); }
            buf.append("4");
        },
        5 => {
            proof { reveal_strlit("5"); }
            buf.append("5");
        },
        6 => {
            proof { reveal_strlit("6"); }
            buf.append("6");
        },
        7 => {
            proof { reveal_strlit("7"); }
            buf.append("7");
        },
        8 => {
            proof { reveal_strlit("8"); }
            buf.append("8");
        },
        _ => {
            proof { reveal_strlit("9"); }
            buf.append("9");
        },
    }
    proof {
        assert(buf@ =~= old(buf)@ + seq![dec_digit(d as nat)]);
    }
}

/// Appends the decimal digits of `n` to `buf`.
pub fn append_u64(buf: &mut String, n: u64)
    ensures
        final(buf)@ == old(buf)@ + dec_rep(n as nat),
    decreases n,
{
    if n < 10 {
        append_digit(buf, n);
    } else {
        append_u64(buf, n / 10);
        append_digit(buf, n % 10);
        proof {
            assert(buf@ =~= old(buf)@ + dec_rep(n as nat));
        }
    }
}

} // verus!
