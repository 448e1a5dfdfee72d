//! Decimal rendering of line numbers, right-aligned to the fixed width the
//! numbered-line output format uses.

use vstd::prelude::*;

verus! {

/// Width of the line-number column.
pub const NUMBER_WIDTH: usize = 6;

/// The character for one decimal digit.
pub open spec fn digit_char(d: nat) -> char {
    if d == 0 {
        '0'
    } else if d == 1 {
        '1'
    } else if d == 2 {
        '2'
    } else if d == 3 {
        '3'
    } else if d == 4 {
        '4'
    } else if d == 5 {
        '5'
    } else if d == 6 {
        '6'
    } else if d == 7 {
        '7'
    } else if d == 8 {
        '8'
    } else {
        '9'
    }
}

/// Decimal representation of a number, most significant digit first.
pub open spec fn dec_rep(n: nat) -> Seq<char>
    decreases n,
{
    if n < 10 {
        seq![digit_char(n)]
    } else {
        dec_rep(n / 10) + seq![digit_char(n % 10)]
    }
}

/// `k` space characters.
pub open spec fn spaces(k: nat) -> Seq<char> {
    Seq::new(k, |i: int| ' ')
}

/// A number rendered right-aligned in the line-number column: the decimal
/// digits, preceded by spaces when they are narrower than the column.
pub open spec fn padded_number(n: nat) -> Seq<char> {
    if dec_rep(n).len() >= NUMBER_WIDTH {
        dec_rep(n)
    } else {
        spaces((NUMBER_WIDTH - dec_rep(n).len()) as nat) + dec_rep(n)
    }
}

fn dec_chars(n: usize) -> (r: Vec<char>)
    ensures
        r@ == dec_rep(n as nat),
    decreases n,
{
    let d: usize = n % 10;
    let c: char = if d == 0 {
        '0'
    } else if d == 1 {
        '1'
    } else if d == 2 {
        '2'
    } else if d == 3 {
        '3'
    } else if d == 4 {
        '4'
    } else if d == 5 {
        '5'
    } else if d == 6 {
        '6'
    } else if d == 7 {
        '7'
    } else if d == 8 {
        '8'
    } else {
        '9'
    };
    if n < 10 {
        let mut r: Vec<char> = Vec::new();
        r.push(c);
        proof {
            assert(r@ =~= dec_rep(n as nat));
        }
        r
    } else {
        assert(n / 10 < n && n / 10 >= 1) by (nonlinear_arith)
            requires
                n >= 10,
        ;
        let mut r = dec_chars(n / 10);
        r.push(c);
        proof {
            assert(r@ =~= dec_rep(n as nat));
        }
        r
    }
}

/// Appends a number in plain decimal to `out`.
pub fn append_number(out: &mut Vec<char>, n: usize)
    ensures
        final(out)@ == old(out)@ + dec_rep(n as nat),
{
    let ds = dec_chars(n);
    crate::strutil::append_chars(out, &ds);
}

/// Appends a number, right-aligned in the line-number column, to `out`.
pub fn append_padded_number(out: &mut Vec<char>, n: usize)
    ensures
        final(out)@ == old(out)@ + padded_number(n as nat),
{
    let ds = dec_chars(n);
    let ghost before = out@;
    if ds.len() < NUMBER_WIDTH {
        let mut k: usize = 0;
        let pad: usize = NUMBER_WIDTH - ds.len();
        proof {
            assert(before + spaces(0) =~= before);
        }
        while k < pad
            invariant
                0 <= k <= pad,
                out@ == before + spaces(k as nat),
            decreases pad - k,
        {
            out.push(' ');
            proof {
                assert(before + spaces((k + 1) as nat) =~= (before + spaces(k as nat)).push(' '));
            }
            k = k + 1;
        }
    }
    crate::strutil::append_chars(out, &ds);
    proof {
        if ds@.len() < NUMBER_WIDTH {
            assert(out@ =~= before + padded_number(n as nat));
        } else {
            assert(spaces(0) =~= Seq::<char>::empty());
            assert(out@ =~= before + padded_number(n as nat));
        }
    }
}

} // verus!
