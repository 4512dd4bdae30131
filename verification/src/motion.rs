//! The cursor motion encoder: the minimal escape sequence between two
//! positions, vertical component first, then horizontal.

use vstd::prelude::*;
use crate::layout::Position;

verus! {

/// The ASCII decimal digits of `n`, most significant first, no sign and no
/// leading zeros (a single `'0'` for zero).
pub open spec fn dec_digits(n: nat) -> Seq<u8>
    decreases n,
{
    if n < 10 {
        seq![(n + 48) as u8]
    } else {
        dec_digits(n / 10).push((n % 10 + 48) as u8)
    }
}

/// A control sequence: escape, `[`, the count in decimal, then the final byte
/// naming the direction.
pub open spec fn csi_bytes(n: nat, code: u8) -> Seq<u8> {
    seq![27u8, 91u8] + dec_digits(n) + seq![code]
}

/// The vertical component: `B` moves down, `A` moves up, equal rows move
/// nothing at all (a zero count would be read as one by many terminals).
pub open spec fn vertical_motion(from_row: nat, to_row: nat) -> Seq<u8> {
    if to_row > from_row {
        csi_bytes((to_row - from_row) as nat, 66)
    } else if from_row > to_row {
        csi_bytes((from_row - to_row) as nat, 65)
    } else {
        Seq::<u8>::empty()
    }
}

/// The horizontal component: `C` moves forward, `D` moves backward, equal
/// columns move nothing.
pub open spec fn horizontal_motion(from_col: nat, to_col: nat) -> Seq<u8> {
    if to_col > from_col {
        csi_bytes((to_col - from_col) as nat, 67)
    } else if from_col > to_col {
        csi_bytes((from_col - to_col) as nat, 68)
    } else {
        Seq::<u8>::empty()
    }
}

/// Everything the cursor-motion encoder emits to move between two positions:
/// the vertical component, then the horizontal one, as one write.
pub open spec fn motion_bytes(from: Position, to: Position) -> Seq<u8> {
    vertical_motion(from.row as nat, to.row as nat) + horizontal_motion(
        from.col as nat,
        to.col as nat,
    )
}

/// Moving between two positions on the same row and column issues no motion
/// bytes at all: zero net rows and zero net columns.
pub proof fn lemma_motion_same_cell(from: Position, to: Position)
    requires
        from.row == to.row,
        from.col == to.col,
    ensures
        motion_bytes(from, to) == Seq::<u8>::empty(),
{
    assert(motion_bytes(from, to) =~= Seq::<u8>::empty());
}

/// The decimal digits of `n`, most significant first.
fn dec_digits_of(n: u32) -> (r: Vec<u8>)
    ensures
        r@ == dec_digits(n as nat),
{
    let mut rev: Vec<u8> = Vec::new();
    let mut m: u32 = n;
    rev.push((m % 10) as u8 + 48);
    proof {
        assert(rev@ =~= seq![((n as nat) % 10 + 48) as u8]);
        assert(rev@.reverse() =~= rev@);
        if n >= 10 {
            assert(dec_digits(n as nat) == dec_digits((n as nat) / 10).push(
                ((n as nat) % 10 + 48) as u8,
            ));
            assert(dec_digits(n as nat) =~= dec_digits((n as nat) / 10) + rev@.reverse());
        }
    }
    m = m / 10;
    while m != 0
        invariant
            rev@.len() >= 1,
            m == 0 ==> dec_digits(n as nat) == rev@.reverse(),
            m != 0 ==> dec_digits(n as nat) == dec_digits(m as nat) + rev@.reverse(),
        decreases m,
    {
        let ghost prev = rev@;
        let ghost mi = m as nat;
        let d: u8 = (m % 10) as u8 + 48;
        rev.push(d);
        proof {
            assert(rev@.reverse() =~= seq![d] + prev.reverse());
        }
        m = m / 10;
        proof {
            if mi < 10 {
                assert(dec_digits(mi) =~= seq![d]);
                assert(dec_digits(n as nat) =~= rev@.reverse());
            } else {
                assert(dec_digits(mi) == dec_digits(mi / 10).push(d));
                assert(dec_digits(mi) =~= dec_digits(mi / 10) + seq![d]);
                assert(dec_digits(n as nat) =~= dec_digits(m as nat) + rev@.reverse());
            }
        }
    }
    let mut r: Vec<u8> = Vec::new();
    let mut i: usize = rev.len();
    while i > 0
        invariant
            i <= rev@.len(),
            r@.len() == rev@.len() - i,
            forall|j: int| 0 <= j < r@.len() ==> r@[j] == rev@[rev@.len() - 1 - j],
        decreases i,
    {
        i = i - 1;
        r.push(rev[i]);
    }
    proof {
        assert(r@ =~= rev@.reverse());
    }
    r
}

/// Appends one control sequence, count `n` and direction `code`, to `out`.
fn push_csi(out: &mut Vec<u8>, n: u32, code: u8)
    ensures
        final(out)@ == old(out)@ + csi_bytes(n as nat, code),
{
    let ghost start = out@;
    out.push(27);
    out.push(91);
    let mut digits = dec_digits_of(n);
    out.append(&mut digits);
    out.push(code);
    proof {
        assert(out@ =~= start + csi_bytes(n as nat, code));
    }
}

/// The escape bytes that move the cursor from `from` to `to`: the vertical
/// motion first, then the horizontal one.
pub fn cursor_motion(from: Position, to: Position) -> (r: Vec<u8>)
    ensures
        r@ == motion_bytes(from, to),
{
    let mut out: Vec<u8> = Vec::new();
    if to.row > from.row {
        push_csi(&mut out, to.row - from.row, 66);
    } else if from.row > to.row {
        push_csi(&mut out, from.row - to.row, 65);
    }
    let ghost after_vertical = out@;
    proof {
        assert(after_vertical =~= vertical_motion(from.row as nat, to.row as nat));
    }
    if to.col > from.col {
        push_csi(&mut out, to.col - from.col, 67);
    } else if from.col > to.col {
        push_csi(&mut out, from.col - to.col, 68);
    }
    proof {
        assert(out@ =~= motion_bytes(from, to));
    }
    out
}

} // verus!
