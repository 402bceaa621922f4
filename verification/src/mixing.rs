//! The pairwise mixing step: one masked XOR term, folded into both operands.
//!
//! The step is a diffusion step, not a swap. The term is computed from the
//! first operand and the right-shifted second operand, and the *same* term is
//! XORed into both of them; it is not shifted back for the second operand.

use vstd::prelude::*;

verus! {

/// Number of bits in a cell.
pub const CELL_BITS: u32 = 64;

/// Logical right shift of a cell by any amount.
///
/// A shift by the cell's width or more moves every bit out, so the result is
/// zero. The amount is never reduced modulo the width.
pub open spec fn shifted(value: u64, shift: u32) -> u64 {
    if shift < CELL_BITS {
        value >> shift
    } else {
        0
    }
}

/// The mixing term `(a XOR (b >> shift)) AND mask`.
pub open spec fn mixing_term(a: u64, b: u64, shift: u32, mask: u64) -> u64 {
    (a ^ shifted(b, shift)) & mask
}

/// Both operands after the step: each one XORed with the mixing term.
pub open spec fn mixed(a: u64, b: u64, shift: u32, mask: u64) -> (u64, u64) {
    (a ^ mixing_term(a, b, shift, mask), b ^ mixing_term(a, b, shift, mask))
}

/// Computes [`shifted`].
pub fn shift_right(value: u64, shift: u32) -> (r: u64)
    ensures
        r == shifted(value, shift),
{
    if shift < CELL_BITS {
        value >> shift
    } else {
        0
    }
}

/// Performs the mixing step on two values and returns both results.
pub fn mix(a: u64, b: u64, shift: u32, mask: u64) -> (r: (u64, u64))
    ensures
        r == mixed(a, b, shift, mask),
{
    let t: u64 = (a ^ shift_right(b, shift)) & mask;
    (a ^ t, b ^ t)
}

/// The step changes both operands in exactly the same bit positions, and only
/// in positions that the mask selects.
pub proof fn lemma_same_term_in_both(a: u64, b: u64, shift: u32, mask: u64)
    ensures
        (mixed(a, b, shift, mask).0 ^ a) == (mixed(a, b, shift, mask).1 ^ b),
        (mixed(a, b, shift, mask).0 ^ a) & !mask == 0,
{
    let t: u64 = mixing_term(a, b, shift, mask);
    let s: u64 = shifted(b, shift);
    assert(((a ^ t) ^ a) == ((b ^ t) ^ b)) by (bit_vector);
    assert(t == (a ^ s) & mask);
    assert(((a ^ ((a ^ s) & mask)) ^ a) & !mask == 0) by (bit_vector);
}

} // verus!
