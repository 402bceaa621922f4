//! A view over an exclusively borrowed buffer of cells.
//!
//! The view holds the only borrow of the buffer for as long as it lives, so
//! its operations need no aliasing test: the one test that each of them makes
//! is of its indices against the buffer's length. When the view's life ends,
//! the buffer holds what the view last held.

use vstd::prelude::*;
use crate::error::Error;
use crate::mixing::{mix, mixed, shifted};

verus! {

/// The buffer after the slots `i` and `j` went through the mixing step.
///
/// Both slots are read before either is written. With `i == j` the two writes
/// store the same value into the one slot.
pub open spec fn transformed(cells: Seq<u64>, i: int, j: int, shift: u32, mask: u64) -> Seq<u64>
    recommends
        0 <= i < cells.len(),
        0 <= j < cells.len(),
{
    let pair = mixed(cells[i], cells[j], shift, mask);
    cells.update(i, pair.0).update(j, pair.1)
}

/// Exclusive access to a buffer, slot by slot.
///
/// Contracts speak of two values of the borrowed buffer. `view@` is what it
/// holds now. `final(view.cells)@` is what it will hold when the view's life
/// ends and the buffer goes back to its owner. Every operation says what it
/// does to the first and leaves the second alone: the view goes on standing
/// for the same borrow.
pub struct CellView<'a> {
    /// The borrowed buffer. The borrow is exclusive: while the view lives,
    /// nothing else can read or write the buffer.
    pub cells: &'a mut [u64],
}

/// Wraps `buffer` in a view without touching its contents.
///
/// Construction cannot fail, whatever the buffer's length: the result is
/// always `Ok`. The result type is that of the view's other operations. What
/// the buffer holds in the end is what the view holds in the end.
pub fn construct_view<'a>(buffer: &'a mut [u64]) -> (r: Result<CellView<'a>, Error>)
    ensures
        r is Ok,
        r.unwrap()@ == old(buffer)@,
        final(buffer)@ == final(r.unwrap().cells)@,
{
    Ok(CellView { cells: buffer })
}

impl<'a> CellView<'a> {
    /// The cells as the view holds them now.
    pub open spec fn view(&self) -> Seq<u64> {
        self.cells@
    }

    /// Number of cells.
    pub fn len(&self) -> (n: usize)
        ensures
            n == self@.len(),
    {
        self.cells.len()
    }

    /// Reads the cell at `i`.
    pub fn get(&self, i: usize) -> (r: Result<u64, Error>)
        ensures
            i < self@.len() ==> r == Ok::<u64, Error>(self@[i as int]),
            i >= self@.len() ==> r == Err::<u64, Error>(Error::IndexOutOfRange),
    {
        if i < self.cells.len() {
            Ok(self.cells[i])
        } else {
            Err(Error::IndexOutOfRange)
        }
    }

    /// Overwrites the cell at `i` with `value` and leaves every other cell as
    /// it was. With `i` out of range nothing is written.
    pub fn set(&mut self, i: usize, value: u64) -> (r: Result<(), Error>)
        ensures
            i < old(self)@.len() ==> (r == Ok::<(), Error>(())
                && final(self)@ == old(self)@.update(i as int, value)),
            i >= old(self)@.len() ==> (r == Err::<(), Error>(Error::IndexOutOfRange)
                && final(self)@ == old(self)@),
            final(final(self).cells)@ == final(old(self).cells)@,
    {
        if i < self.cells.len() {
            self.cells[i] = value;
            Ok(())
        } else {
            Err(Error::IndexOutOfRange)
        }
    }

    /// Runs the mixing step on the cells at `i` and `j`: the cell at `i` is
    /// the first operand, the cell at `j` the second, and both take the same
    /// term.
    ///
    /// With either index out of range nothing is written.
    pub fn transform(&mut self, i: usize, j: usize, shift: u32, mask: u64) -> (r: Result<(), Error>)
        ensures
            i < old(self)@.len() && j < old(self)@.len() ==> (r == Ok::<(), Error>(())
                && final(self)@ == transformed(old(self)@, i as int, j as int, shift, mask)),
            i >= old(self)@.len() || j >= old(self)@.len() ==> (r == Err::<(), Error>(
                Error::IndexOutOfRange,
            ) && final(self)@ == old(self)@),
            final(final(self).cells)@ == final(old(self).cells)@,
    {
        let n: usize = self.cells.len();
        if i < n && j < n {
            let pair: (u64, u64) = mix(self.cells[i], self.cells[j], shift, mask);
            self.cells[i] = pair.0;
            self.cells[j] = pair.1;
            Ok(())
        } else {
            Err(Error::IndexOutOfRange)
        }
    }
}

/// Pairing a slot with itself is well defined and is not a no-op in general:
/// the slot that held `a` holds `a XOR ((a XOR (a >> shift)) AND mask)`, the
/// value having gone through the step once.
pub proof fn lemma_self_pairing(cells: Seq<u64>, i: int, shift: u32, mask: u64)
    requires
        0 <= i < cells.len(),
    ensures
        transformed(cells, i, i, shift, mask) == cells.update(
            i,
            cells[i] ^ ((cells[i] ^ shifted(cells[i], shift)) & mask),
        ),
{
    let a: u64 = cells[i];
    let once: u64 = a ^ ((a ^ shifted(a, shift)) & mask);
    assert(transformed(cells, i, i, shift, mask) =~= cells.update(i, once));
}

/// The step keeps the buffer's length and touches no slot but the two that
/// it was given.
pub proof fn lemma_transform_touches_only_the_pair(
    cells: Seq<u64>,
    i: int,
    j: int,
    shift: u32,
    mask: u64,
)
    requires
        0 <= i < cells.len(),
        0 <= j < cells.len(),
    ensures
        transformed(cells, i, j, shift, mask).len() == cells.len(),
        forall|k: int|
            0 <= k < cells.len() && k != i && k != j ==> transformed(cells, i, j, shift, mask)[k]
                == cells[k],
        i != j ==> transformed(cells, i, j, shift, mask)[i] == mixed(
            cells[i],
            cells[j],
            shift,
            mask,
        ).0,
        transformed(cells, i, j, shift, mask)[j] == mixed(cells[i], cells[j], shift, mask).1,
{
}

} // verus!
