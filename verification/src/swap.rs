use crate::slice::{Slice2DMut, Slice2DRawRef};
use vstd::prelude::*;

verus! {

/// The sequence `s` with the values at positions `i` and `j` exchanged.
pub open spec fn swapped<T>(s: Seq<T>, i: int, j: int) -> Seq<T> {
    s.update(i, s[j]).update(j, s[i])
}

/// Law: swap symmetry.  Exchanging the same two positions twice restores
/// the original sequence, so two equal `swap` calls through a view leave
/// the buffer as it was.
pub proof fn lemma_swap_involutive<T>(s: Seq<T>, i: int, j: int)
    requires
        0 <= i < s.len(),
        0 <= j < s.len(),
    ensures
        swapped(swapped(s, i, j), i, j) == s,
{
    assert(swapped(swapped(s, i, j), i, j) =~= s);
}

/// Relies on `<[T]>::swap`, reached through the vector's slice: it
/// exchanges the elements at the two indices and leaves every other
/// element in place.
#[verifier::external_body]
fn vec_swap<T>(buf: &mut Vec<T>, i: usize, j: usize)
    requires
        i < old(buf)@.len(),
        j < old(buf)@.len(),
    ensures
        final(buf)@ == swapped(old(buf)@, i as int, j as int),
{
    buf.swap(i, j);
}

/// Exchanging two cells of a view.  Held by the exclusive handle alone.
pub trait Slice2DSwap<T>: Slice2DRawRef {
    /// Exchange the cells at `idx1` and `idx2`.  Both coordinates must lie
    /// within the view's own bounds — not merely within the backing
    /// buffer, which for a narrowed view is the larger region.
    fn swap(&self, buf: &mut Vec<T>, idx1: (usize, usize), idx2: (usize, usize))
        requires
            self.raw_spec().wf(old(buf)@.len() as int),
            idx1.0 < self.raw_spec().row,
            idx1.1 < self.raw_spec().col,
            idx2.0 < self.raw_spec().row,
            idx2.1 < self.raw_spec().col,
        ensures
            final(buf)@ == swapped(
                old(buf)@,
                self.raw_spec().offset_of(idx1.0 as int, idx1.1 as int),
                self.raw_spec().offset_of(idx2.0 as int, idx2.1 as int),
            ),
    ;
}

impl<T> Slice2DSwap<T> for Slice2DMut {
    fn swap(&self, buf: &mut Vec<T>, idx1: (usize, usize), idx2: (usize, usize)) {
        let n = buf.len();
        proof {
            self.raw.lemma_offset_in_range(n as int, idx1.0 as int, idx1.1 as int);
            self.raw.lemma_offset_in_range(n as int, idx2.0 as int, idx2.1 as int);
        }
        let o1 = self.raw.start + idx1.0 * self.raw.base_col + idx1.1;
        let o2 = self.raw.start + idx2.0 * self.raw.base_col + idx2.1;
        vec_swap(buf, o1, o2);
    }
}

} // verus!
