use crate::slice::{Slice2DMut, Slice2DRawRef};
use vstd::pervasive::cloned;
use vstd::pervasive::VecAdditionalExecFns;
use vstd::prelude::*;

verus! {

/// Bulk assignment to every cell of a view.  Held by the exclusive
/// handle alone.  Buffer positions outside the view keep their old
/// values.
pub trait Slice2DFill<T: Clone>: Slice2DRawRef {
    /// Assign a clone of `value` to every cell, visiting them in
    /// row-major order.
    fn fill(&self, buf: &mut Vec<T>, value: T)
        requires
            self.raw_spec().wf(old(buf)@.len() as int),
        ensures
            final(buf)@.len() == old(buf)@.len(),
            forall|r: int, c: int|
                self.raw_spec().in_bounds(r, c) ==> cloned(
                    value,
                    #[trigger] self.raw_spec().cell(final(buf)@, r, c),
                ),
            forall|k: int|
                0 <= k < old(buf)@.len() && !self.raw_spec().covers(k) ==> final(buf)@[k] == old(
                    buf,
                )@[k],
    ;

    /// Assign `f` of each cell's row-major position: the cell at `(r, c)`
    /// receives the result of `f(r * col + c)`, and the positions are
    /// visited in increasing order `(0,0), (0,1), ...`.
    fn fill_with<F: Fn(usize) -> T>(&self, buf: &mut Vec<T>, f: F)
        requires
            self.raw_spec().wf(old(buf)@.len() as int),
            forall|k: usize|
                k < self.raw_spec().row * self.raw_spec().col ==> #[trigger] call_requires(
                    f,
                    (k,),
                ),
        ensures
            final(buf)@.len() == old(buf)@.len(),
            forall|r: int, c: int|
                self.raw_spec().in_bounds(r, c) ==> call_ensures(
                    f,
                    ((r * self.raw_spec().col + c) as usize,),
                    #[trigger] self.raw_spec().cell(final(buf)@, r, c),
                ),
            forall|k: int|
                0 <= k < old(buf)@.len() && !self.raw_spec().covers(k) ==> final(buf)@[k] == old(
                    buf,
                )@[k],
    ;
}

impl<T: Clone> Slice2DFill<T> for Slice2DMut {
    #[verifier::loop_isolation(false)]
    fn fill(&self, buf: &mut Vec<T>, value: T) {
        let ghost buf0 = buf@;
        let rows = self.raw.row;
        let cols = self.raw.col;
        let mut r: usize = 0;
        while r < rows
            invariant
                r <= rows,
                buf@.len() == buf0.len(),
                forall|rr: int, cc: int|
                    self.raw.in_bounds(rr, cc) && rr < r ==> cloned(
                        value,
                        #[trigger] self.raw.cell(buf@, rr, cc),
                    ),
                forall|k: int|
                    0 <= k < buf0.len() && !self.raw.covers(k) ==> buf@[k] == buf0[k],
            decreases rows - r,
        {
            let mut c: usize = 0;
            while c < cols
                invariant
                    r < rows,
                    c <= cols,
                    buf@.len() == buf0.len(),
                    forall|rr: int, cc: int|
                        self.raw.in_bounds(rr, cc) && (rr < r || (rr == r && cc < c)) ==> cloned(
                            value,
                            #[trigger] self.raw.cell(buf@, rr, cc),
                        ),
                    forall|k: int|
                        0 <= k < buf0.len() && !self.raw.covers(k) ==> buf@[k] == buf0[k],
                decreases cols - c,
            {
                let v = value.clone();
                let ghost prev = buf@;
                let n2 = buf.len();
                proof {
                    self.raw.lemma_offset_in_range(n2 as int, r as int, c as int);
                }
                let off = self.raw.start + r * self.raw.base_col + c;
                buf.set(off, v);
                proof {
                    assert(buf@ == prev.update(self.raw.offset_of(r as int, c as int), v));
                    assert(self.raw.covers(self.raw.offset_of(r as int, c as int)));
                    assert forall|rr: int, cc: int|
                        self.raw.in_bounds(rr, cc) && (rr < r || (rr == r && cc < c
                            + 1)) implies cloned(
                        value,
                        #[trigger] self.raw.cell(buf@, rr, cc),
                    ) by {
                        self.raw.lemma_offset_in_range(buf0.len() as int, rr, cc);
                        if self.raw.offset_of(rr, cc) == self.raw.offset_of(r as int, c as int) {
                            self.raw.lemma_offset_injective(rr, cc, r as int, c as int);
                        } else {
                            assert(cloned(value, self.raw.cell(prev, rr, cc)));
                            assert(self.raw.cell(buf@, rr, cc) == self.raw.cell(prev, rr, cc));
                        }
                    }
                }
                c = c + 1;
            }
            r = r + 1;
        }
    }

    #[verifier::loop_isolation(false)]
    fn fill_with<F: Fn(usize) -> T>(&self, buf: &mut Vec<T>, f: F) {
        let ghost buf0 = buf@;
        let n = buf.len();
        let rows = self.raw.row;
        let cols = self.raw.col;
        let mut r: usize = 0;
        while r < rows
            invariant
                r <= rows,
                buf@.len() == buf0.len(),
                forall|rr: int, cc: int|
                    self.raw.in_bounds(rr, cc) && rr < r ==> call_ensures(
                        f,
                        ((rr * cols + cc) as usize,),
                        #[trigger] self.raw.cell(buf@, rr, cc),
                    ),
                forall|k: int|
                    0 <= k < buf0.len() && !self.raw.covers(k) ==> buf@[k] == buf0[k],
            decreases rows - r,
        {
            let mut c: usize = 0;
            while c < cols
                invariant
                    r < rows,
                    c <= cols,
                    buf@.len() == buf0.len(),
                    forall|rr: int, cc: int|
                        self.raw.in_bounds(rr, cc) && (rr < r || (rr == r && cc
                            < c)) ==> call_ensures(
                            f,
                            ((rr * cols + cc) as usize,),
                            #[trigger] self.raw.cell(buf@, rr, cc),
                        ),
                    forall|k: int|
                        0 <= k < buf0.len() && !self.raw.covers(k) ==> buf@[k] == buf0[k],
                decreases cols - c,
            {
                proof {
                    vstd::arithmetic::mul::lemma_mul_nonnegative(r as int, cols as int);
                    vstd::arithmetic::mul::lemma_mul_inequality(r as int, rows - 1, cols as int);
                    vstd::arithmetic::mul::lemma_mul_inequality(
                        cols as int,
                        self.raw.base_col as int,
                        rows - 1,
                    );
                    assert((rows - 1) * cols + cols == rows * cols) by (nonlinear_arith);
                    assert(rows * cols <= n);
                }
                let k = r * cols + c;
                let v = f(k);
                let ghost prev = buf@;
                let n2 = buf.len();
                proof {
                    self.raw.lemma_offset_in_range(n2 as int, r as int, c as int);
                }
                let off = self.raw.start + r * self.raw.base_col + c;
                buf.set(off, v);
                proof {
                    assert(buf@ == prev.update(self.raw.offset_of(r as int, c as int), v));
                    assert(self.raw.covers(self.raw.offset_of(r as int, c as int)));
                    assert forall|rr: int, cc: int|
                        self.raw.in_bounds(rr, cc) && (rr < r || (rr == r && cc < c
                            + 1)) implies call_ensures(
                        f,
                        ((rr * cols + cc) as usize,),
                        #[trigger] self.raw.cell(buf@, rr, cc),
                    ) by {
                        self.raw.lemma_offset_in_range(buf0.len() as int, rr, cc);
                        if self.raw.offset_of(rr, cc) == self.raw.offset_of(r as int, c as int) {
                            self.raw.lemma_offset_injective(rr, cc, r as int, c as int);
                        } else {
                            assert(call_ensures(
                                f,
                                ((rr * cols + cc) as usize,),
                                self.raw.cell(prev, rr, cc),
                            ));
                            assert(self.raw.cell(buf@, rr, cc) == self.raw.cell(prev, rr, cc));
                        }
                    }
                }
                c = c + 1;
            }
            r = r + 1;
        }
    }
}

} // verus!
