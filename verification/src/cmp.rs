use crate::slice::{Slice2DRaw, Slice2DRawRef};
use vstd::prelude::*;
use vstd::std_specs::cmp::PartialEqSpec;

verus! {

/// Structural equality of two views over their buffers: the logical
/// shapes match and every pair of corresponding cells compares equal.
/// Stride and buffer position are implementation details and no part of
/// identity.
pub open spec fn slice_2d_eq_spec<T: PartialEq>(
    a: Slice2DRaw,
    abuf: Seq<T>,
    b: Slice2DRaw,
    bbuf: Seq<T>,
) -> bool {
    &&& a.row == b.row
    &&& a.col == b.col
    &&& forall|r: int, c: int|
        a.in_bounds(r, c) ==> (#[trigger] a.cell(abuf, r, c)).eq_spec(&b.cell(bbuf, r, c))
}

/// Structural comparison of two views, each over its own buffer: equal
/// shapes and cell-for-cell equal contents, visited row-major.
#[verifier::loop_isolation(false)]
pub fn slice_2d_eq<T: PartialEq, A: Slice2DRawRef, B: Slice2DRawRef>(
    a: &A,
    abuf: &Vec<T>,
    b: &B,
    bbuf: &Vec<T>,
) -> (res: bool)
    requires
        a.raw_spec().wf(abuf@.len() as int),
        b.raw_spec().wf(bbuf@.len() as int),
    ensures
        T::obeys_eq_spec() ==> res == slice_2d_eq_spec(a.raw_spec(), abuf@, b.raw_spec(), bbuf@),
{
    let ar = *a.get_slice_2d_raw();
    let br = *b.get_slice_2d_raw();
    if ar.row != br.row || ar.col != br.col {
        return false;
    }
    let mut all: bool = true;
    let mut r: usize = 0;
    while r < ar.row
        invariant
            r <= ar.row,
            T::obeys_eq_spec() ==> all == (forall|rr: int, cc: int|
                ar.in_bounds(rr, cc) && rr < r ==> (#[trigger] ar.cell(abuf@, rr, cc)).eq_spec(
                    &br.cell(bbuf@, rr, cc),
                )),
        decreases ar.row - r,
    {
        let mut c: usize = 0;
        while c < ar.col
            invariant
                r < ar.row,
                c <= ar.col,
                T::obeys_eq_spec() ==> all == (forall|rr: int, cc: int|
                    ar.in_bounds(rr, cc) && (rr < r || (rr == r && cc < c)) ==> (
                    #[trigger] ar.cell(abuf@, rr, cc)).eq_spec(&br.cell(bbuf@, rr, cc))),
            decreases ar.col - c,
        {
            let x = ar.index_at(abuf, (r, c));
            let y = br.index_at(bbuf, (r, c));
            let eq_here = *x == *y;
            if !eq_here {
                all = false;
            }
            c = c + 1;
        }
        r = r + 1;
    }
    all
}

} // verus!
