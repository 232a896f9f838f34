use crate::index::{IRange, RangeBound};
use crate::slice::{Shape2D, Slice2DRawRef};
use vstd::prelude::*;

verus! {

/// Linear offset of logical `(r, c)` relative to the start of a view with
/// the handle's stride: `r * base_col + c`.
pub fn calc_2d_index<S: Shape2D>(r: usize, c: usize, slice: &S) -> (i: usize)
    requires
        r * slice.raw_spec().base_col + c <= usize::MAX,
    ensures
        i == r * slice.raw_spec().base_col + c,
{
    r * slice.get_base_col() + c
}

/// Normalize one range to half-open `(start, end)` bounds against a
/// dimension of `len` elements: an included start stays put, an excluded
/// start moves up by one, an unbounded start is `0`; an included end moves
/// up by one, an excluded end stays put, an unbounded end is `len`.
/// Returns `None` when a normalized bound would not fit in `usize`; such a
/// range can never be valid for any dimension.
pub fn calc_2d_range(len: usize, bound: &IRange) -> (res: Option<(usize, usize)>)
    ensures
        res matches Some(p) ==> p.0 == bound.spec_start() && p.1 == bound.spec_end(len as int),
        res is None ==> !bound.valid_for(len as int),
{
    let s = match bound.start {
        RangeBound::Included(i) => Some(i),
        RangeBound::Excluded(i) => if i < usize::MAX {
            Some(i + 1)
        } else {
            None
        },
        RangeBound::Unbounded => Some(0),
    };
    let e = match bound.end {
        RangeBound::Included(i) => if i < usize::MAX {
            Some(i + 1)
        } else {
            None
        },
        RangeBound::Excluded(i) => Some(i),
        RangeBound::Unbounded => Some(len),
    };
    match (s, e) {
        (Some(a), Some(b)) => Some((a, b)),
        _ => None,
    }
}

} // verus!
