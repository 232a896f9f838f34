use crate::slice::{Slice2D, Slice2DMut, Slice2DRaw, Slice2DRawRef};
use crate::utils::calc_2d_range;
use vstd::arithmetic::mul::{lemma_mul_inequality, lemma_mul_nonnegative};
use vstd::prelude::*;

verus! {

/// One end of an index range: the closed set of bound forms that range
/// indexing understands.
#[derive(Clone, Copy, PartialEq, Eq, Structural, Debug)]
pub enum RangeBound {
    Included(usize),
    Excluded(usize),
    Unbounded,
}

/// An index range over one dimension, given by a start and an end bound.
/// `full()` stands for `..`, `half_open(a, b)` for `a..b`, and so on.
#[derive(Clone, Copy, PartialEq, Eq, Structural, Debug)]
pub struct IRange {
    pub start: RangeBound,
    pub end: RangeBound,
}

impl IRange {
    /// The normalized inclusive start of the range.
    pub open spec fn spec_start(self) -> int {
        match self.start {
            RangeBound::Included(i) => i as int,
            RangeBound::Excluded(i) => i + 1,
            RangeBound::Unbounded => 0,
        }
    }

    /// The normalized exclusive end of the range, against a dimension of
    /// `len`.
    pub open spec fn spec_end(self, len: int) -> int {
        match self.end {
            RangeBound::Included(i) => i + 1,
            RangeBound::Excluded(i) => i as int,
            RangeBound::Unbounded => len,
        }
    }

    /// A range is valid for a dimension when its normalized bounds are
    /// ordered and the end does not pass the dimension.  Empty ranges are
    /// valid anywhere this holds, including `len..len` at the very edge.
    pub open spec fn valid_for(self, len: int) -> bool {
        self.spec_start() <= self.spec_end(len) && self.spec_end(len) <= len
    }

    pub fn new(start: RangeBound, end: RangeBound) -> (r: IRange)
        ensures
            r == (IRange { start, end }),
    {
        IRange { start, end }
    }

    /// The range `s..e`.
    pub fn half_open(s: usize, e: usize) -> (r: IRange)
        ensures
            r == (IRange { start: RangeBound::Included(s), end: RangeBound::Excluded(e) }),
    {
        IRange { start: RangeBound::Included(s), end: RangeBound::Excluded(e) }
    }

    /// The range `s..=e`.
    pub fn inclusive(s: usize, e: usize) -> (r: IRange)
        ensures
            r == (IRange { start: RangeBound::Included(s), end: RangeBound::Included(e) }),
    {
        IRange { start: RangeBound::Included(s), end: RangeBound::Included(e) }
    }

    /// The range `..e`.
    pub fn up_to(e: usize) -> (r: IRange)
        ensures
            r == (IRange { start: RangeBound::Unbounded, end: RangeBound::Excluded(e) }),
    {
        IRange { start: RangeBound::Unbounded, end: RangeBound::Excluded(e) }
    }

    /// The range `..=e`.
    pub fn up_through(e: usize) -> (r: IRange)
        ensures
            r == (IRange { start: RangeBound::Unbounded, end: RangeBound::Included(e) }),
    {
        IRange { start: RangeBound::Unbounded, end: RangeBound::Included(e) }
    }

    /// The range `s..`.
    pub fn starting_at(s: usize) -> (r: IRange)
        ensures
            r == (IRange { start: RangeBound::Included(s), end: RangeBound::Unbounded }),
    {
        IRange { start: RangeBound::Included(s), end: RangeBound::Unbounded }
    }

    /// The range `..`.
    pub fn full() -> (r: IRange)
        ensures
            r == (IRange { start: RangeBound::Unbounded, end: RangeBound::Unbounded }),
    {
        IRange { start: RangeBound::Unbounded, end: RangeBound::Unbounded }
    }
}

impl Slice2DRaw {
    /// The descriptor of the sub-view spanning rows `[rs, re)` and columns
    /// `[cs, ce)` of this view.  An empty result keeps the parent's start
    /// (its position carries no cells).
    pub open spec fn narrowed(self, rs: int, re: int, cs: int, ce: int) -> Slice2DRaw {
        Slice2DRaw {
            start: if rs < re && cs < ce {
                (self.start + rs * self.base_col + cs) as usize
            } else {
                self.start
            },
            base_col: self.base_col,
            row: (re - rs) as usize,
            col: (ce - cs) as usize,
        }
    }

    /// Narrowing preserves well-formedness, and a non-empty sub-view's
    /// start offset stays strictly inside the buffer.
    pub proof fn lemma_narrowed_wf(self, rs: int, re: int, cs: int, ce: int, len: int)
        requires
            self.wf(len),
            len <= usize::MAX,
            0 <= rs <= re <= self.row,
            0 <= cs <= ce <= self.col,
        ensures
            self.narrowed(rs, re, cs, ce).wf(len),
            rs < re && cs < ce ==> self.start + rs * self.base_col + cs < len,
    {
        let b = self.base_col as int;
        if rs < re && cs < ce {
            lemma_mul_nonnegative(rs, b);
            lemma_mul_inequality(rs, self.row - 1, b);
            assert(rs * b + (re - rs - 1) * b == (re - 1) * b) by (nonlinear_arith);
            lemma_mul_inequality(re - 1, self.row - 1, b);
        }
    }

    /// Cell-for-cell correspondence of a sub-view with its parent: the
    /// sub-view's cell `(i, j)` sits at the parent's offset for
    /// `(rs + i, cs + j)`.
    pub proof fn lemma_narrowed_offsets(self, rs: int, re: int, cs: int, ce: int)
        requires
            self.fits(),
            0 <= rs <= re <= self.row,
            0 <= cs <= ce <= self.col,
        ensures
            forall|i: int, j: int|
                self.narrowed(rs, re, cs, ce).in_bounds(i, j) ==> self.narrowed(
                    rs,
                    re,
                    cs,
                    ce,
                ).offset_of(i, j) == self.offset_of(rs + i, cs + j),
    {
        let b = self.base_col as int;
        self.lemma_narrowed_wf(rs, re, cs, ce, usize::MAX as int);
        let sub = self.narrowed(rs, re, cs, ce);
        assert forall|i: int, j: int| sub.in_bounds(i, j) implies sub.offset_of(i, j)
            == self.offset_of(rs + i, cs + j) by {
            assert((rs + i) * b == rs * b + i * b) by (nonlinear_arith);
        }
    }

    /// Checked narrowing: the workhorse behind all range indexing and
    /// splitting.  Succeeds exactly when both ranges are valid for the
    /// view's extent.
    pub fn narrow(&self, rows: &IRange, cols: &IRange) -> (res: Option<Slice2DRaw>)
        requires
            self.fits(),
        ensures
            res is Some <==> rows.valid_for(self.row as int) && cols.valid_for(self.col as int),
            res matches Some(sub) ==> sub == self.narrowed(
                rows.spec_start(),
                rows.spec_end(self.row as int),
                cols.spec_start(),
                cols.spec_end(self.col as int),
            ) && sub.fits(),
    {
        let rr = calc_2d_range(self.row, rows);
        let cc = calc_2d_range(self.col, cols);
        match (rr, cc) {
            (Some((rs, re)), Some((cs, ce))) => {
                if rs <= re && re <= self.row && cs <= ce && ce <= self.col {
                    let nrow = re - rs;
                    let ncol = ce - cs;
                    if nrow == 0 || ncol == 0 {
                        Some(
                            Slice2DRaw {
                                start: self.start,
                                base_col: self.base_col,
                                row: nrow,
                                col: ncol,
                            },
                        )
                    } else {
                        proof {
                            self.lemma_narrowed_wf(
                                rs as int,
                                re as int,
                                cs as int,
                                ce as int,
                                usize::MAX as int,
                            );
                        }
                        Some(
                            Slice2DRaw {
                                start: self.start + rs * self.base_col + cs,
                                base_col: self.base_col,
                                row: nrow,
                                col: ncol,
                            },
                        )
                    }
                } else {
                    None
                }
            },
            _ => None,
        }
    }

    /// Checked scalar lookup.
    pub fn get_at<'a, T>(&self, buf: &'a Vec<T>, idx: (usize, usize)) -> (res: Option<&'a T>)
        requires
            self.wf(buf@.len() as int),
        ensures
            res is Some <==> idx.0 < self.row && idx.1 < self.col,
            res matches Some(e) ==> *e == self.cell(buf@, idx.0 as int, idx.1 as int),
    {
        if idx.0 < self.row && idx.1 < self.col {
            let n = buf.len();
            proof {
                self.lemma_offset_in_range(n as int, idx.0 as int, idx.1 as int);
            }
            Some(&buf[self.start + idx.0 * self.base_col + idx.1])
        } else {
            None
        }
    }

    /// Scalar lookup whose coordinate the caller has already validated.
    pub fn index_at<'a, T>(&self, buf: &'a Vec<T>, idx: (usize, usize)) -> (e: &'a T)
        requires
            self.wf(buf@.len() as int),
            idx.0 < self.row,
            idx.1 < self.col,
        ensures
            *e == self.cell(buf@, idx.0 as int, idx.1 as int),
    {
        let n = buf.len();
        proof {
            self.lemma_offset_in_range(n as int, idx.0 as int, idx.1 as int);
        }
        &buf[self.start + idx.0 * self.base_col + idx.1]
    }

    /// Mutable scalar lookup whose coordinate the caller has already
    /// validated.  The buffer after the borrow ends differs from the old
    /// one at this cell's offset alone.
    pub fn index_mut_at<'a, T>(&self, buf: &'a mut Vec<T>, idx: (usize, usize)) -> (e: &'a mut T)
        requires
            self.wf(old(buf)@.len() as int),
            idx.0 < self.row,
            idx.1 < self.col,
        ensures
            *e == self.cell(old(buf)@, idx.0 as int, idx.1 as int),
            final(buf)@ == old(buf)@.update(
                self.offset_of(idx.0 as int, idx.1 as int),
                *final(e),
            ),
    {
        let n = buf.len();
        proof {
            self.lemma_offset_in_range(n as int, idx.0 as int, idx.1 as int);
        }
        let off = self.start + idx.0 * self.base_col + idx.1;
        &mut buf[off]
    }
}

/// Law: round-trip slicing.  For every valid row span `[rs, re)` and
/// column span `[cs, ce)` of a view, the element the sub-view presents at
/// local coordinate `(i, j)` is the very element the parent presents at
/// `(rs + i, cs + j)`.
pub proof fn lemma_slice_round_trip<T>(
    v: Slice2DRaw,
    buf: Seq<T>,
    rs: int,
    re: int,
    cs: int,
    ce: int,
    i: int,
    j: int,
)
    requires
        v.fits(),
        0 <= rs <= re <= v.row,
        0 <= cs <= ce <= v.col,
        v.narrowed(rs, re, cs, ce).in_bounds(i, j),
    ensures
        v.narrowed(rs, re, cs, ce).cell(buf, i, j) == v.cell(buf, rs + i, cs + j),
{
    v.lemma_narrowed_offsets(rs, re, cs, ce);
}

/// Read access to a view's cells and sub-views, shared by all handles.
pub trait GetElemRef<T>: Slice2DRawRef {
    /// Checked scalar lookup: `Some` exactly on the view's coordinates.
    fn get<'a>(&self, buf: &'a Vec<T>, idx: (usize, usize)) -> (res: Option<&'a T>)
        requires
            self.raw_spec().wf(buf@.len() as int),
        ensures
            res is Some <==> idx.0 < self.raw_spec().row && idx.1 < self.raw_spec().col,
            res matches Some(e) ==> *e == self.raw_spec().cell(buf@, idx.0 as int, idx.1 as int),
    ;

    /// Scalar lookup for a coordinate the caller asserts to be valid.
    fn index<'a>(&self, buf: &'a Vec<T>, idx: (usize, usize)) -> (e: &'a T)
        requires
            self.raw_spec().wf(buf@.len() as int),
            idx.0 < self.raw_spec().row,
            idx.1 < self.raw_spec().col,
        ensures
            *e == self.raw_spec().cell(buf@, idx.0 as int, idx.1 as int),
    ;

}

/// Range indexing: narrowed shared sub-views, available on every handle.
pub trait Slice2DIndex: Slice2DRawRef {
    /// Checked range indexing: a narrowed shared view.
    fn get_range(&self, rows: &IRange, cols: &IRange) -> (res: Option<Slice2D>)
        requires
            self.raw_spec().fits(),
        ensures
            res is Some <==> rows.valid_for(self.raw_spec().row as int) && cols.valid_for(
                self.raw_spec().col as int,
            ),
            res matches Some(sub) ==> sub.raw == self.raw_spec().narrowed(
                rows.spec_start(),
                rows.spec_end(self.raw_spec().row as int),
                cols.spec_start(),
                cols.spec_end(self.raw_spec().col as int),
            ) && sub.raw.fits(),
    ;

    /// A range of rows at one column: a single-column narrowed view.
    fn get_range_at_col(&self, rows: &IRange, c: usize) -> (res: Option<Slice2D>)
        requires
            self.raw_spec().fits(),
        ensures
            res is Some <==> rows.valid_for(self.raw_spec().row as int) && c < self.raw_spec().col,
            res matches Some(sub) ==> sub.raw == self.raw_spec().narrowed(
                rows.spec_start(),
                rows.spec_end(self.raw_spec().row as int),
                c as int,
                c + 1,
            ) && sub.raw.fits(),
    ;

    /// A range of columns at one row: a single-row narrowed view.
    fn get_range_at_row(&self, r: usize, cols: &IRange) -> (res: Option<Slice2D>)
        requires
            self.raw_spec().fits(),
        ensures
            res is Some <==> r < self.raw_spec().row && cols.valid_for(self.raw_spec().col as int),
            res matches Some(sub) ==> sub.raw == self.raw_spec().narrowed(
                r as int,
                r + 1,
                cols.spec_start(),
                cols.spec_end(self.raw_spec().col as int),
            ) && sub.raw.fits(),
    ;
}

impl<T, S: Slice2DRawRef> GetElemRef<T> for S {
    fn get<'a>(&self, buf: &'a Vec<T>, idx: (usize, usize)) -> (res: Option<&'a T>) {
        self.get_slice_2d_raw().get_at(buf, idx)
    }

    fn index<'a>(&self, buf: &'a Vec<T>, idx: (usize, usize)) -> (e: &'a T) {
        self.get_slice_2d_raw().index_at(buf, idx)
    }

}

impl<S: Slice2DRawRef> Slice2DIndex for S {
    fn get_range(&self, rows: &IRange, cols: &IRange) -> (res: Option<Slice2D>) {
        match self.get_slice_2d_raw().narrow(rows, cols) {
            Some(sub) => Some(Slice2D::from_slice_2d_raw(sub)),
            None => None,
        }
    }

    fn get_range_at_col(&self, rows: &IRange, c: usize) -> (res: Option<Slice2D>) {
        match self.get_slice_2d_raw().narrow(rows, &IRange::inclusive(c, c)) {
            Some(sub) => Some(Slice2D::from_slice_2d_raw(sub)),
            None => None,
        }
    }

    fn get_range_at_row(&self, r: usize, cols: &IRange) -> (res: Option<Slice2D>) {
        match self.get_slice_2d_raw().narrow(&IRange::inclusive(r, r), cols) {
            Some(sub) => Some(Slice2D::from_slice_2d_raw(sub)),
            None => None,
        }
    }
}

/// Write access to a view's cells and mutable sub-views; held by the
/// exclusive handle alone.
pub trait GetElemRefMut<T>: Slice2DRawRef {
    /// Mutable scalar lookup for a coordinate the caller asserts to be
    /// valid.  All other buffer positions keep their old values.
    fn index_mut<'a>(&self, buf: &'a mut Vec<T>, idx: (usize, usize)) -> (e: &'a mut T)
        requires
            self.raw_spec().wf(old(buf)@.len() as int),
            idx.0 < self.raw_spec().row,
            idx.1 < self.raw_spec().col,
        ensures
            *e == self.raw_spec().cell(old(buf)@, idx.0 as int, idx.1 as int),
            final(buf)@ == old(buf)@.update(
                self.raw_spec().offset_of(idx.0 as int, idx.1 as int),
                *final(e),
            ),
    ;

}

/// Range indexing for mutation: narrowed exclusive sub-views, held by
/// the exclusive handle alone.
pub trait Slice2DIndexMut: Slice2DRawRef {
    /// Checked range indexing: a narrowed exclusive view.
    fn get_range_mut(&self, rows: &IRange, cols: &IRange) -> (res: Option<Slice2DMut>)
        requires
            self.raw_spec().fits(),
        ensures
            res is Some <==> rows.valid_for(self.raw_spec().row as int) && cols.valid_for(
                self.raw_spec().col as int,
            ),
            res matches Some(sub) ==> sub.raw == self.raw_spec().narrowed(
                rows.spec_start(),
                rows.spec_end(self.raw_spec().row as int),
                cols.spec_start(),
                cols.spec_end(self.raw_spec().col as int),
            ) && sub.raw.fits(),
    ;

    /// A range of rows at one column, as an exclusive view.
    fn get_range_at_col_mut(&self, rows: &IRange, c: usize) -> (res: Option<Slice2DMut>)
        requires
            self.raw_spec().fits(),
        ensures
            res is Some <==> rows.valid_for(self.raw_spec().row as int) && c < self.raw_spec().col,
            res matches Some(sub) ==> sub.raw == self.raw_spec().narrowed(
                rows.spec_start(),
                rows.spec_end(self.raw_spec().row as int),
                c as int,
                c + 1,
            ) && sub.raw.fits(),
    ;

    /// A range of columns at one row, as an exclusive view.
    fn get_range_at_row_mut(&self, r: usize, cols: &IRange) -> (res: Option<Slice2DMut>)
        requires
            self.raw_spec().fits(),
        ensures
            res is Some <==> r < self.raw_spec().row && cols.valid_for(self.raw_spec().col as int),
            res matches Some(sub) ==> sub.raw == self.raw_spec().narrowed(
                r as int,
                r + 1,
                cols.spec_start(),
                cols.spec_end(self.raw_spec().col as int),
            ) && sub.raw.fits(),
    ;
}

impl<T> GetElemRefMut<T> for Slice2DMut {
    fn index_mut<'a>(&self, buf: &'a mut Vec<T>, idx: (usize, usize)) -> (e: &'a mut T) {
        self.raw.index_mut_at(buf, idx)
    }

}

impl Slice2DIndexMut for Slice2DMut {
    fn get_range_mut(&self, rows: &IRange, cols: &IRange) -> (res: Option<Slice2DMut>) {
        match self.raw.narrow(rows, cols) {
            Some(sub) => Some(Slice2DMut::from_slice_2d_raw(sub)),
            None => None,
        }
    }

    fn get_range_at_col_mut(&self, rows: &IRange, c: usize) -> (res: Option<Slice2DMut>) {
        match self.raw.narrow(rows, &IRange::inclusive(c, c)) {
            Some(sub) => Some(Slice2DMut::from_slice_2d_raw(sub)),
            None => None,
        }
    }

    fn get_range_at_row_mut(&self, r: usize, cols: &IRange) -> (res: Option<Slice2DMut>) {
        match self.raw.narrow(&IRange::inclusive(r, r), cols) {
            Some(sub) => Some(Slice2DMut::from_slice_2d_raw(sub)),
            None => None,
        }
    }
}

} // verus!
