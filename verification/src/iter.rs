use crate::index::IRange;
use crate::slice::{Slice2D, Slice2DMut, Slice2DRaw, Slice2DRawRef};
use vstd::arithmetic::div_mod::lemma_fundamental_div_mod_converse;
use vstd::arithmetic::mul::{lemma_mul_inequality, lemma_mul_nonnegative};
use vstd::prelude::*;
use vstd::slice::slice_subrange;

verus! {

/// Iterator over a view's rows, yielding each row as a one-row shared
/// sub-view, top to bottom.
pub struct Rows {
    pub raw: Slice2DRaw,
    pub row: usize,
}

impl Rows {
    pub fn new<S: Slice2DRawRef>(slice_2d: &S) -> (it: Rows)
        ensures
            it.raw == slice_2d.raw_spec(),
            it.row == 0,
    {
        Rows { raw: *slice_2d.get_slice_2d_raw(), row: 0 }
    }

    pub fn next(&mut self) -> (res: Option<Slice2D>)
        requires
            old(self).raw.fits(),
        ensures
            final(self).raw == old(self).raw,
            res is Some <==> old(self).row < old(self).raw.row,
            res matches Some(v) ==> {
                &&& final(self).row == old(self).row + 1
                &&& v.raw == old(self).raw.narrowed(
                    old(self).row as int,
                    old(self).row + 1,
                    0,
                    old(self).raw.col as int,
                )
                &&& v.raw.fits()
            },
            res is None ==> final(self).row == old(self).row,
    {
        if self.row < self.raw.row {
            let r = self.row;
            self.row = r + 1;
            let v = self.raw.narrow(&IRange::inclusive(r, r), &IRange::full()).unwrap();
            Some(Slice2D::from_slice_2d_raw(v))
        } else {
            None
        }
    }
}

/// Iterator over a view's rows, yielding each row as a borrowed
/// contiguous slice of the backing buffer.
pub struct RowSlices {
    pub raw: Slice2DRaw,
    pub row: usize,
}

impl RowSlices {
    pub fn new<S: Slice2DRawRef>(slice_2d: &S) -> (it: RowSlices)
        ensures
            it.raw == slice_2d.raw_spec(),
            it.row == 0,
    {
        RowSlices { raw: *slice_2d.get_slice_2d_raw(), row: 0 }
    }

    pub fn next<'a, T>(&mut self, buf: &'a Vec<T>) -> (res: Option<&'a [T]>)
        requires
            old(self).raw.wf(buf@.len() as int),
        ensures
            final(self).raw == old(self).raw,
            res is Some <==> old(self).row < old(self).raw.row,
            res matches Some(s) ==> {
                &&& final(self).row == old(self).row + 1
                &&& s@.len() == old(self).raw.col
                &&& forall|c: int|
                    0 <= c < old(self).raw.col ==> s@[c] == old(self).raw.cell(
                        buf@,
                        old(self).row as int,
                        c,
                    )
            },
            res is None ==> final(self).row == old(self).row,
    {
        if self.row < self.raw.row {
            let r = self.row;
            self.row = r + 1;
            if self.raw.col == 0 {
                Some(slice_subrange(buf.as_slice(), 0, 0))
            } else {
                let n = buf.len();
                proof {
                    self.raw.lemma_offset_in_range(n as int, r as int, 0);
                    self.raw.lemma_offset_in_range(n as int, r as int, self.raw.col - 1);
                }
                let off = self.raw.start + r * self.raw.base_col;
                Some(slice_subrange(buf.as_slice(), off, off + self.raw.col))
            }
        } else {
            None
        }
    }
}

/// Iterator over the cells of one column, top to bottom.  Each step moves
/// one stride further into the buffer.
pub struct Col {
    pub raw: Slice2DRaw,
    pub col: usize,
    pub row: usize,
}

impl Col {
    pub fn new<S: Slice2DRawRef>(slice_2d: &S, col: usize) -> (res: Option<Col>)
        ensures
            res is Some <==> col < slice_2d.raw_spec().col,
            res matches Some(c) ==> c.raw == slice_2d.raw_spec() && c.col == col && c.row == 0,
    {
        let raw = *slice_2d.get_slice_2d_raw();
        if col < raw.col {
            Some(Col { raw, col, row: 0 })
        } else {
            None
        }
    }

    pub fn next<'a, T>(&mut self, buf: &'a Vec<T>) -> (res: Option<&'a T>)
        requires
            old(self).raw.wf(buf@.len() as int),
            old(self).col < old(self).raw.col,
        ensures
            final(self).raw == old(self).raw,
            final(self).col == old(self).col,
            res is Some <==> old(self).row < old(self).raw.row,
            res matches Some(e) ==> final(self).row == old(self).row + 1 && *e == old(self).raw.cell(
                buf@,
                old(self).row as int,
                old(self).col as int,
            ),
            res is None ==> final(self).row == old(self).row,
    {
        if self.row < self.raw.row {
            let r = self.row;
            self.row = r + 1;
            Some(self.raw.index_at(buf, (r, self.col)))
        } else {
            None
        }
    }
}

/// Iterator over a view's columns, yielding a [`Col`] cursor for each,
/// left to right.
pub struct Cols {
    pub raw: Slice2DRaw,
    pub col: usize,
}

impl Cols {
    pub fn new<S: Slice2DRawRef>(slice_2d: &S) -> (it: Cols)
        ensures
            it.raw == slice_2d.raw_spec(),
            it.col == 0,
    {
        Cols { raw: *slice_2d.get_slice_2d_raw(), col: 0 }
    }

    pub fn next(&mut self) -> (res: Option<Col>)
        ensures
            final(self).raw == old(self).raw,
            res is Some <==> old(self).col < old(self).raw.col,
            res matches Some(c) ==> final(self).col == old(self).col + 1 && c.raw == old(self).raw
                && c.col == old(self).col && c.row == 0,
            res is None ==> final(self).col == old(self).col,
    {
        if self.col < self.raw.col {
            let c = self.col;
            self.col = c + 1;
            Some(Col { raw: self.raw, col: c, row: 0 })
        } else {
            None
        }
    }
}

/// Iterator over a view's rows for mutation, yielding each row as a
/// one-row exclusive sub-view, top to bottom.
pub struct RowsMut {
    pub raw: Slice2DRaw,
    pub row: usize,
}

impl RowsMut {
    pub fn new<S: Slice2DRawRef>(slice_2d: &S) -> (it: RowsMut)
        ensures
            it.raw == slice_2d.raw_spec(),
            it.row == 0,
    {
        RowsMut { raw: *slice_2d.get_slice_2d_raw(), row: 0 }
    }

    pub fn next(&mut self) -> (res: Option<Slice2DMut>)
        requires
            old(self).raw.fits(),
        ensures
            final(self).raw == old(self).raw,
            res is Some <==> old(self).row < old(self).raw.row,
            res matches Some(v) ==> {
                &&& final(self).row == old(self).row + 1
                &&& v.raw == old(self).raw.narrowed(
                    old(self).row as int,
                    old(self).row + 1,
                    0,
                    old(self).raw.col as int,
                )
                &&& v.raw.fits()
            },
            res is None ==> final(self).row == old(self).row,
    {
        if self.row < self.raw.row {
            let r = self.row;
            self.row = r + 1;
            let v = self.raw.narrow(&IRange::inclusive(r, r), &IRange::full()).unwrap();
            Some(Slice2DMut::from_slice_2d_raw(v))
        } else {
            None
        }
    }
}

/// Iterator over a view's rows for mutation, yielding each row as a
/// borrowed contiguous mutable slice of the backing buffer.
pub struct RowSlicesMut {
    pub raw: Slice2DRaw,
    pub row: usize,
}

impl RowSlicesMut {
    pub fn new<S: Slice2DRawRef>(slice_2d: &S) -> (it: RowSlicesMut)
        ensures
            it.raw == slice_2d.raw_spec(),
            it.row == 0,
    {
        RowSlicesMut { raw: *slice_2d.get_slice_2d_raw(), row: 0 }
    }

    /// The buffer after the borrow ends is the old buffer with this row's
    /// segment replaced by whatever the caller left in the yielded slice.
    pub fn next<'a, T>(&mut self, buf: &'a mut Vec<T>) -> (res: Option<&'a mut [T]>)
        requires
            old(self).raw.wf(old(buf)@.len() as int),
        ensures
            final(self).raw == old(self).raw,
            res is Some <==> old(self).row < old(self).raw.row,
            res matches Some(s) ==> ({
                let off = if old(self).raw.col > 0 {
                    old(self).raw.offset_of(old(self).row as int, 0)
                } else {
                    0
                };
                &&& final(self).row == old(self).row + 1
                &&& s@.len() == old(self).raw.col
                &&& forall|c: int|
                    0 <= c < old(self).raw.col ==> s@[c] == old(self).raw.cell(
                        old(buf)@,
                        old(self).row as int,
                        c,
                    )
                &&& final(buf)@ == old(buf)@.subrange(0, off) + final(s)@ + old(buf)@.subrange(
                    off + old(self).raw.col,
                    old(buf)@.len() as int,
                )
            }),
            res is None ==> final(self).row == old(self).row && final(buf)@ == old(buf)@,
    {
        if self.row < self.raw.row {
            let r = self.row;
            self.row = r + 1;
            if self.raw.col == 0 {
                let (s, _rest) = buf.as_mut_slice().split_at_mut(0);
                Some(s)
            } else {
                let n = buf.len();
                proof {
                    self.raw.lemma_offset_in_range(n as int, r as int, 0);
                    self.raw.lemma_offset_in_range(n as int, r as int, self.raw.col - 1);
                }
                let off = self.raw.start + r * self.raw.base_col;
                let (_head, tail) = buf.as_mut_slice().split_at_mut(off);
                let (s, _rest) = tail.split_at_mut(self.raw.col);
                Some(s)
            }
        } else {
            None
        }
    }
}

/// Cursor over the cells of one column for mutation: yields each cell's
/// logical coordinate in increasing row order; the caller writes through
/// [`crate::index::GetElemRefMut::index_mut`].
pub struct ColMut {
    pub raw: Slice2DRaw,
    pub col: usize,
    pub row: usize,
}

impl ColMut {
    pub fn new<S: Slice2DRawRef>(slice_2d: &S, col: usize) -> (res: Option<ColMut>)
        ensures
            res is Some <==> col < slice_2d.raw_spec().col,
            res matches Some(c) ==> c.raw == slice_2d.raw_spec() && c.col == col && c.row == 0,
    {
        let raw = *slice_2d.get_slice_2d_raw();
        if col < raw.col {
            Some(ColMut { raw, col, row: 0 })
        } else {
            None
        }
    }

    pub fn next(&mut self) -> (res: Option<(usize, usize)>)
        ensures
            final(self).raw == old(self).raw,
            final(self).col == old(self).col,
            res is Some <==> old(self).row < old(self).raw.row,
            res matches Some(p) ==> final(self).row == old(self).row + 1 && p.0 == old(self).row && p.1
                == old(self).col,
            res is None ==> final(self).row == old(self).row,
    {
        if self.row < self.raw.row {
            let r = self.row;
            self.row = r + 1;
            Some((r, self.col))
        } else {
            None
        }
    }
}

/// Iterator over a view's columns for mutation, yielding a [`ColMut`]
/// cursor for each, left to right.
pub struct ColsMut {
    pub raw: Slice2DRaw,
    pub col: usize,
}

impl ColsMut {
    pub fn new<S: Slice2DRawRef>(slice_2d: &S) -> (it: ColsMut)
        ensures
            it.raw == slice_2d.raw_spec(),
            it.col == 0,
    {
        ColsMut { raw: *slice_2d.get_slice_2d_raw(), col: 0 }
    }

    pub fn next(&mut self) -> (res: Option<ColMut>)
        ensures
            final(self).raw == old(self).raw,
            res is Some <==> old(self).col < old(self).raw.col,
            res matches Some(c) ==> final(self).col == old(self).col + 1 && c.raw == old(self).raw
                && c.col == old(self).col && c.row == 0,
            res is None ==> final(self).col == old(self).col,
    {
        if self.col < self.raw.col {
            let c = self.col;
            self.col = c + 1;
            Some(ColMut { raw: self.raw, col: c, row: 0 })
        } else {
            None
        }
    }
}

/// Read-only iteration entry points, shared by all handles.
pub trait Slice2DIter: Slice2DRawRef {
    fn row_iter(&self) -> (it: Rows)
        ensures
            it.raw == self.raw_spec(),
            it.row == 0,
    ;

    fn row_slice_iter(&self) -> (it: RowSlices)
        ensures
            it.raw == self.raw_spec(),
            it.row == 0,
    ;

    fn col_iter(&self) -> (it: Cols)
        ensures
            it.raw == self.raw_spec(),
            it.col == 0,
    ;
}

impl<S: Slice2DRawRef> Slice2DIter for S {
    fn row_iter(&self) -> (it: Rows) {
        Rows::new(self)
    }

    fn row_slice_iter(&self) -> (it: RowSlices) {
        RowSlices::new(self)
    }

    fn col_iter(&self) -> (it: Cols) {
        Cols::new(self)
    }
}

/// Mutating iteration entry points, held by the exclusive handle alone.
pub trait Slice2DIterMut: Slice2DRawRef {
    fn row_iter_mut(&self) -> (it: RowsMut)
        ensures
            it.raw == self.raw_spec(),
            it.row == 0,
    ;

    fn row_slice_iter_mut(&self) -> (it: RowSlicesMut)
        ensures
            it.raw == self.raw_spec(),
            it.row == 0,
    ;

    fn col_iter_mut(&self) -> (it: ColsMut)
        ensures
            it.raw == self.raw_spec(),
            it.col == 0,
    ;
}

impl Slice2DIterMut for Slice2DMut {
    fn row_iter_mut(&self) -> (it: RowsMut) {
        RowsMut::new(self)
    }

    fn row_slice_iter_mut(&self) -> (it: RowSlicesMut) {
        RowSlicesMut::new(self)
    }

    fn col_iter_mut(&self) -> (it: ColsMut) {
        ColsMut::new(self)
    }
}

/// The flat row-major sequence of a view's cells: position `k` holds the
/// cell at `(k / col, k % col)`.
pub open spec fn row_major_elems<T>(v: Slice2DRaw, buf: Seq<T>) -> Seq<T> {
    Seq::new((v.row * v.col) as nat, |k: int| v.cell(buf, k / (v.col as int), k % (v.col as int)))
}

/// Law: row-major iteration order.  The flat row-major sequence of an
/// `R x C` view has exactly `R * C` elements, and the element that the
/// `r`-th row view yielded by row iteration presents at column `c` stands
/// at flat position `r * C + c` — so flattening the rows in yield order
/// visits `(0,0), (0,1), ..., (0,C-1), (1,0), ...` exactly once each.
pub proof fn lemma_row_major_order<T>(v: Slice2DRaw, buf: Seq<T>)
    requires
        v.fits(),
    ensures
        row_major_elems(v, buf).len() == v.row * v.col,
        forall|r: int, c: int|
            v.in_bounds(r, c) ==> row_major_elems(v, buf)[r * v.col + c] == v.narrowed(
                r,
                r + 1,
                0,
                v.col as int,
            ).cell(buf, 0, c),
{
    let col = v.col as int;
    assert forall|r: int, c: int| v.in_bounds(r, c) implies row_major_elems(v, buf)[r * v.col + c]
        == v.narrowed(r, r + 1, 0, col).cell(buf, 0, c) by {
        lemma_mul_nonnegative(r, col);
        lemma_mul_inequality(r, v.row - 1, col);
        assert((v.row - 1) * col + col == v.row * col) by (nonlinear_arith);
        lemma_fundamental_div_mod_converse(r * col + c, col, r, c);
        v.lemma_narrowed_offsets(r, r + 1, 0, col);
        assert(v.narrowed(r, r + 1, 0, col).in_bounds(0, c));
    }
}

} // verus!
