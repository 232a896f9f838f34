use vstd::arithmetic::div_mod::lemma_fundamental_div_mod_converse;
use vstd::arithmetic::mul::{lemma_mul_inequality, lemma_mul_nonnegative};
use vstd::prelude::*;

verus! {

/// The descriptor at the heart of every view: an offset into the backing
/// buffer (`start`), the number of buffer elements between the starts of
/// consecutive rows (`base_col`, the row stride), and the view's own
/// logical extent (`row` x `col`).  The cell at logical `(r, c)` lives at
/// buffer position `start + r * base_col + c`.
///
/// A descriptor holds no data and never owns the buffer; every operation
/// that reads or writes elements takes the backing `Vec` as an argument
/// and demands `wf` with respect to that buffer's length.
#[derive(Clone, Copy, PartialEq, Eq, Structural, Debug, Hash)]
pub struct Slice2DRaw {
    pub start: usize,
    pub base_col: usize,
    pub row: usize,
    pub col: usize,
}

impl Slice2DRaw {
    /// Buffer position of the cell at logical coordinate `(r, c)`.
    pub open spec fn offset_of(self, r: int, c: int) -> int {
        self.start + r * self.base_col + c
    }

    /// Whether `(r, c)` is a coordinate of this view.
    pub open spec fn in_bounds(self, r: int, c: int) -> bool {
        0 <= r < self.row && 0 <= c < self.col
    }

    /// Well-formedness against a buffer of `len` elements: the view's
    /// columns fit inside one stride, and every cell's offset lies inside
    /// the buffer.
    pub open spec fn wf(self, len: int) -> bool {
        &&& self.col <= self.base_col
        &&& (self.row == 0 || self.col == 0 || self.start + (self.row - 1) * self.base_col
            + self.col <= len)
    }

    /// Well-formedness against the address space alone: all offset
    /// arithmetic stays within `usize`.  Implied by `wf` for any real
    /// buffer, and preserved by narrowing.
    pub open spec fn fits(self) -> bool {
        self.wf(usize::MAX as int)
    }

    /// The value stored in the cell at `(r, c)`.
    pub open spec fn cell<T>(self, buf: Seq<T>, r: int, c: int) -> T {
        buf[self.offset_of(r, c)]
    }

    /// Whether buffer position `k` belongs to some cell of this view.
    pub open spec fn covers(self, k: int) -> bool {
        exists|r: int, c: int|
            #![trigger self.offset_of(r, c)]
            self.in_bounds(r, c) && self.offset_of(r, c) == k
    }

    /// Every cell of a well-formed view lies inside the buffer.
    pub proof fn lemma_offset_in_range(self, len: int, r: int, c: int)
        requires
            self.wf(len),
            self.in_bounds(r, c),
        ensures
            0 <= self.offset_of(r, c) < len,
            0 <= r * self.base_col <= self.offset_of(r, c),
    {
        lemma_mul_nonnegative(r, self.base_col as int);
        lemma_mul_inequality(r, self.row - 1, self.base_col as int);
    }

    /// Distinct coordinates of one view occupy distinct buffer positions.
    pub proof fn lemma_offset_injective(self, r1: int, c1: int, r2: int, c2: int)
        requires
            self.col <= self.base_col,
            self.in_bounds(r1, c1),
            self.in_bounds(r2, c2),
            self.offset_of(r1, c1) == self.offset_of(r2, c2),
        ensures
            r1 == r2,
            c1 == c2,
    {
        let b = self.base_col as int;
        let x = self.offset_of(r1, c1) - self.start;
        assert(x == r1 * b + c1);
        assert(x == r2 * b + c2);
        lemma_fundamental_div_mod_converse(x, b, r1, c1);
        lemma_fundamental_div_mod_converse(x, b, r2, c2);
    }

    /// Plain constructor from the four descriptor fields.
    pub fn from_raw_parts(start: usize, base_col: usize, row: usize, col: usize) -> (s:
        Slice2DRaw)
        ensures
            s == (Slice2DRaw { start, base_col, row, col }),
    {
        Slice2DRaw { start, base_col, row, col }
    }
}

/// Read access to the underlying descriptor, shared by all view handles.
pub trait Slice2DRawRef {
    /// The descriptor this handle stands for.
    spec fn raw_spec(&self) -> Slice2DRaw;

    fn get_slice_2d_raw(&self) -> (r: &Slice2DRaw)
        ensures
            *r == self.raw_spec(),
    ;
}

/// Write access to the underlying descriptor.
pub trait Slice2DRawRefMut {
    /// The descriptor this handle stands for.
    spec fn raw_mut_spec(&self) -> Slice2DRaw;

    fn get_slice_2d_raw_mut(&mut self) -> (r: &mut Slice2DRaw)
        ensures
            *r == old(self).raw_mut_spec(),
            final(self).raw_mut_spec() == *final(r),
    ;
}

impl Slice2DRawRef for Slice2DRaw {
    open spec fn raw_spec(&self) -> Slice2DRaw {
        *self
    }

    fn get_slice_2d_raw(&self) -> (r: &Slice2DRaw) {
        self
    }
}

impl Slice2DRawRefMut for Slice2DRaw {
    open spec fn raw_mut_spec(&self) -> Slice2DRaw {
        *self
    }

    fn get_slice_2d_raw_mut(&mut self) -> (r: &mut Slice2DRaw) {
        self
    }
}

/// Shape accessors, available on every handle that exposes a descriptor.
pub trait Shape2D: Slice2DRawRef {
    fn get_base_col(&self) -> (n: usize)
        ensures
            n == self.raw_spec().base_col,
    ;

    fn get_row(&self) -> (n: usize)
        ensures
            n == self.raw_spec().row,
    ;

    fn get_col(&self) -> (n: usize)
        ensures
            n == self.raw_spec().col,
    ;
}

impl<S: Slice2DRawRef> Shape2D for S {
    fn get_base_col(&self) -> (n: usize) {
        self.get_slice_2d_raw().base_col
    }

    fn get_row(&self) -> (n: usize) {
        self.get_slice_2d_raw().row
    }

    fn get_col(&self) -> (n: usize) {
        self.get_slice_2d_raw().col
    }
}

/// Conveniences derived from the plain shape accessors.
pub trait Shape2DExt: Shape2D {
    fn get_shape(&self) -> (s: (usize, usize))
        ensures
            s.0 == self.raw_spec().row,
            s.1 == self.raw_spec().col,
    ;

    fn is_empty(&self) -> (b: bool)
        ensures
            b == (self.raw_spec().row == 0 || self.raw_spec().col == 0),
    ;
}

impl<S: Shape2D> Shape2DExt for S {
    fn get_shape(&self) -> (s: (usize, usize)) {
        (self.get_row(), self.get_col())
    }

    fn is_empty(&self) -> (b: bool) {
        self.get_row() == 0 || self.get_col() == 0
    }
}

/// A shared (read-only) view handle.  Any number of these may describe
/// overlapping regions of the same buffer.
#[derive(Clone, Debug, Hash)]
pub struct Slice2D {
    pub raw: Slice2DRaw,
}

/// An exclusive (mutating) view handle.  The functions that write through
/// it take the backing buffer by `&mut`, so the borrow rules of the host
/// still arbitrate access to the data itself.
#[derive(Debug, Hash)]
pub struct Slice2DMut {
    pub raw: Slice2DRaw,
}

impl Slice2D {
    /// View of the first `row * col` elements of `slice`, in row-major
    /// order.  The caller must supply a buffer large enough to hold the
    /// requested extent.
    pub fn from_slice<T>(slice: &Vec<T>, row: usize, col: usize) -> (s: Slice2D)
        requires
            row * col <= slice@.len(),
        ensures
            s.raw == (Slice2DRaw { start: 0, base_col: col, row: row, col: col }),
            s.raw.wf(slice@.len() as int),
            s.raw.fits(),
    {
        let n = slice.len();
        let s = Slice2D { raw: Slice2DRaw { start: 0, base_col: col, row: row, col: col } };
        proof {
            assert(slice@.len() == n);
            assert((row - 1) * col + col == row * col) by (nonlinear_arith);
        }
        s
    }

    pub fn from_raw_parts(start: usize, base_col: usize, row: usize, col: usize) -> (s: Slice2D)
        ensures
            s.raw == (Slice2DRaw { start, base_col, row, col }),
    {
        Slice2D { raw: Slice2DRaw { start, base_col, row, col } }
    }

    pub fn from_slice_2d_raw(raw: Slice2DRaw) -> (s: Slice2D)
        ensures
            s.raw == raw,
    {
        Slice2D { raw }
    }
}

impl Slice2DMut {
    /// Mutable counterpart of [`Slice2D::from_slice`]; the handle itself
    /// only records the region, so a shared borrow of the buffer suffices
    /// to take its length.
    pub fn from_slice<T>(slice: &Vec<T>, row: usize, col: usize) -> (s: Slice2DMut)
        requires
            row * col <= slice@.len(),
        ensures
            s.raw == (Slice2DRaw { start: 0, base_col: col, row: row, col: col }),
            s.raw.wf(slice@.len() as int),
            s.raw.fits(),
    {
        let n = slice.len();
        let s = Slice2DMut { raw: Slice2DRaw { start: 0, base_col: col, row: row, col: col } };
        proof {
            assert(slice@.len() == n);
            assert((row - 1) * col + col == row * col) by (nonlinear_arith);
        }
        s
    }

    pub fn from_raw_parts(start: usize, base_col: usize, row: usize, col: usize) -> (s:
        Slice2DMut)
        ensures
            s.raw == (Slice2DRaw { start, base_col, row, col }),
    {
        Slice2DMut { raw: Slice2DRaw { start, base_col, row, col } }
    }

    pub fn from_slice_2d_raw(raw: Slice2DRaw) -> (s: Slice2DMut)
        ensures
            s.raw == raw,
    {
        Slice2DMut { raw }
    }
}

impl Slice2DRawRef for Slice2D {
    open spec fn raw_spec(&self) -> Slice2DRaw {
        self.raw
    }

    fn get_slice_2d_raw(&self) -> (r: &Slice2DRaw) {
        &self.raw
    }
}

impl Slice2DRawRef for Slice2DMut {
    open spec fn raw_spec(&self) -> Slice2DRaw {
        self.raw
    }

    fn get_slice_2d_raw(&self) -> (r: &Slice2DRaw) {
        &self.raw
    }
}

impl Slice2DRawRefMut for Slice2DMut {
    open spec fn raw_mut_spec(&self) -> Slice2DRaw {
        self.raw
    }

    fn get_slice_2d_raw_mut(&mut self) -> (r: &mut Slice2DRaw) {
        &mut self.raw
    }
}

impl Default for Slice2DRaw {
    fn default() -> (s: Slice2DRaw)
        ensures
            s == (Slice2DRaw { start: 0, base_col: 0, row: 0, col: 0 }),
    {
        Slice2DRaw { start: 0, base_col: 0, row: 0, col: 0 }
    }
}

impl Default for Slice2D {
    fn default() -> (s: Slice2D)
        ensures
            s.raw == (Slice2DRaw { start: 0, base_col: 0, row: 0, col: 0 }),
    {
        Slice2D { raw: Slice2DRaw { start: 0, base_col: 0, row: 0, col: 0 } }
    }
}

impl Default for Slice2DMut {
    fn default() -> (s: Slice2DMut)
        ensures
            s.raw == (Slice2DRaw { start: 0, base_col: 0, row: 0, col: 0 }),
    {
        Slice2DMut { raw: Slice2DRaw { start: 0, base_col: 0, row: 0, col: 0 } }
    }
}

impl From<Slice2DMut> for Slice2D {
    /// Downgrade an exclusive handle to a shared one over the same region.
    fn from(s: Slice2DMut) -> (r: Slice2D) {
        Slice2D { raw: s.raw }
    }
}

impl vstd::std_specs::convert::FromSpecImpl<Slice2DMut> for Slice2D {
    open spec fn obeys_from_spec() -> bool {
        true
    }

    open spec fn from_spec(s: Slice2DMut) -> Slice2D {
        Slice2D { raw: s.raw }
    }
}

} // verus!
