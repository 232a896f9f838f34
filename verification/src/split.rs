use crate::index::IRange;
use crate::slice::{Slice2D, Slice2DMut, Slice2DRaw, Slice2DRawRef};
use vstd::prelude::*;

verus! {

/// Shared-view splitting: two halves along one axis, or four quadrants
/// along both.  Split points may lie anywhere in `[0, extent]`; the
/// boundary values produce one empty part.
pub trait Split: Slice2DRawRef {
    /// Left and right halves: columns `[0, j)` and `[j, col)`.
    fn split_at_vertically(&self, j: usize) -> (res: Option<(Slice2D, Slice2D)>)
        requires
            self.raw_spec().fits(),
        ensures
            res is Some <==> j <= self.raw_spec().col,
            res matches Some(p) ==> {
                &&& p.0.raw == self.raw_spec().narrowed(
                    0,
                    self.raw_spec().row as int,
                    0,
                    j as int,
                )
                &&& p.1.raw == self.raw_spec().narrowed(
                    0,
                    self.raw_spec().row as int,
                    j as int,
                    self.raw_spec().col as int,
                )
                &&& p.0.raw.fits()
                &&& p.1.raw.fits()
            },
    ;

    /// Top and bottom halves: rows `[0, i)` and `[i, row)`.
    fn split_at_horizontally(&self, i: usize) -> (res: Option<(Slice2D, Slice2D)>)
        requires
            self.raw_spec().fits(),
        ensures
            res is Some <==> i <= self.raw_spec().row,
            res matches Some(p) ==> {
                &&& p.0.raw == self.raw_spec().narrowed(
                    0,
                    i as int,
                    0,
                    self.raw_spec().col as int,
                )
                &&& p.1.raw == self.raw_spec().narrowed(
                    i as int,
                    self.raw_spec().row as int,
                    0,
                    self.raw_spec().col as int,
                )
                &&& p.0.raw.fits()
                &&& p.1.raw.fits()
            },
    ;

    /// The four quadrants around `(i, j)`, in the order top-left,
    /// top-right, bottom-left, bottom-right.
    fn split_at(&self, idx: (usize, usize)) -> (res: Option<(Slice2D, Slice2D, Slice2D, Slice2D)>)
        requires
            self.raw_spec().fits(),
        ensures
            res is Some <==> idx.0 <= self.raw_spec().row && idx.1 <= self.raw_spec().col,
            res matches Some(q) ==> {
                &&& q.0.raw == self.raw_spec().narrowed(0, idx.0 as int, 0, idx.1 as int)
                &&& q.1.raw == self.raw_spec().narrowed(
                    0,
                    idx.0 as int,
                    idx.1 as int,
                    self.raw_spec().col as int,
                )
                &&& q.2.raw == self.raw_spec().narrowed(
                    idx.0 as int,
                    self.raw_spec().row as int,
                    0,
                    idx.1 as int,
                )
                &&& q.3.raw == self.raw_spec().narrowed(
                    idx.0 as int,
                    self.raw_spec().row as int,
                    idx.1 as int,
                    self.raw_spec().col as int,
                )
                &&& q.0.raw.fits()
                &&& q.1.raw.fits()
                &&& q.2.raw.fits()
                &&& q.3.raw.fits()
            },
    ;
}

impl<S: Slice2DRawRef> Split for S {
    fn split_at_vertically(&self, j: usize) -> (res: Option<(Slice2D, Slice2D)>) {
        let raw = *self.get_slice_2d_raw();
        if j <= raw.col {
            let left = raw.narrow(&IRange::full(), &IRange::up_to(j)).unwrap();
            let right = raw.narrow(&IRange::full(), &IRange::starting_at(j)).unwrap();
            Some((Slice2D::from_slice_2d_raw(left), Slice2D::from_slice_2d_raw(right)))
        } else {
            None
        }
    }

    fn split_at_horizontally(&self, i: usize) -> (res: Option<(Slice2D, Slice2D)>) {
        let raw = *self.get_slice_2d_raw();
        if i <= raw.row {
            let top = raw.narrow(&IRange::up_to(i), &IRange::full()).unwrap();
            let bottom = raw.narrow(&IRange::starting_at(i), &IRange::full()).unwrap();
            Some((Slice2D::from_slice_2d_raw(top), Slice2D::from_slice_2d_raw(bottom)))
        } else {
            None
        }
    }

    fn split_at(&self, idx: (usize, usize)) -> (res: Option<(
        Slice2D,
        Slice2D,
        Slice2D,
        Slice2D,
    )>) {
        let (i, j) = idx;
        let raw = *self.get_slice_2d_raw();
        if i <= raw.row && j <= raw.col {
            let tl = raw.narrow(&IRange::up_to(i), &IRange::up_to(j)).unwrap();
            let tr = raw.narrow(&IRange::up_to(i), &IRange::starting_at(j)).unwrap();
            let bl = raw.narrow(&IRange::starting_at(i), &IRange::up_to(j)).unwrap();
            let br = raw.narrow(&IRange::starting_at(i), &IRange::starting_at(j)).unwrap();
            Some(
                (
                    Slice2D::from_slice_2d_raw(tl),
                    Slice2D::from_slice_2d_raw(tr),
                    Slice2D::from_slice_2d_raw(bl),
                    Slice2D::from_slice_2d_raw(br),
                ),
            )
        } else {
            None
        }
    }
}

/// Exclusive-view splitting.  The parts are non-overlapping by
/// construction — see [`lemma_split_partition`] — so all of them may be
/// used to mutate the buffer without touching each other's cells.
pub trait SplitMut: Slice2DRawRef {
    /// Left and right halves: columns `[0, j)` and `[j, col)`.
    fn split_at_vertically_mut(&self, j: usize) -> (res: Option<(Slice2DMut, Slice2DMut)>)
        requires
            self.raw_spec().fits(),
        ensures
            res is Some <==> j <= self.raw_spec().col,
            res matches Some(p) ==> {
                &&& p.0.raw == self.raw_spec().narrowed(
                    0,
                    self.raw_spec().row as int,
                    0,
                    j as int,
                )
                &&& p.1.raw == self.raw_spec().narrowed(
                    0,
                    self.raw_spec().row as int,
                    j as int,
                    self.raw_spec().col as int,
                )
                &&& p.0.raw.fits()
                &&& p.1.raw.fits()
            },
    ;

    /// Top and bottom halves: rows `[0, i)` and `[i, row)`.
    fn split_at_horizontally_mut(&self, i: usize) -> (res: Option<(Slice2DMut, Slice2DMut)>)
        requires
            self.raw_spec().fits(),
        ensures
            res is Some <==> i <= self.raw_spec().row,
            res matches Some(p) ==> {
                &&& p.0.raw == self.raw_spec().narrowed(
                    0,
                    i as int,
                    0,
                    self.raw_spec().col as int,
                )
                &&& p.1.raw == self.raw_spec().narrowed(
                    i as int,
                    self.raw_spec().row as int,
                    0,
                    self.raw_spec().col as int,
                )
                &&& p.0.raw.fits()
                &&& p.1.raw.fits()
            },
    ;

    /// The four quadrants around `(i, j)`, in the order top-left,
    /// top-right, bottom-left, bottom-right.
    fn split_at_mut(&self, idx: (usize, usize)) -> (res: Option<(
        Slice2DMut,
        Slice2DMut,
        Slice2DMut,
        Slice2DMut,
    )>)
        requires
            self.raw_spec().fits(),
        ensures
            res is Some <==> idx.0 <= self.raw_spec().row && idx.1 <= self.raw_spec().col,
            res matches Some(q) ==> {
                &&& q.0.raw == self.raw_spec().narrowed(0, idx.0 as int, 0, idx.1 as int)
                &&& q.1.raw == self.raw_spec().narrowed(
                    0,
                    idx.0 as int,
                    idx.1 as int,
                    self.raw_spec().col as int,
                )
                &&& q.2.raw == self.raw_spec().narrowed(
                    idx.0 as int,
                    self.raw_spec().row as int,
                    0,
                    idx.1 as int,
                )
                &&& q.3.raw == self.raw_spec().narrowed(
                    idx.0 as int,
                    self.raw_spec().row as int,
                    idx.1 as int,
                    self.raw_spec().col as int,
                )
                &&& q.0.raw.fits()
                &&& q.1.raw.fits()
                &&& q.2.raw.fits()
                &&& q.3.raw.fits()
            },
    ;
}

impl SplitMut for Slice2DMut {
    fn split_at_vertically_mut(&self, j: usize) -> (res: Option<(Slice2DMut, Slice2DMut)>) {
        if j <= self.raw.col {
            let left = self.raw.narrow(&IRange::full(), &IRange::up_to(j)).unwrap();
            let right = self.raw.narrow(&IRange::full(), &IRange::starting_at(j)).unwrap();
            Some((Slice2DMut::from_slice_2d_raw(left), Slice2DMut::from_slice_2d_raw(right)))
        } else {
            None
        }
    }

    fn split_at_horizontally_mut(&self, i: usize) -> (res: Option<(Slice2DMut, Slice2DMut)>) {
        if i <= self.raw.row {
            let top = self.raw.narrow(&IRange::up_to(i), &IRange::full()).unwrap();
            let bottom = self.raw.narrow(&IRange::starting_at(i), &IRange::full()).unwrap();
            Some((Slice2DMut::from_slice_2d_raw(top), Slice2DMut::from_slice_2d_raw(bottom)))
        } else {
            None
        }
    }

    fn split_at_mut(&self, idx: (usize, usize)) -> (res: Option<(
        Slice2DMut,
        Slice2DMut,
        Slice2DMut,
        Slice2DMut,
    )>) {
        let (i, j) = idx;
        if i <= self.raw.row && j <= self.raw.col {
            let tl = self.raw.narrow(&IRange::up_to(i), &IRange::up_to(j)).unwrap();
            let tr = self.raw.narrow(&IRange::up_to(i), &IRange::starting_at(j)).unwrap();
            let bl = self.raw.narrow(&IRange::starting_at(i), &IRange::up_to(j)).unwrap();
            let br = self.raw.narrow(&IRange::starting_at(i), &IRange::starting_at(j)).unwrap();
            Some(
                (
                    Slice2DMut::from_slice_2d_raw(tl),
                    Slice2DMut::from_slice_2d_raw(tr),
                    Slice2DMut::from_slice_2d_raw(bl),
                    Slice2DMut::from_slice_2d_raw(br),
                ),
            )
        } else {
            None
        }
    }
}

/// Two sub-views cut from disjoint coordinate regions of one parent never
/// cover a common buffer position.
proof fn lemma_narrowed_covers_disjoint(
    v: Slice2DRaw,
    rs1: int,
    re1: int,
    cs1: int,
    ce1: int,
    rs2: int,
    re2: int,
    cs2: int,
    ce2: int,
    k: int,
)
    requires
        v.col <= v.base_col,
        v.fits(),
        0 <= rs1 <= re1 <= v.row,
        0 <= cs1 <= ce1 <= v.col,
        0 <= rs2 <= re2 <= v.row,
        0 <= cs2 <= ce2 <= v.col,
        re1 <= rs2 || re2 <= rs1 || ce1 <= cs2 || ce2 <= cs1,
    ensures
        !(v.narrowed(rs1, re1, cs1, ce1).covers(k) && v.narrowed(rs2, re2, cs2, ce2).covers(k)),
{
    let sub1 = v.narrowed(rs1, re1, cs1, ce1);
    let sub2 = v.narrowed(rs2, re2, cs2, ce2);
    if sub1.covers(k) && sub2.covers(k) {
        let (a1, b1) = choose|a: int, b: int| sub1.in_bounds(a, b) && #[trigger] sub1.offset_of(
            a,
            b,
        ) == k;
        let (a2, b2) = choose|a: int, b: int| sub2.in_bounds(a, b) && #[trigger] sub2.offset_of(
            a,
            b,
        ) == k;
        v.lemma_narrowed_offsets(rs1, re1, cs1, ce1);
        v.lemma_narrowed_offsets(rs2, re2, cs2, ce2);
        assert(sub1.offset_of(a1, b1) == v.offset_of(rs1 + a1, cs1 + b1));
        assert(sub2.offset_of(a2, b2) == v.offset_of(rs2 + a2, cs2 + b2));
        v.lemma_offset_injective(rs1 + a1, cs1 + b1, rs2 + a2, cs2 + b2);
    }
}

/// Law: disjointness of splits.  For every valid split point `(i, j)` of a
/// view, the four quadrants' coordinate sets partition the parent's
/// coordinate set — each parent coordinate lands in exactly the quadrant
/// its region dictates, at the translated position and at the very same
/// buffer offset — and the sets of buffer positions the quadrants cover
/// are pairwise disjoint and together exactly the parent's.
pub proof fn lemma_split_partition(v: Slice2DRaw, i: int, j: int)
    requires
        v.col <= v.base_col,
        v.fits(),
        0 <= i <= v.row,
        0 <= j <= v.col,
    ensures
        forall|r: int, c: int|
            v.in_bounds(r, c) ==> {
                &&& (r < i && c < j ==> v.narrowed(0, i, 0, j).in_bounds(r, c) && v.narrowed(
                    0,
                    i,
                    0,
                    j,
                ).offset_of(r, c) == v.offset_of(r, c))
                &&& (r < i && j <= c ==> v.narrowed(0, i, j, v.col as int).in_bounds(r, c - j)
                    && v.narrowed(0, i, j, v.col as int).offset_of(r, c - j) == v.offset_of(r, c))
                &&& (i <= r && c < j ==> v.narrowed(i, v.row as int, 0, j).in_bounds(r - i, c)
                    && v.narrowed(i, v.row as int, 0, j).offset_of(r - i, c) == v.offset_of(r, c))
                &&& (i <= r && j <= c ==> v.narrowed(i, v.row as int, j, v.col as int).in_bounds(
                    r - i,
                    c - j,
                ) && v.narrowed(i, v.row as int, j, v.col as int).offset_of(r - i, c - j)
                    == v.offset_of(r, c))
            },
        forall|k: int|
            #[trigger] v.covers(k) <==> {
                ||| v.narrowed(0, i, 0, j).covers(k)
                ||| v.narrowed(0, i, j, v.col as int).covers(k)
                ||| v.narrowed(i, v.row as int, 0, j).covers(k)
                ||| v.narrowed(i, v.row as int, j, v.col as int).covers(k)
            },
        forall|k: int| !(#[trigger] v.narrowed(0, i, 0, j).covers(k) && v.narrowed(
            0,
            i,
            j,
            v.col as int,
        ).covers(k)),
        forall|k: int| !(#[trigger] v.narrowed(0, i, 0, j).covers(k) && v.narrowed(
            i,
            v.row as int,
            0,
            j,
        ).covers(k)),
        forall|k: int| !(#[trigger] v.narrowed(0, i, 0, j).covers(k) && v.narrowed(
            i,
            v.row as int,
            j,
            v.col as int,
        ).covers(k)),
        forall|k: int| !(#[trigger] v.narrowed(0, i, j, v.col as int).covers(k) && v.narrowed(
            i,
            v.row as int,
            0,
            j,
        ).covers(k)),
        forall|k: int| !(#[trigger] v.narrowed(0, i, j, v.col as int).covers(k) && v.narrowed(
            i,
            v.row as int,
            j,
            v.col as int,
        ).covers(k)),
        forall|k: int| !(#[trigger] v.narrowed(i, v.row as int, 0, j).covers(k) && v.narrowed(
            i,
            v.row as int,
            j,
            v.col as int,
        ).covers(k)),
{
    let row = v.row as int;
    let col = v.col as int;
    let tl = v.narrowed(0, i, 0, j);
    let tr = v.narrowed(0, i, j, col);
    let bl = v.narrowed(i, row, 0, j);
    let br = v.narrowed(i, row, j, col);
    v.lemma_narrowed_offsets(0, i, 0, j);
    v.lemma_narrowed_offsets(0, i, j, col);
    v.lemma_narrowed_offsets(i, row, 0, j);
    v.lemma_narrowed_offsets(i, row, j, col);
    assert forall|k: int| #[trigger] v.covers(k) implies {
        ||| tl.covers(k)
        ||| tr.covers(k)
        ||| bl.covers(k)
        ||| br.covers(k)
    } by {
        let (r, c) = choose|r: int, c: int| v.in_bounds(r, c) && #[trigger] v.offset_of(r, c)
            == k;
        if r < i && c < j {
            assert(tl.in_bounds(r, c) && tl.offset_of(r, c) == k);
        } else if r < i {
            assert(tr.in_bounds(r, c - j) && tr.offset_of(r, c - j) == k);
        } else if c < j {
            assert(bl.in_bounds(r - i, c) && bl.offset_of(r - i, c) == k);
        } else {
            assert(br.in_bounds(r - i, c - j) && br.offset_of(r - i, c - j) == k);
        }
    }
    assert forall|k: int| (tl.covers(k) || tr.covers(k) || bl.covers(k) || br.covers(
        k,
    )) implies v.covers(k) by {
        if tl.covers(k) {
            let (a, b) = choose|a: int, b: int| tl.in_bounds(a, b) && #[trigger] tl.offset_of(a, b)
                == k;
            assert(v.in_bounds(a, b) && v.offset_of(a, b) == k);
        } else if tr.covers(k) {
            let (a, b) = choose|a: int, b: int| tr.in_bounds(a, b) && #[trigger] tr.offset_of(a, b)
                == k;
            assert(v.in_bounds(a, j + b) && v.offset_of(a, j + b) == k);
        } else if bl.covers(k) {
            let (a, b) = choose|a: int, b: int| bl.in_bounds(a, b) && #[trigger] bl.offset_of(a, b)
                == k;
            assert(v.in_bounds(i + a, b) && v.offset_of(i + a, b) == k);
        } else if br.covers(k) {
            let (a, b) = choose|a: int, b: int| br.in_bounds(a, b) && #[trigger] br.offset_of(a, b)
                == k;
            assert(v.in_bounds(i + a, j + b) && v.offset_of(i + a, j + b) == k);
        }
    }
    assert forall|k: int| !(#[trigger] tl.covers(k) && tr.covers(k)) by {
        lemma_narrowed_covers_disjoint(v, 0, i, 0, j, 0, i, j, col, k);
    }
    assert forall|k: int| !(#[trigger] tl.covers(k) && bl.covers(k)) by {
        lemma_narrowed_covers_disjoint(v, 0, i, 0, j, i, row, 0, j, k);
    }
    assert forall|k: int| !(#[trigger] tl.covers(k) && br.covers(k)) by {
        lemma_narrowed_covers_disjoint(v, 0, i, 0, j, i, row, j, col, k);
    }
    assert forall|k: int| !(#[trigger] tr.covers(k) && bl.covers(k)) by {
        lemma_narrowed_covers_disjoint(v, 0, i, j, col, i, row, 0, j, k);
    }
    assert forall|k: int| !(#[trigger] tr.covers(k) && br.covers(k)) by {
        lemma_narrowed_covers_disjoint(v, 0, i, j, col, i, row, j, col, k);
    }
    assert forall|k: int| !(#[trigger] bl.covers(k) && br.covers(k)) by {
        lemma_narrowed_covers_disjoint(v, i, row, 0, j, i, row, j, col, k);
    }
}

} // verus!
