use slice_2d::cmp;
use slice_2d::index::{GetElemRef, GetElemRefMut, IRange, RangeBound, Slice2DIndex, Slice2DIndexMut};
use slice_2d::iter::{Col, ColMut, Rows};
use slice_2d::slice::{Shape2D, Shape2DExt, Slice2D, Slice2DMut, Slice2DRaw, Slice2DRawRef, Slice2DRawRefMut};
use slice_2d::split::{Split, SplitMut};
use slice_2d::swap::Slice2DSwap;
use slice_2d::fill::Slice2DFill;
use slice_2d::iter::{Slice2DIter, Slice2DIterMut};
use slice_2d::utils::{calc_2d_index, calc_2d_range};

#[test]
fn slice_2d_index() {
    let row: usize = 3;
    let col: usize = 5;
    let v = (0..(row * col) as i32).collect::<Vec<_>>();
    let s = Slice2D::from_slice(&v, row, col);
    for i in 0..row {
        for j in 0..col {
            assert_eq!(*s.index(&v, (i, j)), (i * col + j) as i32);
            assert_eq!(s.get(&v, (i, j)), Some(&((i * col + j) as i32)));
        }
    }
    assert_eq!(s.get(&v, (0, col)), None);
    assert_eq!(s.get(&v, (row, 0)), None);
    assert_eq!(s.get(&v, (row, col)), None);
}

#[test]
fn slice_2d_mut_index() {
    let row: usize = 3;
    let col: usize = 5;
    let mut v = (0..(row * col) as i32).collect::<Vec<_>>();
    let s = Slice2DMut::from_slice(&v, row, col);
    for i in 0..row {
        for j in 0..col {
            assert_eq!(*s.index(&v, (i, j)), (i * col + j) as i32);
            assert_eq!(s.get(&v, (i, j)), Some(&((i * col + j) as i32)));
        }
    }
    assert_eq!(s.get(&v, (0, col)), None);
    assert_eq!(s.get(&v, (row, 0)), None);
    assert_eq!(s.get(&v, (row, col)), None);
    for i in 0..row {
        for j in 0..col {
            *s.index_mut(&mut v, (i, j)) += 1;
        }
    }
    for i in 0..row {
        for j in 0..col {
            assert_eq!(*s.index(&v, (i, j)), (i * col + j) as i32 + 1);
            assert_eq!(s.get(&v, (i, j)), Some(&((i * col + j) as i32 + 1)));
        }
    }
    assert_eq!(s.get(&v, (0, col)), None);
    assert_eq!(s.get(&v, (row, 0)), None);
    assert_eq!(s.get(&v, (row, col)), None);
}

#[test]
fn slice_2d_slice() {
    let row: usize = 3;
    let col: usize = 5;
    let rs: usize = 1;
    let re: usize = row - 1;
    let cs: usize = 2;
    let ce: usize = col - 1;
    let v = (0..(row * col) as i32).collect::<Vec<_>>();
    let vs = Slice2D::from_slice(&v, row, col);

    // (range, scalar)
    let s = vs.get_range_at_col(&IRange::half_open(rs, re), cs).unwrap();
    for i in 0..re - rs {
        assert_eq!(s.get(&v, (i, 0)), Some(&(((rs + i) * col + cs) as i32)));
    }
    assert_eq!(s.get(&v, (0, cs)), None);
    assert_eq!(s.get(&v, (re - rs, 0)), None);
    assert_eq!(s.get(&v, (re - rs, cs)), None);

    let s = vs.get_range_at_col(&IRange::inclusive(rs, re), cs).unwrap();
    for i in 0..re - rs + 1 {
        assert_eq!(s.get(&v, (i, 0)), Some(&(((rs + i) * col + cs) as i32)));
    }
    assert_eq!(s.get(&v, (0, cs)), None);
    assert_eq!(s.get(&v, (re - rs + 1, 0)), None);
    assert_eq!(s.get(&v, (re - rs + 1, cs)), None);

    // (scalar, range)
    let s = vs.get_range_at_row(rs, &IRange::half_open(cs, ce)).unwrap();
    for j in 0..ce - cs {
        assert_eq!(s.get(&v, (0, j)), Some(&((rs * col + cs + j) as i32)));
    }
    assert_eq!(s.get(&v, (0, ce - cs)), None);
    assert_eq!(s.get(&v, (rs, 0)), None);
    assert_eq!(s.get(&v, (rs, ce - cs)), None);

    let s = vs.get_range_at_row(rs, &IRange::inclusive(cs, ce)).unwrap();
    for j in 0..ce - cs + 1 {
        assert_eq!(s.get(&v, (0, j)), Some(&((rs * col + cs + j) as i32)));
    }
    assert_eq!(s.get(&v, (0, ce - cs + 1)), None);
    assert_eq!(s.get(&v, (rs, 0)), None);
    assert_eq!(s.get(&v, (rs, ce - cs + 1)), None);

    // (range, range)
    let s = vs.get_range(&IRange::half_open(rs, re), &IRange::half_open(cs, ce)).unwrap();
    for i in 0..re - rs {
        for j in 0..ce - cs {
            assert_eq!(s.get(&v, (i, j)), Some(&(((rs + i) * col + cs + j) as i32)));
        }
    }
    assert_eq!(s.get(&v, (0, ce - cs)), None);
    assert_eq!(s.get(&v, (re - rs, 0)), None);
    assert_eq!(s.get(&v, (re - rs, ce - cs)), None);

    let s = vs.get_range(&IRange::inclusive(rs, re), &IRange::inclusive(cs, ce)).unwrap();
    for i in 0..re - rs + 1 {
        for j in 0..ce - cs + 1 {
            assert_eq!(s.get(&v, (i, j)), Some(&(((rs + i) * col + cs + j) as i32)));
        }
    }
    assert_eq!(s.get(&v, (0, ce - cs + 1)), None);
    assert_eq!(s.get(&v, (re - rs + 1, 0)), None);
    assert_eq!(s.get(&v, (re - rs + 1, ce - cs + 1)), None);
}

#[test]
fn slice_2d_slice_mut() {
    let row: usize = 4;
    let col: usize = 5;
    let rs: usize = 1;
    let re: usize = row - 1;
    let cs: usize = 2;
    let ce: usize = col - 1;
    let mut v = (0..(row * col) as i32).collect::<Vec<_>>();
    let vs = Slice2DMut::from_slice(&v, row, col);

    // (range, scalar)
    let s = vs.get_range_at_col_mut(&IRange::half_open(rs, re), cs).unwrap();
    for i in 0..re - rs {
        assert_eq!(s.get(&v, (i, 0)), Some(&(((rs + i) * col + cs) as i32)));
    }
    assert_eq!(s.get(&v, (0, cs)), None);
    assert_eq!(s.get(&v, (re - rs, 0)), None);
    assert_eq!(s.get(&v, (re - rs, cs)), None);

    let s = vs.get_range_at_col_mut(&IRange::inclusive(rs, re), cs).unwrap();
    for i in 0..re - rs + 1 {
        assert_eq!(s.get(&v, (i, 0)), Some(&(((rs + i) * col + cs) as i32)));
    }
    assert_eq!(s.get(&v, (0, cs)), None);
    assert_eq!(s.get(&v, (re - rs + 1, 0)), None);
    assert_eq!(s.get(&v, (re - rs + 1, cs)), None);

    // (scalar, range)
    let s = vs.get_range_at_row_mut(rs, &IRange::half_open(cs, ce)).unwrap();
    for j in 0..ce - cs {
        assert_eq!(s.get(&v, (0, j)), Some(&((rs * col + cs + j) as i32)));
    }
    assert_eq!(s.get(&v, (0, ce - cs)), None);
    assert_eq!(s.get(&v, (rs, 0)), None);
    assert_eq!(s.get(&v, (rs, ce - cs)), None);

    let s = vs.get_range_at_row_mut(rs, &IRange::inclusive(cs, ce)).unwrap();
    for j in 0..ce - cs + 1 {
        assert_eq!(s.get(&v, (0, j)), Some(&((rs * col + cs + j) as i32)));
    }
    assert_eq!(s.get(&v, (0, ce - cs + 1)), None);
    assert_eq!(s.get(&v, (rs, 0)), None);
    assert_eq!(s.get(&v, (rs, ce - cs + 1)), None);

    // (range, range)
    let s = vs.get_range_mut(&IRange::half_open(rs, re), &IRange::half_open(cs, ce)).unwrap();
    for i in 0..re - rs {
        for j in 0..ce - cs {
            assert_eq!(s.get(&v, (i, j)), Some(&(((rs + i) * col + cs + j) as i32)));
        }
    }
    assert_eq!(s.get(&v, (0, ce - cs)), None);
    assert_eq!(s.get(&v, (re - rs, 0)), None);
    assert_eq!(s.get(&v, (re - rs, ce - cs)), None);

    let s = vs.get_range_mut(&IRange::inclusive(rs, re), &IRange::inclusive(cs, ce)).unwrap();
    for i in 0..re - rs + 1 {
        for j in 0..ce - cs + 1 {
            assert_eq!(s.get(&v, (i, j)), Some(&(((rs + i) * col + cs + j) as i32)));
        }
    }
    assert_eq!(s.get(&v, (0, ce - cs + 1)), None);
    assert_eq!(s.get(&v, (re - rs + 1, 0)), None);
    assert_eq!(s.get(&v, (re - rs + 1, ce - cs + 1)), None);

    // modify
    // .  .  .  .  .
    // .  . +1 +1  .
    // .  .  .  .  .
    // .  .  .  .  .
    let s = vs.get_range_at_col_mut(&IRange::half_open(rs, re), cs).unwrap();
    for i in 0..re - rs {
        if s.get(&v, (i, 0)).is_some() {
            *s.index_mut(&mut v, (i, 0)) += 1;
        }
    }
    // .  .  .  .  .
    // .  . +1  .  .
    // .  . +1  .  .
    // .  .  .  .  .
    let s = vs.get_range_at_row_mut(rs, &IRange::half_open(cs, ce)).unwrap();
    for j in 0..ce - cs {
        if s.get(&v, (0, j)).is_some() {
            *s.index_mut(&mut v, (0, j)) += 1;
        }
    }
    // .  .  .  .  .
    // .  . +1 +1  .
    // .  . +1 +1  .
    // .  .  .  .  .
    let s = vs.get_range_mut(&IRange::half_open(rs, re), &IRange::half_open(cs, ce)).unwrap();
    for i in 0..re - rs {
        for j in 0..ce - cs {
            if s.get(&v, (i, j)).is_some() {
                *s.index_mut(&mut v, (i, j)) += 1;
            }
        }
    }
    assert_eq!(
        v,
        vec![
            00, 01, 02, 03, 04, // row 1
            05, 06, 10, 10, 09, // row 2
            10, 11, 14, 14, 14, // row 3
            15, 16, 17, 18, 19, // row 4
        ]
    );
}

#[test]
fn slice_2d_split() {
    let row: usize = 4;
    let col: usize = 5;
    let r: usize = 2;
    let c: usize = 3;
    let v = (0..(row * col) as i32).collect::<Vec<_>>();
    let vs = Slice2D::from_slice(&v, row, col);
    assert!(vs.split_at_horizontally(0).is_some());
    assert!(vs.split_at_horizontally(row + 1).is_none());
    assert!(vs.split_at_vertically(0).is_some());
    assert!(vs.split_at_vertically(col + 1).is_none());
    assert!(vs.split_at((row + 1, col)).is_none());
    assert!(vs.split_at((row, col + 1)).is_none());
    assert!(vs.split_at((row + 1, col + 1)).is_none());

    let (t, b) = vs.split_at_horizontally(r).unwrap();
    assert_eq!(t.get_shape(), (r, col));
    assert_eq!(b.get_shape(), (row - r, col));

    let (l, rt) = vs.split_at_vertically(c).unwrap();
    assert_eq!(l.get_shape(), (row, c));
    assert_eq!(rt.get_shape(), (row, col - c));

    let (tl, tr, bl, br) = vs.split_at((r, c)).unwrap();
    assert_eq!(tl.get_shape(), (r, c));
    assert_eq!(tr.get_shape(), (r, col - c));
    assert_eq!(bl.get_shape(), (row - r, c));
    assert_eq!(br.get_shape(), (row - r, col - c));
}

#[test]
fn slice_2d_split_mut() {
    let row: usize = 4;
    let col: usize = 5;
    let r: usize = 2;
    let c: usize = 3;
    let mut v = (0..(row * col) as i32).collect::<Vec<_>>();
    let vs = Slice2DMut::from_slice(&v, row, col);
    assert!(vs.split_at_horizontally_mut(0).is_some());
    assert!(vs.split_at_horizontally_mut(row + 1).is_none());
    assert!(vs.split_at_vertically_mut(0).is_some());
    assert!(vs.split_at_vertically_mut(col + 1).is_none());
    assert!(vs.split_at_mut((row + 1, col)).is_none());
    assert!(vs.split_at_mut((row, col + 1)).is_none());
    assert!(vs.split_at_mut((row + 1, col + 1)).is_none());

    let (t, b) = vs.split_at_horizontally_mut(r).unwrap();
    assert_eq!(t.get_shape(), (r, col));
    assert_eq!(b.get_shape(), (row - r, col));
    *t.index_mut(&mut v, (r - 1, col - 1)) = 0;
    *b.index_mut(&mut v, (row - r - 1, col - 1)) = 0;

    let (l, rt) = vs.split_at_vertically_mut(c).unwrap();
    assert_eq!(l.get_shape(), (row, c));
    assert_eq!(rt.get_shape(), (row, col - c));
    *l.index_mut(&mut v, (row - 1, c - 1)) = 0;
    *rt.index_mut(&mut v, (row - 1, col - c - 1)) = 0;

    let (tl, tr, bl, br) = vs.split_at_mut((r, c)).unwrap();
    assert_eq!(tl.get_shape(), (r, c));
    assert_eq!(tr.get_shape(), (r, col - c));
    assert_eq!(bl.get_shape(), (row - r, c));
    assert_eq!(br.get_shape(), (row - r, col - c));
    *tl.index_mut(&mut v, (0, 0)) = 0;
    *tr.index_mut(&mut v, (0, 0)) = 0;
    *bl.index_mut(&mut v, (0, 0)) = 0;
    *br.index_mut(&mut v, (0, 0)) = 0;
    assert_eq!(
        v,
        vec![
            00, 01, 02, 00, 04, // row 1
            05, 06, 07, 08, 00, // row 2
            00, 11, 12, 00, 14, // row 3
            15, 16, 00, 18, 00, // row 4
        ]
    );
}

#[test]
fn slice_2d_iter() {
    let row: usize = 4;
    let col: usize = 5;
    let v = (0..(row * col) as i32).collect::<Vec<_>>();
    let vs = Slice2D::from_slice(&v, row, col);

    let mut rows_out: Vec<Vec<i32>> = Vec::new();
    let mut it = vs.row_iter();
    while let Some(rv) = it.next() {
        let mut vals: Vec<i32> = Vec::new();
        for j in 0..rv.get_col() {
            vals.push(*rv.index(&v, (0, j)));
        }
        rows_out.push(vals);
    }
    assert_eq!(
        rows_out,
        vec![
            vec![00, 01, 02, 03, 04],
            vec![05, 06, 07, 08, 09],
            vec![10, 11, 12, 13, 14],
            vec![15, 16, 17, 18, 19],
        ]
    );

    let mut cols_out: Vec<Vec<i32>> = Vec::new();
    let mut cit = vs.col_iter();
    while let Some(mut cv) = cit.next() {
        let mut vals: Vec<i32> = Vec::new();
        while let Some(e) = cv.next(&v) {
            vals.push(*e);
        }
        cols_out.push(vals);
    }
    assert_eq!(
        cols_out,
        vec![
            vec![00, 05, 10, 15],
            vec![01, 06, 11, 16],
            vec![02, 07, 12, 17],
            vec![03, 08, 13, 18],
            vec![04, 09, 14, 19],
        ]
    );
}

#[test]
fn slice_2d_iter_mut() {
    let row: usize = 4;
    let col: usize = 5;
    let mut v = (0..(row * col) as i32).collect::<Vec<_>>();
    let vs = Slice2DMut::from_slice(&v, row, col);

    let mut rows_out: Vec<Vec<i32>> = Vec::new();
    let mut it = vs.row_iter();
    while let Some(rv) = it.next() {
        let mut vals: Vec<i32> = Vec::new();
        for j in 0..rv.get_col() {
            vals.push(*rv.index(&v, (0, j)));
        }
        rows_out.push(vals);
    }
    assert_eq!(
        rows_out,
        vec![
            vec![00, 01, 02, 03, 04],
            vec![05, 06, 07, 08, 09],
            vec![10, 11, 12, 13, 14],
            vec![15, 16, 17, 18, 19],
        ]
    );

    let mut cols_out: Vec<Vec<i32>> = Vec::new();
    let mut cit = vs.col_iter();
    while let Some(mut cv) = cit.next() {
        let mut vals: Vec<i32> = Vec::new();
        while let Some(e) = cv.next(&v) {
            vals.push(*e);
        }
        cols_out.push(vals);
    }
    assert_eq!(
        cols_out,
        vec![
            vec![00, 05, 10, 15],
            vec![01, 06, 11, 16],
            vec![02, 07, 12, 17],
            vec![03, 08, 13, 18],
            vec![04, 09, 14, 19],
        ]
    );

    let mut rit = vs.row_iter_mut();
    while let Some(rv) = rit.next() {
        for j in 0..rv.get_col() {
            *rv.index_mut(&mut v, (0, j)) += 1;
        }
    }

    let mut rows_out: Vec<Vec<i32>> = Vec::new();
    let mut it = vs.row_iter_mut();
    while let Some(rv) = it.next() {
        let mut vals: Vec<i32> = Vec::new();
        for j in 0..rv.get_col() {
            vals.push(*rv.index(&v, (0, j)));
        }
        rows_out.push(vals);
    }
    assert_eq!(
        rows_out,
        vec![
            vec![01, 02, 03, 04, 05],
            vec![06, 07, 08, 09, 10],
            vec![11, 12, 13, 14, 15],
            vec![16, 17, 18, 19, 20],
        ]
    );

    let mut cit = vs.col_iter_mut();
    while let Some(mut cm) = cit.next() {
        while let Some((i, j)) = cm.next() {
            *vs.index_mut(&mut v, (i, j)) -= 1;
        }
    }

    let mut cols_out: Vec<Vec<i32>> = Vec::new();
    let mut cit = vs.col_iter_mut();
    while let Some(cm) = cit.next() {
        let mut cv = Col::new(&vs, cm.col).unwrap();
        let mut vals: Vec<i32> = Vec::new();
        while let Some(e) = cv.next(&v) {
            vals.push(*e);
        }
        cols_out.push(vals);
    }
    assert_eq!(
        cols_out,
        vec![
            vec![00, 05, 10, 15],
            vec![01, 06, 11, 16],
            vec![02, 07, 12, 17],
            vec![03, 08, 13, 18],
            vec![04, 09, 14, 19],
        ]
    );
}

#[test]
fn slice_2d_fill() {
    let row: usize = 4;
    let col: usize = 5;
    let mut v = (0..(row * col) as i32).collect::<Vec<_>>();
    let vs = Slice2DMut::from_slice(&v, row, col);

    vs.fill(&mut v, 0);
    for i in 0..row {
        for j in 0..col {
            assert_eq!(vs.get(&v, (i, j)), Some(&0));
        }
    }

    vs.fill_with(&mut v, |k: usize| k as i32 + 1);

    assert_eq!(
        v,
        vec![
            01, 02, 03, 04, 05, // row 1
            06, 07, 08, 09, 10, // row 2
            11, 12, 13, 14, 15, // row 3
            16, 17, 18, 19, 20, // row 4
        ]
    );
}

#[test]
fn slice_2d_swap() {
    let row: usize = 4;
    let col: usize = 5;
    let mut v = (0..(row * col) as i32).collect::<Vec<_>>();
    let vs = Slice2DMut::from_slice(&v, row, col);

    for j in 0..col {
        vs.swap(&mut v, (0, j), (row - 1, col - 1 - j));
    }

    assert_eq!(
        v,
        vec![
            19, 18, 17, 16, 15, // row 1
            05, 06, 07, 08, 09, // row 2
            10, 11, 12, 13, 14, // row 3
            04, 03, 02, 01, 00, // row 4
        ]
    );
}

#[test]
fn slice_2d_eq() {
    let row: usize = 5;
    let col: usize = 4;
    let v1 = (0..(row * col) as i32).collect::<Vec<_>>();
    let v2 = (0..(row * col) as i32).collect::<Vec<_>>();
    let v3 = (1..(row * col + 1) as i32).collect::<Vec<_>>();

    let s1 = Slice2D::from_slice(&v1, row, col);
    let s2 = Slice2D::from_slice(&v1, row, col);
    let s3 = Slice2DMut::from_slice(&v2, row, col);
    let s4 = Slice2D::from_slice(&v3, row, col);
    let s5 = Slice2D::from_slice(&v3, col, row);

    assert!(cmp::slice_2d_eq(&s1, &v1, &s1, &v1));
    assert!(cmp::slice_2d_eq(&s1, &v1, &s2, &v1));
    assert!(cmp::slice_2d_eq(&s1, &v1, &s3, &v2));
    assert!(!cmp::slice_2d_eq(&s1, &v1, &s4, &v3));
    assert!(!cmp::slice_2d_eq(&s1, &v1, &s5, &v3));

    assert!(cmp::slice_2d_eq(&s2, &v1, &s1, &v1));
    assert!(cmp::slice_2d_eq(&s2, &v1, &s2, &v1));
    assert!(cmp::slice_2d_eq(&s2, &v1, &s3, &v2));
    assert!(!cmp::slice_2d_eq(&s2, &v1, &s4, &v3));
    assert!(!cmp::slice_2d_eq(&s2, &v1, &s5, &v3));

    assert!(cmp::slice_2d_eq(&s3, &v2, &s1, &v1));
    assert!(cmp::slice_2d_eq(&s3, &v2, &s2, &v1));
    assert!(cmp::slice_2d_eq(&s3, &v2, &s3, &v2));
    assert!(!cmp::slice_2d_eq(&s3, &v2, &s4, &v3));
    assert!(!cmp::slice_2d_eq(&s3, &v2, &s5, &v3));

    assert!(!cmp::slice_2d_eq(&s4, &v3, &s1, &v1));
    assert!(!cmp::slice_2d_eq(&s4, &v3, &s2, &v1));
    assert!(!cmp::slice_2d_eq(&s4, &v3, &s3, &v2));
    assert!(cmp::slice_2d_eq(&s4, &v3, &s4, &v3));
    assert!(!cmp::slice_2d_eq(&s4, &v3, &s5, &v3));

    assert!(!cmp::slice_2d_eq(&s5, &v3, &s1, &v1));
    assert!(!cmp::slice_2d_eq(&s5, &v3, &s2, &v1));
    assert!(!cmp::slice_2d_eq(&s5, &v3, &s3, &v2));
    assert!(!cmp::slice_2d_eq(&s5, &v3, &s4, &v3));
    assert!(cmp::slice_2d_eq(&s5, &v3, &s5, &v3));

    // equality is structural: two single-column views narrowed from the
    // 5x4 and the 4x5 view share the buffer and its first element, but
    // their strides pick out different cells, so they differ.
    let c4 = s4.get_range_at_col(&IRange::up_to(row.min(col)), 0).unwrap();
    let c5 = s5.get_range_at_col(&IRange::up_to(row.min(col)), 0).unwrap();
    assert!(!cmp::slice_2d_eq(&c4, &v3, &c5, &v3));
}

#[test]
fn split_quadrants_touch_disjoint_cells() {
    let mut v = (0..20).collect::<Vec<i32>>();
    let vs = Slice2DMut::from_slice(&v, 4, 5);
    let (tl, tr, bl, br) = vs.split_at_mut((2, 3)).unwrap();
    assert_eq!(tl.get_shape(), (2, 3));
    assert_eq!(tr.get_shape(), (2, 2));
    assert_eq!(bl.get_shape(), (2, 3));
    assert_eq!(br.get_shape(), (2, 2));
    *tl.index_mut(&mut v, (0, 0)) = 0;
    *tr.index_mut(&mut v, (0, 0)) = 0;
    *bl.index_mut(&mut v, (0, 0)) = 0;
    *br.index_mut(&mut v, (0, 0)) = 0;
    // row-major layout r*5+c: exactly positions 0, 3, 10, 13 are zeroed
    assert_eq!(
        v,
        vec![
            00, 01, 02, 00, 04, // row 1
            05, 06, 07, 08, 09, // row 2
            00, 11, 12, 00, 14, // row 3
            15, 16, 17, 18, 19, // row 4
        ]
    );
}

#[test]
fn swap_twice_restores() {
    let before = (0..20).collect::<Vec<i32>>();
    let mut v = before.clone();
    let vs = Slice2DMut::from_slice(&v, 4, 5);
    vs.swap(&mut v, (0, 1), (3, 2));
    assert_ne!(v, before);
    vs.swap(&mut v, (0, 1), (3, 2));
    assert_eq!(v, before);
    // swapping a cell with itself changes nothing
    vs.swap(&mut v, (2, 2), (2, 2));
    assert_eq!(v, before);
}

#[test]
fn empty_views() {
    let v = (0..20).collect::<Vec<i32>>();
    let z1 = Slice2D::from_slice(&v, 0, 5);
    let z2 = Slice2D::from_slice(&v, 4, 0);
    assert!(z1.is_empty());
    assert!(z2.is_empty());
    assert_eq!(z1.get(&v, (0, 0)), None);
    assert_eq!(z2.get(&v, (0, 0)), None);
    // full-range narrowing of an empty view stays an empty view
    let s = z1.get_range(&IRange::full(), &IRange::full()).unwrap();
    assert_eq!(s.get_shape(), (0, 5));
    // splitting at both boundary values is legal and makes one empty half
    let (t, b) = z2.split_at_horizontally(0).unwrap();
    assert_eq!(t.get_shape(), (0, 0));
    assert_eq!(b.get_shape(), (4, 0));
    let full = Slice2D::from_slice(&v, 4, 5);
    let (l, r) = full.split_at_vertically(5).unwrap();
    assert_eq!(l.get_shape(), (4, 5));
    assert_eq!(r.get_shape(), (4, 0));
    // an empty view yields no rows; rows of a zero-column view are empty
    let mut it = Rows::new(&z1);
    assert!(it.next().is_none());
    let mut it2 = z2.row_iter();
    let rv = it2.next().unwrap();
    assert_eq!(rv.get_shape(), (1, 0));
    assert_eq!(rv.get(&v, (0, 0)), None);
}

#[test]
fn range_validation() {
    let v = (0..20).collect::<Vec<i32>>();
    let s = Slice2D::from_slice(&v, 4, 5);
    // reversed bounds are out of bounds, not an empty range
    assert!(s.get_range(&IRange::half_open(3, 1), &IRange::full()).is_none());
    // an empty range exactly at the boundary is accepted
    let e = s.get_range(&IRange::half_open(4, 4), &IRange::full()).unwrap();
    assert_eq!(e.get_shape(), (0, 5));
    // an end past the extent is rejected
    assert!(s.get_range(&IRange::full(), &IRange::up_through(5)).is_none());
    assert!(s.get_range(&IRange::full(), &IRange::up_through(4)).is_some());
    // starting at the extent gives the empty tail
    let t = s.get_range(&IRange::starting_at(4), &IRange::full()).unwrap();
    assert_eq!(t.get_shape(), (0, 5));
    // an excluded start begins one past the bound
    let x = s
        .get_range(
            &IRange::new(RangeBound::Excluded(0), RangeBound::Unbounded),
            &IRange::full(),
        )
        .unwrap();
    assert_eq!(x.get_shape(), (3, 5));
    assert_eq!(x.get(&v, (0, 0)), Some(&5));
    // a bound whose normalization would overflow can never be valid
    assert!(s
        .get_range(
            &IRange::new(RangeBound::Excluded(usize::MAX), RangeBound::Unbounded),
            &IRange::full(),
        )
        .is_none());
}

#[test]
fn calc_helpers() {
    let v = (0..20).collect::<Vec<i32>>();
    let s = Slice2D::from_slice(&v, 4, 5);
    assert_eq!(calc_2d_index(2, 3, &s), 13);
    assert_eq!(calc_2d_range(5, &IRange::half_open(1, 3)), Some((1, 3)));
    assert_eq!(calc_2d_range(5, &IRange::inclusive(1, 3)), Some((1, 4)));
    assert_eq!(calc_2d_range(5, &IRange::full()), Some((0, 5)));
    assert_eq!(calc_2d_range(5, &IRange::up_to(2)), Some((0, 2)));
    assert_eq!(calc_2d_range(5, &IRange::starting_at(2)), Some((2, 5)));
    assert_eq!(
        calc_2d_range(5, &IRange::new(RangeBound::Excluded(1), RangeBound::Included(3))),
        Some((2, 4))
    );
    assert_eq!(
        calc_2d_range(5, &IRange::new(RangeBound::Excluded(usize::MAX), RangeBound::Unbounded)),
        None
    );
}

#[test]
fn fill_leaves_rest_untouched() {
    let mut v = (0..20).collect::<Vec<i32>>();
    let vs = Slice2DMut::from_slice(&v, 4, 5);
    let sub = vs.get_range_mut(&IRange::half_open(1, 3), &IRange::half_open(1, 3)).unwrap();
    sub.fill(&mut v, 9);
    assert_eq!(
        v,
        vec![
            00, 01, 02, 03, 04, // row 1
            05, 09, 09, 08, 09, // row 2
            10, 09, 09, 13, 14, // row 3
            15, 16, 17, 18, 19, // row 4
        ]
    );
    // fill_with visits the sub-view's cells in row-major order
    sub.fill_with(&mut v, |k: usize| -(k as i32));
    assert_eq!(
        v,
        vec![
            00, 01, 02, 03, 04, // row 1
            05, 00, -1, 08, 09, // row 2
            10, -2, -3, 13, 14, // row 3
            15, 16, 17, 18, 19, // row 4
        ]
    );
}

#[test]
fn row_slice_iter_rows() {
    let v = (0..20).collect::<Vec<i32>>();
    let s = Slice2D::from_slice(&v, 4, 5);
    let sub = s.get_range(&IRange::half_open(1, 3), &IRange::half_open(1, 4)).unwrap();
    let mut it = sub.row_slice_iter();
    let mut out: Vec<Vec<i32>> = Vec::new();
    while let Some(row) = it.next(&v) {
        out.push(row.to_vec());
    }
    assert_eq!(out, vec![vec![06, 07, 08], vec![11, 12, 13]]);
}

#[test]
fn plumbing_and_defaults() {
    let d = Slice2DRaw::default();
    assert_eq!((d.start, d.base_col, d.row, d.col), (0, 0, 0, 0));
    assert!(Slice2D::default().is_empty());
    assert!(Slice2DMut::default().is_empty());

    let raw = Slice2DRaw::from_raw_parts(3, 5, 2, 2);
    assert_eq!(raw.get_shape(), (2, 2));
    assert_eq!(raw.get_base_col(), 5);
    let s = Slice2D::from_slice_2d_raw(raw);
    assert_eq!(s.get_slice_2d_raw(), &raw);

    let m = Slice2DMut::from_raw_parts(3, 5, 2, 2);
    let shared = Slice2D::from(m);
    assert_eq!(shared.get_shape(), (2, 2));

    let mut m2 = Slice2DMut::from_slice_2d_raw(raw);
    let inner = m2.get_slice_2d_raw_mut();
    inner.row = 1;
    assert_eq!(m2.get_shape(), (1, 2));

    let v = (0..20).collect::<Vec<i32>>();
    let s2 = Slice2D::from_slice(&v, 4, 5);
    assert!(Col::new(&s2, 5).is_none());
    assert!(ColMut::new(&s2, 5).is_none());
    let mut cm = ColMut::new(&s2, 2).unwrap();
    assert_eq!(cm.next(), Some((0, 2)));
    assert_eq!(cm.next(), Some((1, 2)));
    assert_eq!(cm.next(), Some((2, 2)));
    assert_eq!(cm.next(), Some((3, 2)));
    assert_eq!(cm.next(), None);
}

#[test]
fn row_slice_iter_mut_writes() {
    let mut v = (0..20).collect::<Vec<i32>>();
    let vs = Slice2DMut::from_slice(&v, 4, 5);
    let sub = vs.get_range_mut(&IRange::half_open(1, 3), &IRange::half_open(1, 4)).unwrap();
    let mut it = sub.row_slice_iter_mut();
    while let Some(row) = it.next(&mut v) {
        for e in row.iter_mut() {
            *e = -*e;
        }
    }
    assert_eq!(
        v,
        vec![
            00, 01, 02, 03, 04, // row 1
            05, -6, -7, -8, 09, // row 2
            10, -11, -12, -13, 14, // row 3
            15, 16, 17, 18, 19, // row 4
        ]
    );
}
