//! The names a typical user needs, gathered for one `use`.

pub use crate::slice::{Shape2D, Shape2DExt, Slice2D, Slice2DMut, Slice2DRaw, Slice2DRawRef};

pub use crate::cmp::slice_2d_eq;
pub use crate::fill::Slice2DFill;
pub use crate::index::{
    GetElemRef, GetElemRefMut, IRange, RangeBound, Slice2DIndex, Slice2DIndexMut,
};
pub use crate::iter::{Slice2DIter, Slice2DIterMut};
pub use crate::split::{Split, SplitMut};
pub use crate::swap::Slice2DSwap;
