//! Non-owning, strided two-dimensional views over a contiguous row-major
//! buffer.
//!
//! A view is a plain descriptor — an offset into the buffer, a row stride,
//! and a logical `row x col` extent — and every operation that touches the
//! data takes the backing `Vec` as an explicit argument.  Indexing, range
//! slicing, disjoint splitting, row and column iteration, filling, swapping
//! and structural equality are all specified and verified against this
//! descriptor model: no access ever leaves the view's own bounds, and the
//! sub-views produced by splitting are proved to partition the parent's
//! cells.

pub mod slice;

pub mod cmp;
pub mod fill;
pub mod index;
pub mod iter;
pub mod prelude;
pub mod split;
pub mod swap;
pub mod utils;
