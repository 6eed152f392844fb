//! The pixel grid the PPU draws into, held in an `ndarray` two-dimensional
//! array of RGBA words.

use vstd::prelude::*;

verus! {

/// A two-dimensional grid of RGBA pixels (rows first).
#[verifier::external_body]
pub struct PixelData {
    grid: ndarray::Array2<u32>,
}

/// The pixels of a grid, row after row.
pub uninterp spec fn pixel_values(p: PixelData) -> Seq<u32>;

/// The shape of a grid: (rows, columns), as it was created.
pub uninterp spec fn pixel_shape(p: PixelData) -> (nat, nat);

/// `ndarray::Array2::zeros((rows, cols))`: a grid of the given shape with
/// every pixel 0. It panics when an axis length or the product of the
/// non-zero axis lengths overflows `isize`, which the `requires` leaves out.
#[verifier::external_body]
fn grid_zeros(rows: usize, cols: usize) -> (p: PixelData)
    requires
        rows <= isize::MAX,
        cols <= isize::MAX,
        rows * cols <= isize::MAX,
    ensures
        pixel_shape(p) == (rows as nat, cols as nat),
        pixel_values(p) == Seq::new((rows * cols) as nat, |i: int| 0u32),
{
    PixelData { grid: ndarray::Array2::zeros((rows, cols)) }
}

/// `IndexMut<(usize, usize)>` of `ndarray::Array2`: writes the pixel at
/// (row, col). It panics out of bounds, which the `requires` leaves out;
/// the shape is kept and only that pixel changes.
#[verifier::external_body]
fn grid_store(p: &mut PixelData, row: usize, col: usize, value: u32)
    requires
        row < pixel_shape(*old(p)).0,
        col < pixel_shape(*old(p)).1,
    ensures
        pixel_shape(*final(p)) == pixel_shape(*old(p)),
        pixel_values(*final(p)) == pixel_values(*old(p)).update(
            row * pixel_shape(*old(p)).1 + col,
            value,
        ),
{
    p.grid[(row, col)] = value;
}

/// `Index<(usize, usize)>` of `ndarray::Array2`: reads the pixel at
/// (row, col). It panics out of bounds, which the `requires` leaves out.
#[verifier::external_body]
fn grid_load(p: &PixelData, row: usize, col: usize) -> (v: u32)
    requires
        row < pixel_shape(*p).0,
        col < pixel_shape(*p).1,
    ensures
        v == pixel_values(*p)[row * pixel_shape(*p).1 + col],
{
    p.grid[(row, col)]
}

/// `ndarray::ArrayBase::dim` for a two-dimensional array: its (rows, columns).
#[verifier::external_body]
fn grid_dim(p: &PixelData) -> (d: (usize, usize))
    ensures
        d.0 == pixel_shape(*p).0,
        d.1 == pixel_shape(*p).1,
{
    p.grid.dim()
}

impl PixelData {
    /// The grid has `rows` by `cols` pixels, stored row after row.
    pub open spec fn has_shape(self, rows: nat, cols: nat) -> bool {
        &&& pixel_shape(self) == (rows, cols)
        &&& pixel_values(self).len() == rows * cols
    }

    /// The grid holds one pixel per cell, and its cell count fits an `isize`
    /// (as every `ndarray` array's does).
    pub open spec fn wf(self) -> bool {
        &&& pixel_values(self).len() == pixel_shape(self).0 * pixel_shape(self).1
        &&& pixel_shape(self).0 * pixel_shape(self).1 <= isize::MAX
    }

    /// A grid of `rows` by `cols` pixels, all 0.
    pub fn zeros(rows: usize, cols: usize) -> (p: PixelData)
        requires
            rows <= isize::MAX,
            cols <= isize::MAX,
            rows * cols <= isize::MAX,
        ensures
            p.has_shape(rows as nat, cols as nat),
            p.wf(),
            pixel_values(p) == Seq::new((rows * cols) as nat, |i: int| 0u32),
    {
        grid_zeros(rows, cols)
    }

    /// Write the pixel at (row, col).
    pub fn set(&mut self, row: usize, col: usize, value: u32)
        requires
            row < pixel_shape(*old(self)).0,
            col < pixel_shape(*old(self)).1,
        ensures
            pixel_shape(*final(self)) == pixel_shape(*old(self)),
            pixel_values(*final(self)) == pixel_values(*old(self)).update(
                row * pixel_shape(*old(self)).1 + col,
                value,
            ),
    {
        grid_store(self, row, col, value);
    }

    /// Read the pixel at (row, col).
    pub fn get(&self, row: usize, col: usize) -> (v: u32)
        requires
            row < pixel_shape(*self).0,
            col < pixel_shape(*self).1,
        ensures
            v == pixel_values(*self)[row * pixel_shape(*self).1 + col],
    {
        grid_load(self, row, col)
    }

    /// The number of rows.
    pub fn rows(&self) -> (r: usize)
        ensures
            r == pixel_shape(*self).0,
    {
        grid_dim(self).0
    }

    /// The number of columns.
    pub fn cols(&self) -> (c: usize)
        ensures
            c == pixel_shape(*self).1,
    {
        grid_dim(self).1
    }
}

} // verus!
