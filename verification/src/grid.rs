use crate::image_dimensions::Voxel;
use vstd::prelude::*;

verus! {

/// The indices that an array of the given shape has.
pub open spec fn within(shape: (usize, usize, usize, usize), v: Voxel) -> bool {
    0 <= v.0 < shape.0 && 0 <= v.1 < shape.1 && 0 <= v.2 < shape.2 && 0 <= v.3 < shape.3
}

/// The position of an index in the logical (row-major) order of an array of
/// the given shape.
pub open spec fn row_major(shape: (usize, usize, usize, usize), v: Voxel) -> int {
    ((v.0 * shape.1 + v.1) * shape.2 + v.2) * shape.3 + v.3
}

/// The number of elements of an array of the given shape.
pub open spec fn volume(shape: (usize, usize, usize, usize)) -> int {
    shape.0 * shape.1 * shape.2 * shape.3
}

/// The index that four exec coordinates name.
pub open spec fn voxel(k: usize, j: usize, i: usize, l: usize) -> Voxel {
    (k as int, j as int, i as int, l as int)
}

/// A four-dimensional array of bytes, held by `ndarray`. Its axes are
/// (layer, row, column, channel).
#[verifier::external_body]
pub struct ByteGrid {
    cells: ndarray::Array4<u8>,
}

/// The lengths of the four axes of the array.
pub uninterp spec fn byte_grid_shape(grid: ByteGrid) -> (usize, usize, usize, usize);

/// Whether the array is in standard layout, as `ndarray` tells it: its
/// elements lie in memory in row-major order, one after the other.
pub uninterp spec fn byte_grid_standard(grid: ByteGrid) -> bool;

/// The element of the array at each of its indices.
pub uninterp spec fn byte_grid_cells(grid: ByteGrid) -> Map<Voxel, u8>;

/// What an array of zeros of the given shape holds.
pub open spec fn byte_grid_blank(shape: (usize, usize, usize, usize)) -> Map<Voxel, u8> {
    Map::new(|v: Voxel| within(shape, v), |v: Voxel| 0u8)
}

/// The slice lists, in row-major order, what the array holds at the indices
/// of its shape.
pub open spec fn byte_grid_listed(grid: ByteGrid, listed: Seq<u8>) -> bool {
    &&& listed.len() == volume(byte_grid_shape(grid))
    &&& forall|v: Voxel| #[trigger]
        within(byte_grid_shape(grid), v) ==> listed[row_major(byte_grid_shape(grid), v)] == byte_grid_cells(
            grid,
        )[v]
}

/// `ndarray::Array4::zeros`: an array of the given shape with a zero at every
/// index, in standard layout, which is the order that a shape given as a
/// tuple asks for. It panics where the element count or the allocation
/// exceeds `isize::MAX`, which the precondition leaves out.
#[verifier::external_body]
fn byte_grid_zeros(depth: usize, height: usize, width: usize, channels: usize) -> (grid: ByteGrid)
    requires
        depth >= 1,
        height >= 1,
        width >= 1,
        channels >= 1,
        depth * height * width * channels * 1 <= isize::MAX,
    ensures
        byte_grid_shape(grid) == (depth, height, width, channels),
        byte_grid_cells(grid) == byte_grid_blank((depth, height, width, channels)),
        byte_grid_standard(grid),
{
    ByteGrid { cells: ndarray::Array4::<u8>::zeros((depth, height, width, channels)) }
}

/// `ArrayBase::dim`: the lengths of the four axes.
#[verifier::external_body]
fn byte_grid_dim(grid: &ByteGrid) -> (shape: (usize, usize, usize, usize))
    ensures
        shape == byte_grid_shape(*grid),
{
    grid.cells.dim()
}

/// Indexing of `ArrayBase` by `[usize; 4]`: the element at the index. It
/// panics on an index outside the shape, which the precondition leaves out.
#[verifier::external_body]
fn byte_grid_index(grid: &ByteGrid, k: usize, j: usize, i: usize, l: usize) -> (value: u8)
    requires
        within(byte_grid_shape(*grid), voxel(k, j, i, l)),
    ensures
        value == byte_grid_cells(*grid)[voxel(k, j, i, l)],
{
    grid.cells[[k, j, i, l]]
}

/// Mutable indexing of `ArrayBase` by `[usize; 4]`: the element at the index
/// is replaced; the shape, the layout and every other element stay. It
/// panics on an index outside the shape, which the precondition leaves out.
#[verifier::external_body]
fn byte_grid_index_mut(grid: &mut ByteGrid, k: usize, j: usize, i: usize, l: usize, value: u8)
    requires
        within(byte_grid_shape(*old(grid)), voxel(k, j, i, l)),
    ensures
        byte_grid_shape(*final(grid)) == byte_grid_shape(*old(grid)),
        byte_grid_standard(*final(grid)) == byte_grid_standard(*old(grid)),
        byte_grid_cells(*final(grid)) == byte_grid_cells(*old(grid)).insert(voxel(k, j, i, l), value),
{
    grid.cells[[k, j, i, l]] = value;
}

/// `ArrayBase::as_slice`: exactly where the array is in standard layout, its
/// elements as a slice in logical order.
#[verifier::external_body]
fn byte_grid_as_slice(grid: &ByteGrid) -> (slice: Option<&[u8]>)
    ensures
        slice is Some <==> byte_grid_standard(*grid),
        slice matches Some(s) ==> byte_grid_listed(*grid, s@),
{
    grid.cells.as_slice()
}

/// `ArrayBase::as_slice_mut`: exactly where the array is in standard layout,
/// its elements as a mutable slice in logical order. What the slice holds
/// when the borrow ends is what the array then holds; shape and layout stay.
/// Without a slice the array is untouched.
#[verifier::external_body]
fn byte_grid_as_slice_mut(grid: &mut ByteGrid) -> (slice: Option<&mut [u8]>)
    ensures
        match slice {
            Some(s) => byte_grid_standard(*old(grid)) && byte_grid_listed(*old(grid), s@) && byte_grid_shape(
                *final(grid),
            ) == byte_grid_shape(*old(grid)) && byte_grid_standard(*final(grid)) && byte_grid_listed(
                *final(grid),
                final(s)@,
            ),
            None => !byte_grid_standard(*old(grid)) && *final(grid) == *old(grid),
        },
{
    grid.cells.as_slice_mut()
}

impl ByteGrid {
    /// The lengths of the axes: (depth, height, width, channels).
    pub open spec fn shape(self) -> (usize, usize, usize, usize) {
        byte_grid_shape(self)
    }

    /// The element at each index.
    pub open spec fn cells(self) -> Map<Voxel, u8> {
        byte_grid_cells(self)
    }

    /// The elements lie in memory in row-major order, one after the other.
    /// Every array that this library makes is so.
    pub open spec fn standard(self) -> bool {
        byte_grid_standard(self)
    }

    /// A grid of zeros.
    pub(crate) fn zeros(depth: usize, height: usize, width: usize, channels: usize) -> (grid: Self)
        requires
            depth >= 1,
            height >= 1,
            width >= 1,
            channels >= 1,
            depth * height * width * channels * 1 <= isize::MAX,
        ensures
            grid.shape() == (depth, height, width, channels),
            grid.cells() == byte_grid_blank((depth, height, width, channels)),
            grid.standard(),
    {
        byte_grid_zeros(depth, height, width, channels)
    }

    /// The lengths of the axes: (depth, height, width, channels).
    pub fn dim(&self) -> (shape: (usize, usize, usize, usize))
        ensures
            shape == self.shape(),
    {
        byte_grid_dim(self)
    }

    /// The element at (layer `k`, row `j`, column `i`, channel `l`), or
    /// nothing where the index lies outside the shape.
    pub fn get(&self, k: usize, j: usize, i: usize, l: usize) -> (value: Option<u8>)
        ensures
            value == if within(self.shape(), voxel(k, j, i, l)) {
                Some(self.cells()[voxel(k, j, i, l)])
            } else {
                None
            },
    {
        let (d, h, w, c) = byte_grid_dim(self);
        if k < d && j < h && i < w && l < c {
            Some(byte_grid_index(self, k, j, i, l))
        } else {
            None
        }
    }

    /// Replaces the element at (layer `k`, row `j`, column `i`, channel `l`).
    /// An index outside the shape changes nothing and gives `false`.
    pub fn set(&mut self, k: usize, j: usize, i: usize, l: usize, value: u8) -> (done: bool)
        ensures
            done == within(old(self).shape(), voxel(k, j, i, l)),
            final(self).shape() == old(self).shape(),
            final(self).standard() == old(self).standard(),
            final(self).cells() == if done {
                old(self).cells().insert(voxel(k, j, i, l), value)
            } else {
                old(self).cells()
            },
    {
        let (d, h, w, c) = byte_grid_dim(self);
        if k < d && j < h && i < w && l < c {
            byte_grid_index_mut(self, k, j, i, l, value);
            true
        } else {
            false
        }
    }

    /// The elements as one slice in row-major order; there is one exactly
    /// where the array is in standard layout.
    pub fn as_slice(&self) -> (slice: Option<&[u8]>)
        ensures
            slice is Some <==> self.standard(),
            slice matches Some(s) ==> byte_grid_listed(*self, s@),
    {
        byte_grid_as_slice(self)
    }

    /// The elements as one mutable slice in row-major order; there is one
    /// exactly where the array is in standard layout. The array ends up
    /// holding what the slice holds when the borrow ends.
    pub fn as_slice_mut(&mut self) -> (slice: Option<&mut [u8]>)
        ensures
            match slice {
                Some(s) => old(self).standard() && byte_grid_listed(*old(self), s@)
                    && final(self).shape() == old(self).shape() && final(self).standard()
                    && byte_grid_listed(*final(self), final(s)@),
                None => !old(self).standard() && *final(self) == *old(self),
            },
    {
        byte_grid_as_slice_mut(self)
    }
}

/// A four-dimensional array of single-precision numbers, each kept as its IEEE-754 bit pattern,, held by `ndarray`. Its axes are
/// (layer, row, column, channel).
#[verifier::external_body]
pub struct FloatGrid {
    cells: ndarray::Array4<u32>,
}

/// The lengths of the four axes of the array.
pub uninterp spec fn float_grid_shape(grid: FloatGrid) -> (usize, usize, usize, usize);

/// Whether the array is in standard layout, as `ndarray` tells it: its
/// elements lie in memory in row-major order, one after the other.
pub uninterp spec fn float_grid_standard(grid: FloatGrid) -> bool;

/// The element of the array at each of its indices.
pub uninterp spec fn float_grid_cells(grid: FloatGrid) -> Map<Voxel, u32>;

/// What an array of zeros of the given shape holds.
pub open spec fn float_grid_blank(shape: (usize, usize, usize, usize)) -> Map<Voxel, u32> {
    Map::new(|v: Voxel| within(shape, v), |v: Voxel| 0u32)
}

/// The slice lists, in row-major order, what the array holds at the indices
/// of its shape.
pub open spec fn float_grid_listed(grid: FloatGrid, listed: Seq<u32>) -> bool {
    &&& listed.len() == volume(float_grid_shape(grid))
    &&& forall|v: Voxel| #[trigger]
        within(float_grid_shape(grid), v) ==> listed[row_major(float_grid_shape(grid), v)] == float_grid_cells(
            grid,
        )[v]
}

/// `ndarray::Array4::zeros`: an array of the given shape with a zero at every
/// index, in standard layout, which is the order that a shape given as a
/// tuple asks for. It panics where the element count or the allocation
/// exceeds `isize::MAX`, which the precondition leaves out.
#[verifier::external_body]
fn float_grid_zeros(depth: usize, height: usize, width: usize, channels: usize) -> (grid: FloatGrid)
    requires
        depth >= 1,
        height >= 1,
        width >= 1,
        channels >= 1,
        depth * height * width * channels * 4 <= isize::MAX,
    ensures
        float_grid_shape(grid) == (depth, height, width, channels),
        float_grid_cells(grid) == float_grid_blank((depth, height, width, channels)),
        float_grid_standard(grid),
{
    FloatGrid { cells: ndarray::Array4::<u32>::zeros((depth, height, width, channels)) }
}

/// `ArrayBase::dim`: the lengths of the four axes.
#[verifier::external_body]
fn float_grid_dim(grid: &FloatGrid) -> (shape: (usize, usize, usize, usize))
    ensures
        shape == float_grid_shape(*grid),
{
    grid.cells.dim()
}

/// Indexing of `ArrayBase` by `[usize; 4]`: the element at the index. It
/// panics on an index outside the shape, which the precondition leaves out.
#[verifier::external_body]
fn float_grid_index(grid: &FloatGrid, k: usize, j: usize, i: usize, l: usize) -> (value: u32)
    requires
        within(float_grid_shape(*grid), voxel(k, j, i, l)),
    ensures
        value == float_grid_cells(*grid)[voxel(k, j, i, l)],
{
    grid.cells[[k, j, i, l]]
}

/// Mutable indexing of `ArrayBase` by `[usize; 4]`: the element at the index
/// is replaced; the shape, the layout and every other element stay. It
/// panics on an index outside the shape, which the precondition leaves out.
#[verifier::external_body]
fn float_grid_index_mut(grid: &mut FloatGrid, k: usize, j: usize, i: usize, l: usize, value: u32)
    requires
        within(float_grid_shape(*old(grid)), voxel(k, j, i, l)),
    ensures
        float_grid_shape(*final(grid)) == float_grid_shape(*old(grid)),
        float_grid_standard(*final(grid)) == float_grid_standard(*old(grid)),
        float_grid_cells(*final(grid)) == float_grid_cells(*old(grid)).insert(voxel(k, j, i, l), value),
{
    grid.cells[[k, j, i, l]] = value;
}

/// `ArrayBase::as_slice`: exactly where the array is in standard layout, its
/// elements as a slice in logical order.
#[verifier::external_body]
fn float_grid_as_slice(grid: &FloatGrid) -> (slice: Option<&[u32]>)
    ensures
        slice is Some <==> float_grid_standard(*grid),
        slice matches Some(s) ==> float_grid_listed(*grid, s@),
{
    grid.cells.as_slice()
}

/// `ArrayBase::as_slice_mut`: exactly where the array is in standard layout,
/// its elements as a mutable slice in logical order. What the slice holds
/// when the borrow ends is what the array then holds; shape and layout stay.
/// Without a slice the array is untouched.
#[verifier::external_body]
fn float_grid_as_slice_mut(grid: &mut FloatGrid) -> (slice: Option<&mut [u32]>)
    ensures
        match slice {
            Some(s) => float_grid_standard(*old(grid)) && float_grid_listed(*old(grid), s@) && float_grid_shape(
                *final(grid),
            ) == float_grid_shape(*old(grid)) && float_grid_standard(*final(grid)) && float_grid_listed(
                *final(grid),
                final(s)@,
            ),
            None => !float_grid_standard(*old(grid)) && *final(grid) == *old(grid),
        },
{
    grid.cells.as_slice_mut()
}

impl FloatGrid {
    /// The lengths of the axes: (depth, height, width, channels).
    pub open spec fn shape(self) -> (usize, usize, usize, usize) {
        float_grid_shape(self)
    }

    /// The element at each index.
    pub open spec fn cells(self) -> Map<Voxel, u32> {
        float_grid_cells(self)
    }

    /// The elements lie in memory in row-major order, one after the other.
    /// Every array that this library makes is so.
    pub open spec fn standard(self) -> bool {
        float_grid_standard(self)
    }

    /// A grid of zeros.
    pub(crate) fn zeros(depth: usize, height: usize, width: usize, channels: usize) -> (grid: Self)
        requires
            depth >= 1,
            height >= 1,
            width >= 1,
            channels >= 1,
            depth * height * width * channels * 4 <= isize::MAX,
        ensures
            grid.shape() == (depth, height, width, channels),
            grid.cells() == float_grid_blank((depth, height, width, channels)),
            grid.standard(),
    {
        float_grid_zeros(depth, height, width, channels)
    }

    /// The lengths of the axes: (depth, height, width, channels).
    pub fn dim(&self) -> (shape: (usize, usize, usize, usize))
        ensures
            shape == self.shape(),
    {
        float_grid_dim(self)
    }

    /// The element at (layer `k`, row `j`, column `i`, channel `l`), or
    /// nothing where the index lies outside the shape.
    pub fn get(&self, k: usize, j: usize, i: usize, l: usize) -> (value: Option<u32>)
        ensures
            value == if within(self.shape(), voxel(k, j, i, l)) {
                Some(self.cells()[voxel(k, j, i, l)])
            } else {
                None
            },
    {
        let (d, h, w, c) = float_grid_dim(self);
        if k < d && j < h && i < w && l < c {
            Some(float_grid_index(self, k, j, i, l))
        } else {
            None
        }
    }

    /// Replaces the element at (layer `k`, row `j`, column `i`, channel `l`).
    /// An index outside the shape changes nothing and gives `false`.
    pub fn set(&mut self, k: usize, j: usize, i: usize, l: usize, value: u32) -> (done: bool)
        ensures
            done == within(old(self).shape(), voxel(k, j, i, l)),
            final(self).shape() == old(self).shape(),
            final(self).standard() == old(self).standard(),
            final(self).cells() == if done {
                old(self).cells().insert(voxel(k, j, i, l), value)
            } else {
                old(self).cells()
            },
    {
        let (d, h, w, c) = float_grid_dim(self);
        if k < d && j < h && i < w && l < c {
            float_grid_index_mut(self, k, j, i, l, value);
            true
        } else {
            false
        }
    }

    /// The elements as one slice in row-major order; there is one exactly
    /// where the array is in standard layout.
    pub fn as_slice(&self) -> (slice: Option<&[u32]>)
        ensures
            slice is Some <==> self.standard(),
            slice matches Some(s) ==> float_grid_listed(*self, s@),
    {
        float_grid_as_slice(self)
    }

    /// The elements as one mutable slice in row-major order; there is one
    /// exactly where the array is in standard layout. The array ends up
    /// holding what the slice holds when the borrow ends.
    pub fn as_slice_mut(&mut self) -> (slice: Option<&mut [u32]>)
        ensures
            match slice {
                Some(s) => old(self).standard() && float_grid_listed(*old(self), s@)
                    && final(self).shape() == old(self).shape() && final(self).standard()
                    && float_grid_listed(*final(self), final(s)@),
                None => !old(self).standard() && *final(self) == *old(self),
            },
    {
        float_grid_as_slice_mut(self)
    }
}

} // verus!
