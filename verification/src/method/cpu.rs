use crate::error::{Error, ImageDataError};
use crate::grid::{voxel, ByteGrid, FloatGrid};
use crate::image::image_data::{MappedImageDataMut, Pixels};
use crate::image::Image;
use crate::image_dimensions::{ImageDim, Voxel};
use crate::method::TextureMethod;
use crate::sample::{encodes_fraction, lemma_encoding_unique, UnitSample};
use vstd::prelude::*;

verus! {

/// A method that computes on the host, one voxel at a time: a pure function
/// of coordinate, image shape and parameters.
pub trait CpuMethod: TextureMethod {
    /// The sample at a voxel of an image of the given shape.
    spec fn value_at(v: Voxel, sz: ImageDim, params: Self::Params) -> UnitSample;

    /// Computes the sample at (layer, row, column, channel) `idx`.
    fn compute_idx(idx: (usize, usize, usize, usize), sz: ImageDim, params: &Self::Params) -> (sample:
        UnitSample)
        requires
            sz.valid(),
            sz.elements() <= usize::MAX,
            sz.contains(voxel(idx.0, idx.1, idx.2, idx.3)),
        ensures
            sample == Self::value_at(voxel(idx.0, idx.1, idx.2, idx.3), sz, *params),
            sample.wf(),
    ;
}

/// The pixel at `v` shows the sample: a byte holds the whole part of 255
/// times the value, a single holds the value itself.
pub open spec fn shows(pixels: Pixels, v: Voxel, sample: UnitSample) -> bool {
    match pixels {
        Pixels::UInt8(cells) => cells[v] == (255 * sample@) / 0x80_0000,
        Pixels::Float32(cells) => encodes_fraction(cells[v], sample@),
    }
}

/// Every pixel of an image of shape `sz` shows what the method computes
/// there.
pub open spec fn rendered<M: CpuMethod>(pixels: Pixels, sz: ImageDim, params: M::Params) -> bool {
    forall|v: Voxel| #[trigger] sz.contains(v) ==> shows(pixels, v, M::value_at(v, sz, params))
}

/// A method computes one image only: two buffers of the same element type
/// that were both filled by the same method, for the same shape and with the
/// same parameters, hold the same element at every voxel of the image.
pub proof fn lemma_rendered_agree<M: CpuMethod>(
    first: Pixels,
    second: Pixels,
    sz: ImageDim,
    params: M::Params,
    v: Voxel,
)
    requires
        rendered::<M>(first, sz, params),
        rendered::<M>(second, sz, params),
        first.element_type() == second.element_type(),
        sz.contains(v),
    ensures
        match (first, second) {
            (Pixels::UInt8(a), Pixels::UInt8(b)) => a[v] == b[v],
            (Pixels::Float32(a), Pixels::Float32(b)) => a[v] == b[v],
            _ => false,
        },
{
    let sample = M::value_at(v, sz, params);
    assert(shows(first, v, sample));
    assert(shows(second, v, sample));
    match (first, second) {
        (Pixels::Float32(a), Pixels::Float32(b)) => {
            lemma_encoding_unique(a[v], b[v], sample@);
        },
        _ => {},
    }
}

/// `v` comes before (`k`, `j`, `i`, `l`) when the voxels are walked layer by
/// layer, row by row, column by column, channel by channel.
pub open spec fn walked(v: Voxel, k: int, j: int, i: int, l: int) -> bool {
    v.0 < k || (v.0 == k && (v.1 < j || (v.1 == j && (v.2 < i || (v.2 == i && v.3 < l)))))
}

fn fill_bytes<M: CpuMethod>(grid: &mut ByteGrid, params: &M::Params)
    requires
        ImageDim::of_shape(old(grid).shape()).elements() <= usize::MAX,
    ensures
        final(grid).shape() == old(grid).shape(),
        final(grid).standard() == old(grid).standard(),
        rendered::<M>(
            Pixels::UInt8(final(grid).cells()),
            ImageDim::of_shape(old(grid).shape()),
            *params,
        ),
{
    let shape = grid.dim();
    let (d, h, w, c) = shape;
    let sz = ImageDim::from_shape(shape);
    let ghost standard = grid.standard();
    let mut k: usize = 0;
    while k < d
        invariant
            shape == (d, h, w, c),
            sz == ImageDim::of_shape(shape),
            sz.elements() <= usize::MAX,
            grid.shape() == shape,
            grid.standard() == standard,
            k <= d,
            forall|v: Voxel| #[trigger]
                sz.contains(v) && walked(v, k as int, 0, 0, 0) ==> shows(
                    Pixels::UInt8(grid.cells()),
                    v,
                    M::value_at(v, sz, *params),
                ),
        decreases d - k,
    {
        let mut j: usize = 0;
        while j < h
            invariant
                shape == (d, h, w, c),
                sz == ImageDim::of_shape(shape),
                sz.elements() <= usize::MAX,
                grid.shape() == shape,
                grid.standard() == standard,
                k < d,
                j <= h,
                forall|v: Voxel| #[trigger]
                    sz.contains(v) && walked(v, k as int, j as int, 0, 0) ==> shows(
                        Pixels::UInt8(grid.cells()),
                        v,
                        M::value_at(v, sz, *params),
                    ),
            decreases h - j,
        {
            let mut i: usize = 0;
            while i < w
                invariant
                    shape == (d, h, w, c),
                    sz == ImageDim::of_shape(shape),
                    sz.elements() <= usize::MAX,
                    grid.shape() == shape,
                    grid.standard() == standard,
                    k < d,
                    j < h,
                    i <= w,
                    forall|v: Voxel| #[trigger]
                        sz.contains(v) && walked(v, k as int, j as int, i as int, 0) ==> shows(
                            Pixels::UInt8(grid.cells()),
                            v,
                            M::value_at(v, sz, *params),
                        ),
                decreases w - i,
            {
                let mut l: usize = 0;
                while l < c
                    invariant
                        shape == (d, h, w, c),
                        sz == ImageDim::of_shape(shape),
                        sz.elements() <= usize::MAX,
                        grid.shape() == shape,
                        grid.standard() == standard,
                        k < d,
                        j < h,
                        i < w,
                        l <= c,
                        forall|v: Voxel| #[trigger]
                            sz.contains(v) && walked(v, k as int, j as int, i as int, l as int)
                                ==> shows(
                                Pixels::UInt8(grid.cells()),
                                v,
                                M::value_at(v, sz, *params),
                            ),
                    decreases c - l,
                {
                    let sample = M::compute_idx((k, j, i, l), sz, params);
                    let level = sample.to_u8();
                    let done = grid.set(k, j, i, l, level);
                    assert(done);
                    l = l + 1;
                }
                i = i + 1;
            }
            j = j + 1;
        }
        k = k + 1;
    }
}

fn fill_floats<M: CpuMethod>(grid: &mut FloatGrid, params: &M::Params)
    requires
        ImageDim::of_shape(old(grid).shape()).elements() <= usize::MAX,
    ensures
        final(grid).shape() == old(grid).shape(),
        final(grid).standard() == old(grid).standard(),
        rendered::<M>(
            Pixels::Float32(final(grid).cells()),
            ImageDim::of_shape(old(grid).shape()),
            *params,
        ),
{
    let shape = grid.dim();
    let (d, h, w, c) = shape;
    let sz = ImageDim::from_shape(shape);
    let ghost standard = grid.standard();
    let mut k: usize = 0;
    while k < d
        invariant
            shape == (d, h, w, c),
            sz == ImageDim::of_shape(shape),
            sz.elements() <= usize::MAX,
            grid.shape() == shape,
            grid.standard() == standard,
            k <= d,
            forall|v: Voxel| #[trigger]
                sz.contains(v) && walked(v, k as int, 0, 0, 0) ==> shows(
                    Pixels::Float32(grid.cells()),
                    v,
                    M::value_at(v, sz, *params),
                ),
        decreases d - k,
    {
        let mut j: usize = 0;
        while j < h
            invariant
                shape == (d, h, w, c),
                sz == ImageDim::of_shape(shape),
                sz.elements() <= usize::MAX,
                grid.shape() == shape,
                grid.standard() == standard,
                k < d,
                j <= h,
                forall|v: Voxel| #[trigger]
                    sz.contains(v) && walked(v, k as int, j as int, 0, 0) ==> shows(
                        Pixels::Float32(grid.cells()),
                        v,
                        M::value_at(v, sz, *params),
                    ),
            decreases h - j,
        {
            let mut i: usize = 0;
            while i < w
                invariant
                    shape == (d, h, w, c),
                    sz == ImageDim::of_shape(shape),
                    sz.elements() <= usize::MAX,
                    grid.shape() == shape,
                    grid.standard() == standard,
                    k < d,
                    j < h,
                    i <= w,
                    forall|v: Voxel| #[trigger]
                        sz.contains(v) && walked(v, k as int, j as int, i as int, 0) ==> shows(
                            Pixels::Float32(grid.cells()),
                            v,
                            M::value_at(v, sz, *params),
                        ),
                decreases w - i,
            {
                let mut l: usize = 0;
                while l < c
                    invariant
                        shape == (d, h, w, c),
                        sz == ImageDim::of_shape(shape),
                        sz.elements() <= usize::MAX,
                        grid.shape() == shape,
                        grid.standard() == standard,
                        k < d,
                        j < h,
                        i < w,
                        l <= c,
                        forall|v: Voxel| #[trigger]
                            sz.contains(v) && walked(v, k as int, j as int, i as int, l as int)
                                ==> shows(
                                Pixels::Float32(grid.cells()),
                                v,
                                M::value_at(v, sz, *params),
                            ),
                    decreases c - l,
                {
                    let sample = M::compute_idx((k, j, i, l), sz, params);
                    let level = sample.to_float_bits();
                    let done = grid.set(k, j, i, l, level);
                    assert(done);
                    l = l + 1;
                }
                i = i + 1;
            }
            j = j + 1;
        }
        k = k + 1;
    }
}

/// What filling an image on the host comes to: an image that can be mapped
/// ends up with the method's sample at every voxel, its shape, element type
/// and layout as before; one that cannot is left as it was.
pub open spec fn filled<M: CpuMethod>(
    tgt: Image,
    after: Image,
    params: M::Params,
    done: Result<(), Error>,
) -> bool {
    &&& after.dim_spec() == tgt.dim_spec()
    &&& after.element_type_spec() == tgt.element_type_spec()
    &&& after.standard() == tgt.standard()
    &&& match done {
        Ok(_) => tgt.mappable() && tgt.written(after, after.pixels()) && rendered::<M>(
            after.pixels(),
            tgt.dim_spec(),
            params,
        ),
        Err(e) => !tgt.mappable() && e == Error::ImageData(ImageDataError::Unsynced) && after
            == tgt,
    }
}

/// Fills an image on the host: the method's sample for every voxel, walked
/// layer by layer, row by row, column by column, channel by channel, written
/// through a write map of the image.
///
/// It fails, and leaves the image as it was, exactly when the image cannot
/// be mapped.
pub fn compute_cpu<M: CpuMethod>(tgt: &mut Image, params: &M::Params) -> (done: Result<(), Error>)
    requires
        old(tgt).wf(),
    ensures
        filled::<M>(*old(tgt), *final(tgt), *params, done),
{
    match tgt.data_mut() {
        Ok(MappedImageDataMut::UInt8(grid)) => {
            fill_bytes::<M>(grid, params);
            Ok(())
        },
        Ok(MappedImageDataMut::Float32(grid)) => {
            fill_floats::<M>(grid, params);
            Ok(())
        },
        Err(e) => Err(Error::ImageData(e)),
    }
}

} // verus!
