use crate::error::{Error, ImageDataError};
use crate::grid::{byte_grid_blank, float_grid_blank, ByteGrid, FloatGrid};
use crate::image::gpu::GpuImageData;
use crate::image::ImageDataType;
use crate::image_dimensions::{ImageDim, Voxel};
use vstd::prelude::*;

verus! {

/// What an image holds: the element at each voxel, bytes for `UInt8` and
/// single-precision bit patterns for `Float32`.
pub enum Pixels {
    UInt8(Map<Voxel, u8>),
    Float32(Map<Voxel, u32>),
}

impl Pixels {
    /// The element type of the pixels.
    pub open spec fn element_type(self) -> ImageDataType {
        match self {
            Pixels::UInt8(_) => ImageDataType::UInt8,
            Pixels::Float32(_) => ImageDataType::Float32,
        }
    }

    /// The pixels of a fresh image: zero everywhere.
    pub open spec fn blank(dim: ImageDim, element_type: ImageDataType) -> Pixels {
        match element_type {
            ImageDataType::UInt8 => Pixels::UInt8(byte_grid_blank(dim.shape())),
            ImageDataType::Float32 => Pixels::Float32(float_grid_blank(dim.shape())),
        }
    }
}

/// What every image backend can tell and do.
pub trait ImageDataBase: Sized {
    /// The shape of the stored image.
    spec fn dim_spec(&self) -> ImageDim;

    /// The type of the elements of the stored image.
    spec fn element_type_spec(&self) -> ImageDataType;

    /// The pixels of the host copy.
    spec fn pixels(&self) -> Pixels;

    /// The host copy lies in memory in row-major order, so that it can be
    /// had as one slice. Every image that this library makes is so.
    spec fn standard(&self) -> bool;

    /// Get the dimensions of the stored image.
    fn dim(&self) -> (dim: ImageDim)
        ensures
            dim == self.dim_spec(),
    ;

    /// Get the native type of elements in this image.
    fn element_type(&self) -> (element_type: ImageDataType)
        ensures
            element_type == self.element_type_spec(),
    ;

    /// Brings the host copy up to date with the device. Shape and element
    /// type never change; a failure changes nothing.
    fn download(&mut self) -> (done: Result<(), Error>)
        ensures
            final(self).dim_spec() == old(self).dim_spec(),
            final(self).element_type_spec() == old(self).element_type_spec(),
            done is Err ==> *final(self) == *old(self),
    ;

    /// Records that the device has been brought up to date with the host
    /// copy. Shape, element type and host pixels never change.
    fn upload(&mut self) -> (done: Result<(), Error>)
        ensures
            final(self).dim_spec() == old(self).dim_spec(),
            final(self).element_type_spec() == old(self).element_type_spec(),
            final(self).pixels() == old(self).pixels(),
            final(self).standard() == old(self).standard(),
    ;

    /// Get the image data as a device image if it is one.
    fn as_gpu_image(&self) -> (gpu: Option<&GpuImageData>);

    /// Get the image data as a device image for change if it is one. Without
    /// one nothing changes.
    fn as_gpu_image_mut(&mut self) -> (gpu: Option<&mut GpuImageData>)
        ensures
            gpu is None ==> *final(self) == *old(self),
    ;
}

/// A host copy mapped for reading.
pub enum MappedImageData<'a> {
    UInt8(&'a ByteGrid),
    Float32(&'a FloatGrid),
}

impl<'a> MappedImageData<'a> {
    /// The pixels that the view shows.
    pub open spec fn pixels(self) -> Pixels {
        match self {
            MappedImageData::UInt8(g) => Pixels::UInt8(g.cells()),
            MappedImageData::Float32(g) => Pixels::Float32(g.cells()),
        }
    }

    /// The shape of the image that the view shows.
    pub open spec fn dim_spec(self) -> ImageDim {
        match self {
            MappedImageData::UInt8(g) => ImageDim::of_shape(g.shape()),
            MappedImageData::Float32(g) => ImageDim::of_shape(g.shape()),
        }
    }

    /// The array that the view shows can be had as one slice.
    pub open spec fn standard(self) -> bool {
        match self {
            MappedImageData::UInt8(g) => g.standard(),
            MappedImageData::Float32(g) => g.standard(),
        }
    }

    /// Get the image as an array of single-precision bit patterns; nothing
    /// where the elements are of another type.
    pub fn as_f32_nd_array(&self) -> (array: Option<&'a FloatGrid>)
        ensures
            match array {
                Some(g) => *self == MappedImageData::Float32(g),
                None => !(self is Float32),
            },
    {
        match self {
            MappedImageData::Float32(g) => Some(*g),
            _ => None,
        }
    }

    /// Get the image as an array of bytes; nothing where the elements are of
    /// another type.
    pub fn as_u8_nd_array(&self) -> (array: Option<&'a ByteGrid>)
        ensures
            match array {
                Some(g) => *self == MappedImageData::UInt8(g),
                None => !(self is UInt8),
            },
    {
        match self {
            MappedImageData::UInt8(g) => Some(*g),
            _ => None,
        }
    }
}

/// A host copy mapped for writing.
pub enum MappedImageDataMut<'a> {
    UInt8(&'a mut ByteGrid),
    Float32(&'a mut FloatGrid),
}

impl<'a> MappedImageDataMut<'a> {
    /// The pixels that the view shows now.
    pub open spec fn pixels(self) -> Pixels {
        match self {
            MappedImageDataMut::UInt8(g) => Pixels::UInt8(g.cells()),
            MappedImageDataMut::Float32(g) => Pixels::Float32(g.cells()),
        }
    }

    /// Get the image as a mutable array of single-precision bit patterns;
    /// nothing where the elements are of another type, and the array that is
    /// given up then stays as it is.
    pub fn as_f32_nd_array_mut(self) -> (array: Option<&'a mut FloatGrid>)
        ensures
            match array {
                Some(g) => (self matches MappedImageDataMut::Float32(g0) && *g == *g0 && *final(g)
                    == *final(g0)),
                None => !(self is Float32) && match self {
                    MappedImageDataMut::UInt8(g0) => *final(g0) == *g0,
                    _ => true,
                },
            },
    {
        match self {
            MappedImageDataMut::Float32(g) => Some(g),
            _ => None,
        }
    }

    /// Get the image as a mutable array of bytes; nothing where the elements
    /// are of another type, and the array that is given up then stays as it
    /// is.
    pub fn as_u8_nd_array_mut(self) -> (array: Option<&'a mut ByteGrid>)
        ensures
            match array {
                Some(g) => (self matches MappedImageDataMut::UInt8(g0) && *g == *g0 && *final(g)
                    == *final(g0)),
                None => !(self is UInt8) && match self {
                    MappedImageDataMut::Float32(g0) => *final(g0) == *g0,
                    _ => true,
                },
            },
    {
        match self {
            MappedImageDataMut::UInt8(g) => Some(g),
            _ => None,
        }
    }
}

/// A backend whose host copy can be mapped.
pub trait ImageData: ImageDataBase {
    /// The host copy can be mapped as things stand.
    spec fn mappable(&self) -> bool;

    /// Maps the host copy for reading.
    fn data(&self) -> (view: Result<MappedImageData<'_>, ImageDataError>)
        ensures
            match view {
                Ok(v) => self.mappable() && v.pixels() == self.pixels() && v.dim_spec()
                    == self.dim_spec() && v.standard() == self.standard(),
                Err(e) => !self.mappable() && e == ImageDataError::Unsynced,
            },
    ;

    /// Maps the host copy for writing. What the view holds when it is given
    /// up is what the host copy then holds, and the shape is that of the
    /// mapped array. A backend that cannot be mapped stays as it was.
    fn data_mut(&mut self) -> (view: Result<MappedImageDataMut<'_>, ImageDataError>)
        ensures
            match view {
                Ok(MappedImageDataMut::UInt8(g)) => old(self).mappable() && old(self).pixels()
                    == Pixels::UInt8(g.cells()) && old(self).dim_spec() == ImageDim::of_shape(
                    g.shape(),
                ) && final(self).pixels() == Pixels::UInt8(final(g).cells())
                    && final(self).dim_spec() == ImageDim::of_shape(final(g).shape())
                    && g.standard() == old(self).standard() && final(self).standard()
                    == final(g).standard(),
                Ok(MappedImageDataMut::Float32(g)) => old(self).mappable() && old(self).pixels()
                    == Pixels::Float32(g.cells()) && old(self).dim_spec() == ImageDim::of_shape(
                    g.shape(),
                ) && final(self).pixels() == Pixels::Float32(final(g).cells())
                    && final(self).dim_spec() == ImageDim::of_shape(final(g).shape())
                    && g.standard() == old(self).standard() && final(self).standard()
                    == final(g).standard(),
                Err(e) => !old(self).mappable() && e == ImageDataError::Unsynced && *final(self)
                    == *old(self),
            },
    ;
}

} // verus!
