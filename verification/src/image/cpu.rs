use crate::error::{Error, ImageDataError};
use crate::grid::{ByteGrid, FloatGrid};
use crate::image::gpu::GpuImageData;
use crate::image::image_data::{
    ImageData, ImageDataBase, MappedImageData, MappedImageDataMut, Pixels,
};
use crate::image::{storable, ImageDataType};
use crate::image_dimensions::ImageDim;
use vstd::prelude::*;

verus! {

/// The pixels of an image in host memory.
pub enum CpuImageData {
    UInt8(ByteGrid),
    Float32(FloatGrid),
}

impl CpuImageData {
    /// Host storage of zeros.
    pub(crate) fn new(dim: ImageDim, element_type: ImageDataType) -> (data: Self)
        requires
            storable(dim, element_type),
        ensures
            data.dim_spec() == dim,
            data.element_type_spec() == element_type,
            data.pixels() == Pixels::blank(dim, element_type),
            data.standard(),
    {
        match element_type {
            ImageDataType::UInt8 => CpuImageData::UInt8(
                ByteGrid::zeros(dim.depth, dim.height, dim.width, dim.channels),
            ),
            ImageDataType::Float32 => CpuImageData::Float32(
                FloatGrid::zeros(dim.depth, dim.height, dim.width, dim.channels),
            ),
        }
    }
}

impl ImageDataBase for CpuImageData {
    open spec fn dim_spec(&self) -> ImageDim {
        match self {
            CpuImageData::UInt8(g) => ImageDim::of_shape(g.shape()),
            CpuImageData::Float32(g) => ImageDim::of_shape(g.shape()),
        }
    }

    open spec fn element_type_spec(&self) -> ImageDataType {
        match self {
            CpuImageData::UInt8(_) => ImageDataType::UInt8,
            CpuImageData::Float32(_) => ImageDataType::Float32,
        }
    }

    open spec fn pixels(&self) -> Pixels {
        match self {
            CpuImageData::UInt8(g) => Pixels::UInt8(g.cells()),
            CpuImageData::Float32(g) => Pixels::Float32(g.cells()),
        }
    }

    open spec fn standard(&self) -> bool {
        match self {
            CpuImageData::UInt8(g) => g.standard(),
            CpuImageData::Float32(g) => g.standard(),
        }
    }

    fn dim(&self) -> (dim: ImageDim) {
        match self {
            CpuImageData::UInt8(g) => ImageDim::from_shape(g.dim()),
            CpuImageData::Float32(g) => ImageDim::from_shape(g.dim()),
        }
    }

    fn element_type(&self) -> (element_type: ImageDataType) {
        match self {
            CpuImageData::UInt8(_) => ImageDataType::UInt8,
            CpuImageData::Float32(_) => ImageDataType::Float32,
        }
    }

    /// A host image has no device copy: there is nothing to do.
    fn download(&mut self) -> (done: Result<(), Error>)
        ensures
            done is Ok,
            *final(self) == *old(self),
    {
        Ok(())
    }

    /// A host image has no device copy: there is nothing to do.
    fn upload(&mut self) -> (done: Result<(), Error>)
        ensures
            done is Ok,
            *final(self) == *old(self),
    {
        Ok(())
    }

    fn as_gpu_image(&self) -> (gpu: Option<&GpuImageData>)
        ensures
            gpu is None,
    {
        None
    }

    fn as_gpu_image_mut(&mut self) -> (gpu: Option<&mut GpuImageData>)
        ensures
            gpu is None,
    {
        None
    }
}

impl ImageData for CpuImageData {
    open spec fn mappable(&self) -> bool {
        true
    }

    fn data(&self) -> (view: Result<MappedImageData<'_>, ImageDataError>) {
        match self {
            CpuImageData::UInt8(g) => Ok(MappedImageData::UInt8(g)),
            CpuImageData::Float32(g) => Ok(MappedImageData::Float32(g)),
        }
    }

    /// Maps the pixels for writing. What the view holds when it is given up
    /// is what the storage then holds.
    fn data_mut(&mut self) -> (view: Result<MappedImageDataMut<'_>, ImageDataError>)
        ensures
            match view {
                Ok(MappedImageDataMut::UInt8(g)) => *old(self) == CpuImageData::UInt8(*g)
                    && *final(self) == CpuImageData::UInt8(*final(g)),
                Ok(MappedImageDataMut::Float32(g)) => *old(self) == CpuImageData::Float32(*g)
                    && *final(self) == CpuImageData::Float32(*final(g)),
                Err(_) => false,
            },
    {
        match self {
            CpuImageData::UInt8(g) => Ok(MappedImageDataMut::UInt8(g)),
            CpuImageData::Float32(g) => Ok(MappedImageDataMut::Float32(g)),
        }
    }
}

} // verus!
