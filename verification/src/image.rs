use crate::context::Context;
use crate::error::{Error, ImageCreationError, ImageDataError};
use crate::image::cpu::CpuImageData;
use crate::image::gpu::{GpuImageData, SyncState, TextureRank};
use crate::image::image_data::{
    ImageData, ImageDataBase, MappedImageData, MappedImageDataMut, Pixels,
};
use crate::image_dimensions::ImageDim;
use vstd::prelude::*;

pub mod cpu;
pub mod gpu;
pub mod image_data;

verus! {

/// Type of elements in an image.
#[derive(Debug, Clone, Copy, PartialEq, Eq, Structural)]
pub enum ImageDataType {
    /// Unsigned bytes (8 bits).
    UInt8,
    /// Single-precision floating point (32 bits).
    Float32,
}

impl ImageDataType {
    /// The number of bytes that one element takes.
    pub open spec fn bytes(self) -> nat {
        match self {
            ImageDataType::UInt8 => 1,
            ImageDataType::Float32 => 4,
        }
    }

    pub fn byte_size(&self) -> (size: usize)
        ensures
            size == self.bytes(),
    {
        match self {
            ImageDataType::UInt8 => 1,
            ImageDataType::Float32 => 4,
        }
    }
}

/// An image of this shape and element type can be held in host memory: every
/// extent is at least one and the pixels take no more than `isize::MAX`
/// bytes.
pub open spec fn storable(dim: ImageDim, element_type: ImageDataType) -> bool {
    dim.valid() && dim.elements() * element_type.bytes() <= isize::MAX
}

/// The number of bytes that the pixels of an image take, where the image can
/// be held in host memory.
pub fn checked_byte_len(dim: ImageDim, element_type: ImageDataType) -> (len: Option<usize>)
    ensures
        match len {
            Some(n) => storable(dim, element_type) && n == dim.elements() * element_type.bytes(),
            None => !storable(dim, element_type),
        },
{
    if !dim.is_valid() {
        return None;
    }
    match dim.checked_elements() {
        Some(count) => match count.checked_mul(element_type.byte_size()) {
            Some(n) => if n <= isize::MAX as usize {
                Some(n)
            } else {
                None
            },
            None => None,
        },
        None => {
            assert(dim.elements() * element_type.bytes() >= dim.elements()) by (nonlinear_arith)
                requires
                    element_type.bytes() >= 1,
            ;
            None
        },
    }
}

/// Where the pixels of an image live.
pub enum ImageStorage {
    Cpu(CpuImageData),
    Gpu(GpuImageData),
}

/// An image: a pixel buffer of fixed shape and element type, held on the
/// host or backed by a device texture.
pub struct Image {
    data: ImageStorage,
}

impl Image {
    /// The storage of the image.
    pub closed spec fn storage(self) -> ImageStorage {
        self.data
    }

    /// An image is its storage and nothing else.
    pub proof fn lemma_storage_is_all(self, other: Image)
        requires
            self.storage() == other.storage(),
        ensures
            self == other,
    {
    }

    /// The shape of the image.
    pub open spec fn dim_spec(self) -> ImageDim {
        match self.storage() {
            ImageStorage::Cpu(cpu) => cpu.dim_spec(),
            ImageStorage::Gpu(gpu) => gpu.dim_spec(),
        }
    }

    /// The element type of the image.
    pub open spec fn element_type_spec(self) -> ImageDataType {
        match self.storage() {
            ImageStorage::Cpu(cpu) => cpu.element_type_spec(),
            ImageStorage::Gpu(gpu) => gpu.element_type_spec(),
        }
    }

    /// The pixels of the host copy of the image.
    pub open spec fn pixels(self) -> Pixels {
        match self.storage() {
            ImageStorage::Cpu(cpu) => cpu.pixels(),
            ImageStorage::Gpu(gpu) => gpu.pixels(),
        }
    }

    /// The image can be held in host memory. Every image that this library
    /// creates can, and no operation changes that.
    pub open spec fn wf(self) -> bool {
        storable(self.dim_spec(), self.element_type_spec())
    }

    /// The host copy lies in memory in row-major order, so that it can be
    /// had as one slice. Every image that this library makes is so.
    pub open spec fn standard(self) -> bool {
        match self.storage() {
            ImageStorage::Cpu(cpu) => cpu.standard(),
            ImageStorage::Gpu(gpu) => gpu.standard(),
        }
    }

    /// The image is backed by a device texture.
    pub open spec fn is_gpu(self) -> bool {
        self.storage() is Gpu
    }

    /// The host copy can be mapped: a host image always, a device image
    /// unless the device copy is the newer one.
    pub open spec fn mappable(self) -> bool {
        match self.storage() {
            ImageStorage::Cpu(_) => true,
            ImageStorage::Gpu(gpu) => gpu.sync() != SyncState::DeviceAhead,
        }
    }

    /// The image as it is once its host copy has been mapped for writing and
    /// left holding `pixels`.
    pub open spec fn written(self, after: Image, pixels: Pixels) -> bool {
        &&& after.pixels() == pixels
        &&& match (self.storage(), after.storage()) {
            (ImageStorage::Cpu(_), ImageStorage::Cpu(_)) => true,
            (ImageStorage::Gpu(before), ImageStorage::Gpu(gpu)) => gpu.same_device(before)
                && gpu.sync() == SyncState::HostAhead,
            _ => false,
        }
    }

    /// What was written through a write map is what a read map shows
    /// afterwards: once a write map has been given up holding `pixels`, the
    /// image can be mapped and its pixels are those. A device image is then
    /// ahead on the host side.
    pub proof fn lemma_write_then_read(self, after: Image, pixels: Pixels)
        requires
            self.written(after, pixels),
        ensures
            after.mappable(),
            after.pixels() == pixels,
            after.is_gpu() == self.is_gpu(),
    {
    }

    /// A view shows the elements of the image's own type: a view of the
    /// pixels of an image is of bytes exactly when the image is, and of
    /// singles exactly when the image is.
    pub proof fn lemma_view_has_element_type(self, view: MappedImageData)
        requires
            view.pixels() == self.pixels(),
        ensures
            view is UInt8 <==> self.element_type_spec() == ImageDataType::UInt8,
            view is Float32 <==> self.element_type_spec() == ImageDataType::Float32,
    {
    }

    /// A host image of zeros.
    pub fn new_cpu(dim: ImageDim, element_type: ImageDataType) -> (image: Self)
        requires
            storable(dim, element_type),
        ensures
            !image.is_gpu(),
            image.dim_spec() == dim,
            image.element_type_spec() == element_type,
            image.pixels() == Pixels::blank(dim, element_type),
            image.standard(),
    {
        Image { data: ImageStorage::Cpu(CpuImageData::new(dim, element_type)) }
    }

    /// What `new_gpu_1d`, `new_gpu_2d` and `new_gpu_3d` return: the context
    /// must have a device, and the device must have handed out a texture.
    pub open spec fn created_on_device(
        outcome: Result<Image, ImageCreationError>,
        rank: TextureRank,
        dim: ImageDim,
        element_type: ImageDataType,
        context: Context,
        texture: Result<u32, String>,
    ) -> bool {
        match outcome {
            Ok(image) => {
                &&& context is Gpu
                &&& texture == Ok::<u32, String>(image.storage()->Gpu_0.texture())
                &&& image.storage() is Gpu
                &&& image.storage()->Gpu_0.rank() == rank
                &&& image.storage()->Gpu_0.sync() == SyncState::InSync
                &&& image.dim_spec() == dim
                &&& image.element_type_spec() == element_type
                &&& image.pixels() == Pixels::blank(dim, element_type)
                &&& image.standard()
            },
            Err(ImageCreationError::ContextNotSupported) => context is Cpu,
            Err(ImageCreationError::ImageCreationFailed(detail)) => context is Gpu && texture
                == Err::<u32, String>(detail),
        }
    }

    fn new_gpu(
        rank: TextureRank,
        dim: ImageDim,
        element_type: ImageDataType,
        context: &Context,
        texture: Result<u32, String>,
    ) -> (outcome: Result<Self, ImageCreationError>)
        requires
            (*context is Gpu && texture is Ok) ==> storable(dim, element_type),
        ensures
            Self::created_on_device(outcome, rank, dim, element_type, *context, texture),
    {
        match context.gpu() {
            None => Err(ImageCreationError::ContextNotSupported),
            Some(_) => match texture {
                Err(detail) => Err(ImageCreationError::from(detail)),
                Ok(name) => Ok(
                    Image {
                        data: ImageStorage::Gpu(GpuImageData::new(rank, name, dim, element_type)),
                    },
                ),
            },
        }
    }

    /// A one-dimensional image backed by a device texture. `texture` is what
    /// the device answered when asked for the texture: its name, or the
    /// diagnostic of the failure. Only an image that comes to be must fit in
    /// host memory.
    pub fn new_gpu_1d(
        dim: ImageDim,
        element_type: ImageDataType,
        context: &Context,
        texture: Result<u32, String>,
    ) -> (outcome: Result<Self, ImageCreationError>)
        requires
            (*context is Gpu && texture is Ok) ==> storable(dim, element_type),
        ensures
            Self::created_on_device(outcome, TextureRank::One, dim, element_type, *context, texture),
    {
        Self::new_gpu(TextureRank::One, dim, element_type, context, texture)
    }

    /// A two-dimensional image backed by a device texture. `texture` is what
    /// the device answered when asked for the texture: its name, or the
    /// diagnostic of the failure. Only an image that comes to be must fit in
    /// host memory.
    pub fn new_gpu_2d(
        dim: ImageDim,
        element_type: ImageDataType,
        context: &Context,
        texture: Result<u32, String>,
    ) -> (outcome: Result<Self, ImageCreationError>)
        requires
            (*context is Gpu && texture is Ok) ==> storable(dim, element_type),
        ensures
            Self::created_on_device(outcome, TextureRank::Two, dim, element_type, *context, texture),
    {
        Self::new_gpu(TextureRank::Two, dim, element_type, context, texture)
    }

    /// A three-dimensional image backed by a device texture. `texture` is
    /// what the device answered when asked for the texture: its name, or the
    /// diagnostic of the failure. Only an image that comes to be must fit in
    /// host memory.
    pub fn new_gpu_3d(
        dim: ImageDim,
        element_type: ImageDataType,
        context: &Context,
        texture: Result<u32, String>,
    ) -> (outcome: Result<Self, ImageCreationError>)
        requires
            (*context is Gpu && texture is Ok) ==> storable(dim, element_type),
        ensures
            Self::created_on_device(
                outcome,
                TextureRank::Three,
                dim,
                element_type,
                *context,
                texture,
            ),
    {
        Self::new_gpu(TextureRank::Three, dim, element_type, context, texture)
    }

    /// Gives up the image for its storage.
    pub fn into_storage(self) -> (storage: ImageStorage)
        ensures
            storage == self.storage(),
    {
        self.data
    }

    /// Brings the host copy up to date with the device: a host image has
    /// nothing to do, a device image installs what was staged for it.
    pub fn download(&mut self) -> (done: Result<(), Error>)
        ensures
            final(self).dim_spec() == old(self).dim_spec(),
            final(self).element_type_spec() == old(self).element_type_spec(),
            match (old(self).storage(), final(self).storage()) {
                (ImageStorage::Cpu(_), _) => done is Ok && *final(self) == *old(self),
                (ImageStorage::Gpu(gpu), ImageStorage::Gpu(after)) => gpu.downloaded(after, done),
                _ => false,
            },
    {
        match &mut self.data {
            ImageStorage::Cpu(cpu) => cpu.download(),
            ImageStorage::Gpu(gpu) => gpu.download(),
        }
    }

    /// Records that the device has been brought up to date with the host
    /// copy: both copies of a device image agree from then on.
    pub fn upload(&mut self) -> (done: Result<(), Error>)
        ensures
            done is Ok,
            final(self).dim_spec() == old(self).dim_spec(),
            final(self).element_type_spec() == old(self).element_type_spec(),
            final(self).pixels() == old(self).pixels(),
            final(self).standard() == old(self).standard(),
            match (old(self).storage(), final(self).storage()) {
                (ImageStorage::Cpu(_), _) => *final(self) == *old(self),
                (ImageStorage::Gpu(gpu), ImageStorage::Gpu(after)) => after.same_device(gpu)
                    && after.host() == gpu.host() && after.sync() == SyncState::InSync,
                _ => false,
            },
    {
        match &mut self.data {
            ImageStorage::Cpu(cpu) => cpu.upload(),
            ImageStorage::Gpu(gpu) => gpu.upload(),
        }
    }

    /// The shape of the image.
    pub fn dim(&self) -> (dim: ImageDim)
        ensures
            dim == self.dim_spec(),
    {
        match &self.data {
            ImageStorage::Cpu(cpu) => cpu.dim(),
            ImageStorage::Gpu(gpu) => gpu.dim(),
        }
    }

    /// The element type of the image.
    pub fn element_type(&self) -> (element_type: ImageDataType)
        ensures
            element_type == self.element_type_spec(),
    {
        match &self.data {
            ImageStorage::Cpu(cpu) => cpu.element_type(),
            ImageStorage::Gpu(gpu) => gpu.element_type(),
        }
    }

    /// The device image behind this image, if it has one.
    pub fn as_gpu_image(&self) -> (gpu: Option<&GpuImageData>)
        ensures
            match gpu {
                Some(g) => self.storage() == ImageStorage::Gpu(*g),
                None => self.storage() is Cpu,
            },
    {
        match &self.data {
            ImageStorage::Cpu(_) => None,
            ImageStorage::Gpu(gpu) => Some(gpu),
        }
    }

    /// The device image behind this image, if it has one, for change.
    pub fn as_gpu_image_mut(&mut self) -> (gpu: Option<&mut GpuImageData>)
        ensures
            match gpu {
                Some(g) => old(self).storage() == ImageStorage::Gpu(*g) && final(self).storage()
                    == ImageStorage::Gpu(*final(g)),
                None => old(self).storage() is Cpu && *final(self) == *old(self),
            },
    {
        match &mut self.data {
            ImageStorage::Cpu(_) => None,
            ImageStorage::Gpu(gpu) => Some(gpu),
        }
    }

    /// Maps the host copy for reading.
    pub fn data(&self) -> (view: Result<MappedImageData<'_>, ImageDataError>)
        ensures
            match view {
                Ok(v) => self.mappable() && v.pixels() == self.pixels() && v.dim_spec()
                    == self.dim_spec() && v.standard() == self.standard(),
                Err(e) => !self.mappable() && e == ImageDataError::Unsynced,
            },
    {
        match &self.data {
            ImageStorage::Cpu(cpu) => cpu.data(),
            ImageStorage::Gpu(gpu) => gpu.data(),
        }
    }

    /// Maps the host copy for writing. What the view holds when it is given
    /// up is what the image then holds; the shape stays with the arrays. A
    /// device image is then ahead on the host side until it is uploaded.
    pub fn data_mut(&mut self) -> (view: Result<MappedImageDataMut<'_>, ImageDataError>)
        ensures
            match view {
                Ok(MappedImageDataMut::UInt8(g)) => old(self).mappable() && old(self).pixels()
                    == Pixels::UInt8(g.cells()) && old(self).dim_spec() == ImageDim::of_shape(
                    g.shape(),
                ) && old(self).written(*final(self), Pixels::UInt8(final(g).cells()))
                    && final(self).dim_spec() == ImageDim::of_shape(final(g).shape())
                    && final(self).element_type_spec() == ImageDataType::UInt8 && g.standard()
                    == old(self).standard() && final(self).standard() == final(g).standard(),
                Ok(MappedImageDataMut::Float32(g)) => old(self).mappable() && old(self).pixels()
                    == Pixels::Float32(g.cells()) && old(self).dim_spec() == ImageDim::of_shape(
                    g.shape(),
                ) && old(self).written(*final(self), Pixels::Float32(final(g).cells()))
                    && final(self).dim_spec() == ImageDim::of_shape(final(g).shape())
                    && final(self).element_type_spec() == ImageDataType::Float32 && g.standard()
                    == old(self).standard() && final(self).standard() == final(g).standard(),
                Err(e) => !old(self).mappable() && e == ImageDataError::Unsynced && *final(self)
                    == *old(self),
            },
    {
        match &mut self.data {
            ImageStorage::Cpu(cpu) => cpu.data_mut(),
            ImageStorage::Gpu(gpu) => gpu.data_mut(),
        }
    }
}

} // verus!
