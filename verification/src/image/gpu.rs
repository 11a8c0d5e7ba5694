use crate::error::{Error, ImageDataError};
use crate::image::cpu::CpuImageData;
use crate::image::image_data::{
    ImageData, ImageDataBase, MappedImageData, MappedImageDataMut, Pixels,
};
use crate::image::{storable, ImageDataType};
use crate::image_dimensions::ImageDim;
use vstd::prelude::*;

verus! {

/// The number of axes of a device texture.
#[derive(Debug, Clone, Copy, PartialEq, Eq, Structural)]
pub enum TextureRank {
    One,
    Two,
    Three,
}

/// Which copy of a device image holds its latest pixels.
#[derive(Debug, Clone, Copy, PartialEq, Eq, Structural)]
pub enum SyncState {
    /// Host copy and device texture agree.
    InSync,
    /// The host copy was mapped for writing and has not been uploaded.
    HostAhead,
    /// The device texture was rendered to and has not been downloaded.
    DeviceAhead,
}

/// An image backed by a device texture, with a host copy that can be
/// mapped. The library keeps the books; the embedding moves the pixels
/// between device and host.
pub struct GpuImageData {
    texture: u32,
    rank: TextureRank,
    host: CpuImageData,
    staged: Option<CpuImageData>,
    sync: SyncState,
}

impl GpuImageData {
    /// The name of the device texture.
    pub closed spec fn texture(self) -> u32 {
        self.texture
    }

    /// The number of axes of the device texture.
    pub closed spec fn rank(self) -> TextureRank {
        self.rank
    }

    /// Which copy is the newer one.
    pub closed spec fn sync(self) -> SyncState {
        self.sync
    }

    /// The host copy.
    pub closed spec fn host(self) -> CpuImageData {
        self.host
    }

    /// What the embedding has read from the device and handed in, until a
    /// download takes it.
    pub closed spec fn staged(self) -> Option<CpuImageData> {
        self.staged
    }

    /// Both stand for the same device texture.
    pub open spec fn same_device(self, other: GpuImageData) -> bool {
        self.texture() == other.texture() && self.rank() == other.rank() && self.staged()
            == other.staged()
    }

    /// The books of a texture that the device has just handed out: a host
    /// copy of zeros, in step with the device.
    pub(crate) fn new(
        rank: TextureRank,
        texture: u32,
        dim: ImageDim,
        element_type: ImageDataType,
    ) -> (gpu: Self)
        requires
            storable(dim, element_type),
        ensures
            gpu.texture() == texture,
            gpu.rank() == rank,
            gpu.sync() == SyncState::InSync,
            gpu.staged() is None,
            gpu.dim_spec() == dim,
            gpu.element_type_spec() == element_type,
            gpu.pixels() == Pixels::blank(dim, element_type),
            gpu.standard(),
    {
        GpuImageData {
            texture,
            rank,
            host: CpuImageData::new(dim, element_type),
            staged: None,
            sync: SyncState::InSync,
        }
    }

    /// The name of the device texture.
    pub fn texture_name(&self) -> (name: u32)
        ensures
            name == self.texture(),
    {
        self.texture
    }

    /// The number of axes of the device texture.
    pub fn texture_rank(&self) -> (rank: TextureRank)
        ensures
            rank == self.rank(),
    {
        self.rank
    }

    /// Which copy is the newer one.
    pub fn sync_state(&self) -> (sync: SyncState)
        ensures
            sync == self.sync(),
    {
        self.sync
    }

    /// Records that the device texture is about to be rendered to: from now
    /// on the device copy is the newer one.
    pub fn mark_rendered(&mut self)
        ensures
            final(self).same_device(*old(self)),
            final(self).host() == old(self).host(),
            final(self).sync() == SyncState::DeviceAhead,
    {
        self.sync = SyncState::DeviceAhead;
    }

    /// Takes in what the embedding has read from the device texture, for the
    /// next download to install.
    pub fn stage(&mut self, texels: CpuImageData)
        ensures
            final(self).texture() == old(self).texture(),
            final(self).rank() == old(self).rank(),
            final(self).host() == old(self).host(),
            final(self).sync() == old(self).sync(),
            final(self).staged() == Some(texels),
    {
        self.staged = Some(texels);
    }

    /// What a download does to the books.
    ///
    /// Staged texels of the image's shape and element type become the host
    /// copy, and both copies agree. Staged texels of another shape or type
    /// are a failed mapping. With nothing staged, a device copy that is
    /// ahead stays unsynced, and otherwise there is nothing to do.
    pub open spec fn downloaded(self, after: GpuImageData, done: Result<(), Error>) -> bool {
        match self.staged() {
            Some(texels) => if texels.dim_spec() == self.dim_spec() && texels.element_type_spec()
                == self.element_type_spec() {
                &&& done is Ok
                &&& after.texture() == self.texture()
                &&& after.rank() == self.rank()
                &&& after.host() == texels
                &&& after.staged() is None
                &&& after.sync() == SyncState::InSync
            } else {
                done == Err::<(), Error>(Error::ImageData(ImageDataError::MappingFailed)) && after
                    == self
            },
            None => if self.sync() == SyncState::DeviceAhead {
                done == Err::<(), Error>(Error::ImageData(ImageDataError::Unsynced)) && after
                    == self
            } else {
                done is Ok && after == self
            },
        }
    }

    /// A download of texels of the image's own shape and type always goes
    /// through: the host copy is then what was staged and can be mapped.
    pub proof fn lemma_download_installs(self, after: GpuImageData, done: Result<(), Error>)
        requires
            self.downloaded(after, done),
            self.staged() matches Some(texels) && texels.dim_spec() == self.dim_spec()
                && texels.element_type_spec() == self.element_type_spec(),
        ensures
            done is Ok,
            after.pixels() == self.staged()->Some_0.pixels(),
            after.dim_spec() == self.dim_spec(),
            after.element_type_spec() == self.element_type_spec(),
            after.mappable(),
    {
    }
}

impl ImageDataBase for GpuImageData {
    open spec fn dim_spec(&self) -> ImageDim {
        self.host().dim_spec()
    }

    open spec fn element_type_spec(&self) -> ImageDataType {
        self.host().element_type_spec()
    }

    open spec fn pixels(&self) -> Pixels {
        self.host().pixels()
    }

    open spec fn standard(&self) -> bool {
        self.host().standard()
    }

    fn dim(&self) -> (dim: ImageDim) {
        self.host.dim()
    }

    fn element_type(&self) -> (element_type: ImageDataType) {
        self.host.element_type()
    }

    fn download(&mut self) -> (done: Result<(), Error>)
        ensures
            old(self).downloaded(*final(self), done),
    {
        match self.staged.take() {
            Some(texels) => {
                let fits = {
                    let have = self.host.dim();
                    let got = texels.dim();
                    have.width == got.width && have.height == got.height && have.depth
                        == got.depth && have.channels == got.channels
                };
                let same_type = match (self.host.element_type(), texels.element_type()) {
                    (ImageDataType::UInt8, ImageDataType::UInt8) => true,
                    (ImageDataType::Float32, ImageDataType::Float32) => true,
                    _ => false,
                };
                if fits && same_type {
                    self.host = texels;
                    self.sync = SyncState::InSync;
                    Ok(())
                } else {
                    self.staged = Some(texels);
                    Err(Error::ImageData(ImageDataError::MappingFailed))
                }
            },
            None => match self.sync {
                SyncState::DeviceAhead => Err(Error::ImageData(ImageDataError::Unsynced)),
                _ => Ok(()),
            },
        }
    }

    /// The embedding has sent the host copy to the device: both agree.
    fn upload(&mut self) -> (done: Result<(), Error>)
        ensures
            done is Ok,
            final(self).same_device(*old(self)),
            final(self).host() == old(self).host(),
            final(self).sync() == SyncState::InSync,
    {
        self.sync = SyncState::InSync;
        Ok(())
    }

    fn as_gpu_image(&self) -> (gpu: Option<&GpuImageData>)
        ensures
            gpu == Some(self),
    {
        Some(self)
    }

    fn as_gpu_image_mut(&mut self) -> (gpu: Option<&mut GpuImageData>)
        ensures
            gpu matches Some(g) && *g == *old(self) && *final(g) == *final(self),
    {
        Some(self)
    }
}

impl ImageData for GpuImageData {
    open spec fn mappable(&self) -> bool {
        self.sync() != SyncState::DeviceAhead
    }

    fn data(&self) -> (view: Result<MappedImageData<'_>, ImageDataError>) {
        match self.sync {
            SyncState::DeviceAhead => Err(ImageDataError::Unsynced),
            _ => self.host.data(),
        }
    }

    /// Maps the host copy for writing, unless the device copy is the newer
    /// one. The host copy is the newer one from then on.
    fn data_mut(&mut self) -> (view: Result<MappedImageDataMut<'_>, ImageDataError>)
        ensures
            match view {
                Ok(MappedImageDataMut::UInt8(g)) => old(self).mappable() && old(self).host()
                    == CpuImageData::UInt8(*g) && final(self).host() == CpuImageData::UInt8(
                    *final(g),
                ) && final(self).same_device(*old(self)) && final(self).sync()
                    == SyncState::HostAhead,
                Ok(MappedImageDataMut::Float32(g)) => old(self).mappable() && old(self).host()
                    == CpuImageData::Float32(*g) && final(self).host() == CpuImageData::Float32(
                    *final(g),
                ) && final(self).same_device(*old(self)) && final(self).sync()
                    == SyncState::HostAhead,
                Err(e) => !old(self).mappable() && e == ImageDataError::Unsynced && *final(self)
                    == *old(self),
            },
    {
        match self.sync {
            SyncState::DeviceAhead => Err(ImageDataError::Unsynced),
            _ => {
                self.sync = SyncState::HostAhead;
                self.host.data_mut()
            },
        }
    }
}

} // verus!
