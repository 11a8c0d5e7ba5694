use txkit::context::Context;
use txkit::error::{Error, ImageCreationError, ImageDataError};
use txkit::image::cpu::CpuImageData;
use txkit::image::gpu::{SyncState, TextureRank};
use txkit::image::image_data::{ImageData, ImageDataBase, MappedImageData, MappedImageDataMut};
use txkit::image::{checked_byte_len, Image, ImageDataType, ImageStorage};
use txkit::image_dimensions::ImageDim;

fn host_pixels(image: Image) -> CpuImageData {
    match image.into_storage() {
        ImageStorage::Cpu(cpu) => cpu,
        ImageStorage::Gpu(_) => panic!("a host image was expected"),
    }
}

#[test]
fn byte_size_of_each_element_type() {
    assert_eq!(ImageDataType::UInt8.byte_size(), 1);
    assert_eq!(ImageDataType::Float32.byte_size(), 4);
}

#[test]
fn dim_validity_and_element_count() {
    assert!(ImageDim::new(1, 1, 1, 1).is_valid());
    assert!(!ImageDim::new(0, 1, 1, 1).is_valid());
    assert!(!ImageDim::new(1, 1, 1, 0).is_valid());
    assert_eq!(ImageDim::new(4, 3, 2, 5).checked_elements(), Some(120));
    assert_eq!(ImageDim::new(4, 0, 2, 5).checked_elements(), Some(0));
    assert_eq!(ImageDim::new(usize::MAX, 2, 1, 1).checked_elements(), None);
    assert_eq!(ImageDim::new(usize::MAX, 0, 2, 1).checked_elements(), Some(0));
}

#[test]
fn byte_len_is_checked_against_the_machine() {
    let dim = ImageDim::new(4, 3, 2, 5);
    assert_eq!(checked_byte_len(dim, ImageDataType::UInt8), Some(120));
    assert_eq!(checked_byte_len(dim, ImageDataType::Float32), Some(480));
    assert_eq!(checked_byte_len(ImageDim::new(0, 3, 2, 5), ImageDataType::UInt8), None);
    let half = (isize::MAX as usize) / 2 + 1;
    assert_eq!(checked_byte_len(ImageDim::new(half, 1, 1, 1), ImageDataType::UInt8), Some(half));
    assert_eq!(checked_byte_len(ImageDim::new(half, 1, 1, 1), ImageDataType::Float32), None);
    assert_eq!(checked_byte_len(ImageDim::new(half, 2, 1, 1), ImageDataType::UInt8), None);
}

#[test]
fn new_cpu_keeps_shape_and_type() {
    for element_type in [ImageDataType::UInt8, ImageDataType::Float32] {
        for dim in [ImageDim::new(1, 1, 1, 1), ImageDim::new(4, 3, 2, 1), ImageDim::new(2, 5, 3, 4)] {
            let image = Image::new_cpu(dim, element_type);
            assert_eq!(image.dim(), dim);
            assert_eq!(image.element_type(), element_type);
            assert!(image.as_gpu_image().is_none());
        }
    }
}

#[test]
fn new_cpu_is_zeroed() {
    let dim = ImageDim::new(3, 2, 2, 2);
    let bytes = Image::new_cpu(dim, ImageDataType::UInt8);
    let view = bytes.data().unwrap();
    let grid = view.as_u8_nd_array().unwrap();
    assert_eq!(grid.dim(), (2, 2, 3, 2));
    for k in 0..2 {
        for j in 0..2 {
            for i in 0..3 {
                for l in 0..2 {
                    assert_eq!(grid.get(k, j, i, l), Some(0));
                }
            }
        }
    }
    assert_eq!(grid.as_slice().unwrap(), &[0u8; 24][..]);

    let floats = Image::new_cpu(dim, ImageDataType::Float32);
    let view = floats.data().unwrap();
    let grid = view.as_f32_nd_array().unwrap();
    assert_eq!(grid.dim(), (2, 2, 3, 2));
    assert_eq!(grid.as_slice().unwrap(), &[0u32; 24][..]);
}

#[test]
fn grid_access_outside_the_shape() {
    let mut image = Image::new_cpu(ImageDim::new(3, 2, 1, 2), ImageDataType::UInt8);
    let grid = image.data_mut().unwrap().as_u8_nd_array_mut().unwrap();
    assert_eq!(grid.get(0, 1, 2, 1), Some(0));
    assert_eq!(grid.get(1, 0, 0, 0), None);
    assert_eq!(grid.get(0, 2, 0, 0), None);
    assert_eq!(grid.get(0, 0, 3, 0), None);
    assert_eq!(grid.get(0, 0, 0, 2), None);
    assert!(!grid.set(0, 0, 3, 0, 9));
    assert!(!grid.set(1, 0, 0, 0, 9));
    assert_eq!(grid.as_slice().unwrap(), &[0u8; 12][..]);
    assert!(grid.set(0, 1, 2, 1, 9));
    assert_eq!(grid.get(0, 1, 2, 1), Some(9));
}

#[test]
fn slice_is_in_row_major_order() {
    let dim = ImageDim::new(3, 2, 2, 2);
    let mut image = Image::new_cpu(dim, ImageDataType::UInt8);
    {
        let grid = image.data_mut().unwrap().as_u8_nd_array_mut().unwrap();
        assert!(grid.set(1, 0, 2, 1, 77));
        assert!(grid.set(0, 1, 0, 0, 5));
    }
    let view = image.data().unwrap();
    let slice = view.as_u8_nd_array().unwrap().as_slice().unwrap();
    assert_eq!(slice.len(), 24);
    // ((k * height + j) * width + i) * channels + l
    assert_eq!(slice[((1 * 2 + 0) * 3 + 2) * 2 + 1], 77);
    assert_eq!(slice[((0 * 2 + 1) * 3 + 0) * 2 + 0], 5);
    assert_eq!(slice.iter().filter(|b| **b != 0).count(), 2);
}

#[test]
fn write_map_then_read_map_round_trip_bytes() {
    let dim = ImageDim::new(2, 2, 1, 3);
    let mut image = Image::new_cpu(dim, ImageDataType::UInt8);
    let pattern: Vec<u8> = (0..12).map(|n| (n * 17 + 3) as u8).collect();
    {
        let grid = image.data_mut().unwrap().as_u8_nd_array_mut().unwrap();
        grid.as_slice_mut().unwrap().copy_from_slice(&pattern);
    }
    let view = image.data().unwrap();
    let grid = view.as_u8_nd_array().unwrap();
    assert_eq!(grid.as_slice().unwrap(), &pattern[..]);
    assert_eq!(grid.get(0, 1, 0, 2), Some(pattern[(1 * 2 + 0) * 3 + 2]));
    assert_eq!(image.dim(), dim);
    assert_eq!(image.element_type(), ImageDataType::UInt8);
}

#[test]
fn write_map_then_read_map_round_trip_floats() {
    let dim = ImageDim::new(2, 1, 2, 1);
    let mut image = Image::new_cpu(dim, ImageDataType::Float32);
    let values = [0.25f32, -1.5, 3.0e7, 1.0e-9];
    {
        let grid = image.data_mut().unwrap().as_f32_nd_array_mut().unwrap();
        assert!(grid.set(0, 0, 0, 0, values[0].to_bits()));
        assert!(grid.set(0, 0, 1, 0, values[1].to_bits()));
        assert!(grid.set(1, 0, 0, 0, values[2].to_bits()));
        assert!(grid.set(1, 0, 1, 0, values[3].to_bits()));
    }
    let view = image.data().unwrap();
    let grid = view.as_f32_nd_array().unwrap();
    let read: Vec<f32> = grid.as_slice().unwrap().iter().map(|b| f32::from_bits(*b)).collect();
    assert_eq!(read, values);
}

#[test]
fn accessor_of_the_wrong_type_gives_nothing() {
    let dim = ImageDim::new(2, 2, 1, 1);
    let mut bytes = Image::new_cpu(dim, ImageDataType::UInt8);
    {
        let view = bytes.data().unwrap();
        assert!(view.as_f32_nd_array().is_none());
        assert!(view.as_u8_nd_array().is_some());
        assert!(matches!(view, MappedImageData::UInt8(_)));
    }
    assert!(bytes.data_mut().unwrap().as_f32_nd_array_mut().is_none());
    assert!(bytes.data_mut().unwrap().as_u8_nd_array_mut().is_some());

    let mut floats = Image::new_cpu(dim, ImageDataType::Float32);
    {
        let view = floats.data().unwrap();
        assert!(view.as_u8_nd_array().is_none());
        assert!(view.as_f32_nd_array().is_some());
    }
    assert!(floats.data_mut().unwrap().as_u8_nd_array_mut().is_none());
    assert!(matches!(floats.data_mut().unwrap(), MappedImageDataMut::Float32(_)));
}

#[test]
fn wrong_write_accessor_leaves_the_pixels_alone() {
    let dim = ImageDim::new(2, 2, 1, 1);
    let mut bytes = Image::new_cpu(dim, ImageDataType::UInt8);
    assert!(bytes.data_mut().unwrap().as_f32_nd_array_mut().is_none());
    assert_eq!(
        bytes.data().unwrap().as_u8_nd_array().unwrap().as_slice().unwrap(),
        &[0u8; 4][..]
    );
    bytes.data_mut().unwrap().as_u8_nd_array_mut().unwrap().set(0, 1, 1, 0, 9);
    assert!(bytes.data_mut().unwrap().as_f32_nd_array_mut().is_none());
    assert_eq!(
        bytes.data().unwrap().as_u8_nd_array().unwrap().as_slice().unwrap(),
        &[0u8, 0, 0, 9][..]
    );

    let mut floats = Image::new_cpu(dim, ImageDataType::Float32);
    floats.data_mut().unwrap().as_f32_nd_array_mut().unwrap().set(0, 0, 1, 0, 0x3f00_0000);
    assert!(floats.data_mut().unwrap().as_u8_nd_array_mut().is_none());
    assert_eq!(
        floats.data().unwrap().as_f32_nd_array().unwrap().as_slice().unwrap(),
        &[0u32, 0x3f00_0000, 0, 0][..]
    );
}

#[test]
fn host_context_refuses_a_device_image_of_any_shape() {
    let cpu = Context::new_cpu();
    let gpu = Context::new_gpu();
    for dim in [ImageDim::new(0, 4, 1, 1), ImageDim::new(usize::MAX, usize::MAX, 2, 1)] {
        let made = Image::new_gpu_2d(dim, ImageDataType::Float32, &cpu, Ok(3));
        assert_eq!(made.err(), Some(ImageCreationError::ContextNotSupported));
        let made = Image::new_gpu_3d(dim, ImageDataType::UInt8, &cpu, Err(String::from("x")));
        assert_eq!(made.err(), Some(ImageCreationError::ContextNotSupported));
        // on a device context the failure of the device comes first
        let made = Image::new_gpu_1d(dim, ImageDataType::UInt8, &gpu, Err(String::from("too large")));
        assert_eq!(
            made.err(),
            Some(ImageCreationError::ImageCreationFailed(String::from("too large")))
        );
    }
}

#[test]
fn gpu_image_needs_a_device_context() {
    let dim = ImageDim::new(4, 4, 1, 1);
    let cpu = Context::new_cpu();
    for texture in [Ok(5u32), Err(String::from("ignored"))] {
        let made = Image::new_gpu_1d(dim, ImageDataType::UInt8, &cpu, texture.clone());
        assert_eq!(made.err(), Some(ImageCreationError::ContextNotSupported));
        let made = Image::new_gpu_2d(dim, ImageDataType::UInt8, &cpu, texture.clone());
        assert_eq!(made.err(), Some(ImageCreationError::ContextNotSupported));
        let made = Image::new_gpu_3d(dim, ImageDataType::UInt8, &cpu, texture);
        assert_eq!(made.err(), Some(ImageCreationError::ContextNotSupported));
    }
}

#[test]
fn gpu_image_creation_passes_the_device_failure_on() {
    let dim = ImageDim::new(4, 4, 1, 1);
    let gpu = Context::new_gpu();
    let made = Image::new_gpu_2d(dim, ImageDataType::Float32, &gpu, Err(String::from("out of memory")));
    assert_eq!(
        made.err(),
        Some(ImageCreationError::ImageCreationFailed(String::from("out of memory")))
    );
}

#[test]
fn gpu_image_creation_records_the_texture() {
    let dim = ImageDim::new(4, 3, 2, 1);
    let gpu = Context::new_gpu();
    let cases = [
        (Image::new_gpu_1d(dim, ImageDataType::UInt8, &gpu, Ok(11)), TextureRank::One, 11),
        (Image::new_gpu_2d(dim, ImageDataType::UInt8, &gpu, Ok(12)), TextureRank::Two, 12),
        (Image::new_gpu_3d(dim, ImageDataType::UInt8, &gpu, Ok(13)), TextureRank::Three, 13),
    ];
    for (made, rank, name) in cases {
        let image = made.ok().unwrap();
        assert_eq!(image.dim(), dim);
        assert_eq!(image.element_type(), ImageDataType::UInt8);
        let device = image.as_gpu_image().unwrap();
        assert_eq!(device.texture_rank(), rank);
        assert_eq!(device.texture_name(), name);
        assert_eq!(device.sync_state(), SyncState::InSync);
        let view = image.data().unwrap();
        assert_eq!(view.as_u8_nd_array().unwrap().as_slice().unwrap(), &[0u8; 24][..]);
    }
}

#[test]
fn gpu_image_that_is_ahead_on_the_device_cannot_be_mapped() {
    let dim = ImageDim::new(2, 2, 1, 1);
    let gpu = Context::new_gpu();
    let mut image = Image::new_gpu_2d(dim, ImageDataType::UInt8, &gpu, Ok(1)).ok().unwrap();
    image.as_gpu_image_mut().unwrap().mark_rendered();
    assert_eq!(image.as_gpu_image().unwrap().sync_state(), SyncState::DeviceAhead);
    assert_eq!(image.data().err(), Some(ImageDataError::Unsynced));
    assert_eq!(image.data_mut().err(), Some(ImageDataError::Unsynced));
    // a download without texels is a sync step that was skipped
    let device = image.as_gpu_image_mut().unwrap();
    assert_eq!(device.download(), Err(Error::ImageData(ImageDataError::Unsynced)));
    assert_eq!(device.sync_state(), SyncState::DeviceAhead);
}

#[test]
fn gpu_download_installs_what_the_device_handed_back() {
    let dim = ImageDim::new(2, 2, 1, 1);
    let gpu = Context::new_gpu();
    let mut image = Image::new_gpu_2d(dim, ImageDataType::UInt8, &gpu, Ok(1)).ok().unwrap();
    image.as_gpu_image_mut().unwrap().mark_rendered();

    let mut texels = Image::new_cpu(dim, ImageDataType::UInt8);
    texels
        .data_mut()
        .unwrap()
        .as_u8_nd_array_mut()
        .unwrap()
        .as_slice_mut()
        .unwrap()
        .copy_from_slice(&[1, 2, 3, 4]);
    let device = image.as_gpu_image_mut().unwrap();
    device.stage(host_pixels(texels));
    assert_eq!(device.download(), Ok(()));
    assert_eq!(device.sync_state(), SyncState::InSync);
    let view = image.data().unwrap();
    assert_eq!(view.as_u8_nd_array().unwrap().as_slice().unwrap(), &[1u8, 2, 3, 4][..]);
    assert_eq!(image.dim(), dim);
}

#[test]
fn gpu_download_refuses_texels_of_another_shape_or_type() {
    let dim = ImageDim::new(2, 2, 1, 1);
    let gpu = Context::new_gpu();
    let mut image = Image::new_gpu_2d(dim, ImageDataType::UInt8, &gpu, Ok(1)).ok().unwrap();
    let device = image.as_gpu_image_mut().unwrap();
    device.stage(host_pixels(Image::new_cpu(ImageDim::new(2, 3, 1, 1), ImageDataType::UInt8)));
    assert_eq!(device.download(), Err(Error::ImageData(ImageDataError::MappingFailed)));
    device.stage(host_pixels(Image::new_cpu(dim, ImageDataType::Float32)));
    assert_eq!(device.download(), Err(Error::ImageData(ImageDataError::MappingFailed)));
    assert_eq!(device.dim(), dim);
    assert_eq!(device.element_type(), ImageDataType::UInt8);
    assert_eq!(device.sync_state(), SyncState::InSync);
}

#[test]
fn gpu_write_upload_download_cycle() {
    let dim = ImageDim::new(2, 1, 1, 2);
    let gpu = Context::new_gpu();
    let mut image = Image::new_gpu_1d(dim, ImageDataType::UInt8, &gpu, Ok(9)).ok().unwrap();
    image
        .data_mut()
        .unwrap()
        .as_u8_nd_array_mut()
        .unwrap()
        .as_slice_mut()
        .unwrap()
        .copy_from_slice(&[10, 20, 30, 40]);
    assert_eq!(image.as_gpu_image().unwrap().sync_state(), SyncState::HostAhead);
    // what the embedding sends to the device
    let sent: Vec<u8> =
        image.data().unwrap().as_u8_nd_array().unwrap().as_slice().unwrap().to_vec();
    assert_eq!(sent, [10, 20, 30, 40]);
    let device = image.as_gpu_image_mut().unwrap();
    assert_eq!(device.upload(), Ok(()));
    assert_eq!(device.sync_state(), SyncState::InSync);
    // the device renders, and the embedding reads the texture back
    device.mark_rendered();
    let mut texels = Image::new_cpu(dim, ImageDataType::UInt8);
    texels
        .data_mut()
        .unwrap()
        .as_u8_nd_array_mut()
        .unwrap()
        .as_slice_mut()
        .unwrap()
        .copy_from_slice(&sent);
    device.stage(host_pixels(texels));
    assert_eq!(device.download(), Ok(()));
    assert_eq!(
        image.data().unwrap().as_u8_nd_array().unwrap().as_slice().unwrap(),
        &[10u8, 20, 30, 40][..]
    );
}

#[test]
fn host_image_has_nothing_to_sync() {
    let dim = ImageDim::new(2, 1, 1, 2);
    let mut image = Image::new_cpu(dim, ImageDataType::UInt8);
    assert!(image.as_gpu_image_mut().is_none());
    assert_eq!(image.download(), Ok(()));
    assert_eq!(image.upload(), Ok(()));
    let mut host = host_pixels(image);
    assert_eq!(host.download(), Ok(()));
    assert_eq!(host.upload(), Ok(()));
    assert!(host.as_gpu_image().is_none());
    assert!(host.data().is_ok());
    assert_eq!(host.dim(), dim);
}
