use txkit::context::Context;
use txkit::error::{Error, ImageDataError};
use txkit::image::gpu::SyncState;
use txkit::image::{Image, ImageDataType};
use txkit::image_dimensions::ImageDim;
use txkit::method::cpu::{compute_cpu, CpuMethod};
use txkit::method::params::AnyParams;
use txkit::method::{ComputeStep, Method, MethodKind};
use txkit::methods::white_noise::{hash, WhiteNoise, WhiteNoiseGpu, WhiteNoiseParams};

fn reference(k: usize, j: usize, i: usize, l: usize, sz: ImageDim) -> f32 {
    let mut x = ((i + j * sz.width + k * sz.width * sz.height) * sz.channels + l) as u32;
    x = ((x >> 16) ^ x).wrapping_mul(0x45d9f3bu32);
    x = ((x >> 16) ^ x).wrapping_mul(0x45d9f3bu32);
    x = (x >> 16) ^ x;
    f32::from_bits(0x7fu32 << 23 | x >> 9) - 1.0f32
}

fn bytes_of(image: &Image) -> Vec<u8> {
    image.data().unwrap().as_u8_nd_array().unwrap().as_slice().unwrap().to_vec()
}

fn bits_of(image: &Image) -> Vec<u32> {
    image.data().unwrap().as_f32_nd_array().unwrap().as_slice().unwrap().to_vec()
}

#[test]
fn hash_of_known_keys() {
    assert_eq!(hash(0), 0);
    assert_eq!(hash(1), 0x31251ba7);
    assert_eq!(hash(2), 0x66a79298);
    assert_eq!(hash(3), 0xdfb6d245);
    assert_eq!(hash(23), 0x547d4631);
}

#[test]
fn sample_at_the_origin_is_fixed() {
    let sz = ImageDim::new(4, 4, 1, 1);
    let params = WhiteNoiseParams {};
    let first = WhiteNoise::compute_idx((0, 0, 0, 0), sz, &params);
    let second = WhiteNoise::compute_idx((0, 0, 0, 0), sz, &params);
    assert_eq!(first, second);
    assert_eq!(first.steps(), 0);
    assert_eq!(first.to_float_bits(), 0.0f32.to_bits());
}

#[test]
fn sample_of_a_known_voxel() {
    // key (1 + 2 * 2 + 1 * 2 * 3) * 2 + 1 = 23
    let sz = ImageDim::new(2, 3, 2, 2);
    let sample = WhiteNoise::compute_idx((1, 2, 1, 1), sz, &WhiteNoiseParams {});
    assert_eq!(sample.steps(), 2768547);
    assert_eq!(sample.to_float_bits(), 0x3ea8fa8c);
    assert_eq!(sample.to_u8(), 84);
    assert_eq!(f32::from_bits(sample.to_float_bits()), reference(1, 2, 1, 1, sz));
}

#[test]
fn samples_are_reproducible_and_in_the_unit_interval() {
    for sz in [ImageDim::new(4, 4, 1, 1), ImageDim::new(3, 5, 2, 4), ImageDim::new(1, 1, 7, 1)] {
        for k in 0..sz.depth {
            for j in 0..sz.height {
                for i in 0..sz.width {
                    for l in 0..sz.channels {
                        let params = WhiteNoiseParams {};
                        let first = WhiteNoise::compute_idx((k, j, i, l), sz, &params);
                        let second = WhiteNoise::compute_idx((k, j, i, l), sz, &params);
                        assert_eq!(first.to_float_bits(), second.to_float_bits());
                        let value = f32::from_bits(first.to_float_bits());
                        assert!(0.0 <= value && value < 1.0);
                        assert_eq!(value.to_bits(), reference(k, j, i, l, sz).to_bits());
                    }
                }
            }
        }
    }
}

#[test]
fn end_to_end_bytes_on_the_host() {
    let dim = ImageDim::new(2, 2, 1, 1);
    let mut runs = Vec::new();
    for _ in 0..3 {
        let mut ctx = Context::new_cpu();
        let mut image = Image::new_cpu(dim, ImageDataType::UInt8);
        let mut method = WhiteNoise::new();
        let step = method.compute(&mut ctx, &mut image, None);
        assert!(matches!(step, Ok(ComputeStep::Done)));
        assert_eq!(image.dim(), dim);
        assert_eq!(image.element_type(), ImageDataType::UInt8);
        runs.push(bytes_of(&image));
    }
    assert_eq!(runs[0], [0u8, 48, 102, 222]);
    assert_eq!(runs[0], runs[1]);
    assert_eq!(runs[1], runs[2]);
}

#[test]
fn end_to_end_floats_on_the_host() {
    let dim = ImageDim::new(3, 2, 1, 1);
    let mut ctx = Context::new_cpu();
    let mut image = Image::new_cpu(dim, ImageDataType::Float32);
    let mut method = WhiteNoise::new();
    assert!(matches!(method.compute(&mut ctx, &mut image, None), Ok(ComputeStep::Done)));
    assert_eq!(
        bits_of(&image),
        [0u32, 0x3e449468, 0x3ecd4f24, 0x3f5fb6d2, 0x3f4d4f24, 0x3e0d4c68]
    );
}

#[test]
fn every_voxel_is_filled_in_layer_major_order() {
    let dim = ImageDim::new(3, 2, 4, 2);
    let mut image = Image::new_cpu(dim, ImageDataType::Float32);
    assert_eq!(compute_cpu::<WhiteNoise>(&mut image, &WhiteNoiseParams {}), Ok(()));
    let view = image.data().unwrap();
    let grid = view.as_f32_nd_array().unwrap();
    let mut n = 0;
    for k in 0..4 {
        for j in 0..2 {
            for i in 0..3 {
                for l in 0..2 {
                    let expected = reference(k, j, i, l, dim).to_bits();
                    assert_eq!(grid.get(k, j, i, l), Some(expected));
                    assert_eq!(grid.as_slice().unwrap()[n], expected);
                    n += 1;
                }
            }
        }
    }

    let mut bytes = Image::new_cpu(dim, ImageDataType::UInt8);
    assert_eq!(compute_cpu::<WhiteNoise>(&mut bytes, &WhiteNoiseParams {}), Ok(()));
    let view = bytes.data().unwrap();
    let grid = view.as_u8_nd_array().unwrap();
    for k in 0..4 {
        for j in 0..2 {
            for i in 0..3 {
                for l in 0..2 {
                    let expected = (reference(k, j, i, l, dim) * 255.0f32) as u8;
                    assert_eq!(grid.get(k, j, i, l), Some(expected));
                }
            }
        }
    }
}

#[test]
fn parameters_are_checked_by_their_size() {
    let dim = ImageDim::new(2, 2, 1, 1);
    let mut ctx = Context::new_cpu();
    let mut method = WhiteNoise::new();

    let mut image = Image::new_cpu(dim, ImageDataType::UInt8);
    let one = [0u8; 1];
    let params = AnyParams::Bytes(&one);
    assert_eq!(
        method.compute(&mut ctx, &mut image, Some(&params)).err(),
        Some(Error::InvalidParameters)
    );
    assert_eq!(bytes_of(&image), [0u8; 4]);

    let none: [u8; 0] = [];
    let params = AnyParams::Bytes(&none);
    assert!(matches!(method.compute(&mut ctx, &mut image, Some(&params)), Ok(ComputeStep::Done)));
    let from_bytes = bytes_of(&image);

    let mut image = Image::new_cpu(dim, ImageDataType::UInt8);
    let typed = WhiteNoiseParams {};
    let params = AnyParams::WhiteNoise(&typed);
    assert!(matches!(method.compute(&mut ctx, &mut image, Some(&params)), Ok(ComputeStep::Done)));
    assert_eq!(bytes_of(&image), from_bytes);
    assert_eq!(from_bytes, [0u8, 48, 102, 222]);
}

#[test]
fn host_computation_on_a_device_image() {
    let dim = ImageDim::new(2, 2, 1, 1);
    let gpu = Context::new_gpu();
    let mut ctx = Context::new_cpu();
    let mut method = WhiteNoise::new();

    let mut image = Image::new_gpu_2d(dim, ImageDataType::UInt8, &gpu, Ok(4)).ok().unwrap();
    assert!(matches!(method.compute(&mut ctx, &mut image, None), Ok(ComputeStep::Done)));
    assert_eq!(image.as_gpu_image().unwrap().sync_state(), SyncState::HostAhead);
    assert_eq!(bytes_of(&image), [0u8, 48, 102, 222]);

    let mut image = Image::new_gpu_2d(dim, ImageDataType::UInt8, &gpu, Ok(4)).ok().unwrap();
    image.as_gpu_image_mut().unwrap().mark_rendered();
    assert_eq!(
        method.compute(&mut ctx, &mut image, None).err(),
        Some(Error::ImageData(ImageDataError::Unsynced))
    );
    assert_eq!(image.as_gpu_image().unwrap().sync_state(), SyncState::DeviceAhead);
}

#[test]
fn white_noise_on_the_device() {
    let dim = ImageDim::new(2, 2, 2, 1);
    let mut ctx = Context::new_gpu();
    let mut method = WhiteNoise::new();
    let mut host = Image::new_cpu(dim, ImageDataType::UInt8);
    assert_eq!(method.compute(&mut ctx, &mut host, None).err(), Some(Error::FormatNotSupported));
    assert_eq!(bytes_of(&host), [0u8; 8]);

    let mut image = Image::new_gpu_3d(dim, ImageDataType::UInt8, &ctx, Ok(8)).ok().unwrap();
    assert!(matches!(
        method.compute(&mut ctx, &mut image, None),
        Ok(ComputeStep::BuildProgram(MethodKind::WhiteNoise))
    ));
    assert_eq!(method.install_program(&ctx, Ok(21)), Ok(()));
    match method.compute(&mut ctx, &mut image, None) {
        Ok(ComputeStep::Render(pass)) => {
            assert_eq!(pass.texture, 8);
            assert_eq!(pass.draws.len(), 2);
            assert_eq!(pass.draws[1].program, 21);
            assert_eq!(pass.draws[1].layer, 1);
        }
        _ => panic!("a render pass was expected"),
    }
    assert!(WhiteNoiseGpu::new(ctx.gpu().unwrap(), Ok(1)).is_ok());
}
