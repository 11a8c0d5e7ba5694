use txkit::api::{error_code, method_compute, params_of_bytes, wrap_result, wrap_result_code, TXKIT_SUCCESS};
use txkit::context::Context;
use txkit::error::{Error, ImageCreationError, ImageDataError};
use txkit::image::{Image, ImageDataType};
use txkit::image_dimensions::ImageDim;
use txkit::method::params::{downcast_params, AnyParams, MethodParams};
use txkit::method::registry::MethodRegistry;
use txkit::method::{ComputeStep, MethodKind};
use txkit::methods::new_registry;
use txkit::methods::value_noise::ValueNoiseParams;
use txkit::methods::white_noise::WhiteNoiseParams;

#[test]
fn no_parameters_means_the_defaults() {
    for before in [None, Some(ValueNoiseParams {})] {
        let mut scratch: Option<ValueNoiseParams> = before;
        let mut decoded: Option<ValueNoiseParams> = None;
        let params = downcast_params::<ValueNoiseParams>(None, &mut scratch, &mut decoded);
        assert_eq!(params, Ok(&ValueNoiseParams {}));
        assert_eq!(scratch, Some(ValueNoiseParams {}));
        assert_eq!(decoded, None);
    }
}

#[test]
fn typed_parameters_are_taken_as_they_are() {
    let typed = WhiteNoiseParams {};
    let any = AnyParams::WhiteNoise(&typed);
    let mut scratch: Option<WhiteNoiseParams> = None;
    let mut decoded: Option<WhiteNoiseParams> = None;
    match downcast_params::<WhiteNoiseParams>(Some(&any), &mut scratch, &mut decoded) {
        Ok(params) => assert!(std::ptr::eq(params, &typed)),
        Err(_) => panic!("the struct itself is accepted"),
    }
    assert_eq!(scratch, None);
    assert_eq!(decoded, None);
}

#[test]
fn foreign_parameters_are_refused() {
    let typed = WhiteNoiseParams {};
    let any = AnyParams::WhiteNoise(&typed);
    let mut scratch: Option<ValueNoiseParams> = None;
    let mut decoded: Option<ValueNoiseParams> = None;
    assert_eq!(
        downcast_params::<ValueNoiseParams>(Some(&any), &mut scratch, &mut decoded),
        Err(Error::InvalidParameters)
    );
    assert_eq!(scratch, None);
    assert_eq!(decoded, None);
}

#[test]
fn bytes_must_have_the_exact_size() {
    assert_eq!(ValueNoiseParams::byte_size(), std::mem::size_of::<ValueNoiseParams>());
    assert_eq!(WhiteNoiseParams::byte_size(), std::mem::size_of::<WhiteNoiseParams>());
    let empty: [u8; 0] = [];
    let any = AnyParams::Bytes(&empty);
    let mut scratch: Option<ValueNoiseParams> = None;
    let mut decoded: Option<ValueNoiseParams> = None;
    assert_eq!(
        downcast_params::<ValueNoiseParams>(Some(&any), &mut scratch, &mut decoded),
        Ok(&ValueNoiseParams::default_params())
    );
    // the scratch for the defaults is left alone; the struct that was read
    // has its own place
    assert_eq!(scratch, None);
    assert_eq!(decoded, Some(ValueNoiseParams {}));
    for len in [1usize, 2, 4, 64] {
        let bytes = vec![0u8; len];
        let any = AnyParams::Bytes(&bytes);
        let mut scratch: Option<ValueNoiseParams> = None;
        let mut decoded: Option<ValueNoiseParams> = None;
        assert_eq!(
            downcast_params::<ValueNoiseParams>(Some(&any), &mut scratch, &mut decoded),
            Err(Error::InvalidParameters)
        );
        assert_eq!((scratch, decoded), (None, None));
        let mut scratch: Option<WhiteNoiseParams> = None;
        let mut decoded: Option<WhiteNoiseParams> = None;
        assert_eq!(
            downcast_params::<WhiteNoiseParams>(Some(&any), &mut scratch, &mut decoded),
            Err(Error::InvalidParameters)
        );
        assert_eq!((scratch, decoded), (None, None));
    }
}

#[test]
fn registry_of_the_builtin_methods() {
    let registry = new_registry();
    assert_eq!(registry.len(), 6);
    assert_eq!(registry.find("debug"), Some(MethodKind::Debug));
    assert_eq!(registry.find("white_noise"), Some(MethodKind::WhiteNoise));
    assert_eq!(registry.find("value_noise"), Some(MethodKind::ValueNoise));
    assert_eq!(registry.find("gradient_noise"), Some(MethodKind::GradientNoise));
    assert_eq!(registry.find("simplex_noise"), Some(MethodKind::SimplexNoise));
    assert_eq!(registry.find("phasor_noise"), Some(MethodKind::PhasorNoise));
    assert_eq!(registry.find("pink_noise"), None);
    assert_eq!(registry.find(""), None);
    assert!(registry.build("white_noise").is_some());
    assert!(registry.build("value_noise").is_some());
    assert!(registry.build("phasor_noise").is_none());
    assert!(registry.build("pink_noise").is_none());
}

#[test]
fn later_registration_hides_the_earlier_one() {
    let mut registry = MethodRegistry::new();
    assert_eq!(registry.len(), 0);
    assert_eq!(registry.find("noise"), None);
    registry.register("noise", MethodKind::ValueNoise);
    registry.register("other", MethodKind::Debug);
    registry.register("noise", MethodKind::WhiteNoise);
    assert_eq!(registry.len(), 3);
    assert_eq!(registry.find("noise"), Some(MethodKind::WhiteNoise));
    assert_eq!(registry.find("other"), Some(MethodKind::Debug));
}

#[test]
fn built_methods_compute() {
    let dim = ImageDim::new(2, 2, 1, 1);
    let registry = new_registry();
    let mut ctx = Context::new_cpu();
    let mut image = Image::new_cpu(dim, ImageDataType::UInt8);

    let mut white = registry.build("white_noise").unwrap();
    assert!(matches!(white.compute(&mut ctx, &mut image, None), Ok(ComputeStep::Done)));
    assert_eq!(
        image.data().unwrap().as_u8_nd_array().unwrap().as_slice().unwrap(),
        &[0u8, 48, 102, 222][..]
    );

    let mut value = MethodKind::ValueNoise.build().unwrap();
    assert_eq!(value.compute(&mut ctx, &mut image, None).err(), Some(Error::ContextNotSupported));
    assert_eq!(value.install_program(&ctx, Ok(1)), Err(Error::ContextNotSupported));
    assert!(MethodKind::GradientNoise.build().is_none());
}

#[test]
fn compute_across_the_boundary() {
    let dim = ImageDim::new(2, 2, 1, 1);
    let registry = new_registry();
    let mut ctx = Context::new_cpu();
    let mut method = registry.build("white_noise").unwrap();

    let mut image = Image::new_cpu(dim, ImageDataType::UInt8);
    let step = method_compute(&mut ctx, &mut method, &mut image, None);
    assert_eq!(wrap_result_code(&step), TXKIT_SUCCESS);
    let filled: Vec<u8> =
        image.data().unwrap().as_u8_nd_array().unwrap().as_slice().unwrap().to_vec();
    assert_eq!(filled, [0u8, 48, 102, 222]);

    let mut image = Image::new_cpu(dim, ImageDataType::UInt8);
    let step = method_compute(&mut ctx, &mut method, &mut image, Some(&[]));
    assert_eq!(wrap_result_code(&step), 0);
    assert_eq!(image.data().unwrap().as_u8_nd_array().unwrap().as_slice().unwrap(), &filled[..]);

    let mut image = Image::new_cpu(dim, ImageDataType::UInt8);
    let step = method_compute(&mut ctx, &mut method, &mut image, Some(&[0, 0, 0, 0]));
    assert_eq!(step.as_ref().err(), Some(&Error::InvalidParameters));
    assert_eq!(wrap_result_code(&step), 3);
    assert_eq!(
        image.data().unwrap().as_u8_nd_array().unwrap().as_slice().unwrap(),
        &[0u8; 4][..]
    );

    assert!(params_of_bytes(None).is_none());
    assert!(matches!(params_of_bytes(Some(&[1, 2])), Some(AnyParams::Bytes(b)) if b == [1, 2]));
}

#[test]
fn status_codes() {
    assert_eq!(TXKIT_SUCCESS, 0);
    assert_eq!(error_code(&Error::ContextNotSupported), 1);
    assert_eq!(error_code(&Error::FormatNotSupported), 2);
    assert_eq!(error_code(&Error::InvalidParameters), 3);
    assert_eq!(
        error_code(&Error::ImageCreation(ImageCreationError::ContextNotSupported)),
        4
    );
    assert_eq!(error_code(&Error::ImageData(ImageDataError::Unsynced)), 5);
    assert_eq!(error_code(&Error::Backend(String::from("x"))), 6);
    assert_eq!(wrap_result_code(&Ok::<u8, Error>(3)), 0);
    assert_eq!(wrap_result_code(&Err::<u8, Error>(Error::FormatNotSupported)), 2);
    assert_eq!(wrap_result(Ok::<u8, Error>(3)), Some(3));
    assert_eq!(wrap_result(Err::<u8, Error>(Error::FormatNotSupported)), None);
}

#[test]
fn error_messages() {
    assert_eq!(
        ImageCreationError::ContextNotSupported.message(),
        "the context cannot create this type of images"
    );
    assert_eq!(
        ImageCreationError::from(String::from("no memory")).message(),
        "failed to create the image: no memory"
    );
    assert_eq!(
        ImageCreationError::from(String::from("no memory")),
        ImageCreationError::ImageCreationFailed(String::from("no memory"))
    );
    assert_eq!(ImageDataError::UnknownMapping.message(), "unknown mapping error");
    assert_eq!(
        ImageDataError::Unsynced.message(),
        "image needs to be synced before being mapped"
    );
    assert_eq!(
        ImageDataError::MappingFailed.message(),
        "mapping the image failed in the backend, check logs for details"
    );
    assert_eq!(
        Error::from_image_data(ImageDataError::Unsynced).message(),
        "image needs to be synced before being mapped"
    );
    assert_eq!(
        Error::from_image_creation(ImageCreationError::ContextNotSupported).message(),
        "the context cannot create this type of images"
    );
    assert_eq!(Error::Backend(String::from("link failed")).message(), "backend error: link failed");
    assert_eq!(Error::InvalidParameters.message(), "invalid parameters");
}
