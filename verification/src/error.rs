use vstd::prelude::*;
use vstd::std_specs::convert::FromSpecImpl;
use vstd::string::StringExecFns;

verus! {

/// Why an image could not be created.
#[derive(Debug, Clone, PartialEq, Eq)]
pub enum ImageCreationError {
    /// The context has no backend that can hold this kind of image.
    ContextNotSupported,
    /// The backend failed to allocate or set up the image; the text is its
    /// diagnostic.
    ImageCreationFailed(String),
}

/// Why the pixels of an image could not be mapped.
#[derive(Debug, Clone, Copy, PartialEq, Eq, Structural)]
pub enum ImageDataError {
    /// The backend reported a failure it could not name.
    UnknownMapping,
    /// The device copy is newer than the host copy and has not been
    /// downloaded.
    Unsynced,
    /// The backend could not map the pixels.
    MappingFailed,
}

/// Why a computation did not take place.
#[derive(Debug, Clone, PartialEq, Eq)]
pub enum Error {
    /// The method cannot run on the backend of this context.
    ContextNotSupported,
    /// The storage of the image does not support the operation.
    FormatNotSupported,
    /// The parameters are neither of the method's type nor of its size.
    InvalidParameters,
    /// An image could not be created.
    ImageCreation(ImageCreationError),
    /// The pixels of an image could not be mapped.
    ImageData(ImageDataError),
    /// The device backend failed; the text is its diagnostic.
    Backend(String),
}

impl From<String> for ImageCreationError {
    fn from(msg: String) -> (e: Self) {
        ImageCreationError::ImageCreationFailed(msg)
    }
}

impl FromSpecImpl<String> for ImageCreationError {
    open spec fn obeys_from_spec() -> bool {
        true
    }

    open spec fn from_spec(msg: String) -> Self {
        ImageCreationError::ImageCreationFailed(msg)
    }
}

impl ImageCreationError {
    /// The text that describes the error.
    pub open spec fn message_spec(self) -> Seq<char> {
        match self {
            ImageCreationError::ContextNotSupported =>
                "the context cannot create this type of images"@,
            ImageCreationError::ImageCreationFailed(detail) => "failed to create the image: "@
                + detail@,
        }
    }

    pub fn message(&self) -> (text: String)
        ensures
            text@ == self.message_spec(),
    {
        match self {
            ImageCreationError::ContextNotSupported =>
                "the context cannot create this type of images".to_owned(),
            ImageCreationError::ImageCreationFailed(detail) =>
                "failed to create the image: ".to_owned().concat(detail.as_str()),
        }
    }
}

impl ImageDataError {
    /// The text that describes the error.
    pub open spec fn message_spec(self) -> Seq<char> {
        match self {
            ImageDataError::UnknownMapping => "unknown mapping error"@,
            ImageDataError::Unsynced => "image needs to be synced before being mapped"@,
            ImageDataError::MappingFailed =>
                "mapping the image failed in the backend, check logs for details"@,
        }
    }

    pub fn message(&self) -> (text: String)
        ensures
            text@ == self.message_spec(),
    {
        match self {
            ImageDataError::UnknownMapping => "unknown mapping error".to_owned(),
            ImageDataError::Unsynced => "image needs to be synced before being mapped".to_owned(),
            ImageDataError::MappingFailed =>
                "mapping the image failed in the backend, check logs for details".to_owned(),
        }
    }
}

impl Error {
    /// The text that describes the error.
    pub open spec fn message_spec(self) -> Seq<char> {
        match self {
            Error::ContextNotSupported => "the method does not support this context"@,
            Error::FormatNotSupported => "the image format is not supported"@,
            Error::InvalidParameters => "invalid parameters"@,
            Error::ImageCreation(e) => e.message_spec(),
            Error::ImageData(e) => e.message_spec(),
            Error::Backend(detail) => "backend error: "@ + detail@,
        }
    }

    pub fn message(&self) -> (text: String)
        ensures
            text@ == self.message_spec(),
    {
        match self {
            Error::ContextNotSupported => "the method does not support this context".to_owned(),
            Error::FormatNotSupported => "the image format is not supported".to_owned(),
            Error::InvalidParameters => "invalid parameters".to_owned(),
            Error::ImageCreation(e) => e.message(),
            Error::ImageData(e) => e.message(),
            Error::Backend(detail) => "backend error: ".to_owned().concat(detail.as_str()),
        }
    }

    /// The error that stands for a failed mapping.
    pub fn from_image_data(e: ImageDataError) -> (error: Self)
        ensures
            error == Error::ImageData(e),
    {
        Error::ImageData(e)
    }

    /// The error that stands for a failed image creation.
    pub fn from_image_creation(e: ImageCreationError) -> (error: Self)
        ensures
            error == Error::ImageCreation(e),
    {
        Error::ImageCreation(e)
    }
}

} // verus!
