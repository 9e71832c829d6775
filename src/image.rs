use vstd::prelude::*;
use vstd::string::*;
use crate::format::{ImageFormat, sniffed_format, sniff, extension_of};

verus! {

/// Width in pixels of every generated preview.
pub const PREVIEW_WIDTH: u32 = 100;

/// Height in pixels of every generated preview.
pub const PREVIEW_HEIGHT: u32 = 100;

/// Why an image record could not be made.
#[derive(Clone, Copy, Debug, PartialEq, Eq, Structural)]
pub enum ImageError {
    /// The resizer could not decode the bytes as an image.
    PreviewGeneration,
    /// The bytes are neither JPEG nor PNG.
    UnsupportedImageFormat,
}

/// The outcome of validating `bytes`: the sniffed format, or the rejection.
pub open spec fn validation(bytes: Seq<u8>) -> Result<ImageFormat, ImageError> {
    match sniffed_format(bytes) {
        Some(f) => Ok(f),
        None => Err(ImageError::UnsupportedImageFormat),
    }
}

/// The name given to the preview of an image called `name`.
pub open spec fn preview_name(name: Seq<char>) -> Seq<char> {
    "preview_"@ + name
}

/// The file name under which an image is stored: `{name}.{extension}`.
pub open spec fn file_name_of(name: Seq<char>, f: ImageFormat) -> Seq<char> {
    name + "."@ + extension_of(f)
}

/// Bytes that the sniffer classifies as JPEG or PNG pass validation, with that format.
pub proof fn law_sniffed_bytes_validate(bytes: Seq<u8>, f: ImageFormat)
    requires
        sniffed_format(bytes) == Some(f),
    ensures
        validation(bytes) == Ok::<ImageFormat, ImageError>(f),
{
}

/// Bytes that the sniffer does not classify as JPEG or PNG are rejected as an
/// unsupported format.
pub proof fn law_unsniffed_bytes_rejected(bytes: Seq<u8>)
    requires
        sniffed_format(bytes) is None,
    ensures
        validation(bytes) == Err::<ImageFormat, ImageError>(ImageError::UnsupportedImageFormat),
{
}

/// A validated image: a name, its bytes, and the container format that the bytes carry.
#[derive(Debug)]
pub struct Image {
    name: String,
    binary_data: Vec<u8>,
    format: ImageFormat,
}

impl Image {
    #[verifier::type_invariant]
    spec fn inv(self) -> bool {
        sniffed_format(self.binary_data@) == Some(self.format)
    }

    /// The image's name.
    pub closed spec fn spec_name(&self) -> Seq<char> {
        self.name@
    }

    /// The image's bytes.
    pub closed spec fn spec_data(&self) -> Seq<u8> {
        self.binary_data@
    }

    /// The image's container format.
    pub closed spec fn spec_format(&self) -> ImageFormat {
        self.format
    }

    /// Makes an image record from a name and bytes, rejecting bytes that are
    /// neither JPEG nor PNG.
    pub fn create(name: String, binary_data: Vec<u8>) -> (r: Result<Self, ImageError>)
        ensures
            match r {
                Ok(img) => {
                    &&& validation(binary_data@) == Ok::<ImageFormat, ImageError>(img.spec_format())
                    &&& img.spec_name() == name@
                    &&& img.spec_data() == binary_data@
                },
                Err(e) => validation(binary_data@) == Err::<ImageFormat, ImageError>(e),
            },
    {
        match sniff(binary_data.as_slice()) {
            Some(format) => Ok(Image { name, binary_data, format }),
            None => Err(ImageError::UnsupportedImageFormat),
        }
    }

    /// Whether `data` is a JPEG or PNG image.
    pub fn is_supported_type(data: &[u8]) -> (r: bool)
        ensures
            r == (sniffed_format(data@) is Some),
    {
        sniff(data).is_some()
    }

    /// Wraps the bytes that the resizer produced for this image (`None` when it could
    /// not decode the image) as the preview `preview_{name}`, sniffing their format anew.
    pub fn generate_preview(&self, resized: Option<Vec<u8>>) -> (r: Result<Image, ImageError>)
        ensures
            match resized {
                None => r == Err::<Image, ImageError>(ImageError::PreviewGeneration),
                Some(bytes) => match r {
                    Ok(p) => {
                        &&& validation(bytes@) == Ok::<ImageFormat, ImageError>(p.spec_format())
                        &&& p.spec_name() == preview_name(self.spec_name())
                        &&& p.spec_data() == bytes@
                    },
                    Err(e) => validation(bytes@) == Err::<ImageFormat, ImageError>(e),
                },
            },
    {
        match resized {
            None => Err(ImageError::PreviewGeneration),
            Some(bytes) => {
                let name = String::from_str("preview_").concat(self.name.as_str());
                Image::create(name, bytes)
            },
        }
    }

    /// The image's name.
    pub fn name(&self) -> (r: &str)
        ensures
            r@ == self.spec_name(),
    {
        self.name.as_str()
    }

    /// The image's bytes.
    pub fn data(&self) -> (r: &Vec<u8>)
        ensures
            r@ == self.spec_data(),
    {
        &self.binary_data
    }

    /// The image's container format, as sniffed from its bytes.
    pub fn format(&self) -> (r: ImageFormat)
        ensures
            r == self.spec_format(),
            sniffed_format(self.spec_data()) == Some(r),
            validation(self.spec_data()) == Ok::<ImageFormat, ImageError>(r),
    {
        proof { use_type_invariant(self); }
        self.format
    }

    /// The extension of the image's format: `jpg` or `png`.
    pub fn extension(&self) -> (r: &'static str)
        ensures
            r@ == extension_of(self.spec_format()),
    {
        self.format.extension()
    }

    /// The file name under which the image is stored: `{name}.{extension}`.
    pub fn file_name(&self) -> (r: String)
        ensures
            r@ == file_name_of(self.spec_name(), self.spec_format()),
    {
        let base = self.name.clone();
        base.concat(".").concat(self.format.extension())
    }
}

} // verus!
