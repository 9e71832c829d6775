use vstd::prelude::*;

verus! {

/// The two image containers that the service accepts.
#[derive(Clone, Copy, Debug, PartialEq, Eq, Structural)]
pub enum ImageFormat {
    Jpeg,
    Png,
}

/// The image containers whose metadata immeta can load.
#[derive(Clone, Copy, Debug, PartialEq, Eq, Structural)]
pub enum Container {
    Jpeg,
    Png,
    Gif,
    Webp,
}

/// The container whose metadata immeta's loader reads from `bytes`, or `None` where it
/// reads none.
pub uninterp spec fn loaded_container(bytes: Seq<u8>) -> Option<Container>;

/// Relies on immeta::load_from_buf: which kind of metadata it loads from the bytes.
#[verifier::external_body]
fn load_container(bytes: &[u8]) -> (r: Option<Container>)
    ensures
        r == loaded_container(bytes@),
{
    match immeta::load_from_buf(bytes) {
        Ok(immeta::GenericMetadata::Jpeg(_)) => Some(Container::Jpeg),
        Ok(immeta::GenericMetadata::Png(_)) => Some(Container::Png),
        Ok(immeta::GenericMetadata::Gif(_)) => Some(Container::Gif),
        Ok(immeta::GenericMetadata::Webp(_)) => Some(Container::Webp),
        Err(_) => None,
    }
}

/// The accepted format of `bytes`: JPEG or PNG as immeta recognises them; every other
/// container, and bytes that are no image, give `None`.
pub open spec fn sniffed_format(bytes: Seq<u8>) -> Option<ImageFormat> {
    match loaded_container(bytes) {
        Some(Container::Jpeg) => Some(ImageFormat::Jpeg),
        Some(Container::Png) => Some(ImageFormat::Png),
        _ => None,
    }
}

/// Inspects the container signature and metadata of `bytes`; `None` for anything
/// that is neither JPEG nor PNG.
pub fn sniff(bytes: &[u8]) -> (r: Option<ImageFormat>)
    ensures
        r == sniffed_format(bytes@),
{
    match load_container(bytes) {
        Some(Container::Jpeg) => Some(ImageFormat::Jpeg),
        Some(Container::Png) => Some(ImageFormat::Png),
        _ => None,
    }
}

/// The file extension under which an image of the format is stored.
pub open spec fn extension_of(f: ImageFormat) -> Seq<char> {
    match f {
        ImageFormat::Jpeg => "jpg"@,
        ImageFormat::Png => "png"@,
    }
}

impl ImageFormat {
    /// File extension used in storage: `jpg` or `png`.
    pub fn extension(&self) -> (r: &'static str)
        ensures
            r@ == extension_of(*self),
    {
        match self {
            ImageFormat::Jpeg => "jpg",
            ImageFormat::Png => "png",
        }
    }
}

} // verus!
