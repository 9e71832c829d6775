use vstd::prelude::*;
use vstd::string::*;
use crate::image::ImageError;

verus! {

/// Why one item of a batch failed.
#[derive(Debug)]
pub enum ApiError {
    /// The inline payload is not valid base64.
    Base64Decoding,
    /// The URL points at the loopback host.
    LocalhostUrl,
    /// Fetching the URL failed; the message says how.
    FetchFailed(String),
    /// A multipart field carries no file name, or its stream broke off.
    MalformedPart,
    /// The bytes could not be made into an image or a preview.
    Image(ImageError),
    /// A file of that name is already stored in that place.
    NameExists,
    /// The file system refused an operation; the message is the system's.
    FileSystemError(String),
}

/// The HTTP status code that reports an error.
pub open spec fn status_of(e: ApiError) -> u16 {
    match e {
        ApiError::Base64Decoding => 400,
        ApiError::LocalhostUrl => 400,
        ApiError::MalformedPart => 400,
        ApiError::Image(ImageError::UnsupportedImageFormat) => 400,
        ApiError::NameExists => 400,
        ApiError::FetchFailed(_) => 500,
        ApiError::Image(ImageError::PreviewGeneration) => 500,
        ApiError::FileSystemError(_) => 500,
    }
}

/// The text that describes an error.
pub open spec fn description_of(e: ApiError) -> Seq<char> {
    match e {
        ApiError::Base64Decoding => "Base64 decoding failed"@,
        ApiError::LocalhostUrl => "Invalid url. Cannot be localhost"@,
        ApiError::FetchFailed(m) => m@,
        ApiError::MalformedPart => "Malformed multipart field"@,
        ApiError::Image(ImageError::PreviewGeneration) => "Preview generation failed"@,
        ApiError::Image(ImageError::UnsupportedImageFormat) => "Unsupported image format"@,
        ApiError::NameExists => "Image name already exists"@,
        ApiError::FileSystemError(m) => m@,
    }
}

/// The status code reported for a success.
pub const STATUS_OK: u16 = 200;

/// The status code reported for an error the client caused.
pub const STATUS_BAD_REQUEST: u16 = 400;

/// The status code reported for an error on the server's side.
pub const STATUS_INTERNAL_SERVER_ERROR: u16 = 500;

impl ApiError {
    /// The HTTP status code that reports this error.
    pub fn status_code(&self) -> (r: u16)
        ensures
            r == status_of(*self),
    {
        match self {
            ApiError::Base64Decoding => STATUS_BAD_REQUEST,
            ApiError::LocalhostUrl => STATUS_BAD_REQUEST,
            ApiError::MalformedPart => STATUS_BAD_REQUEST,
            ApiError::Image(ImageError::UnsupportedImageFormat) => STATUS_BAD_REQUEST,
            ApiError::NameExists => STATUS_BAD_REQUEST,
            ApiError::FetchFailed(_) => STATUS_INTERNAL_SERVER_ERROR,
            ApiError::Image(ImageError::PreviewGeneration) => STATUS_INTERNAL_SERVER_ERROR,
            ApiError::FileSystemError(_) => STATUS_INTERNAL_SERVER_ERROR,
        }
    }

    /// The text that describes this error.
    pub fn description(&self) -> (r: String)
        ensures
            r@ == description_of(*self),
    {
        match self {
            ApiError::Base64Decoding => String::from_str("Base64 decoding failed"),
            ApiError::LocalhostUrl => String::from_str("Invalid url. Cannot be localhost"),
            ApiError::FetchFailed(m) => m.clone(),
            ApiError::MalformedPart => String::from_str("Malformed multipart field"),
            ApiError::Image(ImageError::PreviewGeneration) => String::from_str(
                "Preview generation failed",
            ),
            ApiError::Image(ImageError::UnsupportedImageFormat) => String::from_str(
                "Unsupported image format",
            ),
            ApiError::NameExists => String::from_str("Image name already exists"),
            ApiError::FileSystemError(m) => m.clone(),
        }
    }
}

impl From<ImageError> for ApiError {
    fn from(e: ImageError) -> (r: ApiError)
        ensures
            r == ApiError::Image(e),
    {
        ApiError::Image(e)
    }
}

impl vstd::std_specs::convert::FromSpecImpl<ImageError> for ApiError {
    open spec fn obeys_from_spec() -> bool {
        true
    }

    open spec fn from_spec(e: ImageError) -> ApiError {
        ApiError::Image(e)
    }
}

/// One entry of a batch's response: a status code and a message.
#[derive(Debug)]
pub struct ResponseMessage {
    pub code: u16,
    pub message: String,
}

/// The message of the response that reports an error.
pub open spec fn error_message_of(e: ApiError) -> Seq<char> {
    if status_of(e) == 500 {
        "Internal server error"@
    } else {
        description_of(e)
    }
}

/// The message of the response that reports an image stored under `name`.
pub open spec fn uploaded_message(name: Seq<char>) -> Seq<char> {
    "Image "@ + name + " successfully uploaded"@
}

impl ResponseMessage {
    /// A response entry from its parts.
    pub fn new(code: u16, message: String) -> (r: ResponseMessage)
        ensures
            r.code == code,
            r.message@ == message@,
    {
        ResponseMessage { code, message }
    }

    /// The entry that reports an image, and its preview, stored under `name`.
    pub fn uploaded(name: &str) -> (r: ResponseMessage)
        ensures
            r.code == 200,
            r.message@ == uploaded_message(name@),
    {
        let message = String::from_str("Image ").concat(name).concat(" successfully uploaded");
        ResponseMessage::new(STATUS_OK, message)
    }

    /// The entry that reports an error: its status code, and its description for a
    /// client error or a fixed text for a server error.
    pub fn from_error(e: &ApiError) -> (r: ResponseMessage)
        ensures
            r.code == status_of(*e),
            r.message@ == error_message_of(*e),
    {
        let code = e.status_code();
        let message = if code == STATUS_INTERNAL_SERVER_ERROR {
            String::from_str("Internal server error")
        } else {
            e.description()
        };
        ResponseMessage::new(code, message)
    }
}

} // verus!
