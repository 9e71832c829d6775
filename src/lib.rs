//! Batch image ingestion: format sniffing, validation, transport extraction,
//! error reporting and the per-item storage pipeline.
pub mod format;
pub mod text;
pub mod image;
pub mod error;
pub mod extract;
pub mod guard;
pub mod pipeline;
pub mod batch;

pub use format::{Container, ImageFormat, sniff};
pub use image::{Image, ImageError, PREVIEW_WIDTH, PREVIEW_HEIGHT};
pub use error::{ApiError, ResponseMessage};
pub use extract::{JsonMessage, UrlMessage, MultipartField, extract_json};
pub use guard::MultipartTypeGuard;
pub use pipeline::{Action, Category, Event, ItemState, StoreOutcome, start, step};
pub use batch::Batch;
