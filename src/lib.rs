//! Metadata, cover and DRM inspection for EPUB-family ebook containers.
//!
//! The container is opened in memory; every decision about what was found
//! (format, package document location, metadata fields, cover, DRM status,
//! warnings) is made by verified code over plain values.

pub mod cover;
pub mod drm;
pub mod epub;
pub mod error;
pub mod format;
pub mod metadata;
pub mod opf;
pub mod text;
pub mod traits;
pub mod xml;

pub use cover::CoverInfo;
pub use drm::{DrmScheme, DrmStatus};
pub use epub::EpubBook;
pub use error::Error;
pub use format::Format;
pub use metadata::Metadata;
pub use traits::{BookReader, CoverProvider, CoverWriter, DrmDetector, MetadataProvider, MetadataWriter};
