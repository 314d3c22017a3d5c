//! The capabilities that a readable ebook format offers. EPUB and KePub
//! implement them today; other container formats are meant to join them.

use vstd::prelude::*;
use crate::drm::DrmStatus;
use crate::error::Error;
use crate::metadata::Metadata;

verus! {

/// Opens a book from its path and the bytes of its file.
pub trait BookReader {
    type Book;

    fn open(path: &str, data: Vec<u8>) -> Result<Self::Book, Error>;
}

/// Reads metadata from an ebook.
pub trait MetadataProvider {
    fn metadata(&self) -> Result<Metadata, Error>;
}

/// Writes metadata to an ebook.
pub trait MetadataWriter {
    fn set_metadata(&mut self, metadata: &Metadata) -> Result<(), Error>;
}

/// Reports the DRM status of an ebook.
pub trait DrmDetector {
    fn drm_status(&self) -> Result<DrmStatus, Error>;
}

/// Extracts the cover image of an ebook, given the bytes of its file.
pub trait CoverProvider {
    /// The cover image as raw bytes (typically JPEG or PNG).
    fn cover(&self, data: Vec<u8>) -> Result<Option<Vec<u8>>, Error>;
}

/// Sets or replaces the cover image of an ebook.
pub trait CoverWriter {
    fn set_cover(&mut self, image_data: &[u8]) -> Result<(), Error>;
}

} // verus!
