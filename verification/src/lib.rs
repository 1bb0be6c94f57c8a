//! Scraping support for single social-media posts whose pages embed their
//! application state as inline JSON: permalink-URL parsing, extraction of the
//! embedded state text from an HTML document, resolution of the requested
//! post out of the decoded timeline, selection of the original-resolution
//! media object per content block, and planning of the files that a
//! downloader then commits atomically.

use vstd::prelude::*;

pub mod digits;
pub mod extract;
pub mod model;
pub mod plan;
pub mod resolve;
pub mod select;
pub mod urls;

verus! {

/// The ways a scrape or download-planning operation can fail.
#[derive(Debug, Clone, Copy, PartialEq, Eq, Structural)]
pub enum Error {
    /// The post URL does not start with the fixed scheme and host.
    UnexpectedHost,
    /// The post URL has no blog-identifier path segment.
    MissingBlogIdentifier,
    /// The post URL has no post-id path segment.
    MissingPostId,
    /// The post-id path segment is not a decimal 64-bit unsigned integer.
    InvalidPostId,
    /// The fetched page holds no embedded-state element.
    MissingInitialState,
    /// The embedded state has no entry matching the requested blog and id.
    MissingScrapedPost,
    /// No media object in a block is flagged as having original dimensions.
    MissingOriginalMedia,
    /// More than one media object in a block is flagged as original.
    MultipleOriginalMedia,
    /// A video block carries neither a media object nor a direct URL.
    MissingVideoUrl,
    /// No file name can be derived from a media URL's path.
    MissingFileName,
}

} // verus!
