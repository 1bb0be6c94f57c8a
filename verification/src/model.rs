//! The typed content model a post page's embedded state decodes into: the
//! state root, the timeline, posts, their ordered content blocks, inline
//! formatting ranges, and media descriptors. These are immutable value
//! objects; all behavior over them lives in the selection, resolution and
//! planning functions. Fields that upstream leaves as free-form JSON are
//! carried verbatim as their JSON text.

use vstd::prelude::*;

verus! {

/// One candidate rendition of an image or video asset.
#[derive(Debug, Clone, PartialEq, Eq)]
pub struct Media {
    /// Where the rendition is served from.
    pub url: String,
    /// The MIME type, when given.
    pub kind: Option<String>,
    /// Width in pixels, when given.
    pub width: Option<u32>,
    /// Height in pixels, when given.
    pub height: Option<u32>,
    /// Whether the stated dimensions are defaults rather than measured.
    pub original_dimensions_missing: Option<bool>,
    /// Whether this rendition is a cropped version of the original.
    pub cropped: Option<bool>,
    /// Whether this rendition has the original media's dimensions.
    pub has_original_dimensions: Option<bool>,
}

/// The blog identity embedded in a mention formatting range.
#[derive(Debug, Clone, PartialEq, Eq)]
pub struct BlogInfo {
    /// The blog's opaque unique identifier.
    pub uuid: String,
    /// The blog's name.
    pub name: String,
    /// The blog's URL.
    pub url: String,
}

/// One inline formatting range over a sibling text block, as a half-open
/// character range `[start, end)`.
#[derive(Debug, Clone, PartialEq, Eq)]
pub enum Formatting {
    /// Bold text.
    Bold { start: u64, end: u64 },
    /// Italic text.
    Italic { start: u64, end: u64 },
    /// Struck-through text.
    Strikethrough { start: u64, end: u64 },
    /// A link, with an optional target URL.
    Link { start: u64, end: u64, url: Option<String> },
    /// A mention of a blog.
    Mention { start: u64, end: u64, blog: BlogInfo },
    /// Colored text, with the color as an encoded hex string.
    Color { start: u64, end: u64, hex: String },
    /// Small text.
    Small { start: u64, end: u64 },
}

/// One unit of a post's body, in display order.
#[derive(Debug, Clone, PartialEq, Eq)]
pub enum ContentBlock {
    /// A text block with optional inline formatting.
    Text {
        /// The text itself.
        text: String,
        /// The block subtype, such as a heading kind.
        subtype: Option<String>,
        /// The indentation level.
        indent_level: Option<u16>,
        /// Inline formatting ranges, in order.
        formatting: Option<Vec<Formatting>>,
    },
    /// An image block with its candidate renditions.
    Image {
        /// The candidate renditions, in order.
        media: Vec<Media>,
        /// Alternative text.
        alt_text: Option<String>,
        /// A caption.
        caption: Option<String>,
        /// Exif entries as key-value pairs, in decoded order.
        exif: Option<Vec<(String, String)>>,
    },
    /// A video block; the canonical URL is the media object's when present,
    /// else the block's own URL.
    Video {
        /// The URL to use when no media object is present.
        url: Option<String>,
        /// The media object to use when present.
        media: Option<Media>,
        /// The video's provider.
        provider: Option<String>,
        /// HTML that embeds the video in a page.
        embed_html: Option<String>,
        /// The embed iframe description, as JSON text.
        embed_iframe: Option<String>,
        /// A URL to embeddable content for an iframe.
        embed_url: Option<String>,
        /// Image media to use as a poster frame.
        poster: Option<Vec<Media>>,
        /// Provider-specific metadata, as JSON text.
        metadata: Option<String>,
        /// Attribution of where the video came from, as JSON text.
        attribution: Option<String>,
        /// Whether the video may autoplay on a cellular connection.
        can_autoplay_on_cellular: Option<bool>,
        /// A filmstrip preview media object.
        filmstrip: Option<Media>,
    },
}

/// One avatar rendition of a blog.
#[derive(Debug, Clone, PartialEq, Eq)]
pub struct Avatar {
    /// Width in pixels.
    pub width: u32,
    /// Height in pixels.
    pub height: u32,
    /// Where the avatar is served from.
    pub url: String,
    /// Avatar accessories, each as JSON text.
    pub accessories: Vec<String>,
}

/// The blog a post belongs to.
#[derive(Debug, Clone, PartialEq, Eq)]
pub struct Blog {
    /// The blog's name.
    pub name: String,
    /// The blog's avatar renditions.
    pub avatar: Vec<Avatar>,
    /// The blog's title.
    pub title: String,
    /// The blog's URL.
    pub url: String,
    /// The blog's view URL.
    pub blog_view_url: String,
    /// Whether the blog is marked adult.
    pub is_adult: bool,
    /// The blog description as content blocks.
    pub description_npf: Vec<ContentBlock>,
    /// The blog's opaque unique identifier.
    pub uuid: String,
}

/// A single post and its payload.
#[derive(Debug, Clone, PartialEq, Eq)]
pub struct Post {
    /// The post's format kind, such as blocks or a legacy kind.
    pub kind: String,
    /// The post's 64-bit unsigned id.
    pub id: u64,
    /// The post's body, in display order.
    pub content: Vec<ContentBlock>,
    /// Layout descriptions, each as JSON text.
    pub layout: Vec<String>,
    /// The post's lifecycle state.
    pub state: String,
    /// The post's date text.
    pub date: String,
    /// The post's tags.
    pub tags: Vec<String>,
    /// The permalink slug.
    pub slug: String,
    /// The short URL.
    pub short_url: String,
    /// The post summary.
    pub summary: String,
    /// The number of notes.
    pub note_count: u64,
    /// The number of likes.
    pub like_count: u64,
    /// Whether the post is marked not safe for work.
    pub is_nsfw: bool,
    /// The name of the blog the post belongs to.
    pub blog_name: String,
    /// The blog the post belongs to.
    pub blog: Blog,
}

/// One discriminated entry of a timeline; only the post kind is modeled, and
/// the decoder rejects any other discriminant rather than dropping it.
#[derive(Debug, Clone, PartialEq, Eq)]
pub enum TimelineObject {
    /// A post entry.
    Post(Post),
}

/// The timeline a permalink page's route payload starts from.
#[derive(Debug, Clone, PartialEq, Eq)]
pub struct InitialTimeline {
    /// The timeline's entries, in original order.
    pub objects: Vec<TimelineObject>,
}

/// The route-specific payload of a single-post permalink page.
#[derive(Debug, Clone, PartialEq, Eq)]
pub struct PeeprRoute {
    /// The timeline the page was rendered from.
    pub initial_timeline: InitialTimeline,
}

/// The API token record of the embedded state.
#[derive(Debug, Clone, PartialEq, Eq)]
pub struct ApiFetchStore {
    /// The bearer token the page was served with.
    pub api_token: String,
}

/// The root of the embedded state blob.
#[derive(Debug, Clone, PartialEq, Eq)]
pub struct InitialState {
    /// The API token record; always present.
    pub api_fetch_store: ApiFetchStore,
    /// The route payload; present only on single-post permalink pages.
    pub peepr_route: Option<PeeprRoute>,
}

impl InitialState {
    /// The bearer token carried by the embedded state.
    pub fn api_token(&self) -> (r: String)
        ensures
            r@ == self.api_fetch_store.api_token@,
    {
        self.api_fetch_store.api_token.clone()
    }
}

} // verus!
