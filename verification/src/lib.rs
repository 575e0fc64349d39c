//! Validated references to YouTube watch pages, and bookmarks that tag them.

pub mod bookmark;
pub mod error;
pub mod generate;
pub mod parts;
pub mod youtube_url;

pub use bookmark::{add_tag, YtBookMark};
pub use error::DomainError;
pub use parts::UrlParts;
pub use youtube_url::YoutubeUrl;
