//! Verified core of the Teawie image service: picking image files out of the
//! archive listings, the download-URL cache, the GitHub request plan, and the
//! replies that the HTTP routes send.

pub mod cache;
pub mod content;
pub mod github;
pub mod replies;
pub mod text;

pub use cache::Cache;
pub use content::{collect_image_urls, find_image_urls, is_image_file, Content, ContentView};
pub use text::{chars_equal, last_segment, last_segment_start};
