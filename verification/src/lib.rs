//! Content dispatch and rendering for a directory-serving HTTP server: request
//! paths are resolved to directory listings or files, files are classified by
//! extension and rendered (HTML embedded in its page unmodified and
//! pre-escaped, Markdown transformed with syntax-highlighted code fences,
//! other text highlighted by extension, and non-text content returned as raw
//! bytes).

pub mod highlight;
pub mod listing;
pub mod markdown;
pub mod paths;
pub mod render;
pub mod text;
