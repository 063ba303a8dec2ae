//! Write-side encoder for a column of fixed-width byte values: derives the
//! column's validity stream, encodes it per the target page version, appends
//! the plain value bytes, and assembles the finished data page.

pub mod levels;
pub mod model;
pub mod options;
pub mod page;
pub mod plain;
pub mod validity;

pub use levels::encode_bool_iter;
pub use options::{PageError, Version, WriteOptions};
pub use page::{build_page_body, bytes_to_page, PageBody};
pub use plain::encode_plain;
pub use validity::derive_validity;
