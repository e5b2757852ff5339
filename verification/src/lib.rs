//! A string-safe HTTP header container.
//!
//! Header values stored here are guaranteed to be valid UTF-8, so they can be
//! read back as plain text without re-validation.  Header names are validated
//! ASCII tokens, compared case-insensitively; single-entry mutations normalize
//! names to lowercase before storage.  Validation and storage are performed by
//! the `http` crate through a small trusted interface; the container logic and
//! its laws are verified.

pub mod component;
pub mod error;
pub mod headers;
pub mod http_bindings;
pub mod laws;
pub mod syntax;
pub mod value;

pub use component::AsHeaderComponent;
pub use component::MaybeStatic;
pub use component::header_name;
pub use component::header_value;
pub use error::HttpError;
pub use headers::Headers;
pub use headers::HeadersIter;
pub use value::HeaderValue;
