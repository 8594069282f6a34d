//! Report builder for game-package download metadata.
//!
//! The library decodes a vendor JSON document into a [`model::PackageDocument`],
//! renders it as plain-text reports, and re-derives a short share message from
//! the main report's text. Every function's output is pinned by a spec-level
//! twin of its template or grammar.

pub mod decode;
pub mod format;
pub mod json;
pub mod lang;
pub mod model;
pub mod numeric;
pub mod report;
pub mod share;
pub mod strutil;
