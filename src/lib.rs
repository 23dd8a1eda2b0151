//! Simplification of wiki markup into a small node vocabulary, and the
//! index of entity appearances derived from it.
pub mod raw;
pub mod text;
pub mod error;
pub mod simplify;
pub mod appearances;
pub mod timeline;
pub mod model;
