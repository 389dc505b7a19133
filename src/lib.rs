//! String-like views over backing data.
//!
//! A string-like value is a view over a run of units (bytes or arbitrary
//! elements) that satisfies a validity predicate: well-formed UTF-8 for text,
//! a single trailing zero byte for null-terminated strings, nothing at all for
//! raw element sequences. The traits here move between a value and its data:
//! read-only and mutably, checked and unchecked.

pub mod data;
pub mod laws;
pub mod nul;
pub mod raw;
pub mod strlike;
pub mod text;

pub use data::{OwnsStrData, StrData};
pub use nul::{NulError, NulStr};
pub use strlike::{DataConcat, StrLike, StrLikeMut};
pub use text::TextMut;
