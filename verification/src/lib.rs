//! Best-effort page metadata from an HTML document.
//!
//! A page is parsed once; each field is then read through an ordered chain
//! of selector rules, and the first rule that yields a value with visible
//! content decides the field.

pub mod dom;
pub mod error;
pub mod laws;
pub mod metadata;
pub mod rules;
pub mod scraper;
pub mod text;

pub use crate::error::ParseFailure;
pub use crate::metadata::{MetaData, Metatag};
pub use crate::rules::{Field, FieldRule, Mode};
pub use crate::scraper::MetaScraper;
