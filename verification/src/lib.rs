//! Selector-driven extraction of repeated items out of loosely structured
//! HTML, and deterministic assembly of the extracted items into an RSS feed,
//! one feed per configured source.

pub mod assemble;
pub mod dates;
pub mod error;
pub mod extract;
pub mod html;
pub mod orchestrate;
pub mod rule;
pub mod url;
