//! Verified core of a small gallery-scraping pipeline.
//!
//! The library holds the pure logic of the pipeline: classifying a URL
//! against the table of known site patterns, deriving the output file path
//! from an extracted title, deciding what to do with the content scraped
//! from a page, and the per-item state machine that a sequential batch
//! runner drives. All browser, network and file-system work stays outside
//! the library and hands it plain values.

pub mod batch;
pub mod errors;
pub mod extract;
pub mod filename;
pub mod site;
pub mod text;
pub mod traversal;
