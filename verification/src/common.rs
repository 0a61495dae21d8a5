//! Text handling, column reading, and regional conventions shared by every parser.

pub mod file;
pub mod columns;
pub mod json;
pub mod stream;
pub mod variant;
pub mod utils;
pub mod data;
pub mod header;
pub mod pairs;
pub mod precision;

pub use columns::{apply, parse_cell, Column, FromColumn, Scale};
pub use file::{lookup, scrub, strip_html_tags, BreakHandling, Separator};
pub use variant::{ParseRegionError, Region, RegionMetadata};
