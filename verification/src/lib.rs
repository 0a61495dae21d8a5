//! Parsers for the data tables of a mobile tower-defence game, written over
//! bytes so that every step from the raw file to the parsed value carries a
//! contract.

pub mod text;
pub mod error;
pub mod common;
pub mod chapter;
pub mod combat;
pub mod enemy;
pub mod files;
