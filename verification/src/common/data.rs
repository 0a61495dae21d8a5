//! Game-wide tables: the tuning constants and the string dictionary.

pub mod param;
pub mod img015;
pub mod imgcut;
pub mod localizable;
