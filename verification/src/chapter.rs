//! Chapters, maps and stages.

pub mod category;
pub mod data;
pub mod map;
pub mod stage;

pub use category::Category;
