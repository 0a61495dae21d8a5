//! Text helpers and a region table that always detect the delimiter from the
//! content rather than take it from the caller.

pub mod csv;
pub mod variant;
