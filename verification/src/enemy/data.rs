//! The enemy tables read as whole-row records: the combat statistic rows
//! with every column named, the names and the picture book descriptions.

pub mod t_unit;
pub mod enemyname;
pub mod enemypicturebook;
