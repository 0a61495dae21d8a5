//! Enemy units: the whole-roster tables every enemy is read from, and the
//! aggregate built from them; and the abilities an enemy's statistics show.

pub mod data;
pub mod unit;
pub mod abilities;

pub use crate::common::file::Separator;
pub use unit::enemyname::{EnemyName, EnemyNameError};
pub use unit::enemypicturebook::{EnemyPictureBook, EnemyPictureBookError};
pub use unit::t_unit;
pub use unit::{Tables, Unit};
