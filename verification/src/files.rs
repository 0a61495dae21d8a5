//! Catalogue tables that describe the game's items.

pub mod gatyaitembuy;
pub mod gatyaitemname;

pub use crate::common::data::img015;
pub use crate::common::data::localizable::{Localizable, LocalizableError};
pub use crate::common::data::param::{Param, ParamError};
pub use crate::common::file::Separator;
pub use gatyaitembuy::{GatyaItemBuy, GatyaItemBuyError};
pub use gatyaitemname::{GatyaItemName, GatyaItemNameError};
