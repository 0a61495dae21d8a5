//! Map-level data: the tables that describe a map as a whole.

pub mod ex_option;
pub mod lockskipdata;
pub mod map_name;
pub mod redirect;
pub mod demoncastle;
pub mod map_option;
pub mod specialrulesmapoption;
pub mod scorebonusmap;
pub mod specialrulesmap;
pub mod dropitem;

pub use demoncastle::{DemonCastleDefine, DemonCastleError, DemonCastleLimit};
pub use dropitem::{read_rows, DropItemError, DropItemRow};
pub use ex_option::{ExOption, ExOptionError};
pub use lockskipdata::{LockSkipData, LockSkipDataEntry, LockSkipDataError};
pub use map_name::{MapName, MapNameError};
pub use map_option::{MapOption, MapOptionEntry, MapOptionError, ResetType};
pub use redirect::redirect_map_id;
pub use scorebonusmap::{BonusType, ScoreBonusMap, ScoreBonusMapEntry, ScoreBonusMapError};
pub use specialrulesmap::{RuleType, SpecialRulesMap, SpecialRulesMapEntry, SpecialRulesMapError};
pub use specialrulesmapoption::{SpecialRulesMapOption, SpecialRulesMapOptionEntry, SpecialRulesMapOptionError};
