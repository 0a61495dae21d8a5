//! Stage-level data: the tables that describe individual stages.

pub mod cost;
pub mod xp;
pub mod difficulty_level;
pub mod drop_chara;
pub mod charagroup;
pub mod scatcpusetting;
pub mod stage_option;
pub mod mapstagedata;
pub mod certification_preset;
pub mod stagename;
pub mod battleground;
pub mod fixed_formation;

use std::collections::HashMap;

use vstd::prelude::*;

use crate::chapter::category::Category;

verus! {

/// Everything the tables say about one stage, gathered in one place.
#[derive(Default, Debug, Clone, PartialEq)]
pub struct Stage {
    /// The stage's display name.
    pub name: String,
    /// The chapter the stage belongs to.
    pub category: Category,
    /// The map the stage belongs to.
    pub map_id: u32,
    /// The stage's index within its map.
    pub stage_id: u32,
    /// The base's enemy identifier.
    pub base_id: i32,
    /// The enemy line that is the base itself.
    pub anim_base_id: u32,
    /// The stage's width.
    pub width: u32,
    /// The base's health.
    pub base_hp: u32,
    /// The shortest delay in frames between spawns.
    pub min_spawn: u32,
    /// The longest delay in frames between spawns.
    pub max_spawn: u32,
    /// The background the stage is drawn on.
    pub background_id: u32,
    /// The most enemies on the field at once.
    pub max_enemies: u32,
    /// The stage's time limit.
    pub time_limit: u32,
    /// Whether the stage refuses continues.
    pub is_no_continues: bool,
    /// Whether the base cannot be destroyed.
    pub is_base_indestructible: bool,
    /// A column whose effect on the engine is not established.
    pub unknown_value: u32,
    /// The enemy lines, in order.
    pub enemies: Vec<BattlegroundEntry>,
    /// The entry cost.
    pub cost: u32,
    /// The experience awarded on clear.
    pub xp: u32,
    /// The music track the stage opens with.
    pub init_track: u32,
    /// The base health percentage at which the music changes.
    pub bgm_change_percent: u32,
    /// The music track that replaces the opening one.
    pub boss_track: i16,
    /// The reward scheme the stage uses on completion.
    pub rewards: RewardStructure,
    /// The stage's difficulty rating.
    pub difficulty: u16,
    /// The highest crown difficulty the stage can be attempted at.
    pub max_crowns: u8,
    /// The crown difficulty a lineup restriction applies at.
    pub target_crowns: i8,
    /// The rarities the lineup may draw from.
    pub rarity_mask: u8,
    /// The most units that may be deployed.
    pub deploy_limit: u32,
    /// The lineup rows that may be used.
    pub allowed_rows: u8,
    /// The lowest deployment cost allowed.
    pub min_cost: u32,
    /// The highest deployment cost allowed.
    pub max_cost: u32,
    /// The unit restriction group the stage applies.
    pub charagroup: Option<CharaGroupEntry>,
    /// The preset lineups fixed on the stage, keyed by crown difficulty.
    pub fixed_lineups: HashMap<u8, CertificationPreset>,
}

} // verus!

pub use battleground::{Battleground, BattlegroundEntry, BattlegroundError, BossType, EnemyAmount};
pub use certification_preset::{
    AbilityType, CannonType, CertificationPreset, CertificationPresetError, EvolutionForm, PresetAbility, PresetChara,
    PresetTreasure, TreasureType,
};
pub use charagroup::{CharaGroup, CharaGroupEntry, CharaGroupError, CharaGroupType};
pub use cost::{resolve_energy, CataminGrade, CostType, ResolvedCost};
pub use difficulty_level::{DifficultyLevel, DifficultyLevelError};
pub use drop_chara::{DropChara, DropCharaError};
pub use fixed_formation::{FixedFormation, FixedFormationEntry, FixedFormationError};
pub use mapstagedata::{
    DropReward, MapStageData, MapStageDataEntry, MapStageDataError, MapStageDataHeader, RewardStructure, TimedScore,
};
pub use scatcpusetting::{ScatCpuSetting, ScatCpuSettingError};
pub use stage_option::{StageOption, StageOptionEntry, StageOptionError};
pub use stagename::{StageName, StageNameEntry, StageNameError};
pub use xp::get_hardcoded_xp;
