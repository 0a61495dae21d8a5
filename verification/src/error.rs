//! One error type spanning every parser in the crate.
use vstd::prelude::*;
use crate::combat::entity::EntityError;
use crate::enemy::unit::enemyname::EnemyNameError;
use crate::enemy::unit::enemypicturebook::EnemyPictureBookError;
use crate::chapter::stage::battleground::BattlegroundError;
use crate::chapter::stage::certification_preset::CertificationPresetError;
use crate::chapter::stage::charagroup::CharaGroupError;
use crate::chapter::stage::difficulty_level::DifficultyLevelError;
use crate::chapter::stage::drop_chara::DropCharaError;
use crate::chapter::stage::fixed_formation::FixedFormationError;
use crate::chapter::stage::mapstagedata::MapStageDataError;
use crate::chapter::stage::scatcpusetting::ScatCpuSettingError;
use crate::chapter::stage::stagename::StageNameError;
use crate::chapter::stage::stage_option::StageOptionError;
use crate::chapter::map::dropitem::DropItemError;
use crate::chapter::map::ex_option::ExOptionError;
use crate::chapter::map::lockskipdata::LockSkipDataError;
use crate::chapter::map::map_name::MapNameError;
use crate::chapter::map::map_option::MapOptionError;
use crate::chapter::map::scorebonusmap::ScoreBonusMapError;
use crate::chapter::map::specialrulesmap::SpecialRulesMapError;
use crate::chapter::map::specialrulesmapoption::SpecialRulesMapOptionError;
use crate::common::data::localizable::LocalizableError;
use crate::common::data::param::ParamError;
use crate::files::gatyaitembuy::GatyaItemBuyError;
use crate::files::gatyaitemname::GatyaItemNameError;

verus! {

/// A single error type spanning every parser in the crate.
///
/// Aggregating a unit or a stage means calling parsers that each return their
/// own error type. This enum converts from all of those, so a caller can
/// propagate any of them through one signature rather than mapping each in turn.
#[derive(Debug, Clone, PartialEq, Eq)]
#[non_exhaustive]
pub enum Error {
    /// A unit's combat statistic file could not be parsed.
    Entity(EntityError),
    /// The enemy terminology table could not be parsed.
    EnemyName(EnemyNameError),
    /// The enemy picture book table could not be parsed.
    EnemyPictureBook(EnemyPictureBookError),
    /// A stage layout file could not be parsed.
    Battleground(BattlegroundError),
    /// A fixed lineup preset could not be parsed.
    CertificationPreset(CertificationPresetError),
    /// The unit restriction group table could not be parsed.
    CharaGroup(CharaGroupError),
    /// The stage difficulty rating table could not be parsed.
    DifficultyLevel(DifficultyLevelError),
    /// The unit unlock drop table could not be parsed.
    DropChara(DropCharaError),
    /// The fixed lineup assignment table could not be parsed.
    FixedFormation(FixedFormationError),
    /// A map's stage metadata file could not be parsed.
    MapStageData(MapStageDataError),
    /// The automatic play settings file could not be parsed.
    ScatCpuSetting(ScatCpuSettingError),
    /// The localized stage name table could not be parsed.
    StageName(StageNameError),
    /// The stage lineup restriction table could not be parsed.
    StageOption(StageOptionError),
    /// The map drop table could not be parsed.
    DropItem(DropItemError),
    /// The EX map link table could not be parsed.
    ExOption(ExOptionError),
    /// The stage skip exclusion table could not be parsed.
    LockSkipData(LockSkipDataError),
    /// The localized map name table could not be parsed.
    MapName(MapNameError),
    /// The map option table could not be parsed.
    MapOption(MapOptionError),
    /// The score bonus document could not be parsed.
    ScoreBonusMap(ScoreBonusMapError),
    /// The map special rule document could not be parsed.
    SpecialRulesMap(SpecialRulesMapError),
    /// The special rule option document could not be parsed.
    SpecialRulesMapOption(SpecialRulesMapOptionError),
    /// A localization dictionary could not be parsed.
    Localizable(LocalizableError),
    /// A parameter file could not be parsed.
    Param(ParamError),
    /// The item catalogue could not be parsed.
    GatyaItemBuy(GatyaItemBuyError),
    /// A localized item text table could not be parsed.
    GatyaItemName(GatyaItemNameError),
}

impl Error {
    /// The description of the parser error this one carries, which is the
    /// text the error reads as.
    #[verifier::allow_in_spec]
    pub fn message(&self) -> &'static str
        returns
            (match self {
                Error::Entity(source) => source.message(),
                Error::EnemyName(source) => source.message(),
                Error::EnemyPictureBook(source) => source.message(),
                Error::Battleground(source) => source.message(),
                Error::CertificationPreset(source) => source.message(),
                Error::CharaGroup(source) => source.message(),
                Error::DifficultyLevel(source) => source.message(),
                Error::DropChara(source) => source.message(),
                Error::FixedFormation(source) => source.message(),
                Error::MapStageData(source) => source.message(),
                Error::ScatCpuSetting(source) => source.message(),
                Error::StageName(source) => source.message(),
                Error::StageOption(source) => source.message(),
                Error::DropItem(source) => source.message(),
                Error::ExOption(source) => source.message(),
                Error::LockSkipData(source) => source.message(),
                Error::MapName(source) => source.message(),
                Error::MapOption(source) => source.message(),
                Error::ScoreBonusMap(source) => source.message(),
                Error::SpecialRulesMap(source) => source.message(),
                Error::SpecialRulesMapOption(source) => source.message(),
                Error::Localizable(source) => source.message(),
                Error::Param(source) => source.message(),
                Error::GatyaItemBuy(source) => source.message(),
                Error::GatyaItemName(source) => source.message(),
            }),
    {
        match self {
            Error::Entity(source) => source.message(),
            Error::EnemyName(source) => source.message(),
            Error::EnemyPictureBook(source) => source.message(),
            Error::Battleground(source) => source.message(),
            Error::CertificationPreset(source) => source.message(),
            Error::CharaGroup(source) => source.message(),
            Error::DifficultyLevel(source) => source.message(),
            Error::DropChara(source) => source.message(),
            Error::FixedFormation(source) => source.message(),
            Error::MapStageData(source) => source.message(),
            Error::ScatCpuSetting(source) => source.message(),
            Error::StageName(source) => source.message(),
            Error::StageOption(source) => source.message(),
            Error::DropItem(source) => source.message(),
            Error::ExOption(source) => source.message(),
            Error::LockSkipData(source) => source.message(),
            Error::MapName(source) => source.message(),
            Error::MapOption(source) => source.message(),
            Error::ScoreBonusMap(source) => source.message(),
            Error::SpecialRulesMap(source) => source.message(),
            Error::SpecialRulesMapOption(source) => source.message(),
            Error::Localizable(source) => source.message(),
            Error::Param(source) => source.message(),
            Error::GatyaItemBuy(source) => source.message(),
            Error::GatyaItemName(source) => source.message(),
        }
    }
}

impl From<EntityError> for Error {
    fn from(source: EntityError) -> (r: Self) {
        Error::Entity(source)
    }
}

impl vstd::std_specs::convert::FromSpecImpl<EntityError> for Error {
    open spec fn obeys_from_spec() -> bool {
        true
    }

    open spec fn from_spec(source: EntityError) -> Self {
        Error::Entity(source)
    }
}

impl From<EnemyNameError> for Error {
    fn from(source: EnemyNameError) -> (r: Self) {
        Error::EnemyName(source)
    }
}

impl vstd::std_specs::convert::FromSpecImpl<EnemyNameError> for Error {
    open spec fn obeys_from_spec() -> bool {
        true
    }

    open spec fn from_spec(source: EnemyNameError) -> Self {
        Error::EnemyName(source)
    }
}

impl From<EnemyPictureBookError> for Error {
    fn from(source: EnemyPictureBookError) -> (r: Self) {
        Error::EnemyPictureBook(source)
    }
}

impl vstd::std_specs::convert::FromSpecImpl<EnemyPictureBookError> for Error {
    open spec fn obeys_from_spec() -> bool {
        true
    }

    open spec fn from_spec(source: EnemyPictureBookError) -> Self {
        Error::EnemyPictureBook(source)
    }
}

impl From<BattlegroundError> for Error {
    fn from(source: BattlegroundError) -> (r: Self) {
        Error::Battleground(source)
    }
}

impl vstd::std_specs::convert::FromSpecImpl<BattlegroundError> for Error {
    open spec fn obeys_from_spec() -> bool {
        true
    }

    open spec fn from_spec(source: BattlegroundError) -> Self {
        Error::Battleground(source)
    }
}

impl From<CertificationPresetError> for Error {
    fn from(source: CertificationPresetError) -> (r: Self) {
        Error::CertificationPreset(source)
    }
}

impl vstd::std_specs::convert::FromSpecImpl<CertificationPresetError> for Error {
    open spec fn obeys_from_spec() -> bool {
        true
    }

    open spec fn from_spec(source: CertificationPresetError) -> Self {
        Error::CertificationPreset(source)
    }
}

impl From<CharaGroupError> for Error {
    fn from(source: CharaGroupError) -> (r: Self) {
        Error::CharaGroup(source)
    }
}

impl vstd::std_specs::convert::FromSpecImpl<CharaGroupError> for Error {
    open spec fn obeys_from_spec() -> bool {
        true
    }

    open spec fn from_spec(source: CharaGroupError) -> Self {
        Error::CharaGroup(source)
    }
}

impl From<DifficultyLevelError> for Error {
    fn from(source: DifficultyLevelError) -> (r: Self) {
        Error::DifficultyLevel(source)
    }
}

impl vstd::std_specs::convert::FromSpecImpl<DifficultyLevelError> for Error {
    open spec fn obeys_from_spec() -> bool {
        true
    }

    open spec fn from_spec(source: DifficultyLevelError) -> Self {
        Error::DifficultyLevel(source)
    }
}

impl From<DropCharaError> for Error {
    fn from(source: DropCharaError) -> (r: Self) {
        Error::DropChara(source)
    }
}

impl vstd::std_specs::convert::FromSpecImpl<DropCharaError> for Error {
    open spec fn obeys_from_spec() -> bool {
        true
    }

    open spec fn from_spec(source: DropCharaError) -> Self {
        Error::DropChara(source)
    }
}

impl From<FixedFormationError> for Error {
    fn from(source: FixedFormationError) -> (r: Self) {
        Error::FixedFormation(source)
    }
}

impl vstd::std_specs::convert::FromSpecImpl<FixedFormationError> for Error {
    open spec fn obeys_from_spec() -> bool {
        true
    }

    open spec fn from_spec(source: FixedFormationError) -> Self {
        Error::FixedFormation(source)
    }
}

impl From<MapStageDataError> for Error {
    fn from(source: MapStageDataError) -> (r: Self) {
        Error::MapStageData(source)
    }
}

impl vstd::std_specs::convert::FromSpecImpl<MapStageDataError> for Error {
    open spec fn obeys_from_spec() -> bool {
        true
    }

    open spec fn from_spec(source: MapStageDataError) -> Self {
        Error::MapStageData(source)
    }
}

impl From<ScatCpuSettingError> for Error {
    fn from(source: ScatCpuSettingError) -> (r: Self) {
        Error::ScatCpuSetting(source)
    }
}

impl vstd::std_specs::convert::FromSpecImpl<ScatCpuSettingError> for Error {
    open spec fn obeys_from_spec() -> bool {
        true
    }

    open spec fn from_spec(source: ScatCpuSettingError) -> Self {
        Error::ScatCpuSetting(source)
    }
}

impl From<StageNameError> for Error {
    fn from(source: StageNameError) -> (r: Self) {
        Error::StageName(source)
    }
}

impl vstd::std_specs::convert::FromSpecImpl<StageNameError> for Error {
    open spec fn obeys_from_spec() -> bool {
        true
    }

    open spec fn from_spec(source: StageNameError) -> Self {
        Error::StageName(source)
    }
}

impl From<StageOptionError> for Error {
    fn from(source: StageOptionError) -> (r: Self) {
        Error::StageOption(source)
    }
}

impl vstd::std_specs::convert::FromSpecImpl<StageOptionError> for Error {
    open spec fn obeys_from_spec() -> bool {
        true
    }

    open spec fn from_spec(source: StageOptionError) -> Self {
        Error::StageOption(source)
    }
}

impl From<DropItemError> for Error {
    fn from(source: DropItemError) -> (r: Self) {
        Error::DropItem(source)
    }
}

impl vstd::std_specs::convert::FromSpecImpl<DropItemError> for Error {
    open spec fn obeys_from_spec() -> bool {
        true
    }

    open spec fn from_spec(source: DropItemError) -> Self {
        Error::DropItem(source)
    }
}

impl From<ExOptionError> for Error {
    fn from(source: ExOptionError) -> (r: Self) {
        Error::ExOption(source)
    }
}

impl vstd::std_specs::convert::FromSpecImpl<ExOptionError> for Error {
    open spec fn obeys_from_spec() -> bool {
        true
    }

    open spec fn from_spec(source: ExOptionError) -> Self {
        Error::ExOption(source)
    }
}

impl From<LockSkipDataError> for Error {
    fn from(source: LockSkipDataError) -> (r: Self) {
        Error::LockSkipData(source)
    }
}

impl vstd::std_specs::convert::FromSpecImpl<LockSkipDataError> for Error {
    open spec fn obeys_from_spec() -> bool {
        true
    }

    open spec fn from_spec(source: LockSkipDataError) -> Self {
        Error::LockSkipData(source)
    }
}

impl From<MapNameError> for Error {
    fn from(source: MapNameError) -> (r: Self) {
        Error::MapName(source)
    }
}

impl vstd::std_specs::convert::FromSpecImpl<MapNameError> for Error {
    open spec fn obeys_from_spec() -> bool {
        true
    }

    open spec fn from_spec(source: MapNameError) -> Self {
        Error::MapName(source)
    }
}

impl From<MapOptionError> for Error {
    fn from(source: MapOptionError) -> (r: Self) {
        Error::MapOption(source)
    }
}

impl vstd::std_specs::convert::FromSpecImpl<MapOptionError> for Error {
    open spec fn obeys_from_spec() -> bool {
        true
    }

    open spec fn from_spec(source: MapOptionError) -> Self {
        Error::MapOption(source)
    }
}

impl From<ScoreBonusMapError> for Error {
    fn from(source: ScoreBonusMapError) -> (r: Self) {
        Error::ScoreBonusMap(source)
    }
}

impl vstd::std_specs::convert::FromSpecImpl<ScoreBonusMapError> for Error {
    open spec fn obeys_from_spec() -> bool {
        true
    }

    open spec fn from_spec(source: ScoreBonusMapError) -> Self {
        Error::ScoreBonusMap(source)
    }
}

impl From<SpecialRulesMapError> for Error {
    fn from(source: SpecialRulesMapError) -> (r: Self) {
        Error::SpecialRulesMap(source)
    }
}

impl vstd::std_specs::convert::FromSpecImpl<SpecialRulesMapError> for Error {
    open spec fn obeys_from_spec() -> bool {
        true
    }

    open spec fn from_spec(source: SpecialRulesMapError) -> Self {
        Error::SpecialRulesMap(source)
    }
}

impl From<SpecialRulesMapOptionError> for Error {
    fn from(source: SpecialRulesMapOptionError) -> (r: Self) {
        Error::SpecialRulesMapOption(source)
    }
}

impl vstd::std_specs::convert::FromSpecImpl<SpecialRulesMapOptionError> for Error {
    open spec fn obeys_from_spec() -> bool {
        true
    }

    open spec fn from_spec(source: SpecialRulesMapOptionError) -> Self {
        Error::SpecialRulesMapOption(source)
    }
}

impl From<LocalizableError> for Error {
    fn from(source: LocalizableError) -> (r: Self) {
        Error::Localizable(source)
    }
}

impl vstd::std_specs::convert::FromSpecImpl<LocalizableError> for Error {
    open spec fn obeys_from_spec() -> bool {
        true
    }

    open spec fn from_spec(source: LocalizableError) -> Self {
        Error::Localizable(source)
    }
}

impl From<ParamError> for Error {
    fn from(source: ParamError) -> (r: Self) {
        Error::Param(source)
    }
}

impl vstd::std_specs::convert::FromSpecImpl<ParamError> for Error {
    open spec fn obeys_from_spec() -> bool {
        true
    }

    open spec fn from_spec(source: ParamError) -> Self {
        Error::Param(source)
    }
}

impl From<GatyaItemBuyError> for Error {
    fn from(source: GatyaItemBuyError) -> (r: Self) {
        Error::GatyaItemBuy(source)
    }
}

impl vstd::std_specs::convert::FromSpecImpl<GatyaItemBuyError> for Error {
    open spec fn obeys_from_spec() -> bool {
        true
    }

    open spec fn from_spec(source: GatyaItemBuyError) -> Self {
        Error::GatyaItemBuy(source)
    }
}

impl From<GatyaItemNameError> for Error {
    fn from(source: GatyaItemNameError) -> (r: Self) {
        Error::GatyaItemName(source)
    }
}

impl vstd::std_specs::convert::FromSpecImpl<GatyaItemNameError> for Error {
    open spec fn obeys_from_spec() -> bool {
        true
    }

    open spec fn from_spec(source: GatyaItemNameError) -> Self {
        Error::GatyaItemName(source)
    }
}

} // verus!
