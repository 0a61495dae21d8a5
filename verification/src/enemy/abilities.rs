//! The abilities an enemy's statistics can show, and how each is read from them.
//!
//! The engine stores every value as a flat integer; this module maps those
//! values to named, unit-tagged attributes and handles the engine's quirks.

use vstd::prelude::*;

use crate::common::data::img015;
use crate::common::precision::{single_reach, wave_reach_for};
use crate::enemy::data::t_unit::Battle;

verus! {

/// The unit an ability attribute's value is measured in.
///
/// Because the engine stores every value as a flat integer, this gives the
/// context that decides whether it is a percentage, a frame count, a distance
/// or a plain number.
#[derive(PartialEq, Eq, Structural, Clone, Copy, Debug)]
pub enum AttrUnit {
    /// A plain number, such as a count.
    Unitless,
    /// A percentage, such as a chance or a damage multiplier.
    Percent,
    /// A duration in engine ticks, thirty to the second.
    Frames,
    /// A distance in engine units.
    Range,
}

/// One attribute of an ability: its label, its value and the value's unit.
pub type Attribute = (&'static str, i32, AttrUnit);

/// The identifier of every known trait, ability, immunity and modifier an
/// enemy can carry.
#[derive(PartialEq, Eq, Structural, Hash, Clone, Copy, Debug)]
pub enum Identity {
    SingleAttack, AreaAttack, TypeRed, TypeFloating, TypeDark, TypeMetal, TypeAngel,
    TypeAlien, TypeZombie, TypeRelic, TypeAku, TypeTraitless, TypeDojo, TypeStarredAlien,
    TypeCatGod, TypeColossus, TypeBehemoth, TypeSage, TypeKaijin, TypeWitch, TypeEva,
    Kamikaze, Stop, BaseDestroyer, WaveBlock, MultiHit, LongDistance, OmniStrike,
    WaveAttack, MiniWave, SurgeAttack, MiniSurge, DeathSurge, Explosion, CriticalHit,
    SavageBlow, Strengthen, Survive, Barrier, AkuShield, Burrow, Revive, Toxic, Drain,
    Dodge, Weaken, Freeze, Slow, Knockback, Curse, Warp, Unknown, ImmuneWave,
    ImmuneSurge, ImmuneExplosion, ImmuneWeaken, ImmuneFreeze, ImmuneSlow, ImmuneKnockback,
    ImmuneCurse, ImmuneWarp, CounterSurge
}

/// The definition of an enemy combat mechanic: an ability, trait or immunity.
///
/// It names the mechanic, its icon and the schema of its attributes;
/// [`Ability::attributes`] reads those attributes from an enemy's statistics.
#[derive(Debug, Clone)]
pub struct Ability {
    /// The identifier of this ability.
    pub identity: Identity,
    /// The sprite index of this ability's icon in the `img015` atlas, when it has one.
    pub icon_id: Option<usize>,
    /// The display name of the ability.
    pub name: &'static str,
    /// The text describing the ability's effect.
    pub description: &'static str,
    /// The labels and units of the attributes the ability yields, in order.
    pub schema: Vec<(&'static str, AttrUnit)>,
    /// Whether a raw value of negative one stands for an unbounded count, such
    /// as unlimited burrows or revives.
    pub minus_one_is_inf: bool,
}

/// Whether an ability value is the registry's definition of an identity.
pub open spec fn describes(ability: Ability, identity: Identity) -> bool {
    &&& ability.identity == identity
    &&& ability.icon_id == icon_of(identity)
    &&& ability.name == ""
    &&& ability.description == ""
    &&& ability.schema@ == schema_of(identity)
    &&& ability.minus_one_is_inf == unbounded_by_minus_one(identity)
}

/// The single attribute marking an ability as present.
pub open spec fn active_attrs() -> Seq<Attribute> {
    seq![("Active", 1i32, AttrUnit::Unitless)]
}

fn active() -> (r: Vec<Attribute>)
    ensures
        r@ == active_attrs(),
{
    vec![("Active", 1, AttrUnit::Unitless)]
}

/// Whether any of an enemy's hits reaches behind it: a first hit of negative
/// span, or of zero span away from the enemy, or such an enabled second or third hit.
pub open spec fn has_omni_spec(stats: Battle) -> bool {
    (stats.long_distance_span_1 < 0 || (stats.long_distance_span_1 == 0 && stats.long_distance_anchor_1 != 0))
        || (stats.long_distance_2_flag > 0 && (stats.long_distance_2_span < 0 || (stats.long_distance_2_span == 0
        && stats.long_distance_2_anchor != 0)))
        || (stats.long_distance_3_flag > 0 && (stats.long_distance_3_span < 0 || (stats.long_distance_3_span == 0
        && stats.long_distance_3_anchor != 0)))
}

/// Whether any of an enemy's hits strikes a band at a distance: one of
/// positive span among the first hit and the enabled second and third.
pub open spec fn has_long_distance_spec(stats: Battle) -> bool {
    (stats.long_distance_span_1 > 0)
        || (stats.long_distance_2_flag > 0 && stats.long_distance_2_span > 0)
        || (stats.long_distance_3_flag > 0 && stats.long_distance_3_span > 0)
}

fn has_omni(stats: &Battle) -> (r: bool)
    ensures
        r == has_omni_spec(*stats),
{
    (stats.long_distance_span_1 < 0 || (stats.long_distance_span_1 == 0 && stats.long_distance_anchor_1 != 0))
        || (stats.long_distance_2_flag > 0 && (stats.long_distance_2_span < 0 || (stats.long_distance_2_span == 0
        && stats.long_distance_2_anchor != 0)))
        || (stats.long_distance_3_flag > 0 && (stats.long_distance_3_span < 0 || (stats.long_distance_3_span == 0
        && stats.long_distance_3_anchor != 0)))
}

fn has_long_distance(stats: &Battle) -> (r: bool)
    ensures
        r == has_long_distance_spec(*stats),
{
    (stats.long_distance_span_1 > 0)
        || (stats.long_distance_2_flag > 0 && stats.long_distance_2_span > 0)
        || (stats.long_distance_3_flag > 0 && stats.long_distance_3_span > 0)
}

/// How far an enemy's wave reaches: 467.5 plus two hundred for each level
/// past the first, computed in single precision as the engine does.
pub open spec fn wave_reach_of(stats: Battle) -> i32 {
    single_reach(935, stats.wave_level as int)
}

fn wave_reach(stats: &Battle) -> (r: i32)
    requires
        stats.wave_level > i32::MIN,
    ensures
        r == wave_reach_of(*stats),
{
    wave_reach_for(935, stats.wave_level)
}

/// The statistics an ability's attributes can be read from: the sums a range
/// attribute adds must fit an `i32`, and a wave's level must have a predecessor.
pub open spec fn attributes_defined(identity: Identity, stats: Battle) -> bool {
    match identity {
        Identity::WaveAttack => stats.mini_wave == 0 && stats.wave_chance > 0 ==> stats.wave_level > i32::MIN,
        Identity::MiniWave => stats.mini_wave > 0 && stats.wave_chance > 0 ==> stats.wave_level > i32::MIN,
        Identity::SurgeAttack => stats.mini_surge == 0 && stats.surge_chance > 0
            ==> i32::MIN <= stats.surge_spawn_min + stats.surge_spawn_max <= i32::MAX,
        Identity::MiniSurge => stats.mini_surge > 0 && stats.surge_chance > 0
            ==> i32::MIN <= stats.surge_spawn_min + stats.surge_spawn_max <= i32::MAX,
        Identity::DeathSurge => stats.death_surge_chance > 0
            ==> i32::MIN <= stats.death_surge_spawn_min + stats.death_surge_spawn_max <= i32::MAX,
        Identity::Explosion => stats.explosion_chance > 0
            ==> i32::MIN <= stats.explosion_anchor + stats.explosion_span <= i32::MAX,
        _ => true,
    }
}

/// The abilities the registry holds, in registry order.
pub open spec fn registry_order() -> Seq<Identity> {
    seq![
        Identity::SingleAttack,
        Identity::AreaAttack,
        Identity::TypeRed,
        Identity::TypeFloating,
        Identity::TypeDark,
        Identity::TypeMetal,
        Identity::TypeAngel,
        Identity::TypeAlien,
        Identity::TypeZombie,
        Identity::TypeRelic,
        Identity::TypeAku,
        Identity::TypeTraitless,
        Identity::TypeDojo,
        Identity::TypeStarredAlien,
        Identity::TypeCatGod,
        Identity::TypeColossus,
        Identity::TypeBehemoth,
        Identity::TypeSage,
        Identity::TypeKaijin,
        Identity::TypeWitch,
        Identity::TypeEva,
        Identity::Kamikaze,
        Identity::Stop,
        Identity::BaseDestroyer,
        Identity::WaveBlock,
        Identity::MultiHit,
        Identity::LongDistance,
        Identity::OmniStrike,
        Identity::WaveAttack,
        Identity::MiniWave,
        Identity::SurgeAttack,
        Identity::MiniSurge,
        Identity::DeathSurge,
        Identity::Explosion,
        Identity::CriticalHit,
        Identity::SavageBlow,
        Identity::Strengthen,
        Identity::Survive,
        Identity::Barrier,
        Identity::AkuShield,
        Identity::Burrow,
        Identity::Revive,
        Identity::Toxic,
        Identity::Drain,
        Identity::Dodge,
        Identity::Weaken,
        Identity::Freeze,
        Identity::Slow,
        Identity::Knockback,
        Identity::Curse,
        Identity::Warp,
        Identity::Unknown,
        Identity::ImmuneWave,
        Identity::ImmuneSurge,
        Identity::ImmuneExplosion,
        Identity::ImmuneWeaken,
        Identity::ImmuneFreeze,
        Identity::ImmuneSlow,
        Identity::ImmuneKnockback,
        Identity::ImmuneCurse,
        Identity::ImmuneWarp,
        Identity::CounterSurge,
    ]
}

/// The sprite index of an ability's icon in the ability atlas, when it has one.
pub open spec fn icon_of(identity: Identity) -> Option<usize> {
    match identity {
        Identity::SingleAttack => Some(img015::ICON_SINGLE_ATTACK),
        Identity::AreaAttack => Some(img015::ICON_AREA_ATTACK),
        Identity::TypeRed => Some(img015::ICON_TRAIT_RED),
        Identity::TypeFloating => Some(img015::ICON_TRAIT_FLOATING),
        Identity::TypeDark => Some(img015::ICON_TRAIT_BLACK),
        Identity::TypeMetal => Some(img015::ICON_TRAIT_METAL),
        Identity::TypeAngel => Some(img015::ICON_TRAIT_ANGEL),
        Identity::TypeAlien => Some(img015::ICON_TRAIT_ALIEN),
        Identity::TypeZombie => Some(img015::ICON_TRAIT_ZOMBIE),
        Identity::TypeRelic => Some(img015::ICON_TRAIT_RELIC),
        Identity::TypeAku => Some(img015::ICON_TRAIT_AKU),
        Identity::TypeTraitless => Some(img015::ICON_TRAIT_TRAITLESS),
        Identity::TypeDojo => None,
        Identity::TypeStarredAlien => None,
        Identity::TypeCatGod => None,
        Identity::TypeColossus => Some(img015::ICON_COLOSSUS),
        Identity::TypeBehemoth => Some(img015::ICON_BEHEMOTH),
        Identity::TypeSage => Some(img015::ICON_SAGE),
        Identity::TypeKaijin => Some(img015::ICON_SUPERVILLIAN),
        Identity::TypeWitch => Some(img015::ICON_WITCH),
        Identity::TypeEva => Some(img015::ICON_EVA),
        Identity::Kamikaze => None,
        Identity::Stop => None,
        Identity::BaseDestroyer => Some(img015::ICON_BASE_DESTROYER),
        Identity::WaveBlock => Some(img015::ICON_WAVE_BLOCK),
        Identity::MultiHit => None,
        Identity::LongDistance => Some(img015::ICON_LONG_DISTANCE),
        Identity::OmniStrike => Some(img015::ICON_OMNI_STRIKE),
        Identity::WaveAttack => Some(img015::ICON_WAVE),
        Identity::MiniWave => Some(img015::ICON_MINI_WAVE),
        Identity::SurgeAttack => Some(img015::ICON_SURGE),
        Identity::MiniSurge => Some(img015::ICON_MINI_SURGE),
        Identity::DeathSurge => Some(img015::ICON_DEATH_SURGE),
        Identity::Explosion => Some(img015::ICON_EXPLOSION),
        Identity::CriticalHit => Some(img015::ICON_CRITICAL_HIT),
        Identity::SavageBlow => Some(img015::ICON_SAVAGE_BLOW),
        Identity::Strengthen => Some(img015::ICON_STRENGTHEN),
        Identity::Survive => Some(img015::ICON_SURVIVE),
        Identity::Barrier => Some(img015::ICON_BARRIER),
        Identity::AkuShield => Some(img015::ICON_SHIELD),
        Identity::Burrow => None,
        Identity::Revive => None,
        Identity::Toxic => Some(img015::ICON_TOXIC),
        Identity::Drain => Some(img015::ICON_DRAIN),
        Identity::Dodge => Some(img015::ICON_DODGE),
        Identity::Weaken => Some(img015::ICON_WEAKEN),
        Identity::Freeze => Some(img015::ICON_FREEZE),
        Identity::Slow => Some(img015::ICON_SLOW),
        Identity::Knockback => Some(img015::ICON_KNOCKBACK),
        Identity::Curse => Some(img015::ICON_CURSE),
        Identity::Warp => Some(img015::ICON_WARP),
        Identity::Unknown => None,
        Identity::ImmuneWave => Some(img015::ICON_IMMUNE_WAVE),
        Identity::ImmuneSurge => Some(img015::ICON_IMMUNE_SURGE),
        Identity::ImmuneExplosion => Some(img015::ICON_IMMUNE_EXPLOSION),
        Identity::ImmuneWeaken => Some(img015::ICON_IMMUNE_WEAKEN),
        Identity::ImmuneFreeze => Some(img015::ICON_IMMUNE_FREEZE),
        Identity::ImmuneSlow => Some(img015::ICON_IMMUNE_SLOW),
        Identity::ImmuneKnockback => Some(img015::ICON_IMMUNE_KNOCKBACK),
        Identity::ImmuneCurse => Some(img015::ICON_IMMUNE_CURSE),
        Identity::ImmuneWarp => Some(img015::ICON_IMMUNE_WARP),
        Identity::CounterSurge => Some(img015::ICON_COUNTER_SURGE),
    }
}

/// Whether a raw value of negative one stands for an unbounded count in an ability's attributes.
pub open spec fn unbounded_by_minus_one(identity: Identity) -> bool {
    match identity {
        Identity::SingleAttack => false,
        Identity::AreaAttack => false,
        Identity::TypeRed => false,
        Identity::TypeFloating => false,
        Identity::TypeDark => false,
        Identity::TypeMetal => false,
        Identity::TypeAngel => false,
        Identity::TypeAlien => false,
        Identity::TypeZombie => false,
        Identity::TypeRelic => false,
        Identity::TypeAku => false,
        Identity::TypeTraitless => false,
        Identity::TypeDojo => false,
        Identity::TypeStarredAlien => false,
        Identity::TypeCatGod => false,
        Identity::TypeColossus => false,
        Identity::TypeBehemoth => false,
        Identity::TypeSage => false,
        Identity::TypeKaijin => false,
        Identity::TypeWitch => false,
        Identity::TypeEva => false,
        Identity::Kamikaze => false,
        Identity::Stop => false,
        Identity::BaseDestroyer => false,
        Identity::WaveBlock => false,
        Identity::MultiHit => false,
        Identity::LongDistance => false,
        Identity::OmniStrike => false,
        Identity::WaveAttack => false,
        Identity::MiniWave => false,
        Identity::SurgeAttack => false,
        Identity::MiniSurge => false,
        Identity::DeathSurge => false,
        Identity::Explosion => false,
        Identity::CriticalHit => false,
        Identity::SavageBlow => false,
        Identity::Strengthen => false,
        Identity::Survive => false,
        Identity::Barrier => false,
        Identity::AkuShield => false,
        Identity::Burrow => true,
        Identity::Revive => true,
        Identity::Toxic => false,
        Identity::Drain => false,
        Identity::Dodge => false,
        Identity::Weaken => false,
        Identity::Freeze => false,
        Identity::Slow => false,
        Identity::Knockback => false,
        Identity::Curse => false,
        Identity::Warp => false,
        Identity::Unknown => false,
        Identity::ImmuneWave => false,
        Identity::ImmuneSurge => false,
        Identity::ImmuneExplosion => false,
        Identity::ImmuneWeaken => false,
        Identity::ImmuneFreeze => false,
        Identity::ImmuneSlow => false,
        Identity::ImmuneKnockback => false,
        Identity::ImmuneCurse => false,
        Identity::ImmuneWarp => false,
        Identity::CounterSurge => false,
    }
}

/// The labels and units of the attributes an ability yields, in order.
pub open spec fn schema_of(identity: Identity) -> Seq<(&'static str, AttrUnit)> {
    match identity {
        Identity::SingleAttack => seq![],
        Identity::AreaAttack => seq![],
        Identity::TypeRed => seq![],
        Identity::TypeFloating => seq![],
        Identity::TypeDark => seq![],
        Identity::TypeMetal => seq![],
        Identity::TypeAngel => seq![],
        Identity::TypeAlien => seq![],
        Identity::TypeZombie => seq![],
        Identity::TypeRelic => seq![],
        Identity::TypeAku => seq![],
        Identity::TypeTraitless => seq![],
        Identity::TypeDojo => seq![],
        Identity::TypeStarredAlien => seq![],
        Identity::TypeCatGod => seq![("Type", AttrUnit::Unitless)],
        Identity::TypeColossus => seq![],
        Identity::TypeBehemoth => seq![],
        Identity::TypeSage => seq![],
        Identity::TypeKaijin => seq![],
        Identity::TypeWitch => seq![],
        Identity::TypeEva => seq![],
        Identity::Kamikaze => seq![("Attacks", AttrUnit::Unitless)],
        Identity::Stop => seq![("Attacks", AttrUnit::Unitless)],
        Identity::BaseDestroyer => seq![],
        Identity::WaveBlock => seq![],
        Identity::MultiHit => seq![],
        Identity::LongDistance => seq![],
        Identity::OmniStrike => seq![],
        Identity::WaveAttack => seq![("Chance", AttrUnit::Percent), ("Level", AttrUnit::Unitless), ("Max Reach", AttrUnit::Range)],
        Identity::MiniWave => seq![("Chance", AttrUnit::Percent), ("Level", AttrUnit::Unitless), ("Max Reach", AttrUnit::Range)],
        Identity::SurgeAttack => seq![("Chance", AttrUnit::Percent), ("Level", AttrUnit::Unitless), ("Min Range", AttrUnit::Range), ("Max Range", AttrUnit::Range), ("Width", AttrUnit::Range)],
        Identity::MiniSurge => seq![("Chance", AttrUnit::Percent), ("Level", AttrUnit::Unitless), ("Min Range", AttrUnit::Range), ("Max Range", AttrUnit::Range), ("Width", AttrUnit::Range)],
        Identity::DeathSurge => seq![("Chance", AttrUnit::Percent), ("Level", AttrUnit::Unitless), ("Min Range", AttrUnit::Range), ("Max Range", AttrUnit::Range), ("Width", AttrUnit::Range)],
        Identity::Explosion => seq![("Chance", AttrUnit::Percent), ("Min Range", AttrUnit::Range), ("Max Range", AttrUnit::Range), ("Width", AttrUnit::Range)],
        Identity::CriticalHit => seq![("Chance", AttrUnit::Percent)],
        Identity::SavageBlow => seq![("Chance", AttrUnit::Percent), ("Boost", AttrUnit::Percent)],
        Identity::Strengthen => seq![("HP", AttrUnit::Percent), ("Boost", AttrUnit::Percent)],
        Identity::Survive => seq![("Chance", AttrUnit::Percent)],
        Identity::Barrier => seq![("Hitpoints", AttrUnit::Unitless)],
        Identity::AkuShield => seq![("Hitpoints", AttrUnit::Unitless), ("Regen", AttrUnit::Percent)],
        Identity::Burrow => seq![("Count", AttrUnit::Unitless), ("Distance", AttrUnit::Range)],
        Identity::Revive => seq![("Count", AttrUnit::Unitless), ("Duration", AttrUnit::Frames), ("Hitpoints", AttrUnit::Percent)],
        Identity::Toxic => seq![("Chance", AttrUnit::Percent), ("Damage", AttrUnit::Percent)],
        Identity::Drain => seq![("Chance", AttrUnit::Percent), ("Amount", AttrUnit::Percent)],
        Identity::Dodge => seq![("Chance", AttrUnit::Percent), ("Duration", AttrUnit::Frames)],
        Identity::Weaken => seq![("Chance", AttrUnit::Percent), ("Reduced To", AttrUnit::Percent), ("Duration", AttrUnit::Frames)],
        Identity::Freeze => seq![("Chance", AttrUnit::Percent), ("Duration", AttrUnit::Frames)],
        Identity::Slow => seq![("Chance", AttrUnit::Percent), ("Duration", AttrUnit::Frames)],
        Identity::Knockback => seq![("Chance", AttrUnit::Percent)],
        Identity::Curse => seq![("Chance", AttrUnit::Percent), ("Duration", AttrUnit::Frames)],
        Identity::Warp => seq![("Chance", AttrUnit::Percent), ("Duration", AttrUnit::Frames), ("Min Distance", AttrUnit::Range), ("Max Distance", AttrUnit::Range)],
        Identity::Unknown => seq![],
        Identity::ImmuneWave => seq![],
        Identity::ImmuneSurge => seq![],
        Identity::ImmuneExplosion => seq![],
        Identity::ImmuneWeaken => seq![],
        Identity::ImmuneFreeze => seq![],
        Identity::ImmuneSlow => seq![],
        Identity::ImmuneKnockback => seq![],
        Identity::ImmuneCurse => seq![],
        Identity::ImmuneWarp => seq![],
        Identity::CounterSurge => seq![],
    }
}

fn icon_id_for(identity: Identity) -> (r: Option<usize>)
    ensures
        r == icon_of(identity),
{
    match identity {
        Identity::SingleAttack => Some(img015::ICON_SINGLE_ATTACK),
        Identity::AreaAttack => Some(img015::ICON_AREA_ATTACK),
        Identity::TypeRed => Some(img015::ICON_TRAIT_RED),
        Identity::TypeFloating => Some(img015::ICON_TRAIT_FLOATING),
        Identity::TypeDark => Some(img015::ICON_TRAIT_BLACK),
        Identity::TypeMetal => Some(img015::ICON_TRAIT_METAL),
        Identity::TypeAngel => Some(img015::ICON_TRAIT_ANGEL),
        Identity::TypeAlien => Some(img015::ICON_TRAIT_ALIEN),
        Identity::TypeZombie => Some(img015::ICON_TRAIT_ZOMBIE),
        Identity::TypeRelic => Some(img015::ICON_TRAIT_RELIC),
        Identity::TypeAku => Some(img015::ICON_TRAIT_AKU),
        Identity::TypeTraitless => Some(img015::ICON_TRAIT_TRAITLESS),
        Identity::TypeDojo => None,
        Identity::TypeStarredAlien => None,
        Identity::TypeCatGod => None,
        Identity::TypeColossus => Some(img015::ICON_COLOSSUS),
        Identity::TypeBehemoth => Some(img015::ICON_BEHEMOTH),
        Identity::TypeSage => Some(img015::ICON_SAGE),
        Identity::TypeKaijin => Some(img015::ICON_SUPERVILLIAN),
        Identity::TypeWitch => Some(img015::ICON_WITCH),
        Identity::TypeEva => Some(img015::ICON_EVA),
        Identity::Kamikaze => None,
        Identity::Stop => None,
        Identity::BaseDestroyer => Some(img015::ICON_BASE_DESTROYER),
        Identity::WaveBlock => Some(img015::ICON_WAVE_BLOCK),
        Identity::MultiHit => None,
        Identity::LongDistance => Some(img015::ICON_LONG_DISTANCE),
        Identity::OmniStrike => Some(img015::ICON_OMNI_STRIKE),
        Identity::WaveAttack => Some(img015::ICON_WAVE),
        Identity::MiniWave => Some(img015::ICON_MINI_WAVE),
        Identity::SurgeAttack => Some(img015::ICON_SURGE),
        Identity::MiniSurge => Some(img015::ICON_MINI_SURGE),
        Identity::DeathSurge => Some(img015::ICON_DEATH_SURGE),
        Identity::Explosion => Some(img015::ICON_EXPLOSION),
        Identity::CriticalHit => Some(img015::ICON_CRITICAL_HIT),
        Identity::SavageBlow => Some(img015::ICON_SAVAGE_BLOW),
        Identity::Strengthen => Some(img015::ICON_STRENGTHEN),
        Identity::Survive => Some(img015::ICON_SURVIVE),
        Identity::Barrier => Some(img015::ICON_BARRIER),
        Identity::AkuShield => Some(img015::ICON_SHIELD),
        Identity::Burrow => None,
        Identity::Revive => None,
        Identity::Toxic => Some(img015::ICON_TOXIC),
        Identity::Drain => Some(img015::ICON_DRAIN),
        Identity::Dodge => Some(img015::ICON_DODGE),
        Identity::Weaken => Some(img015::ICON_WEAKEN),
        Identity::Freeze => Some(img015::ICON_FREEZE),
        Identity::Slow => Some(img015::ICON_SLOW),
        Identity::Knockback => Some(img015::ICON_KNOCKBACK),
        Identity::Curse => Some(img015::ICON_CURSE),
        Identity::Warp => Some(img015::ICON_WARP),
        Identity::Unknown => None,
        Identity::ImmuneWave => Some(img015::ICON_IMMUNE_WAVE),
        Identity::ImmuneSurge => Some(img015::ICON_IMMUNE_SURGE),
        Identity::ImmuneExplosion => Some(img015::ICON_IMMUNE_EXPLOSION),
        Identity::ImmuneWeaken => Some(img015::ICON_IMMUNE_WEAKEN),
        Identity::ImmuneFreeze => Some(img015::ICON_IMMUNE_FREEZE),
        Identity::ImmuneSlow => Some(img015::ICON_IMMUNE_SLOW),
        Identity::ImmuneKnockback => Some(img015::ICON_IMMUNE_KNOCKBACK),
        Identity::ImmuneCurse => Some(img015::ICON_IMMUNE_CURSE),
        Identity::ImmuneWarp => Some(img015::ICON_IMMUNE_WARP),
        Identity::CounterSurge => Some(img015::ICON_COUNTER_SURGE),
    }
}

fn unbounded_for(identity: Identity) -> (r: bool)
    ensures
        r == unbounded_by_minus_one(identity),
{
    match identity {
        Identity::SingleAttack => false,
        Identity::AreaAttack => false,
        Identity::TypeRed => false,
        Identity::TypeFloating => false,
        Identity::TypeDark => false,
        Identity::TypeMetal => false,
        Identity::TypeAngel => false,
        Identity::TypeAlien => false,
        Identity::TypeZombie => false,
        Identity::TypeRelic => false,
        Identity::TypeAku => false,
        Identity::TypeTraitless => false,
        Identity::TypeDojo => false,
        Identity::TypeStarredAlien => false,
        Identity::TypeCatGod => false,
        Identity::TypeColossus => false,
        Identity::TypeBehemoth => false,
        Identity::TypeSage => false,
        Identity::TypeKaijin => false,
        Identity::TypeWitch => false,
        Identity::TypeEva => false,
        Identity::Kamikaze => false,
        Identity::Stop => false,
        Identity::BaseDestroyer => false,
        Identity::WaveBlock => false,
        Identity::MultiHit => false,
        Identity::LongDistance => false,
        Identity::OmniStrike => false,
        Identity::WaveAttack => false,
        Identity::MiniWave => false,
        Identity::SurgeAttack => false,
        Identity::MiniSurge => false,
        Identity::DeathSurge => false,
        Identity::Explosion => false,
        Identity::CriticalHit => false,
        Identity::SavageBlow => false,
        Identity::Strengthen => false,
        Identity::Survive => false,
        Identity::Barrier => false,
        Identity::AkuShield => false,
        Identity::Burrow => true,
        Identity::Revive => true,
        Identity::Toxic => false,
        Identity::Drain => false,
        Identity::Dodge => false,
        Identity::Weaken => false,
        Identity::Freeze => false,
        Identity::Slow => false,
        Identity::Knockback => false,
        Identity::Curse => false,
        Identity::Warp => false,
        Identity::Unknown => false,
        Identity::ImmuneWave => false,
        Identity::ImmuneSurge => false,
        Identity::ImmuneExplosion => false,
        Identity::ImmuneWeaken => false,
        Identity::ImmuneFreeze => false,
        Identity::ImmuneSlow => false,
        Identity::ImmuneKnockback => false,
        Identity::ImmuneCurse => false,
        Identity::ImmuneWarp => false,
        Identity::CounterSurge => false,
    }
}

fn schema_for(identity: Identity) -> (r: Vec<(&'static str, AttrUnit)>)
    ensures
        r@ == schema_of(identity),
{
    match identity {
        Identity::SingleAttack => vec![],
        Identity::AreaAttack => vec![],
        Identity::TypeRed => vec![],
        Identity::TypeFloating => vec![],
        Identity::TypeDark => vec![],
        Identity::TypeMetal => vec![],
        Identity::TypeAngel => vec![],
        Identity::TypeAlien => vec![],
        Identity::TypeZombie => vec![],
        Identity::TypeRelic => vec![],
        Identity::TypeAku => vec![],
        Identity::TypeTraitless => vec![],
        Identity::TypeDojo => vec![],
        Identity::TypeStarredAlien => vec![],
        Identity::TypeCatGod => vec![("Type", AttrUnit::Unitless)],
        Identity::TypeColossus => vec![],
        Identity::TypeBehemoth => vec![],
        Identity::TypeSage => vec![],
        Identity::TypeKaijin => vec![],
        Identity::TypeWitch => vec![],
        Identity::TypeEva => vec![],
        Identity::Kamikaze => vec![("Attacks", AttrUnit::Unitless)],
        Identity::Stop => vec![("Attacks", AttrUnit::Unitless)],
        Identity::BaseDestroyer => vec![],
        Identity::WaveBlock => vec![],
        Identity::MultiHit => vec![],
        Identity::LongDistance => vec![],
        Identity::OmniStrike => vec![],
        Identity::WaveAttack => vec![("Chance", AttrUnit::Percent), ("Level", AttrUnit::Unitless), ("Max Reach", AttrUnit::Range)],
        Identity::MiniWave => vec![("Chance", AttrUnit::Percent), ("Level", AttrUnit::Unitless), ("Max Reach", AttrUnit::Range)],
        Identity::SurgeAttack => vec![("Chance", AttrUnit::Percent), ("Level", AttrUnit::Unitless), ("Min Range", AttrUnit::Range), ("Max Range", AttrUnit::Range), ("Width", AttrUnit::Range)],
        Identity::MiniSurge => vec![("Chance", AttrUnit::Percent), ("Level", AttrUnit::Unitless), ("Min Range", AttrUnit::Range), ("Max Range", AttrUnit::Range), ("Width", AttrUnit::Range)],
        Identity::DeathSurge => vec![("Chance", AttrUnit::Percent), ("Level", AttrUnit::Unitless), ("Min Range", AttrUnit::Range), ("Max Range", AttrUnit::Range), ("Width", AttrUnit::Range)],
        Identity::Explosion => vec![("Chance", AttrUnit::Percent), ("Min Range", AttrUnit::Range), ("Max Range", AttrUnit::Range), ("Width", AttrUnit::Range)],
        Identity::CriticalHit => vec![("Chance", AttrUnit::Percent)],
        Identity::SavageBlow => vec![("Chance", AttrUnit::Percent), ("Boost", AttrUnit::Percent)],
        Identity::Strengthen => vec![("HP", AttrUnit::Percent), ("Boost", AttrUnit::Percent)],
        Identity::Survive => vec![("Chance", AttrUnit::Percent)],
        Identity::Barrier => vec![("Hitpoints", AttrUnit::Unitless)],
        Identity::AkuShield => vec![("Hitpoints", AttrUnit::Unitless), ("Regen", AttrUnit::Percent)],
        Identity::Burrow => vec![("Count", AttrUnit::Unitless), ("Distance", AttrUnit::Range)],
        Identity::Revive => vec![("Count", AttrUnit::Unitless), ("Duration", AttrUnit::Frames), ("Hitpoints", AttrUnit::Percent)],
        Identity::Toxic => vec![("Chance", AttrUnit::Percent), ("Damage", AttrUnit::Percent)],
        Identity::Drain => vec![("Chance", AttrUnit::Percent), ("Amount", AttrUnit::Percent)],
        Identity::Dodge => vec![("Chance", AttrUnit::Percent), ("Duration", AttrUnit::Frames)],
        Identity::Weaken => vec![("Chance", AttrUnit::Percent), ("Reduced To", AttrUnit::Percent), ("Duration", AttrUnit::Frames)],
        Identity::Freeze => vec![("Chance", AttrUnit::Percent), ("Duration", AttrUnit::Frames)],
        Identity::Slow => vec![("Chance", AttrUnit::Percent), ("Duration", AttrUnit::Frames)],
        Identity::Knockback => vec![("Chance", AttrUnit::Percent)],
        Identity::Curse => vec![("Chance", AttrUnit::Percent), ("Duration", AttrUnit::Frames)],
        Identity::Warp => vec![("Chance", AttrUnit::Percent), ("Duration", AttrUnit::Frames), ("Min Distance", AttrUnit::Range), ("Max Distance", AttrUnit::Range)],
        Identity::Unknown => vec![],
        Identity::ImmuneWave => vec![],
        Identity::ImmuneSurge => vec![],
        Identity::ImmuneExplosion => vec![],
        Identity::ImmuneWeaken => vec![],
        Identity::ImmuneFreeze => vec![],
        Identity::ImmuneSlow => vec![],
        Identity::ImmuneKnockback => vec![],
        Identity::ImmuneCurse => vec![],
        Identity::ImmuneWarp => vec![],
        Identity::CounterSurge => vec![],
    }
}

/// The attributes an ability yields for an enemy's statistics: empty when
/// the enemy lacks the ability.
pub open spec fn attributes_of(identity: Identity, stats: Battle) -> Seq<Attribute> {
    match identity {
        Identity::SingleAttack => {
            if stats.area_attack == 0 { active_attrs() } else { Seq::empty() }
        },
        Identity::AreaAttack => {
            if stats.area_attack == 1 { active_attrs() } else { Seq::empty() }
        },
        Identity::TypeRed => {
            if stats.type_red > 0 { active_attrs() } else { Seq::empty() }
        },
        Identity::TypeFloating => {
            if stats.type_floating > 0 { active_attrs() } else { Seq::empty() }
        },
        Identity::TypeDark => {
            if stats.type_dark > 0 { active_attrs() } else { Seq::empty() }
        },
        Identity::TypeMetal => {
            if stats.type_metal > 0 { active_attrs() } else { Seq::empty() }
        },
        Identity::TypeAngel => {
            if stats.type_angel > 0 { active_attrs() } else { Seq::empty() }
        },
        Identity::TypeAlien => {
            if stats.type_alien > 0 { active_attrs() } else { Seq::empty() }
        },
        Identity::TypeZombie => {
            if stats.type_zombie > 0 { active_attrs() } else { Seq::empty() }
        },
        Identity::TypeRelic => {
            if stats.type_relic > 0 { active_attrs() } else { Seq::empty() }
        },
        Identity::TypeAku => {
            if stats.type_aku > 0 { active_attrs() } else { Seq::empty() }
        },
        Identity::TypeTraitless => {
            if stats.type_traitless > 0 { active_attrs() } else { Seq::empty() }
        },
        Identity::TypeDojo => {
            if stats.type_dojo > 0 { active_attrs() } else { Seq::empty() }
        },
        Identity::TypeStarredAlien => {
            if stats.type_starred_alien == 1 { active_attrs() } else { Seq::empty() }
        },
        Identity::TypeCatGod => {
            if stats.type_starred_alien >= 2 && stats.type_starred_alien <= 4 {
                seq![("Type", stats.type_starred_alien, AttrUnit::Unitless)]
            } else { Seq::empty() }
        },
        Identity::TypeColossus => {
            if stats.type_colossus > 0 { active_attrs() } else { Seq::empty() }
        },
        Identity::TypeBehemoth => {
            if stats.type_behemoth > 0 { active_attrs() } else { Seq::empty() }
        },
        Identity::TypeSage => {
            if stats.type_sage > 0 { active_attrs() } else { Seq::empty() }
        },
        Identity::TypeKaijin => {
            Seq::empty()
        },
        Identity::TypeWitch => {
            if stats.type_witch > 0 { active_attrs() } else { Seq::empty() }
        },
        Identity::TypeEva => {
            if stats.type_eva > 0 { active_attrs() } else { Seq::empty() }
        },
        Identity::Kamikaze => {
            if stats.attack_count_total > -1 && stats.attack_count_state == 2 {
                seq![("Attacks", stats.attack_count_total, AttrUnit::Unitless)]
            } else { Seq::empty() }
        },
        Identity::Stop => {
            if stats.attack_count_total > -1 && stats.attack_count_state == 0 {
                seq![("Attacks", stats.attack_count_total, AttrUnit::Unitless)]
            } else { Seq::empty() }
        },
        Identity::BaseDestroyer => {
            if stats.base_destroyer > 0 { active_attrs() } else { Seq::empty() }
        },
        Identity::WaveBlock => {
            if stats.wave_blocker > 0 { active_attrs() } else { Seq::empty() }
        },
        Identity::MultiHit => {
            if stats.attack_2 > 0 { active_attrs() } else { Seq::empty() }
        },
        Identity::LongDistance => {
            if has_long_distance_spec(stats) && !has_omni_spec(stats) { active_attrs() } else { Seq::empty() }
        },
        Identity::OmniStrike => {
            if has_omni_spec(stats) { active_attrs() } else { Seq::empty() }
        },
        Identity::WaveAttack => {
            if stats.mini_wave == 0 && stats.wave_chance > 0 {
                                seq![
                    ("Chance", stats.wave_chance, AttrUnit::Percent),
                    ("Level", stats.wave_level, AttrUnit::Unitless),
                    ("Max Reach", wave_reach_of(stats), AttrUnit::Range),
                ]
            } else { Seq::empty() }
        },
        Identity::MiniWave => {
            if stats.mini_wave > 0 && stats.wave_chance > 0 {
                                seq![
                    ("Chance", stats.wave_chance, AttrUnit::Percent),
                    ("Level", stats.wave_level, AttrUnit::Unitless),
                    ("Max Reach", wave_reach_of(stats), AttrUnit::Range),
                ]
            } else { Seq::empty() }
        },
        Identity::SurgeAttack => {
            if stats.mini_surge == 0 && stats.surge_chance > 0 {
                seq![
                    ("Chance", stats.surge_chance, AttrUnit::Percent),
                    ("Level", stats.surge_level, AttrUnit::Unitless),
                    ("Min Range", stats.surge_spawn_min, AttrUnit::Range),
                    ("Max Range", (stats.surge_spawn_min + stats.surge_spawn_max) as i32, AttrUnit::Range),
                    ("Width", stats.surge_spawn_max, AttrUnit::Range),
                ]
            } else { Seq::empty() }
        },
        Identity::MiniSurge => {
            if stats.mini_surge > 0 && stats.surge_chance > 0 {
                seq![
                    ("Chance", stats.surge_chance, AttrUnit::Percent),
                    ("Level", stats.surge_level, AttrUnit::Unitless),
                    ("Min Range", stats.surge_spawn_min, AttrUnit::Range),
                    ("Max Range", (stats.surge_spawn_min + stats.surge_spawn_max) as i32, AttrUnit::Range),
                    ("Width", stats.surge_spawn_max, AttrUnit::Range),
                ]
            } else { Seq::empty() }
        },
        Identity::DeathSurge => {
            if stats.death_surge_chance > 0 {
                seq![
                    ("Chance", stats.death_surge_chance, AttrUnit::Percent),
                    ("Level", stats.death_surge_level, AttrUnit::Unitless),
                    ("Min Range", stats.death_surge_spawn_min, AttrUnit::Range),
                    ("Max Range", (stats.death_surge_spawn_min + stats.death_surge_spawn_max) as i32, AttrUnit::Range),
                    ("Width", stats.death_surge_spawn_max, AttrUnit::Range),
                ]
            } else { Seq::empty() }
        },
        Identity::Explosion => {
            if stats.explosion_chance > 0 {
                seq![
                    ("Chance", stats.explosion_chance, AttrUnit::Percent),
                    ("Min Range", stats.explosion_anchor, AttrUnit::Range),
                    ("Max Range", (stats.explosion_anchor + stats.explosion_span) as i32, AttrUnit::Range),
                    ("Width", stats.explosion_span, AttrUnit::Range),
                ]
            } else { Seq::empty() }
        },
        Identity::CriticalHit => {
            if stats.critical_chance > 0 { seq![("Chance", stats.critical_chance, AttrUnit::Percent)] } else { Seq::empty() }
        },
        Identity::SavageBlow => {
            if stats.savage_blow_chance > 0 {
                seq![
                    ("Chance", stats.savage_blow_chance, AttrUnit::Percent),
                    ("Boost", stats.savage_blow_boost, AttrUnit::Percent),
                ]
            } else { Seq::empty() }
        },
        Identity::Strengthen => {
            if stats.strengthen_threshold > 0 {
                seq![
                    ("HP", stats.strengthen_threshold, AttrUnit::Percent),
                    ("Boost", stats.strengthen_boost, AttrUnit::Percent),
                ]
            } else { Seq::empty() }
        },
        Identity::Survive => {
            if stats.survive_chance > 0 { seq![("Chance", stats.survive_chance, AttrUnit::Percent)] } else { Seq::empty() }
        },
        Identity::Barrier => {
            if stats.barrier_hitpoints > 0 { seq![("Hitpoints", stats.barrier_hitpoints, AttrUnit::Unitless)] } else { Seq::empty() }
        },
        Identity::AkuShield => {
            if stats.shield_hitpoints > 0 {
                seq![
                    ("Hitpoints", stats.shield_hitpoints, AttrUnit::Unitless),
                    ("Regen", stats.shield_regen, AttrUnit::Percent),
                ]
            } else { Seq::empty() }
        },
        Identity::Burrow => {
            if stats.burrow_amount != 0 {
                seq![
                    ("Count", stats.burrow_amount, AttrUnit::Unitless),
                    ("Distance", stats.burrow_distance, AttrUnit::Range),
                ]
            } else { Seq::empty() }
        },
        Identity::Revive => {
            if stats.revive_count != 0 {
                seq![
                    ("Count", stats.revive_count, AttrUnit::Unitless),
                    ("Duration", stats.revive_time, AttrUnit::Frames),
                    ("Hitpoints", stats.revive_hp, AttrUnit::Percent),
                ]
            } else { Seq::empty() }
        },
        Identity::Toxic => {
            if stats.toxic_chance > 0 {
                seq![
                    ("Chance", stats.toxic_chance, AttrUnit::Percent),
                    ("Damage", stats.toxic_damage, AttrUnit::Percent),
                ]
            } else { Seq::empty() }
        },
        Identity::Drain => {
            if stats.drain_chance > 0 {
                seq![
                    ("Chance", stats.drain_chance, AttrUnit::Percent),
                    ("Amount", stats.drain_percent, AttrUnit::Percent),
                ]
            } else { Seq::empty() }
        },
        Identity::Dodge => {
            if stats.dodge_chance > 0 {
                seq![
                    ("Chance", stats.dodge_chance, AttrUnit::Percent),
                    ("Duration", stats.dodge_duration, AttrUnit::Frames),
                ]
            } else { Seq::empty() }
        },
        Identity::Weaken => {
            if stats.weaken_chance > 0 {
                seq![
                    ("Chance", stats.weaken_chance, AttrUnit::Percent),
                    ("Reduced To", stats.weaken_percent, AttrUnit::Percent),
                    ("Duration", stats.weaken_duration, AttrUnit::Frames),
                ]
            } else { Seq::empty() }
        },
        Identity::Freeze => {
            if stats.freeze_chance > 0 {
                seq![
                    ("Chance", stats.freeze_chance, AttrUnit::Percent),
                    ("Duration", stats.freeze_duration, AttrUnit::Frames),
                ]
            } else { Seq::empty() }
        },
        Identity::Slow => {
            if stats.slow_chance > 0 {
                seq![
                    ("Chance", stats.slow_chance, AttrUnit::Percent),
                    ("Duration", stats.slow_duration, AttrUnit::Frames),
                ]
            } else { Seq::empty() }
        },
        Identity::Knockback => {
            if stats.knockback_chance > 0 { seq![("Chance", stats.knockback_chance, AttrUnit::Percent)] } else { Seq::empty() }
        },
        Identity::Curse => {
            if stats.curse_chance > 0 {
                seq![
                    ("Chance", stats.curse_chance, AttrUnit::Percent),
                    ("Duration", stats.curse_duration, AttrUnit::Frames),
                ]
            } else { Seq::empty() }
        },
        Identity::Warp => {
            if stats.warp_chance > 0 {
                seq![
                    ("Chance", stats.warp_chance, AttrUnit::Percent),
                    ("Duration", stats.warp_duration, AttrUnit::Frames),
                    ("Min Distance", stats.warp_distance_minimum, AttrUnit::Range),
                    ("Max Distance", stats.warp_distance_maximum, AttrUnit::Range),
                ]
            } else { Seq::empty() }
        },
        Identity::Unknown => {
            if stats.has_unknown_abilities > 0 { active_attrs() } else { Seq::empty() }
        },
        Identity::ImmuneWave => {
            if stats.wave_immune > 0 { active_attrs() } else { Seq::empty() }
        },
        Identity::ImmuneSurge => {
            if stats.surge_immune > 0 { active_attrs() } else { Seq::empty() }
        },
        Identity::ImmuneExplosion => {
            if stats.explosion_immune > 0 { active_attrs() } else { Seq::empty() }
        },
        Identity::ImmuneWeaken => {
            if stats.weaken_immune > 0 { active_attrs() } else { Seq::empty() }
        },
        Identity::ImmuneFreeze => {
            if stats.freeze_immune > 0 { active_attrs() } else { Seq::empty() }
        },
        Identity::ImmuneSlow => {
            if stats.slow_immune > 0 { active_attrs() } else { Seq::empty() }
        },
        Identity::ImmuneKnockback => {
            if stats.knockback_immune > 0 { active_attrs() } else { Seq::empty() }
        },
        Identity::ImmuneCurse => {
            if stats.curse_immune > 0 { active_attrs() } else { Seq::empty() }
        },
        Identity::ImmuneWarp => {
            if stats.warp_immune > 0 { active_attrs() } else { Seq::empty() }
        },
        Identity::CounterSurge => {
            if stats.counter_surge > 0 { active_attrs() } else { Seq::empty() }
        },
    }
}

impl Ability {
    /// The registry's definition of an ability.
    fn entry(identity: Identity) -> (r: Ability)
        ensures
            describes(r, identity),
    {
        Ability {
            identity,
            icon_id: icon_id_for(identity),
            name: "",
            description: "",
            schema: schema_for(identity),
            minus_one_is_inf: unbounded_for(identity),
        }
    }

    /// Reads this ability's attributes from an enemy's statistics, labelled
    /// and tagged with their units; empty when the enemy lacks the ability.
    #[verifier::rlimit(40)]
    pub fn attributes(&self, stats: &Battle) -> (r: Vec<Attribute>)
        requires
            attributes_defined(self.identity, *stats),
        ensures
            r@ == attributes_of(self.identity, *stats),
    {
        match self.identity {
            Identity::SingleAttack => {
                if stats.area_attack == 0 { active() } else { Vec::new() }
            },
            Identity::AreaAttack => {
                if stats.area_attack == 1 { active() } else { Vec::new() }
            },
            Identity::TypeRed => {
                if stats.type_red > 0 { active() } else { Vec::new() }
            },
            Identity::TypeFloating => {
                if stats.type_floating > 0 { active() } else { Vec::new() }
            },
            Identity::TypeDark => {
                if stats.type_dark > 0 { active() } else { Vec::new() }
            },
            Identity::TypeMetal => {
                if stats.type_metal > 0 { active() } else { Vec::new() }
            },
            Identity::TypeAngel => {
                if stats.type_angel > 0 { active() } else { Vec::new() }
            },
            Identity::TypeAlien => {
                if stats.type_alien > 0 { active() } else { Vec::new() }
            },
            Identity::TypeZombie => {
                if stats.type_zombie > 0 { active() } else { Vec::new() }
            },
            Identity::TypeRelic => {
                if stats.type_relic > 0 { active() } else { Vec::new() }
            },
            Identity::TypeAku => {
                if stats.type_aku > 0 { active() } else { Vec::new() }
            },
            Identity::TypeTraitless => {
                if stats.type_traitless > 0 { active() } else { Vec::new() }
            },
            Identity::TypeDojo => {
                if stats.type_dojo > 0 { active() } else { Vec::new() }
            },
            Identity::TypeStarredAlien => {
                if stats.type_starred_alien == 1 { active() } else { Vec::new() }
            },
            Identity::TypeCatGod => {
                if stats.type_starred_alien >= 2 && stats.type_starred_alien <= 4 {
                    vec![("Type", stats.type_starred_alien, AttrUnit::Unitless)]
                } else { Vec::new() }
            },
            Identity::TypeColossus => {
                if stats.type_colossus > 0 { active() } else { Vec::new() }
            },
            Identity::TypeBehemoth => {
                if stats.type_behemoth > 0 { active() } else { Vec::new() }
            },
            Identity::TypeSage => {
                if stats.type_sage > 0 { active() } else { Vec::new() }
            },
            Identity::TypeKaijin => {
                Vec::new()
            },
            Identity::TypeWitch => {
                if stats.type_witch > 0 { active() } else { Vec::new() }
            },
            Identity::TypeEva => {
                if stats.type_eva > 0 { active() } else { Vec::new() }
            },
            Identity::Kamikaze => {
                if stats.attack_count_total > -1 && stats.attack_count_state == 2 {
                    vec![("Attacks", stats.attack_count_total, AttrUnit::Unitless)]
                } else { Vec::new() }
            },
            Identity::Stop => {
                if stats.attack_count_total > -1 && stats.attack_count_state == 0 {
                    vec![("Attacks", stats.attack_count_total, AttrUnit::Unitless)]
                } else { Vec::new() }
            },
            Identity::BaseDestroyer => {
                if stats.base_destroyer > 0 { active() } else { Vec::new() }
            },
            Identity::WaveBlock => {
                if stats.wave_blocker > 0 { active() } else { Vec::new() }
            },
            Identity::MultiHit => {
                if stats.attack_2 > 0 { active() } else { Vec::new() }
            },
            Identity::LongDistance => {
                if has_long_distance(stats) && !has_omni(stats) { active() } else { Vec::new() }
            },
            Identity::OmniStrike => {
                if has_omni(stats) { active() } else { Vec::new() }
            },
            Identity::WaveAttack => {
                if stats.mini_wave == 0 && stats.wave_chance > 0 {
                                    vec![
                        ("Chance", stats.wave_chance, AttrUnit::Percent),
                        ("Level", stats.wave_level, AttrUnit::Unitless),
                        ("Max Reach", wave_reach(stats), AttrUnit::Range),
                    ]
                } else { Vec::new() }
            },
            Identity::MiniWave => {
                if stats.mini_wave > 0 && stats.wave_chance > 0 {
                                    vec![
                        ("Chance", stats.wave_chance, AttrUnit::Percent),
                        ("Level", stats.wave_level, AttrUnit::Unitless),
                        ("Max Reach", wave_reach(stats), AttrUnit::Range),
                    ]
                } else { Vec::new() }
            },
            Identity::SurgeAttack => {
                if stats.mini_surge == 0 && stats.surge_chance > 0 {
                    vec![
                        ("Chance", stats.surge_chance, AttrUnit::Percent),
                        ("Level", stats.surge_level, AttrUnit::Unitless),
                        ("Min Range", stats.surge_spawn_min, AttrUnit::Range),
                        ("Max Range", stats.surge_spawn_min + stats.surge_spawn_max, AttrUnit::Range),
                        ("Width", stats.surge_spawn_max, AttrUnit::Range),
                    ]
                } else { Vec::new() }
            },
            Identity::MiniSurge => {
                if stats.mini_surge > 0 && stats.surge_chance > 0 {
                    vec![
                        ("Chance", stats.surge_chance, AttrUnit::Percent),
                        ("Level", stats.surge_level, AttrUnit::Unitless),
                        ("Min Range", stats.surge_spawn_min, AttrUnit::Range),
                        ("Max Range", stats.surge_spawn_min + stats.surge_spawn_max, AttrUnit::Range),
                        ("Width", stats.surge_spawn_max, AttrUnit::Range),
                    ]
                } else { Vec::new() }
            },
            Identity::DeathSurge => {
                if stats.death_surge_chance > 0 {
                    vec![
                        ("Chance", stats.death_surge_chance, AttrUnit::Percent),
                        ("Level", stats.death_surge_level, AttrUnit::Unitless),
                        ("Min Range", stats.death_surge_spawn_min, AttrUnit::Range),
                        ("Max Range", stats.death_surge_spawn_min + stats.death_surge_spawn_max, AttrUnit::Range),
                        ("Width", stats.death_surge_spawn_max, AttrUnit::Range),
                    ]
                } else { Vec::new() }
            },
            Identity::Explosion => {
                if stats.explosion_chance > 0 {
                    vec![
                        ("Chance", stats.explosion_chance, AttrUnit::Percent),
                        ("Min Range", stats.explosion_anchor, AttrUnit::Range),
                        ("Max Range", stats.explosion_anchor + stats.explosion_span, AttrUnit::Range),
                        ("Width", stats.explosion_span, AttrUnit::Range),
                    ]
                } else { Vec::new() }
            },
            Identity::CriticalHit => {
                if stats.critical_chance > 0 { vec![("Chance", stats.critical_chance, AttrUnit::Percent)] } else { Vec::new() }
            },
            Identity::SavageBlow => {
                if stats.savage_blow_chance > 0 {
                    vec![
                        ("Chance", stats.savage_blow_chance, AttrUnit::Percent),
                        ("Boost", stats.savage_blow_boost, AttrUnit::Percent),
                    ]
                } else { Vec::new() }
            },
            Identity::Strengthen => {
                if stats.strengthen_threshold > 0 {
                    vec![
                        ("HP", stats.strengthen_threshold, AttrUnit::Percent),
                        ("Boost", stats.strengthen_boost, AttrUnit::Percent),
                    ]
                } else { Vec::new() }
            },
            Identity::Survive => {
                if stats.survive_chance > 0 { vec![("Chance", stats.survive_chance, AttrUnit::Percent)] } else { Vec::new() }
            },
            Identity::Barrier => {
                if stats.barrier_hitpoints > 0 { vec![("Hitpoints", stats.barrier_hitpoints, AttrUnit::Unitless)] } else { Vec::new() }
            },
            Identity::AkuShield => {
                if stats.shield_hitpoints > 0 {
                    vec![
                        ("Hitpoints", stats.shield_hitpoints, AttrUnit::Unitless),
                        ("Regen", stats.shield_regen, AttrUnit::Percent),
                    ]
                } else { Vec::new() }
            },
            Identity::Burrow => {
                if stats.burrow_amount != 0 {
                    vec![
                        ("Count", stats.burrow_amount, AttrUnit::Unitless),
                        ("Distance", stats.burrow_distance, AttrUnit::Range),
                    ]
                } else { Vec::new() }
            },
            Identity::Revive => {
                if stats.revive_count != 0 {
                    vec![
                        ("Count", stats.revive_count, AttrUnit::Unitless),
                        ("Duration", stats.revive_time, AttrUnit::Frames),
                        ("Hitpoints", stats.revive_hp, AttrUnit::Percent),
                    ]
                } else { Vec::new() }
            },
            Identity::Toxic => {
                if stats.toxic_chance > 0 {
                    vec![
                        ("Chance", stats.toxic_chance, AttrUnit::Percent),
                        ("Damage", stats.toxic_damage, AttrUnit::Percent),
                    ]
                } else { Vec::new() }
            },
            Identity::Drain => {
                if stats.drain_chance > 0 {
                    vec![
                        ("Chance", stats.drain_chance, AttrUnit::Percent),
                        ("Amount", stats.drain_percent, AttrUnit::Percent),
                    ]
                } else { Vec::new() }
            },
            Identity::Dodge => {
                if stats.dodge_chance > 0 {
                    vec![
                        ("Chance", stats.dodge_chance, AttrUnit::Percent),
                        ("Duration", stats.dodge_duration, AttrUnit::Frames),
                    ]
                } else { Vec::new() }
            },
            Identity::Weaken => {
                if stats.weaken_chance > 0 {
                    vec![
                        ("Chance", stats.weaken_chance, AttrUnit::Percent),
                        ("Reduced To", stats.weaken_percent, AttrUnit::Percent),
                        ("Duration", stats.weaken_duration, AttrUnit::Frames),
                    ]
                } else { Vec::new() }
            },
            Identity::Freeze => {
                if stats.freeze_chance > 0 {
                    vec![
                        ("Chance", stats.freeze_chance, AttrUnit::Percent),
                        ("Duration", stats.freeze_duration, AttrUnit::Frames),
                    ]
                } else { Vec::new() }
            },
            Identity::Slow => {
                if stats.slow_chance > 0 {
                    vec![
                        ("Chance", stats.slow_chance, AttrUnit::Percent),
                        ("Duration", stats.slow_duration, AttrUnit::Frames),
                    ]
                } else { Vec::new() }
            },
            Identity::Knockback => {
                if stats.knockback_chance > 0 { vec![("Chance", stats.knockback_chance, AttrUnit::Percent)] } else { Vec::new() }
            },
            Identity::Curse => {
                if stats.curse_chance > 0 {
                    vec![
                        ("Chance", stats.curse_chance, AttrUnit::Percent),
                        ("Duration", stats.curse_duration, AttrUnit::Frames),
                    ]
                } else { Vec::new() }
            },
            Identity::Warp => {
                if stats.warp_chance > 0 {
                    vec![
                        ("Chance", stats.warp_chance, AttrUnit::Percent),
                        ("Duration", stats.warp_duration, AttrUnit::Frames),
                        ("Min Distance", stats.warp_distance_minimum, AttrUnit::Range),
                        ("Max Distance", stats.warp_distance_maximum, AttrUnit::Range),
                    ]
                } else { Vec::new() }
            },
            Identity::Unknown => {
                if stats.has_unknown_abilities > 0 { active() } else { Vec::new() }
            },
            Identity::ImmuneWave => {
                if stats.wave_immune > 0 { active() } else { Vec::new() }
            },
            Identity::ImmuneSurge => {
                if stats.surge_immune > 0 { active() } else { Vec::new() }
            },
            Identity::ImmuneExplosion => {
                if stats.explosion_immune > 0 { active() } else { Vec::new() }
            },
            Identity::ImmuneWeaken => {
                if stats.weaken_immune > 0 { active() } else { Vec::new() }
            },
            Identity::ImmuneFreeze => {
                if stats.freeze_immune > 0 { active() } else { Vec::new() }
            },
            Identity::ImmuneSlow => {
                if stats.slow_immune > 0 { active() } else { Vec::new() }
            },
            Identity::ImmuneKnockback => {
                if stats.knockback_immune > 0 { active() } else { Vec::new() }
            },
            Identity::ImmuneCurse => {
                if stats.curse_immune > 0 { active() } else { Vec::new() }
            },
            Identity::ImmuneWarp => {
                if stats.warp_immune > 0 { active() } else { Vec::new() }
            },
            Identity::CounterSurge => {
                if stats.counter_surge > 0 { active() } else { Vec::new() }
            },
        }
    }
}

/// Every enemy ability definition, in registry order.
pub fn registry() -> (r: Vec<Ability>)
    ensures
        r.len() == registry_order().len(),
        forall|i: int| 0 <= i < r.len() ==> describes(#[trigger] r[i], registry_order()[i]),
{
    let identities: Vec<Identity> = vec![Identity::SingleAttack, Identity::AreaAttack, Identity::TypeRed, Identity::TypeFloating, Identity::TypeDark, Identity::TypeMetal, Identity::TypeAngel, Identity::TypeAlien, Identity::TypeZombie, Identity::TypeRelic, Identity::TypeAku, Identity::TypeTraitless, Identity::TypeDojo, Identity::TypeStarredAlien, Identity::TypeCatGod, Identity::TypeColossus, Identity::TypeBehemoth, Identity::TypeSage, Identity::TypeKaijin, Identity::TypeWitch, Identity::TypeEva, Identity::Kamikaze, Identity::Stop, Identity::BaseDestroyer, Identity::WaveBlock, Identity::MultiHit, Identity::LongDistance, Identity::OmniStrike, Identity::WaveAttack, Identity::MiniWave, Identity::SurgeAttack, Identity::MiniSurge, Identity::DeathSurge, Identity::Explosion, Identity::CriticalHit, Identity::SavageBlow, Identity::Strengthen, Identity::Survive, Identity::Barrier, Identity::AkuShield, Identity::Burrow, Identity::Revive, Identity::Toxic, Identity::Drain, Identity::Dodge, Identity::Weaken, Identity::Freeze, Identity::Slow, Identity::Knockback, Identity::Curse, Identity::Warp, Identity::Unknown, Identity::ImmuneWave, Identity::ImmuneSurge, Identity::ImmuneExplosion, Identity::ImmuneWeaken, Identity::ImmuneFreeze, Identity::ImmuneSlow, Identity::ImmuneKnockback, Identity::ImmuneCurse, Identity::ImmuneWarp, Identity::CounterSurge];
    assert(identities@ == registry_order());
    let mut r: Vec<Ability> = Vec::new();
    let mut i: usize = 0;
    while i < identities.len()
        invariant
            identities@ == registry_order(),
            i <= identities.len(),
            r.len() == i,
            forall|j: int| 0 <= j < i ==> describes(#[trigger] r[j], registry_order()[j]),
        decreases identities.len() - i,
    {
        r.push(Ability::entry(identities[i]));
        i += 1;
    }
    r
}

/// Finds the definition of an ability by its identifier. The registry
/// defines every identifier, so the lookup always finds one.
pub fn get_ability(identity: Identity) -> (r: Option<Ability>)
    ensures
        r matches Some(ability) && describes(ability, identity),
{
    Some(Ability::entry(identity))
}

/// Every enemy ability identifier has a definition in the registry.
pub proof fn lemma_registry_holds_every_identity(identity: Identity)
    ensures
        registry_order().contains(identity),
{
    let order = registry_order();
    match identity {
        Identity::SingleAttack => assert(order[0] == identity),
        Identity::AreaAttack => assert(order[1] == identity),
        Identity::TypeRed => assert(order[2] == identity),
        Identity::TypeFloating => assert(order[3] == identity),
        Identity::TypeDark => assert(order[4] == identity),
        Identity::TypeMetal => assert(order[5] == identity),
        Identity::TypeAngel => assert(order[6] == identity),
        Identity::TypeAlien => assert(order[7] == identity),
        Identity::TypeZombie => assert(order[8] == identity),
        Identity::TypeRelic => assert(order[9] == identity),
        Identity::TypeAku => assert(order[10] == identity),
        Identity::TypeTraitless => assert(order[11] == identity),
        Identity::TypeDojo => assert(order[12] == identity),
        Identity::TypeStarredAlien => assert(order[13] == identity),
        Identity::TypeCatGod => assert(order[14] == identity),
        Identity::TypeColossus => assert(order[15] == identity),
        Identity::TypeBehemoth => assert(order[16] == identity),
        Identity::TypeSage => assert(order[17] == identity),
        Identity::TypeKaijin => assert(order[18] == identity),
        Identity::TypeWitch => assert(order[19] == identity),
        Identity::TypeEva => assert(order[20] == identity),
        Identity::Kamikaze => assert(order[21] == identity),
        Identity::Stop => assert(order[22] == identity),
        Identity::BaseDestroyer => assert(order[23] == identity),
        Identity::WaveBlock => assert(order[24] == identity),
        Identity::MultiHit => assert(order[25] == identity),
        Identity::LongDistance => assert(order[26] == identity),
        Identity::OmniStrike => assert(order[27] == identity),
        Identity::WaveAttack => assert(order[28] == identity),
        Identity::MiniWave => assert(order[29] == identity),
        Identity::SurgeAttack => assert(order[30] == identity),
        Identity::MiniSurge => assert(order[31] == identity),
        Identity::DeathSurge => assert(order[32] == identity),
        Identity::Explosion => assert(order[33] == identity),
        Identity::CriticalHit => assert(order[34] == identity),
        Identity::SavageBlow => assert(order[35] == identity),
        Identity::Strengthen => assert(order[36] == identity),
        Identity::Survive => assert(order[37] == identity),
        Identity::Barrier => assert(order[38] == identity),
        Identity::AkuShield => assert(order[39] == identity),
        Identity::Burrow => assert(order[40] == identity),
        Identity::Revive => assert(order[41] == identity),
        Identity::Toxic => assert(order[42] == identity),
        Identity::Drain => assert(order[43] == identity),
        Identity::Dodge => assert(order[44] == identity),
        Identity::Weaken => assert(order[45] == identity),
        Identity::Freeze => assert(order[46] == identity),
        Identity::Slow => assert(order[47] == identity),
        Identity::Knockback => assert(order[48] == identity),
        Identity::Curse => assert(order[49] == identity),
        Identity::Warp => assert(order[50] == identity),
        Identity::Unknown => assert(order[51] == identity),
        Identity::ImmuneWave => assert(order[52] == identity),
        Identity::ImmuneSurge => assert(order[53] == identity),
        Identity::ImmuneExplosion => assert(order[54] == identity),
        Identity::ImmuneWeaken => assert(order[55] == identity),
        Identity::ImmuneFreeze => assert(order[56] == identity),
        Identity::ImmuneSlow => assert(order[57] == identity),
        Identity::ImmuneKnockback => assert(order[58] == identity),
        Identity::ImmuneCurse => assert(order[59] == identity),
        Identity::ImmuneWarp => assert(order[60] == identity),
        Identity::CounterSurge => assert(order[61] == identity),
    }
}

/// An enemy shows at most one of each pair of rival abilities: single or
/// area attack, long distance or omni strike, wave or mini wave, and surge or
/// mini surge.
pub proof fn lemma_rival_abilities_exclude(stats: Battle)
    ensures
        attributes_of(Identity::SingleAttack, stats).len() == 0 || attributes_of(Identity::AreaAttack, stats).len() == 0,
        attributes_of(Identity::LongDistance, stats).len() == 0 || attributes_of(Identity::OmniStrike, stats).len() == 0,
        attributes_of(Identity::WaveAttack, stats).len() == 0 || attributes_of(Identity::MiniWave, stats).len() == 0,
        attributes_of(Identity::SurgeAttack, stats).len() == 0 || attributes_of(Identity::MiniSurge, stats).len() == 0,
{
}

/// What an ability reports of an enemy, read off the statistic columns each
/// attribute names: whether the ability is present, and the value of each
/// attribute its schema labels, in the schema's order (part 1).
pub proof fn lemma_attributes_name_their_fields_1(stats: Battle)
    ensures
        attributes_of(Identity::SingleAttack, stats) == (if stats.area_attack == 0 { seq![("Active", 1i32, AttrUnit::Unitless)] } else { Seq::empty() }),
        attributes_of(Identity::AreaAttack, stats) == (if stats.area_attack == 1 { seq![("Active", 1i32, AttrUnit::Unitless)] } else { Seq::empty() }),
        attributes_of(Identity::TypeRed, stats) == (if stats.type_red > 0 { seq![("Active", 1i32, AttrUnit::Unitless)] } else { Seq::empty() }),
        attributes_of(Identity::TypeFloating, stats) == (if stats.type_floating > 0 { seq![("Active", 1i32, AttrUnit::Unitless)] } else { Seq::empty() }),
        attributes_of(Identity::TypeDark, stats) == (if stats.type_dark > 0 { seq![("Active", 1i32, AttrUnit::Unitless)] } else { Seq::empty() }),
        attributes_of(Identity::TypeMetal, stats) == (if stats.type_metal > 0 { seq![("Active", 1i32, AttrUnit::Unitless)] } else { Seq::empty() }),
        attributes_of(Identity::TypeAngel, stats) == (if stats.type_angel > 0 { seq![("Active", 1i32, AttrUnit::Unitless)] } else { Seq::empty() }),
        attributes_of(Identity::TypeAlien, stats) == (if stats.type_alien > 0 { seq![("Active", 1i32, AttrUnit::Unitless)] } else { Seq::empty() }),
        attributes_of(Identity::TypeZombie, stats) == (if stats.type_zombie > 0 { seq![("Active", 1i32, AttrUnit::Unitless)] } else { Seq::empty() }),
        attributes_of(Identity::TypeRelic, stats) == (if stats.type_relic > 0 { seq![("Active", 1i32, AttrUnit::Unitless)] } else { Seq::empty() }),
        attributes_of(Identity::TypeAku, stats) == (if stats.type_aku > 0 { seq![("Active", 1i32, AttrUnit::Unitless)] } else { Seq::empty() }),
        attributes_of(Identity::TypeTraitless, stats) == (if stats.type_traitless > 0 { seq![("Active", 1i32, AttrUnit::Unitless)] } else { Seq::empty() }),
        attributes_of(Identity::TypeDojo, stats) == (if stats.type_dojo > 0 { seq![("Active", 1i32, AttrUnit::Unitless)] } else { Seq::empty() }),
        attributes_of(Identity::TypeStarredAlien, stats) == (if stats.type_starred_alien == 1 { seq![("Active", 1i32, AttrUnit::Unitless)] } else { Seq::empty() }),
        attributes_of(Identity::TypeCatGod, stats) == (if stats.type_starred_alien >= 2 && stats.type_starred_alien <= 4 { seq![("Type", stats.type_starred_alien, AttrUnit::Unitless)] } else { Seq::empty() }),
        attributes_of(Identity::TypeColossus, stats) == (if stats.type_colossus > 0 { seq![("Active", 1i32, AttrUnit::Unitless)] } else { Seq::empty() }),
        attributes_of(Identity::TypeBehemoth, stats) == (if stats.type_behemoth > 0 { seq![("Active", 1i32, AttrUnit::Unitless)] } else { Seq::empty() }),
        attributes_of(Identity::TypeSage, stats) == (if stats.type_sage > 0 { seq![("Active", 1i32, AttrUnit::Unitless)] } else { Seq::empty() }),
        attributes_of(Identity::TypeKaijin, stats) == Seq::<Attribute>::empty(),
        attributes_of(Identity::TypeWitch, stats) == (if stats.type_witch > 0 { seq![("Active", 1i32, AttrUnit::Unitless)] } else { Seq::empty() }),
{
}

/// What an ability reports of an enemy, read off the statistic columns each
/// attribute names: whether the ability is present, and the value of each
/// attribute its schema labels, in the schema's order (part 2).
pub proof fn lemma_attributes_name_their_fields_2(stats: Battle)
    ensures
        attributes_of(Identity::TypeEva, stats) == (if stats.type_eva > 0 { seq![("Active", 1i32, AttrUnit::Unitless)] } else { Seq::empty() }),
        attributes_of(Identity::Kamikaze, stats) == (if stats.attack_count_total > -1 && stats.attack_count_state == 2 { seq![("Attacks", stats.attack_count_total, AttrUnit::Unitless)] } else { Seq::empty() }),
        attributes_of(Identity::Stop, stats) == (if stats.attack_count_total > -1 && stats.attack_count_state == 0 { seq![("Attacks", stats.attack_count_total, AttrUnit::Unitless)] } else { Seq::empty() }),
        attributes_of(Identity::BaseDestroyer, stats) == (if stats.base_destroyer > 0 { seq![("Active", 1i32, AttrUnit::Unitless)] } else { Seq::empty() }),
        attributes_of(Identity::WaveBlock, stats) == (if stats.wave_blocker > 0 { seq![("Active", 1i32, AttrUnit::Unitless)] } else { Seq::empty() }),
        attributes_of(Identity::MultiHit, stats) == (if stats.attack_2 > 0 { seq![("Active", 1i32, AttrUnit::Unitless)] } else { Seq::empty() }),
        attributes_of(Identity::SurgeAttack, stats) == (if stats.mini_surge == 0 && stats.surge_chance > 0 { seq![ ("Chance", stats.surge_chance, AttrUnit::Percent), ("Level", stats.surge_level, AttrUnit::Unitless), ("Min Range", stats.surge_spawn_min, AttrUnit::Range), ("Max Range", (stats.surge_spawn_min + stats.surge_spawn_max) as i32, AttrUnit::Range), ("Width", stats.surge_spawn_max, AttrUnit::Range)] } else { Seq::empty() }),
        attributes_of(Identity::MiniSurge, stats) == (if stats.mini_surge > 0 && stats.surge_chance > 0 { seq![ ("Chance", stats.surge_chance, AttrUnit::Percent), ("Level", stats.surge_level, AttrUnit::Unitless), ("Min Range", stats.surge_spawn_min, AttrUnit::Range), ("Max Range", (stats.surge_spawn_min + stats.surge_spawn_max) as i32, AttrUnit::Range), ("Width", stats.surge_spawn_max, AttrUnit::Range)] } else { Seq::empty() }),
        attributes_of(Identity::DeathSurge, stats) == (if stats.death_surge_chance > 0 { seq![ ("Chance", stats.death_surge_chance, AttrUnit::Percent), ("Level", stats.death_surge_level, AttrUnit::Unitless), ("Min Range", stats.death_surge_spawn_min, AttrUnit::Range), ("Max Range", (stats.death_surge_spawn_min + stats.death_surge_spawn_max) as i32, AttrUnit::Range), ("Width", stats.death_surge_spawn_max, AttrUnit::Range)] } else { Seq::empty() }),
        attributes_of(Identity::Explosion, stats) == (if stats.explosion_chance > 0 { seq![ ("Chance", stats.explosion_chance, AttrUnit::Percent), ("Min Range", stats.explosion_anchor, AttrUnit::Range), ("Max Range", (stats.explosion_anchor + stats.explosion_span) as i32, AttrUnit::Range), ("Width", stats.explosion_span, AttrUnit::Range)] } else { Seq::empty() }),
        attributes_of(Identity::CriticalHit, stats) == (if stats.critical_chance > 0 { seq![("Chance", stats.critical_chance, AttrUnit::Percent)] } else { Seq::empty() }),
        attributes_of(Identity::SavageBlow, stats) == (if stats.savage_blow_chance > 0 { seq![ ("Chance", stats.savage_blow_chance, AttrUnit::Percent), ("Boost", stats.savage_blow_boost, AttrUnit::Percent)] } else { Seq::empty() }),
        attributes_of(Identity::Strengthen, stats) == (if stats.strengthen_threshold > 0 { seq![ ("HP", stats.strengthen_threshold, AttrUnit::Percent), ("Boost", stats.strengthen_boost, AttrUnit::Percent)] } else { Seq::empty() }),
        attributes_of(Identity::Survive, stats) == (if stats.survive_chance > 0 { seq![("Chance", stats.survive_chance, AttrUnit::Percent)] } else { Seq::empty() }),
        attributes_of(Identity::Barrier, stats) == (if stats.barrier_hitpoints > 0 { seq![("Hitpoints", stats.barrier_hitpoints, AttrUnit::Unitless)] } else { Seq::empty() }),
        attributes_of(Identity::AkuShield, stats) == (if stats.shield_hitpoints > 0 { seq![ ("Hitpoints", stats.shield_hitpoints, AttrUnit::Unitless), ("Regen", stats.shield_regen, AttrUnit::Percent)] } else { Seq::empty() }),
        attributes_of(Identity::Burrow, stats) == (if stats.burrow_amount != 0 { seq![ ("Count", stats.burrow_amount, AttrUnit::Unitless), ("Distance", stats.burrow_distance, AttrUnit::Range)] } else { Seq::empty() }),
        attributes_of(Identity::Revive, stats) == (if stats.revive_count != 0 { seq![ ("Count", stats.revive_count, AttrUnit::Unitless), ("Duration", stats.revive_time, AttrUnit::Frames), ("Hitpoints", stats.revive_hp, AttrUnit::Percent)] } else { Seq::empty() }),
        attributes_of(Identity::Toxic, stats) == (if stats.toxic_chance > 0 { seq![ ("Chance", stats.toxic_chance, AttrUnit::Percent), ("Damage", stats.toxic_damage, AttrUnit::Percent)] } else { Seq::empty() }),
        attributes_of(Identity::Drain, stats) == (if stats.drain_chance > 0 { seq![ ("Chance", stats.drain_chance, AttrUnit::Percent), ("Amount", stats.drain_percent, AttrUnit::Percent)] } else { Seq::empty() }),
{
}

/// What an ability reports of an enemy, read off the statistic columns each
/// attribute names: whether the ability is present, and the value of each
/// attribute its schema labels, in the schema's order (part 3).
pub proof fn lemma_attributes_name_their_fields_3(stats: Battle)
    ensures
        attributes_of(Identity::Dodge, stats) == (if stats.dodge_chance > 0 { seq![ ("Chance", stats.dodge_chance, AttrUnit::Percent), ("Duration", stats.dodge_duration, AttrUnit::Frames)] } else { Seq::empty() }),
        attributes_of(Identity::Weaken, stats) == (if stats.weaken_chance > 0 { seq![ ("Chance", stats.weaken_chance, AttrUnit::Percent), ("Reduced To", stats.weaken_percent, AttrUnit::Percent), ("Duration", stats.weaken_duration, AttrUnit::Frames)] } else { Seq::empty() }),
        attributes_of(Identity::Freeze, stats) == (if stats.freeze_chance > 0 { seq![ ("Chance", stats.freeze_chance, AttrUnit::Percent), ("Duration", stats.freeze_duration, AttrUnit::Frames)] } else { Seq::empty() }),
        attributes_of(Identity::Slow, stats) == (if stats.slow_chance > 0 { seq![ ("Chance", stats.slow_chance, AttrUnit::Percent), ("Duration", stats.slow_duration, AttrUnit::Frames)] } else { Seq::empty() }),
        attributes_of(Identity::Knockback, stats) == (if stats.knockback_chance > 0 { seq![("Chance", stats.knockback_chance, AttrUnit::Percent)] } else { Seq::empty() }),
        attributes_of(Identity::Curse, stats) == (if stats.curse_chance > 0 { seq![ ("Chance", stats.curse_chance, AttrUnit::Percent), ("Duration", stats.curse_duration, AttrUnit::Frames)] } else { Seq::empty() }),
        attributes_of(Identity::Warp, stats) == (if stats.warp_chance > 0 { seq![ ("Chance", stats.warp_chance, AttrUnit::Percent), ("Duration", stats.warp_duration, AttrUnit::Frames), ("Min Distance", stats.warp_distance_minimum, AttrUnit::Range), ("Max Distance", stats.warp_distance_maximum, AttrUnit::Range)] } else { Seq::empty() }),
        attributes_of(Identity::Unknown, stats) == (if stats.has_unknown_abilities > 0 { seq![("Active", 1i32, AttrUnit::Unitless)] } else { Seq::empty() }),
        attributes_of(Identity::ImmuneWave, stats) == (if stats.wave_immune > 0 { seq![("Active", 1i32, AttrUnit::Unitless)] } else { Seq::empty() }),
        attributes_of(Identity::ImmuneSurge, stats) == (if stats.surge_immune > 0 { seq![("Active", 1i32, AttrUnit::Unitless)] } else { Seq::empty() }),
        attributes_of(Identity::ImmuneExplosion, stats) == (if stats.explosion_immune > 0 { seq![("Active", 1i32, AttrUnit::Unitless)] } else { Seq::empty() }),
        attributes_of(Identity::ImmuneWeaken, stats) == (if stats.weaken_immune > 0 { seq![("Active", 1i32, AttrUnit::Unitless)] } else { Seq::empty() }),
        attributes_of(Identity::ImmuneFreeze, stats) == (if stats.freeze_immune > 0 { seq![("Active", 1i32, AttrUnit::Unitless)] } else { Seq::empty() }),
        attributes_of(Identity::ImmuneSlow, stats) == (if stats.slow_immune > 0 { seq![("Active", 1i32, AttrUnit::Unitless)] } else { Seq::empty() }),
        attributes_of(Identity::ImmuneKnockback, stats) == (if stats.knockback_immune > 0 { seq![("Active", 1i32, AttrUnit::Unitless)] } else { Seq::empty() }),
        attributes_of(Identity::ImmuneCurse, stats) == (if stats.curse_immune > 0 { seq![("Active", 1i32, AttrUnit::Unitless)] } else { Seq::empty() }),
        attributes_of(Identity::ImmuneWarp, stats) == (if stats.warp_immune > 0 { seq![("Active", 1i32, AttrUnit::Unitless)] } else { Seq::empty() }),
        attributes_of(Identity::CounterSurge, stats) == (if stats.counter_surge > 0 { seq![("Active", 1i32, AttrUnit::Unitless)] } else { Seq::empty() }),
{
}

/// Whether an enemy hits at long distance or everywhere, and how far its
/// wave reaches, as their attributes report them.
pub proof fn lemma_attributes_name_their_fields_ranges(stats: Battle)
    ensures
        attributes_of(Identity::LongDistance, stats) == (if ((stats.long_distance_span_1 > 0) || (stats.long_distance_2_flag > 0 && stats.long_distance_2_span > 0)
            || (stats.long_distance_3_flag > 0 && stats.long_distance_3_span > 0)) && !((stats.long_distance_span_1 < 0 || (stats.long_distance_span_1 == 0 && stats.long_distance_anchor_1 != 0))
            || (stats.long_distance_2_flag > 0 && (stats.long_distance_2_span < 0
                || (stats.long_distance_2_span == 0 && stats.long_distance_2_anchor != 0)))
            || (stats.long_distance_3_flag > 0 && (stats.long_distance_3_span < 0
                || (stats.long_distance_3_span == 0 && stats.long_distance_3_anchor != 0)))) {
            seq![("Active", 1i32, AttrUnit::Unitless)]
        } else {
            Seq::empty()
        }),
        attributes_of(Identity::OmniStrike, stats) == (if (stats.long_distance_span_1 < 0 || (stats.long_distance_span_1 == 0 && stats.long_distance_anchor_1 != 0))
            || (stats.long_distance_2_flag > 0 && (stats.long_distance_2_span < 0
                || (stats.long_distance_2_span == 0 && stats.long_distance_2_anchor != 0)))
            || (stats.long_distance_3_flag > 0 && (stats.long_distance_3_span < 0
                || (stats.long_distance_3_span == 0 && stats.long_distance_3_anchor != 0))) {
            seq![("Active", 1i32, AttrUnit::Unitless)]
        } else {
            Seq::empty()
        }),
        attributes_of(Identity::WaveAttack, stats) == (if stats.mini_wave == 0 && stats.wave_chance > 0 {
            seq![
                ("Chance", stats.wave_chance, AttrUnit::Percent),
                ("Level", stats.wave_level, AttrUnit::Unitless),
                ("Max Reach", single_reach(935, stats.wave_level as int), AttrUnit::Range),
            ]
        } else {
            Seq::empty()
        }),
        attributes_of(Identity::MiniWave, stats) == (if stats.mini_wave > 0 && stats.wave_chance > 0 {
            seq![
                ("Chance", stats.wave_chance, AttrUnit::Percent),
                ("Level", stats.wave_level, AttrUnit::Unitless),
                ("Max Reach", single_reach(935, stats.wave_level as int), AttrUnit::Range),
            ]
        } else {
            Seq::empty()
        }),
{
}

/// What the registry declares of each enemy ability: its icon in the atlas,
/// the labels and units of its attributes, and whether a raw negative one
/// stands for an unbounded count (part 1).
pub proof fn lemma_registry_declares_1()
    ensures
        icon_of(Identity::SingleAttack) == Some(img015::ICON_SINGLE_ATTACK),
        schema_of(Identity::SingleAttack) == Seq::<(&'static str, AttrUnit)>::empty(),
        unbounded_by_minus_one(Identity::SingleAttack) == false,
        icon_of(Identity::AreaAttack) == Some(img015::ICON_AREA_ATTACK),
        schema_of(Identity::AreaAttack) == Seq::<(&'static str, AttrUnit)>::empty(),
        unbounded_by_minus_one(Identity::AreaAttack) == false,
        icon_of(Identity::TypeRed) == Some(img015::ICON_TRAIT_RED),
        schema_of(Identity::TypeRed) == Seq::<(&'static str, AttrUnit)>::empty(),
        unbounded_by_minus_one(Identity::TypeRed) == false,
        icon_of(Identity::TypeFloating) == Some(img015::ICON_TRAIT_FLOATING),
        schema_of(Identity::TypeFloating) == Seq::<(&'static str, AttrUnit)>::empty(),
        unbounded_by_minus_one(Identity::TypeFloating) == false,
        icon_of(Identity::TypeDark) == Some(img015::ICON_TRAIT_BLACK),
        schema_of(Identity::TypeDark) == Seq::<(&'static str, AttrUnit)>::empty(),
        unbounded_by_minus_one(Identity::TypeDark) == false,
        icon_of(Identity::TypeMetal) == Some(img015::ICON_TRAIT_METAL),
        schema_of(Identity::TypeMetal) == Seq::<(&'static str, AttrUnit)>::empty(),
        unbounded_by_minus_one(Identity::TypeMetal) == false,
        icon_of(Identity::TypeAngel) == Some(img015::ICON_TRAIT_ANGEL),
        schema_of(Identity::TypeAngel) == Seq::<(&'static str, AttrUnit)>::empty(),
        unbounded_by_minus_one(Identity::TypeAngel) == false,
        icon_of(Identity::TypeAlien) == Some(img015::ICON_TRAIT_ALIEN),
        schema_of(Identity::TypeAlien) == Seq::<(&'static str, AttrUnit)>::empty(),
        unbounded_by_minus_one(Identity::TypeAlien) == false,
        icon_of(Identity::TypeZombie) == Some(img015::ICON_TRAIT_ZOMBIE),
        schema_of(Identity::TypeZombie) == Seq::<(&'static str, AttrUnit)>::empty(),
        unbounded_by_minus_one(Identity::TypeZombie) == false,
        icon_of(Identity::TypeRelic) == Some(img015::ICON_TRAIT_RELIC),
        schema_of(Identity::TypeRelic) == Seq::<(&'static str, AttrUnit)>::empty(),
        unbounded_by_minus_one(Identity::TypeRelic) == false,
        icon_of(Identity::TypeAku) == Some(img015::ICON_TRAIT_AKU),
        schema_of(Identity::TypeAku) == Seq::<(&'static str, AttrUnit)>::empty(),
        unbounded_by_minus_one(Identity::TypeAku) == false,
        icon_of(Identity::TypeTraitless) == Some(img015::ICON_TRAIT_TRAITLESS),
        schema_of(Identity::TypeTraitless) == Seq::<(&'static str, AttrUnit)>::empty(),
        unbounded_by_minus_one(Identity::TypeTraitless) == false,
        icon_of(Identity::TypeDojo) == None::<usize>,
        schema_of(Identity::TypeDojo) == Seq::<(&'static str, AttrUnit)>::empty(),
        unbounded_by_minus_one(Identity::TypeDojo) == false,
        icon_of(Identity::TypeStarredAlien) == None::<usize>,
        schema_of(Identity::TypeStarredAlien) == Seq::<(&'static str, AttrUnit)>::empty(),
        unbounded_by_minus_one(Identity::TypeStarredAlien) == false,
        icon_of(Identity::TypeCatGod) == None::<usize>,
        schema_of(Identity::TypeCatGod) == seq![("Type", AttrUnit::Unitless)],
        unbounded_by_minus_one(Identity::TypeCatGod) == false,
        icon_of(Identity::TypeColossus) == Some(img015::ICON_COLOSSUS),
        schema_of(Identity::TypeColossus) == Seq::<(&'static str, AttrUnit)>::empty(),
        unbounded_by_minus_one(Identity::TypeColossus) == false,
        icon_of(Identity::TypeBehemoth) == Some(img015::ICON_BEHEMOTH),
        schema_of(Identity::TypeBehemoth) == Seq::<(&'static str, AttrUnit)>::empty(),
        unbounded_by_minus_one(Identity::TypeBehemoth) == false,
        icon_of(Identity::TypeSage) == Some(img015::ICON_SAGE),
        schema_of(Identity::TypeSage) == Seq::<(&'static str, AttrUnit)>::empty(),
        unbounded_by_minus_one(Identity::TypeSage) == false,
        icon_of(Identity::TypeKaijin) == Some(img015::ICON_SUPERVILLIAN),
        schema_of(Identity::TypeKaijin) == Seq::<(&'static str, AttrUnit)>::empty(),
        unbounded_by_minus_one(Identity::TypeKaijin) == false,
        icon_of(Identity::TypeWitch) == Some(img015::ICON_WITCH),
        schema_of(Identity::TypeWitch) == Seq::<(&'static str, AttrUnit)>::empty(),
        unbounded_by_minus_one(Identity::TypeWitch) == false,
        icon_of(Identity::TypeEva) == Some(img015::ICON_EVA),
        schema_of(Identity::TypeEva) == Seq::<(&'static str, AttrUnit)>::empty(),
        unbounded_by_minus_one(Identity::TypeEva) == false,
        icon_of(Identity::Kamikaze) == None::<usize>,
        schema_of(Identity::Kamikaze) == seq![("Attacks", AttrUnit::Unitless)],
        unbounded_by_minus_one(Identity::Kamikaze) == false,
        icon_of(Identity::Stop) == None::<usize>,
        schema_of(Identity::Stop) == seq![("Attacks", AttrUnit::Unitless)],
        unbounded_by_minus_one(Identity::Stop) == false,
        icon_of(Identity::BaseDestroyer) == Some(img015::ICON_BASE_DESTROYER),
        schema_of(Identity::BaseDestroyer) == Seq::<(&'static str, AttrUnit)>::empty(),
        unbounded_by_minus_one(Identity::BaseDestroyer) == false,
        icon_of(Identity::WaveBlock) == Some(img015::ICON_WAVE_BLOCK),
        schema_of(Identity::WaveBlock) == Seq::<(&'static str, AttrUnit)>::empty(),
        unbounded_by_minus_one(Identity::WaveBlock) == false,
{
}

/// What the registry declares of each enemy ability: its icon in the atlas,
/// the labels and units of its attributes, and whether a raw negative one
/// stands for an unbounded count (part 2).
pub proof fn lemma_registry_declares_2()
    ensures
        icon_of(Identity::MultiHit) == None::<usize>,
        schema_of(Identity::MultiHit) == Seq::<(&'static str, AttrUnit)>::empty(),
        unbounded_by_minus_one(Identity::MultiHit) == false,
        icon_of(Identity::LongDistance) == Some(img015::ICON_LONG_DISTANCE),
        schema_of(Identity::LongDistance) == Seq::<(&'static str, AttrUnit)>::empty(),
        unbounded_by_minus_one(Identity::LongDistance) == false,
        icon_of(Identity::OmniStrike) == Some(img015::ICON_OMNI_STRIKE),
        schema_of(Identity::OmniStrike) == Seq::<(&'static str, AttrUnit)>::empty(),
        unbounded_by_minus_one(Identity::OmniStrike) == false,
        icon_of(Identity::WaveAttack) == Some(img015::ICON_WAVE),
        schema_of(Identity::WaveAttack) == seq![("Chance", AttrUnit::Percent), ("Level", AttrUnit::Unitless), ("Max Reach", AttrUnit::Range)],
        unbounded_by_minus_one(Identity::WaveAttack) == false,
        icon_of(Identity::MiniWave) == Some(img015::ICON_MINI_WAVE),
        schema_of(Identity::MiniWave) == seq![("Chance", AttrUnit::Percent), ("Level", AttrUnit::Unitless), ("Max Reach", AttrUnit::Range)],
        unbounded_by_minus_one(Identity::MiniWave) == false,
        icon_of(Identity::SurgeAttack) == Some(img015::ICON_SURGE),
        schema_of(Identity::SurgeAttack) == seq![("Chance", AttrUnit::Percent), ("Level", AttrUnit::Unitless), ("Min Range", AttrUnit::Range), ("Max Range", AttrUnit::Range), ("Width", AttrUnit::Range)],
        unbounded_by_minus_one(Identity::SurgeAttack) == false,
        icon_of(Identity::MiniSurge) == Some(img015::ICON_MINI_SURGE),
        schema_of(Identity::MiniSurge) == seq![("Chance", AttrUnit::Percent), ("Level", AttrUnit::Unitless), ("Min Range", AttrUnit::Range), ("Max Range", AttrUnit::Range), ("Width", AttrUnit::Range)],
        unbounded_by_minus_one(Identity::MiniSurge) == false,
        icon_of(Identity::DeathSurge) == Some(img015::ICON_DEATH_SURGE),
        schema_of(Identity::DeathSurge) == seq![("Chance", AttrUnit::Percent), ("Level", AttrUnit::Unitless), ("Min Range", AttrUnit::Range), ("Max Range", AttrUnit::Range), ("Width", AttrUnit::Range)],
        unbounded_by_minus_one(Identity::DeathSurge) == false,
        icon_of(Identity::Explosion) == Some(img015::ICON_EXPLOSION),
        schema_of(Identity::Explosion) == seq![("Chance", AttrUnit::Percent), ("Min Range", AttrUnit::Range), ("Max Range", AttrUnit::Range), ("Width", AttrUnit::Range)],
        unbounded_by_minus_one(Identity::Explosion) == false,
        icon_of(Identity::CriticalHit) == Some(img015::ICON_CRITICAL_HIT),
        schema_of(Identity::CriticalHit) == seq![("Chance", AttrUnit::Percent)],
        unbounded_by_minus_one(Identity::CriticalHit) == false,
        icon_of(Identity::SavageBlow) == Some(img015::ICON_SAVAGE_BLOW),
        schema_of(Identity::SavageBlow) == seq![("Chance", AttrUnit::Percent), ("Boost", AttrUnit::Percent)],
        unbounded_by_minus_one(Identity::SavageBlow) == false,
        icon_of(Identity::Strengthen) == Some(img015::ICON_STRENGTHEN),
        schema_of(Identity::Strengthen) == seq![("HP", AttrUnit::Percent), ("Boost", AttrUnit::Percent)],
        unbounded_by_minus_one(Identity::Strengthen) == false,
        icon_of(Identity::Survive) == Some(img015::ICON_SURVIVE),
        schema_of(Identity::Survive) == seq![("Chance", AttrUnit::Percent)],
        unbounded_by_minus_one(Identity::Survive) == false,
        icon_of(Identity::Barrier) == Some(img015::ICON_BARRIER),
        schema_of(Identity::Barrier) == seq![("Hitpoints", AttrUnit::Unitless)],
        unbounded_by_minus_one(Identity::Barrier) == false,
        icon_of(Identity::AkuShield) == Some(img015::ICON_SHIELD),
        schema_of(Identity::AkuShield) == seq![("Hitpoints", AttrUnit::Unitless), ("Regen", AttrUnit::Percent)],
        unbounded_by_minus_one(Identity::AkuShield) == false,
        icon_of(Identity::Burrow) == None::<usize>,
        schema_of(Identity::Burrow) == seq![("Count", AttrUnit::Unitless), ("Distance", AttrUnit::Range)],
        unbounded_by_minus_one(Identity::Burrow) == true,
        icon_of(Identity::Revive) == None::<usize>,
        schema_of(Identity::Revive) == seq![("Count", AttrUnit::Unitless), ("Duration", AttrUnit::Frames), ("Hitpoints", AttrUnit::Percent)],
        unbounded_by_minus_one(Identity::Revive) == true,
        icon_of(Identity::Toxic) == Some(img015::ICON_TOXIC),
        schema_of(Identity::Toxic) == seq![("Chance", AttrUnit::Percent), ("Damage", AttrUnit::Percent)],
        unbounded_by_minus_one(Identity::Toxic) == false,
        icon_of(Identity::Drain) == Some(img015::ICON_DRAIN),
        schema_of(Identity::Drain) == seq![("Chance", AttrUnit::Percent), ("Amount", AttrUnit::Percent)],
        unbounded_by_minus_one(Identity::Drain) == false,
        icon_of(Identity::Dodge) == Some(img015::ICON_DODGE),
        schema_of(Identity::Dodge) == seq![("Chance", AttrUnit::Percent), ("Duration", AttrUnit::Frames)],
        unbounded_by_minus_one(Identity::Dodge) == false,
        icon_of(Identity::Weaken) == Some(img015::ICON_WEAKEN),
        schema_of(Identity::Weaken) == seq![("Chance", AttrUnit::Percent), ("Reduced To", AttrUnit::Percent), ("Duration", AttrUnit::Frames)],
        unbounded_by_minus_one(Identity::Weaken) == false,
        icon_of(Identity::Freeze) == Some(img015::ICON_FREEZE),
        schema_of(Identity::Freeze) == seq![("Chance", AttrUnit::Percent), ("Duration", AttrUnit::Frames)],
        unbounded_by_minus_one(Identity::Freeze) == false,
        icon_of(Identity::Slow) == Some(img015::ICON_SLOW),
        schema_of(Identity::Slow) == seq![("Chance", AttrUnit::Percent), ("Duration", AttrUnit::Frames)],
        unbounded_by_minus_one(Identity::Slow) == false,
        icon_of(Identity::Knockback) == Some(img015::ICON_KNOCKBACK),
        schema_of(Identity::Knockback) == seq![("Chance", AttrUnit::Percent)],
        unbounded_by_minus_one(Identity::Knockback) == false,
        icon_of(Identity::Curse) == Some(img015::ICON_CURSE),
        schema_of(Identity::Curse) == seq![("Chance", AttrUnit::Percent), ("Duration", AttrUnit::Frames)],
        unbounded_by_minus_one(Identity::Curse) == false,
{
}

/// What the registry declares of each enemy ability: its icon in the atlas,
/// the labels and units of its attributes, and whether a raw negative one
/// stands for an unbounded count (part 3).
pub proof fn lemma_registry_declares_3()
    ensures
        icon_of(Identity::Warp) == Some(img015::ICON_WARP),
        schema_of(Identity::Warp) == seq![("Chance", AttrUnit::Percent), ("Duration", AttrUnit::Frames), ("Min Distance", AttrUnit::Range), ("Max Distance", AttrUnit::Range)],
        unbounded_by_minus_one(Identity::Warp) == false,
        icon_of(Identity::Unknown) == None::<usize>,
        schema_of(Identity::Unknown) == Seq::<(&'static str, AttrUnit)>::empty(),
        unbounded_by_minus_one(Identity::Unknown) == false,
        icon_of(Identity::ImmuneWave) == Some(img015::ICON_IMMUNE_WAVE),
        schema_of(Identity::ImmuneWave) == Seq::<(&'static str, AttrUnit)>::empty(),
        unbounded_by_minus_one(Identity::ImmuneWave) == false,
        icon_of(Identity::ImmuneSurge) == Some(img015::ICON_IMMUNE_SURGE),
        schema_of(Identity::ImmuneSurge) == Seq::<(&'static str, AttrUnit)>::empty(),
        unbounded_by_minus_one(Identity::ImmuneSurge) == false,
        icon_of(Identity::ImmuneExplosion) == Some(img015::ICON_IMMUNE_EXPLOSION),
        schema_of(Identity::ImmuneExplosion) == Seq::<(&'static str, AttrUnit)>::empty(),
        unbounded_by_minus_one(Identity::ImmuneExplosion) == false,
        icon_of(Identity::ImmuneWeaken) == Some(img015::ICON_IMMUNE_WEAKEN),
        schema_of(Identity::ImmuneWeaken) == Seq::<(&'static str, AttrUnit)>::empty(),
        unbounded_by_minus_one(Identity::ImmuneWeaken) == false,
        icon_of(Identity::ImmuneFreeze) == Some(img015::ICON_IMMUNE_FREEZE),
        schema_of(Identity::ImmuneFreeze) == Seq::<(&'static str, AttrUnit)>::empty(),
        unbounded_by_minus_one(Identity::ImmuneFreeze) == false,
        icon_of(Identity::ImmuneSlow) == Some(img015::ICON_IMMUNE_SLOW),
        schema_of(Identity::ImmuneSlow) == Seq::<(&'static str, AttrUnit)>::empty(),
        unbounded_by_minus_one(Identity::ImmuneSlow) == false,
        icon_of(Identity::ImmuneKnockback) == Some(img015::ICON_IMMUNE_KNOCKBACK),
        schema_of(Identity::ImmuneKnockback) == Seq::<(&'static str, AttrUnit)>::empty(),
        unbounded_by_minus_one(Identity::ImmuneKnockback) == false,
        icon_of(Identity::ImmuneCurse) == Some(img015::ICON_IMMUNE_CURSE),
        schema_of(Identity::ImmuneCurse) == Seq::<(&'static str, AttrUnit)>::empty(),
        unbounded_by_minus_one(Identity::ImmuneCurse) == false,
        icon_of(Identity::ImmuneWarp) == Some(img015::ICON_IMMUNE_WARP),
        schema_of(Identity::ImmuneWarp) == Seq::<(&'static str, AttrUnit)>::empty(),
        unbounded_by_minus_one(Identity::ImmuneWarp) == false,
        icon_of(Identity::CounterSurge) == Some(img015::ICON_COUNTER_SURGE),
        schema_of(Identity::CounterSurge) == Seq::<(&'static str, AttrUnit)>::empty(),
        unbounded_by_minus_one(Identity::CounterSurge) == false,
{
}

/// The registry lists the enemy abilities in the order the original table declares them.
pub proof fn lemma_registry_order()
    ensures
        registry_order() == seq![Identity::SingleAttack, Identity::AreaAttack, Identity::TypeRed, Identity::TypeFloating, Identity::TypeDark, Identity::TypeMetal, Identity::TypeAngel, Identity::TypeAlien, Identity::TypeZombie, Identity::TypeRelic, Identity::TypeAku, Identity::TypeTraitless, Identity::TypeDojo, Identity::TypeStarredAlien, Identity::TypeCatGod, Identity::TypeColossus, Identity::TypeBehemoth, Identity::TypeSage, Identity::TypeKaijin, Identity::TypeWitch, Identity::TypeEva, Identity::Kamikaze, Identity::Stop, Identity::BaseDestroyer, Identity::WaveBlock, Identity::MultiHit, Identity::LongDistance, Identity::OmniStrike, Identity::WaveAttack, Identity::MiniWave, Identity::SurgeAttack, Identity::MiniSurge, Identity::DeathSurge, Identity::Explosion, Identity::CriticalHit, Identity::SavageBlow, Identity::Strengthen, Identity::Survive, Identity::Barrier, Identity::AkuShield, Identity::Burrow, Identity::Revive, Identity::Toxic, Identity::Drain, Identity::Dodge, Identity::Weaken, Identity::Freeze, Identity::Slow, Identity::Knockback, Identity::Curse, Identity::Warp, Identity::Unknown, Identity::ImmuneWave, Identity::ImmuneSurge, Identity::ImmuneExplosion, Identity::ImmuneWeaken, Identity::ImmuneFreeze, Identity::ImmuneSlow, Identity::ImmuneKnockback, Identity::ImmuneCurse, Identity::ImmuneWarp, Identity::CounterSurge],
{
}

} // verus!
