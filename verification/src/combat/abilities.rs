//! Recognition of combat abilities from raw statistic columns.
//!
//! The engine does not name a unit's abilities anywhere. Each ability is a
//! pattern across one or more statistic columns, and recognizing it means
//! knowing which columns to read and how to interpret their sentinels. This
//! module holds that knowledge as a registry.

use vstd::prelude::*;

use crate::common::columns::Scale;
use crate::common::data::img015;
use crate::common::precision::{single_reach, wave_reach_for};
use super::entity::{Entity, Faction};

verus! {

/// The unit an ability attribute's value is expressed in.
///
/// Attribute values are bare integers whose meaning depends on their source
/// column; this tag travels alongside so a caller can render them correctly.
#[derive(PartialEq, Eq, Structural, Clone, Copy, Debug, Hash)]
pub enum AttrUnit {
    /// A bare count or flag carrying no unit.
    Unitless,
    /// A percentage.
    Percent,
    /// A duration in frames, at thirty frames per second.
    Frames,
    /// A distance in engine distance units.
    Range,
}

/// An ability attribute's value, which may be unbounded.
///
/// Some columns use a negative value to mean the effect never expires rather
/// than a negative quantity.
#[derive(PartialEq, Eq, Structural, Clone, Copy, Debug, Hash)]
pub enum AttrValue {
    /// A bounded value, stored exactly as the engine records it.
    Finite(i32),
    /// An unbounded value, produced by the engine's negative sentinel.
    Infinite,
}

/// The value a raw column with a negative unbounded sentinel stands for.
pub open spec fn sentinel_value(raw: i32) -> AttrValue {
    if raw < 0 { AttrValue::Infinite } else { AttrValue::Finite(raw) }
}

impl AttrValue {
    /// Interprets a raw column value that uses a negative unbounded sentinel:
    /// `Infinite` when the raw value is negative, and `Finite` carrying the
    /// raw value otherwise.
    pub fn from_sentinel(raw: i32) -> (r: Self)
        ensures
            r == sentinel_value(raw),
    {
        if raw < 0 { AttrValue::Infinite } else { AttrValue::Finite(raw) }
    }
}

impl From<i32> for AttrValue {
    fn from(raw: i32) -> (r: Self) {
        AttrValue::Finite(raw)
    }
}

impl vstd::std_specs::convert::FromSpecImpl<i32> for AttrValue {
    open spec fn obeys_from_spec() -> bool {
        true
    }

    open spec fn from_spec(raw: i32) -> Self {
        AttrValue::Finite(raw)
    }
}

/// One named, unit-tagged quantity describing part of an ability's effect.
///
/// The three elements are the attribute's display label, its value, and the
/// unit that value is expressed in.
pub type Attribute = (&'static str, AttrValue, AttrUnit);

/// The relation between the number a talent declares and the number stored on the entity.
///
/// A few talents record the complement of the quantity they describe, so the
/// stored field and the declared value are not the same number.
#[derive(PartialEq, Eq, Structural, Clone, Copy, Debug, Hash)]
pub enum Stored {
    /// The declared value is stored unchanged.
    Direct,
    /// The declared value is subtracted from the carried base before it is stored.
    Inverted(i32),
}

/// The number an entity carries for a declared talent value.
pub open spec fn stored_value(stored: Stored, value: int) -> int {
    match stored {
        Stored::Direct => value,
        Stored::Inverted(base) => base - value,
    }
}

impl Stored {
    /// Converts a declared talent value into the number the entity carries.
    pub fn apply(self, value: i32) -> (r: i32)
        requires
            i32::MIN <= stored_value(self, value as int) <= i32::MAX,
        ensures
            r == stored_value(self, value as int),
    {
        match self {
            Stored::Direct => value,
            Stored::Inverted(base) => base - value,
        }
    }
}

/// Storing a value through an inverted pair and storing the result through
/// the same pair again gives the declared value back.
pub proof fn lemma_inverted_pair_round_trips(base: i32, value: i32)
    ensures
        stored_value(Stored::Inverted(base), stored_value(Stored::Inverted(base), value as int)) == value,
{
}

/// The meaning of one `(min, max)` value pair a talent group declares.
///
/// The talent acquisition table gives every talent group four such pairs and
/// names none of them. This describes one pair by its position: what it
/// measures, and what the engine does to it on the way into [`Entity`]. It is
/// a different list from [`Ability::schema`], which describes the attributes
/// an ability yields rather than the values a talent stores.
#[derive(PartialEq, Eq, Clone, Copy, Debug, Hash)]
pub struct TalentValue {
    /// What this pair measures.
    pub label: &'static str,
    /// The unit the pair is expressed in.
    pub unit: AttrUnit,
    /// Whether the pair is interpolated across the talent's levels, which is false when only its minimum is read.
    pub interpolated: bool,
    /// The conversion applied to the pair on the way into the entity.
    pub scale: Scale,
    /// The relation between the declared value and the stored one.
    pub stored: Stored,
}

/// A value pair measuring `label` in `unit`, interpolated across the levels,
/// stored raw and unchanged.
pub open spec fn pair(label: &'static str, unit: AttrUnit) -> TalentValue {
    TalentValue { label, unit, interpolated: true, scale: Scale::Raw, stored: Stored::Direct }
}

/// A value pair of which only the minimum is read.
pub open spec fn at_minimum(value: TalentValue) -> TalentValue {
    TalentValue { interpolated: false, ..value }
}

/// A value pair converted by `scale` on its way into the entity.
pub open spec fn scaled_by(value: TalentValue, scale: Scale) -> TalentValue {
    TalentValue { scale, ..value }
}

/// A value pair stored as its complement from `base`.
pub open spec fn inverted_from(value: TalentValue, base: i32) -> TalentValue {
    TalentValue { stored: Stored::Inverted(base), ..value }
}

impl TalentValue {
    fn new(label: &'static str, unit: AttrUnit) -> (r: Self)
        ensures
            r == pair(label, unit),
    {
        TalentValue { label, unit, interpolated: true, scale: Scale::Raw, stored: Stored::Direct }
    }

    fn minimum(self) -> (r: Self)
        ensures
            r == at_minimum(self),
    {
        TalentValue { interpolated: false, ..self }
    }

    fn scaled(self, scale: Scale) -> (r: Self)
        ensures
            r == scaled_by(self, scale),
    {
        TalentValue { scale, ..self }
    }

    fn inverted(self, base: i32) -> (r: Self)
        ensures
            r == inverted_from(self, base),
    {
        TalentValue { stored: Stored::Inverted(base), ..self }
    }
}

/// Identifies a distinct combat ability.
///
/// No single column names an ability, so this supplies the stable identifier the
/// registry and its lookups are keyed by.
#[derive(PartialEq, Eq, Structural, Hash, Clone, Copy, Debug)]
#[non_exhaustive]
pub enum Identity {
    /// Damages only the first target within the hitbox.
    SingleAttack,
    /// Damages every target within the hitbox.
    AreaAttack,
    /// Attacks in a sequence of two or three separate hits.
    MultiHit,
    /// Attacks a band of ground at a distance rather than at contact range.
    LongDistance,
    /// Attacks a band extending behind the unit as well as in front.
    OmniStrike,
    /// Carries the Red trait.
    TraitRed,
    /// Carries the Floating trait.
    TraitFloating,
    /// Carries the Black trait.
    TraitDark,
    /// Carries the Metal trait.
    TraitMetal,
    /// Carries the Traitless trait.
    TraitTraitless,
    /// Carries the Angel trait.
    TraitAngel,
    /// Carries the Alien trait.
    TraitAlien,
    /// Carries the Zombie trait.
    TraitZombie,
    /// Carries the Witch trait.
    TraitWitch,
    /// Carries the Eva Angel trait.
    TraitEva,
    /// Carries the Relic trait.
    TraitRelic,
    /// Carries the Aku trait.
    TraitAku,
    /// Carries the Dojo trait.
    TraitDojo,
    /// Carries the Starred Alien trait.
    TraitStarredAlien,
    /// Carries the Cat God trait.
    TraitCatGod,
    /// Carries the Behemoth trait.
    TraitBehemoth,
    /// Carries the Colossus trait.
    TraitColossus,
    /// Carries the Sage trait.
    TraitSage,
    /// Carries the Kaijin trait.
    TraitKaijin,
    /// Attacks without blocking the advance of opponents.
    AttackOnly,
    /// Deals increased damage to, and takes reduced damage from, its target traits.
    StrongAgainst,
    /// Deals substantially increased damage to its target traits.
    MassiveDamage,
    /// Deals the highest tier of increased damage to its target traits.
    InsaneDamage,
    /// Takes reduced damage from its target traits.
    Resist,
    /// Takes the highest tier of reduced damage from its target traits.
    InsanelyTough,
    /// Takes one damage from every hit except critical hits.
    IsMetal,
    /// Yields twice the ordinary currency when defeated.
    DoubleBounty,
    /// Deals increased damage to Zombie targets and prevents their revival.
    ZombieKiller,
    /// Strikes Zombie targets while they are burrowed.
    Soulstrike,
    /// Deals increased damage to, and takes reduced damage from, Colossus targets.
    ColossusSlayer,
    /// Deals increased damage to, and takes reduced damage from, Sage targets.
    SageSlayer,
    /// Deals increased damage to Behemoth targets and may evade their attacks.
    BehemothSlayer,
    /// Deals increased damage to, and takes reduced damage from, Witch targets.
    WitchKiller,
    /// Deals increased damage to, and takes reduced damage from, Eva Angel targets.
    EvaKiller,
    /// Deals damage proportional to a Metal target's maximum health.
    MetalKiller,
    /// Destroys a target's barrier outright.
    BarrierBreaker,
    /// Ignores a target's shield.
    ShieldPiercer,
    /// Summons a spirit copy of another unit.
    Conjure,
    /// Deals increased damage to bases.
    BaseDestroyer,
    /// Is removed from the field after attacking once.
    Kamikaze,
    /// Halts rather than attacking.
    Stop,
    /// Ignores shockwaves and prevents them passing further.
    WaveBlock,
    /// Retaliates against surges that strike it.
    CounterSurge,
    /// Emits a shockwave that travels along the ground on attack.
    WaveAttack,
    /// Emits a shockwave dealing reduced damage on attack.
    MiniWave,
    /// Creates a surge at a distant point on attack.
    SurgeAttack,
    /// Creates a surge dealing reduced damage on attack.
    MiniSurge,
    /// Creates an explosion at a distant point on attack.
    Explosion,
    /// Occasionally deals a substantial bonus strike.
    SavageBlow,
    /// Occasionally deals doubled damage that also affects Metal targets.
    CriticalHit,
    /// Gains increased attack once its health falls below a threshold.
    Strengthen,
    /// Occasionally survives a lethal hit with one health remaining.
    Survive,
    /// Occasionally becomes briefly invulnerable to its target traits.
    Dodge,
    /// Occasionally reduces a target's attack power for a period.
    Weaken,
    /// Occasionally immobilizes a target for a period.
    Freeze,
    /// Occasionally reduces a target's movement and attack rate for a period.
    Slow,
    /// Occasionally repels a target backwards.
    Knockback,
    /// Occasionally suppresses a target's trait-based abilities for a period.
    Curse,
    /// Occasionally displaces a target backwards and immobilizes it.
    Warp,
    /// An ability the source row implies but this crate does not recognize.
    Unknown,
    /// Carries a barrier absorbing damage until it is broken.
    Barrier,
    /// Carries an Aku shield absorbing damage until it is broken.
    AkuShield,
    /// Travels beneath attacks for part of its approach.
    Burrow,
    /// Returns to the field after being defeated.
    Revive,
    /// Occasionally deals damage proportional to a target's maximum health.
    Toxic,
    /// Restores health proportional to the damage it deals.
    Drain,
    /// Creates a surge at a distant point when defeated.
    DeathSurge,
    /// Is wholly unaffected by shockwaves.
    ImmuneWave,
    /// Is wholly unaffected by surges.
    ImmuneSurge,
    /// Is wholly unaffected by explosions.
    ImmuneExplosion,
    /// Is wholly unaffected by the weaken effect.
    ImmuneWeaken,
    /// Is wholly unaffected by the freeze effect.
    ImmuneFreeze,
    /// Is wholly unaffected by the slow effect.
    ImmuneSlow,
    /// Is wholly unaffected by knockback.
    ImmuneKnockback,
    /// Is wholly unaffected by the curse effect.
    ImmuneCurse,
    /// Is wholly unaffected by toxic damage.
    ImmuneToxic,
    /// Is wholly unaffected by drain effects.
    ImmuneDrain,
    /// Is wholly unaffected by the warp effect.
    ImmuneWarp,
    /// Is wholly unaffected by the boss wave knockback.
    ImmuneBossWave,
    /// Has the duration or strength of the weaken effect reduced against it.
    ResistWeaken,
    /// Has the duration or strength of the freeze effect reduced against it.
    ResistFreeze,
    /// Has the duration or strength of the slow effect reduced against it.
    ResistSlow,
    /// Has the duration or strength of knockback reduced against it.
    ResistKnockback,
    /// Has the duration or strength of shockwaves reduced against it.
    ResistWave,
    /// Has the duration or strength of the warp effect reduced against it.
    ResistWarp,
    /// Has the duration or strength of the curse effect reduced against it.
    ResistCurse,
    /// Has the duration or strength of toxic damage reduced against it.
    ResistToxic,
    /// Has the duration or strength of surges reduced against it.
    ResistSurge,
    /// Reduces its own deployment cost.
    CostDown,
    /// Reduces its own redeployment delay.
    RecoverSpeedUp,
    /// Increases its own movement rate.
    MoveSpeedUp,
    /// Increases its own attack power.
    AttackBuff,
    /// Increases its own health pool.
    HealthBuff,
    /// Reduces its own delay between attacks.
    TbaDown,
    /// Increases the number of times it may be repelled before being defeated.
    ImproveKnockbacks,
    /// Lingers on the field for a delay after being defeated before its corpse is removed.
    TimeBeforeDeath,
}

/// The complete definition of one combat ability.
///
/// An ability is a pattern across several statistic columns rather than a
/// stored value; [`Ability::attributes`] reads that pattern from an entity.
#[derive(Debug, Clone)]
pub struct Ability {
    /// The stable identifier this ability is keyed by.
    pub identity: Identity,
    /// The talent identifier that grants this ability, when it can be granted as a talent.
    pub talent_id: Option<u8>,
    /// The sprite index of this ability's icon in the `img015` atlas, when it has one.
    pub icon_id: Option<usize>,
    /// The ability's display name.
    pub name: &'static str,
    /// The ability's explanatory text.
    pub description: &'static str,
    /// The labels and units of the attributes `attributes` produces, in the same order.
    pub schema: Vec<(&'static str, AttrUnit)>,
    /// One entry per `(min, max)` value pair a talent granting this ability consumes, in pair order.
    pub talent_values: Vec<TalentValue>,
    /// Whether this ability can be applied to an entity as a talent upgrade.
    pub applies_talent: bool,
}

/// Whether an ability value is the registry's definition of an identity.
pub open spec fn describes(ability: Ability, identity: Identity) -> bool {
    &&& ability.identity == identity
    &&& ability.talent_id == talent_of(identity)
    &&& ability.icon_id == icon_of(identity)
    &&& ability.name == ""
    &&& ability.description == ""
    &&& ability.schema@ == schema_of(identity)
    &&& ability.talent_values@ == talent_values_of(identity)
    &&& ability.applies_talent == applies_as_talent(identity)
}

/// The single attribute marking an ability as present.
pub open spec fn active_attrs() -> Seq<Attribute> {
    seq![("Active", AttrValue::Finite(1), AttrUnit::Unitless)]
}

/// The attributes of an ability recorded by a flag column: present when the
/// flag is positive.
pub open spec fn flag_attrs(raw: i32) -> Seq<Attribute> {
    if raw > 0 { active_attrs() } else { Seq::empty() }
}

fn active() -> (r: Vec<Attribute>)
    ensures
        r@ == active_attrs(),
{
    vec![("Active", AttrValue::Finite(1), AttrUnit::Unitless)]
}

fn flag(raw: i32) -> (r: Vec<Attribute>)
    ensures
        r@ == flag_attrs(raw),
{
    if raw > 0 { active() } else { Vec::new() }
}

/// Whether any of an entity's hits reaches behind it: a first hit of negative
/// span, or of zero span away from the unit, or such an enabled second or third hit.
pub open spec fn has_omni_spec(stats: Entity) -> bool {
    (stats.long_distance_1_span < 0 || (stats.long_distance_1_span == 0 && stats.long_distance_1_anchor != 0))
        || (stats.long_distance_2_flag > 0 && (stats.long_distance_2_span < 0 || (stats.long_distance_2_span == 0
        && stats.long_distance_2_anchor != 0)))
        || (stats.long_distance_3_flag > 0 && (stats.long_distance_3_span < 0 || (stats.long_distance_3_span == 0
        && stats.long_distance_3_anchor != 0)))
}

/// Whether any of an entity's hits strikes a band at a distance: one of
/// positive span among the first hit and the enabled second and third.
pub open spec fn has_long_distance_spec(stats: Entity) -> bool {
    (stats.long_distance_1_span > 0)
        || (stats.long_distance_2_flag > 0 && stats.long_distance_2_span > 0)
        || (stats.long_distance_3_flag > 0 && stats.long_distance_3_span > 0)
}

fn has_omni(stats: &Entity) -> (r: bool)
    ensures
        r == has_omni_spec(*stats),
{
    (stats.long_distance_1_span < 0 || (stats.long_distance_1_span == 0 && stats.long_distance_1_anchor != 0))
        || (stats.long_distance_2_flag > 0 && (stats.long_distance_2_span < 0 || (stats.long_distance_2_span == 0
        && stats.long_distance_2_anchor != 0)))
        || (stats.long_distance_3_flag > 0 && (stats.long_distance_3_span < 0 || (stats.long_distance_3_span == 0
        && stats.long_distance_3_anchor != 0)))
}

fn has_long_distance(stats: &Entity) -> (r: bool)
    ensures
        r == has_long_distance_spec(*stats),
{
    (stats.long_distance_1_span > 0)
        || (stats.long_distance_2_flag > 0 && stats.long_distance_2_span > 0)
        || (stats.long_distance_3_flag > 0 && stats.long_distance_3_span > 0)
}

/// Twice the reach of the first wave: 665 for a cat, 935 for an enemy.
pub open spec fn twice_wave_base(faction: Faction) -> int {
    match faction {
        Faction::Cat => 665,
        Faction::Enemy => 935,
    }
}

/// How far a wave reaches: the first wave's reach plus two hundred for each
/// level past the first, computed in single precision as the engine does.
pub open spec fn wave_reach_of(stats: Entity) -> i32 {
    single_reach(twice_wave_base(stats.faction), stats.wave_level as int)
}

fn wave_reach(stats: &Entity) -> (r: i32)
    requires
        stats.wave_level > i32::MIN,
    ensures
        r == wave_reach_of(*stats),
{
    let base: i64 = match stats.faction {
        Faction::Cat => 665,
        Faction::Enemy => 935,
    };
    wave_reach_for(base, stats.wave_level)
}

/// The entities whose attributes an ability can be read from: the sums a
/// range attribute adds must fit an `i32`, and a wave's level must have a
/// predecessor.
pub open spec fn attributes_defined(identity: Identity, stats: Entity) -> bool {
    match identity {
        Identity::WaveAttack => stats.mini_wave_flag == 0 && stats.wave_chance > 0 ==> stats.wave_level > i32::MIN,
        Identity::MiniWave => stats.mini_wave_flag > 0 && stats.wave_chance > 0 ==> stats.wave_level > i32::MIN,
        Identity::SurgeAttack => stats.mini_surge_flag == 0 && stats.surge_chance > 0
            ==> i32::MIN <= stats.surge_spawn_anchor + stats.surge_spawn_span <= i32::MAX,
        Identity::MiniSurge => stats.mini_surge_flag > 0 && stats.surge_chance > 0
            ==> i32::MIN <= stats.surge_spawn_anchor + stats.surge_spawn_span <= i32::MAX,
        Identity::Explosion => stats.explosion_chance > 0
            ==> i32::MIN <= stats.explosion_spawn_anchor + stats.explosion_spawn_span <= i32::MAX,
        Identity::DeathSurge => stats.death_surge_chance > 0
            ==> i32::MIN <= stats.death_surge_spawn_anchor + stats.death_surge_spawn_span <= i32::MAX,
        _ => true,
    }
}

/// The abilities the registry holds, in registry order.
pub open spec fn registry_order() -> Seq<Identity> {
    seq![
        Identity::SingleAttack,
        Identity::AreaAttack,
        Identity::MultiHit,
        Identity::LongDistance,
        Identity::OmniStrike,
        Identity::TraitRed,
        Identity::TraitFloating,
        Identity::TraitDark,
        Identity::TraitMetal,
        Identity::TraitAngel,
        Identity::TraitAlien,
        Identity::TraitZombie,
        Identity::TraitRelic,
        Identity::TraitAku,
        Identity::TraitTraitless,
        Identity::TraitWitch,
        Identity::TraitEva,
        Identity::TraitDojo,
        Identity::TraitStarredAlien,
        Identity::TraitCatGod,
        Identity::TraitColossus,
        Identity::TraitBehemoth,
        Identity::TraitSage,
        Identity::TraitKaijin,
        Identity::AttackOnly,
        Identity::StrongAgainst,
        Identity::MassiveDamage,
        Identity::InsaneDamage,
        Identity::Resist,
        Identity::InsanelyTough,
        Identity::IsMetal,
        Identity::DoubleBounty,
        Identity::ZombieKiller,
        Identity::Soulstrike,
        Identity::ColossusSlayer,
        Identity::SageSlayer,
        Identity::BehemothSlayer,
        Identity::WitchKiller,
        Identity::EvaKiller,
        Identity::MetalKiller,
        Identity::BarrierBreaker,
        Identity::ShieldPiercer,
        Identity::Conjure,
        Identity::BaseDestroyer,
        Identity::Kamikaze,
        Identity::Stop,
        Identity::WaveBlock,
        Identity::CounterSurge,
        Identity::WaveAttack,
        Identity::MiniWave,
        Identity::SurgeAttack,
        Identity::MiniSurge,
        Identity::Explosion,
        Identity::SavageBlow,
        Identity::CriticalHit,
        Identity::Strengthen,
        Identity::Survive,
        Identity::Dodge,
        Identity::Weaken,
        Identity::Freeze,
        Identity::Slow,
        Identity::Knockback,
        Identity::Curse,
        Identity::Warp,
        Identity::Unknown,
        Identity::Barrier,
        Identity::AkuShield,
        Identity::Burrow,
        Identity::Revive,
        Identity::Toxic,
        Identity::Drain,
        Identity::DeathSurge,
        Identity::ImmuneWave,
        Identity::ImmuneSurge,
        Identity::ImmuneExplosion,
        Identity::ImmuneWeaken,
        Identity::ImmuneFreeze,
        Identity::ImmuneSlow,
        Identity::ImmuneKnockback,
        Identity::ImmuneCurse,
        Identity::ImmuneWarp,
        Identity::ImmuneToxic,
        Identity::ImmuneDrain,
        Identity::ImmuneBossWave,
        Identity::ResistWeaken,
        Identity::ResistFreeze,
        Identity::ResistSlow,
        Identity::ResistKnockback,
        Identity::ResistWave,
        Identity::ResistWarp,
        Identity::ResistCurse,
        Identity::ResistToxic,
        Identity::ResistSurge,
        Identity::CostDown,
        Identity::RecoverSpeedUp,
        Identity::MoveSpeedUp,
        Identity::AttackBuff,
        Identity::HealthBuff,
        Identity::TbaDown,
        Identity::ImproveKnockbacks,
        Identity::TimeBeforeDeath,
    ]
}

/// The abilities the registry holds, in registry order.
fn registry_identities() -> (r: Vec<Identity>)
    ensures
        r@ == registry_order(),
{
    vec![
        Identity::SingleAttack,
        Identity::AreaAttack,
        Identity::MultiHit,
        Identity::LongDistance,
        Identity::OmniStrike,
        Identity::TraitRed,
        Identity::TraitFloating,
        Identity::TraitDark,
        Identity::TraitMetal,
        Identity::TraitAngel,
        Identity::TraitAlien,
        Identity::TraitZombie,
        Identity::TraitRelic,
        Identity::TraitAku,
        Identity::TraitTraitless,
        Identity::TraitWitch,
        Identity::TraitEva,
        Identity::TraitDojo,
        Identity::TraitStarredAlien,
        Identity::TraitCatGod,
        Identity::TraitColossus,
        Identity::TraitBehemoth,
        Identity::TraitSage,
        Identity::TraitKaijin,
        Identity::AttackOnly,
        Identity::StrongAgainst,
        Identity::MassiveDamage,
        Identity::InsaneDamage,
        Identity::Resist,
        Identity::InsanelyTough,
        Identity::IsMetal,
        Identity::DoubleBounty,
        Identity::ZombieKiller,
        Identity::Soulstrike,
        Identity::ColossusSlayer,
        Identity::SageSlayer,
        Identity::BehemothSlayer,
        Identity::WitchKiller,
        Identity::EvaKiller,
        Identity::MetalKiller,
        Identity::BarrierBreaker,
        Identity::ShieldPiercer,
        Identity::Conjure,
        Identity::BaseDestroyer,
        Identity::Kamikaze,
        Identity::Stop,
        Identity::WaveBlock,
        Identity::CounterSurge,
        Identity::WaveAttack,
        Identity::MiniWave,
        Identity::SurgeAttack,
        Identity::MiniSurge,
        Identity::Explosion,
        Identity::SavageBlow,
        Identity::CriticalHit,
        Identity::Strengthen,
        Identity::Survive,
        Identity::Dodge,
        Identity::Weaken,
        Identity::Freeze,
        Identity::Slow,
        Identity::Knockback,
        Identity::Curse,
        Identity::Warp,
        Identity::Unknown,
        Identity::Barrier,
        Identity::AkuShield,
        Identity::Burrow,
        Identity::Revive,
        Identity::Toxic,
        Identity::Drain,
        Identity::DeathSurge,
        Identity::ImmuneWave,
        Identity::ImmuneSurge,
        Identity::ImmuneExplosion,
        Identity::ImmuneWeaken,
        Identity::ImmuneFreeze,
        Identity::ImmuneSlow,
        Identity::ImmuneKnockback,
        Identity::ImmuneCurse,
        Identity::ImmuneWarp,
        Identity::ImmuneToxic,
        Identity::ImmuneDrain,
        Identity::ImmuneBossWave,
        Identity::ResistWeaken,
        Identity::ResistFreeze,
        Identity::ResistSlow,
        Identity::ResistKnockback,
        Identity::ResistWave,
        Identity::ResistWarp,
        Identity::ResistCurse,
        Identity::ResistToxic,
        Identity::ResistSurge,
        Identity::CostDown,
        Identity::RecoverSpeedUp,
        Identity::MoveSpeedUp,
        Identity::AttackBuff,
        Identity::HealthBuff,
        Identity::TbaDown,
        Identity::ImproveKnockbacks,
        Identity::TimeBeforeDeath,
    ]
}

/// The talent identifier that grants an ability, when a talent can grant it.
pub open spec fn talent_of(identity: Identity) -> Option<u8> {
    match identity {
        Identity::SingleAttack => None,
        Identity::AreaAttack => None,
        Identity::MultiHit => None,
        Identity::LongDistance => None,
        Identity::OmniStrike => None,
        Identity::TraitRed => Some(33),
        Identity::TraitFloating => Some(34),
        Identity::TraitDark => Some(35),
        Identity::TraitMetal => Some(36),
        Identity::TraitAngel => Some(37),
        Identity::TraitAlien => Some(38),
        Identity::TraitZombie => Some(39),
        Identity::TraitRelic => Some(40),
        Identity::TraitAku => Some(57),
        Identity::TraitTraitless => Some(41),
        Identity::TraitWitch => None,
        Identity::TraitEva => None,
        Identity::TraitDojo => None,
        Identity::TraitStarredAlien => None,
        Identity::TraitCatGod => None,
        Identity::TraitColossus => None,
        Identity::TraitBehemoth => None,
        Identity::TraitSage => None,
        Identity::TraitKaijin => None,
        Identity::AttackOnly => Some(4),
        Identity::StrongAgainst => Some(5),
        Identity::MassiveDamage => Some(7),
        Identity::InsaneDamage => Some(7),
        Identity::Resist => Some(6),
        Identity::InsanelyTough => Some(6),
        Identity::IsMetal => Some(43),
        Identity::DoubleBounty => Some(16),
        Identity::ZombieKiller => Some(14),
        Identity::Soulstrike => Some(59),
        Identity::ColossusSlayer => Some(63),
        Identity::SageSlayer => Some(66),
        Identity::BehemothSlayer => Some(64),
        Identity::WitchKiller => None,
        Identity::EvaKiller => None,
        Identity::MetalKiller => None,
        Identity::BarrierBreaker => Some(15),
        Identity::ShieldPiercer => Some(58),
        Identity::Conjure => None,
        Identity::BaseDestroyer => Some(12),
        Identity::Kamikaze => None,
        Identity::Stop => None,
        Identity::WaveBlock => None,
        Identity::CounterSurge => Some(68),
        Identity::WaveAttack => Some(17),
        Identity::MiniWave => Some(62),
        Identity::SurgeAttack => Some(56),
        Identity::MiniSurge => Some(65),
        Identity::Explosion => Some(67),
        Identity::SavageBlow => Some(50),
        Identity::CriticalHit => Some(13),
        Identity::Strengthen => Some(10),
        Identity::Survive => Some(11),
        Identity::Dodge => Some(51),
        Identity::Weaken => Some(1),
        Identity::Freeze => Some(2),
        Identity::Slow => Some(3),
        Identity::Knockback => Some(8),
        Identity::Curse => Some(60),
        Identity::Warp => Some(9),
        Identity::Unknown => None,
        Identity::Barrier => None,
        Identity::AkuShield => None,
        Identity::Burrow => None,
        Identity::Revive => None,
        Identity::Toxic => None,
        Identity::Drain => None,
        Identity::DeathSurge => None,
        Identity::ImmuneWave => Some(48),
        Identity::ImmuneSurge => Some(55),
        Identity::ImmuneExplosion => Some(69),
        Identity::ImmuneWeaken => Some(44),
        Identity::ImmuneFreeze => Some(45),
        Identity::ImmuneSlow => Some(46),
        Identity::ImmuneKnockback => Some(47),
        Identity::ImmuneCurse => Some(29),
        Identity::ImmuneWarp => Some(49),
        Identity::ImmuneToxic => Some(53),
        Identity::ImmuneDrain => None,
        Identity::ImmuneBossWave => None,
        Identity::ResistWeaken => Some(18),
        Identity::ResistFreeze => Some(19),
        Identity::ResistSlow => Some(20),
        Identity::ResistKnockback => Some(21),
        Identity::ResistWave => Some(22),
        Identity::ResistWarp => Some(24),
        Identity::ResistCurse => Some(30),
        Identity::ResistToxic => Some(52),
        Identity::ResistSurge => Some(54),
        Identity::CostDown => Some(25),
        Identity::RecoverSpeedUp => Some(26),
        Identity::MoveSpeedUp => Some(27),
        Identity::AttackBuff => Some(31),
        Identity::HealthBuff => Some(32),
        Identity::TbaDown => Some(61),
        Identity::ImproveKnockbacks => Some(28),
        Identity::TimeBeforeDeath => None,
    }
}

/// The sprite index of an ability's icon in the ability atlas, when it has one.
pub open spec fn icon_of(identity: Identity) -> Option<usize> {
    match identity {
        Identity::SingleAttack => Some(img015::ICON_SINGLE_ATTACK),
        Identity::AreaAttack => Some(img015::ICON_AREA_ATTACK),
        Identity::MultiHit => None,
        Identity::LongDistance => Some(img015::ICON_LONG_DISTANCE),
        Identity::OmniStrike => Some(img015::ICON_OMNI_STRIKE),
        Identity::TraitRed => Some(img015::ICON_TRAIT_RED),
        Identity::TraitFloating => Some(img015::ICON_TRAIT_FLOATING),
        Identity::TraitDark => Some(img015::ICON_TRAIT_BLACK),
        Identity::TraitMetal => Some(img015::ICON_TRAIT_METAL),
        Identity::TraitAngel => Some(img015::ICON_TRAIT_ANGEL),
        Identity::TraitAlien => Some(img015::ICON_TRAIT_ALIEN),
        Identity::TraitZombie => Some(img015::ICON_TRAIT_ZOMBIE),
        Identity::TraitRelic => Some(img015::ICON_TRAIT_RELIC),
        Identity::TraitAku => Some(img015::ICON_TRAIT_AKU),
        Identity::TraitTraitless => Some(img015::ICON_TRAIT_TRAITLESS),
        Identity::TraitWitch => Some(img015::ICON_WITCH),
        Identity::TraitEva => Some(img015::ICON_EVA),
        Identity::TraitDojo => None,
        Identity::TraitStarredAlien => None,
        Identity::TraitCatGod => None,
        Identity::TraitColossus => Some(img015::ICON_COLOSSUS),
        Identity::TraitBehemoth => Some(img015::ICON_BEHEMOTH),
        Identity::TraitSage => Some(img015::ICON_SAGE),
        Identity::TraitKaijin => Some(img015::ICON_SUPERVILLIAN),
        Identity::AttackOnly => Some(img015::ICON_ATTACK_ONLY),
        Identity::StrongAgainst => Some(img015::ICON_STRONG_AGAINST),
        Identity::MassiveDamage => Some(img015::ICON_MASSIVE_DAMAGE),
        Identity::InsaneDamage => Some(img015::ICON_INSANE_DAMAGE),
        Identity::Resist => Some(img015::ICON_RESIST),
        Identity::InsanelyTough => Some(img015::ICON_INSANELY_TOUGH),
        Identity::IsMetal => Some(img015::ICON_METAL),
        Identity::DoubleBounty => Some(img015::ICON_DOUBLE_BOUNTY),
        Identity::ZombieKiller => Some(img015::ICON_ZOMBIE_KILLER),
        Identity::Soulstrike => Some(img015::ICON_SOULSTRIKE),
        Identity::ColossusSlayer => Some(img015::ICON_COLOSSUS_SLAYER),
        Identity::SageSlayer => Some(img015::ICON_SAGE_SLAYER),
        Identity::BehemothSlayer => Some(img015::ICON_BEHEMOTH_SLAYER),
        Identity::WitchKiller => Some(img015::ICON_WITCH_KILLER),
        Identity::EvaKiller => Some(img015::ICON_EVA_KILLER),
        Identity::MetalKiller => Some(img015::ICON_METAL_KILLER),
        Identity::BarrierBreaker => Some(img015::ICON_BARRIER_BREAKER),
        Identity::ShieldPiercer => Some(img015::ICON_SHIELD_PIERCER),
        Identity::Conjure => Some(img015::ICON_CONJURE),
        Identity::BaseDestroyer => Some(img015::ICON_BASE_DESTROYER),
        Identity::Kamikaze => None,
        Identity::Stop => None,
        Identity::WaveBlock => Some(img015::ICON_WAVE_BLOCK),
        Identity::CounterSurge => Some(img015::ICON_COUNTER_SURGE),
        Identity::WaveAttack => Some(img015::ICON_WAVE),
        Identity::MiniWave => Some(img015::ICON_MINI_WAVE),
        Identity::SurgeAttack => Some(img015::ICON_SURGE),
        Identity::MiniSurge => Some(img015::ICON_MINI_SURGE),
        Identity::Explosion => Some(img015::ICON_EXPLOSION),
        Identity::SavageBlow => Some(img015::ICON_SAVAGE_BLOW),
        Identity::CriticalHit => Some(img015::ICON_CRITICAL_HIT),
        Identity::Strengthen => Some(img015::ICON_STRENGTHEN),
        Identity::Survive => Some(img015::ICON_SURVIVE),
        Identity::Dodge => Some(img015::ICON_DODGE),
        Identity::Weaken => Some(img015::ICON_WEAKEN),
        Identity::Freeze => Some(img015::ICON_FREEZE),
        Identity::Slow => Some(img015::ICON_SLOW),
        Identity::Knockback => Some(img015::ICON_KNOCKBACK),
        Identity::Curse => Some(img015::ICON_CURSE),
        Identity::Warp => Some(img015::ICON_WARP),
        Identity::Unknown => None,
        Identity::Barrier => Some(img015::ICON_BARRIER),
        Identity::AkuShield => Some(img015::ICON_SHIELD),
        Identity::Burrow => None,
        Identity::Revive => None,
        Identity::Toxic => Some(img015::ICON_TOXIC),
        Identity::Drain => Some(img015::ICON_DRAIN),
        Identity::DeathSurge => Some(img015::ICON_DEATH_SURGE),
        Identity::ImmuneWave => Some(img015::ICON_IMMUNE_WAVE),
        Identity::ImmuneSurge => Some(img015::ICON_IMMUNE_SURGE),
        Identity::ImmuneExplosion => Some(img015::ICON_IMMUNE_EXPLOSION),
        Identity::ImmuneWeaken => Some(img015::ICON_IMMUNE_WEAKEN),
        Identity::ImmuneFreeze => Some(img015::ICON_IMMUNE_FREEZE),
        Identity::ImmuneSlow => Some(img015::ICON_IMMUNE_SLOW),
        Identity::ImmuneKnockback => Some(img015::ICON_IMMUNE_KNOCKBACK),
        Identity::ImmuneCurse => Some(img015::ICON_IMMUNE_CURSE),
        Identity::ImmuneWarp => Some(img015::ICON_IMMUNE_WARP),
        Identity::ImmuneToxic => Some(img015::ICON_IMMUNE_TOXIC),
        Identity::ImmuneDrain => None,
        Identity::ImmuneBossWave => None,
        Identity::ResistWeaken => Some(img015::ICON_RESIST_WEAKEN),
        Identity::ResistFreeze => Some(img015::ICON_RESIST_FREEZE),
        Identity::ResistSlow => Some(img015::ICON_RESIST_SLOW),
        Identity::ResistKnockback => Some(img015::ICON_RESIST_KNOCKBACK),
        Identity::ResistWave => Some(img015::ICON_RESIST_WAVE),
        Identity::ResistWarp => Some(img015::ICON_RESIST_WARP),
        Identity::ResistCurse => Some(img015::ICON_RESIST_CURSE),
        Identity::ResistToxic => Some(img015::ICON_RESIST_TOXIC),
        Identity::ResistSurge => Some(img015::ICON_SURGE_RESIST),
        Identity::CostDown => Some(img015::ICON_COST_DOWN),
        Identity::RecoverSpeedUp => Some(img015::ICON_RECOVER_SPEED_UP),
        Identity::MoveSpeedUp => Some(img015::ICON_MOVE_SPEED),
        Identity::AttackBuff => Some(img015::ICON_ATTACK_BUFF),
        Identity::HealthBuff => Some(img015::ICON_HEALTH_BUFF),
        Identity::TbaDown => Some(img015::ICON_TBA_DOWN),
        Identity::ImproveKnockbacks => Some(img015::ICON_IMPROVE_KNOCKBACK_COUNT),
        Identity::TimeBeforeDeath => None,
    }
}

/// Whether an ability can be applied to an entity as a talent upgrade.
pub open spec fn applies_as_talent(identity: Identity) -> bool {
    match identity {
        Identity::SingleAttack => false,
        Identity::AreaAttack => false,
        Identity::MultiHit => false,
        Identity::LongDistance => false,
        Identity::OmniStrike => false,
        Identity::TraitRed => true,
        Identity::TraitFloating => true,
        Identity::TraitDark => true,
        Identity::TraitMetal => true,
        Identity::TraitAngel => true,
        Identity::TraitAlien => true,
        Identity::TraitZombie => true,
        Identity::TraitRelic => true,
        Identity::TraitAku => true,
        Identity::TraitTraitless => true,
        Identity::TraitWitch => true,
        Identity::TraitEva => true,
        Identity::TraitDojo => false,
        Identity::TraitStarredAlien => false,
        Identity::TraitCatGod => false,
        Identity::TraitColossus => false,
        Identity::TraitBehemoth => false,
        Identity::TraitSage => false,
        Identity::TraitKaijin => false,
        Identity::AttackOnly => true,
        Identity::StrongAgainst => true,
        Identity::MassiveDamage => true,
        Identity::InsaneDamage => false,
        Identity::Resist => true,
        Identity::InsanelyTough => false,
        Identity::IsMetal => true,
        Identity::DoubleBounty => true,
        Identity::ZombieKiller => true,
        Identity::Soulstrike => true,
        Identity::ColossusSlayer => true,
        Identity::SageSlayer => true,
        Identity::BehemothSlayer => true,
        Identity::WitchKiller => true,
        Identity::EvaKiller => true,
        Identity::MetalKiller => true,
        Identity::BarrierBreaker => true,
        Identity::ShieldPiercer => true,
        Identity::Conjure => false,
        Identity::BaseDestroyer => true,
        Identity::Kamikaze => false,
        Identity::Stop => false,
        Identity::WaveBlock => true,
        Identity::CounterSurge => true,
        Identity::WaveAttack => true,
        Identity::MiniWave => true,
        Identity::SurgeAttack => true,
        Identity::MiniSurge => true,
        Identity::Explosion => true,
        Identity::SavageBlow => true,
        Identity::CriticalHit => true,
        Identity::Strengthen => true,
        Identity::Survive => true,
        Identity::Dodge => true,
        Identity::Weaken => true,
        Identity::Freeze => true,
        Identity::Slow => true,
        Identity::Knockback => true,
        Identity::Curse => true,
        Identity::Warp => false,
        Identity::Unknown => false,
        Identity::Barrier => false,
        Identity::AkuShield => false,
        Identity::Burrow => false,
        Identity::Revive => false,
        Identity::Toxic => false,
        Identity::Drain => false,
        Identity::DeathSurge => false,
        Identity::ImmuneWave => true,
        Identity::ImmuneSurge => true,
        Identity::ImmuneExplosion => true,
        Identity::ImmuneWeaken => true,
        Identity::ImmuneFreeze => true,
        Identity::ImmuneSlow => true,
        Identity::ImmuneKnockback => true,
        Identity::ImmuneCurse => true,
        Identity::ImmuneWarp => true,
        Identity::ImmuneToxic => true,
        Identity::ImmuneDrain => true,
        Identity::ImmuneBossWave => true,
        Identity::ResistWeaken => true,
        Identity::ResistFreeze => true,
        Identity::ResistSlow => true,
        Identity::ResistKnockback => true,
        Identity::ResistWave => true,
        Identity::ResistWarp => true,
        Identity::ResistCurse => true,
        Identity::ResistToxic => true,
        Identity::ResistSurge => true,
        Identity::CostDown => true,
        Identity::RecoverSpeedUp => true,
        Identity::MoveSpeedUp => true,
        Identity::AttackBuff => true,
        Identity::HealthBuff => true,
        Identity::TbaDown => true,
        Identity::ImproveKnockbacks => true,
        Identity::TimeBeforeDeath => false,
    }
}

/// The labels and units of the attributes an ability yields, in order.
pub open spec fn schema_of(identity: Identity) -> Seq<(&'static str, AttrUnit)> {
    match identity {
        Identity::SingleAttack => seq![],
        Identity::AreaAttack => seq![],
        Identity::MultiHit => seq![],
        Identity::LongDistance => seq![],
        Identity::OmniStrike => seq![],
        Identity::TraitRed => seq![],
        Identity::TraitFloating => seq![],
        Identity::TraitDark => seq![],
        Identity::TraitMetal => seq![],
        Identity::TraitAngel => seq![],
        Identity::TraitAlien => seq![],
        Identity::TraitZombie => seq![],
        Identity::TraitRelic => seq![],
        Identity::TraitAku => seq![],
        Identity::TraitTraitless => seq![],
        Identity::TraitWitch => seq![],
        Identity::TraitEva => seq![],
        Identity::TraitDojo => seq![],
        Identity::TraitStarredAlien => seq![],
        Identity::TraitCatGod => seq![("Type", AttrUnit::Unitless)],
        Identity::TraitColossus => seq![],
        Identity::TraitBehemoth => seq![],
        Identity::TraitSage => seq![],
        Identity::TraitKaijin => seq![],
        Identity::AttackOnly => seq![],
        Identity::StrongAgainst => seq![],
        Identity::MassiveDamage => seq![],
        Identity::InsaneDamage => seq![],
        Identity::Resist => seq![],
        Identity::InsanelyTough => seq![],
        Identity::IsMetal => seq![],
        Identity::DoubleBounty => seq![],
        Identity::ZombieKiller => seq![],
        Identity::Soulstrike => seq![],
        Identity::ColossusSlayer => seq![],
        Identity::SageSlayer => seq![],
        Identity::BehemothSlayer => seq![("Dodge Chance", AttrUnit::Percent), ("Dodge Duration", AttrUnit::Frames)],
        Identity::WitchKiller => seq![],
        Identity::EvaKiller => seq![],
        Identity::MetalKiller => seq![("Damage", AttrUnit::Percent)],
        Identity::BarrierBreaker => seq![("Chance", AttrUnit::Percent)],
        Identity::ShieldPiercer => seq![("Chance", AttrUnit::Percent)],
        Identity::Conjure => seq![("Spirit ID", AttrUnit::Unitless)],
        Identity::BaseDestroyer => seq![],
        Identity::Kamikaze => seq![("Attacks", AttrUnit::Unitless)],
        Identity::Stop => seq![("Attacks", AttrUnit::Unitless)],
        Identity::WaveBlock => seq![],
        Identity::CounterSurge => seq![],
        Identity::WaveAttack => seq![("Chance", AttrUnit::Percent), ("Level", AttrUnit::Unitless), ("Max Reach", AttrUnit::Range)],
        Identity::MiniWave => seq![("Chance", AttrUnit::Percent), ("Level", AttrUnit::Unitless), ("Max Reach", AttrUnit::Range)],
        Identity::SurgeAttack => seq![("Chance", AttrUnit::Percent), ("Level", AttrUnit::Unitless), ("Min Range", AttrUnit::Range), ("Max Range", AttrUnit::Range), ("Width", AttrUnit::Range)],
        Identity::MiniSurge => seq![("Chance", AttrUnit::Percent), ("Level", AttrUnit::Unitless), ("Min Range", AttrUnit::Range), ("Max Range", AttrUnit::Range), ("Width", AttrUnit::Range)],
        Identity::Explosion => seq![("Chance", AttrUnit::Percent), ("Min Range", AttrUnit::Range), ("Max Range", AttrUnit::Range), ("Width", AttrUnit::Range)],
        Identity::SavageBlow => seq![("Chance", AttrUnit::Percent), ("Boost", AttrUnit::Percent)],
        Identity::CriticalHit => seq![("Chance", AttrUnit::Percent)],
        Identity::Strengthen => seq![("HP", AttrUnit::Percent), ("Boost", AttrUnit::Percent)],
        Identity::Survive => seq![("Chance", AttrUnit::Percent)],
        Identity::Dodge => seq![("Chance", AttrUnit::Percent), ("Duration", AttrUnit::Frames)],
        Identity::Weaken => seq![("Chance", AttrUnit::Percent), ("Reduced To", AttrUnit::Percent), ("Duration", AttrUnit::Frames)],
        Identity::Freeze => seq![("Chance", AttrUnit::Percent), ("Duration", AttrUnit::Frames)],
        Identity::Slow => seq![("Chance", AttrUnit::Percent), ("Duration", AttrUnit::Frames)],
        Identity::Knockback => seq![("Chance", AttrUnit::Percent)],
        Identity::Curse => seq![("Chance", AttrUnit::Percent), ("Duration", AttrUnit::Frames)],
        Identity::Warp => seq![("Chance", AttrUnit::Percent), ("Duration", AttrUnit::Frames), ("Min Distance", AttrUnit::Range), ("Max Distance", AttrUnit::Range)],
        Identity::Unknown => seq![],
        Identity::Barrier => seq![("Hitpoints", AttrUnit::Unitless)],
        Identity::AkuShield => seq![("Hitpoints", AttrUnit::Unitless), ("Regen", AttrUnit::Percent)],
        Identity::Burrow => seq![("Count", AttrUnit::Unitless), ("Distance", AttrUnit::Range)],
        Identity::Revive => seq![("Count", AttrUnit::Unitless), ("Duration", AttrUnit::Frames), ("Hitpoints", AttrUnit::Percent)],
        Identity::Toxic => seq![("Chance", AttrUnit::Percent), ("Damage", AttrUnit::Percent)],
        Identity::Drain => seq![("Chance", AttrUnit::Percent), ("Amount", AttrUnit::Percent)],
        Identity::DeathSurge => seq![("Chance", AttrUnit::Percent), ("Level", AttrUnit::Unitless), ("Min Range", AttrUnit::Range), ("Max Range", AttrUnit::Range), ("Width", AttrUnit::Range)],
        Identity::ImmuneWave => seq![],
        Identity::ImmuneSurge => seq![],
        Identity::ImmuneExplosion => seq![],
        Identity::ImmuneWeaken => seq![],
        Identity::ImmuneFreeze => seq![],
        Identity::ImmuneSlow => seq![],
        Identity::ImmuneKnockback => seq![],
        Identity::ImmuneCurse => seq![],
        Identity::ImmuneWarp => seq![],
        Identity::ImmuneToxic => seq![],
        Identity::ImmuneDrain => seq![],
        Identity::ImmuneBossWave => seq![],
        Identity::ResistWeaken => seq![],
        Identity::ResistFreeze => seq![],
        Identity::ResistSlow => seq![],
        Identity::ResistKnockback => seq![],
        Identity::ResistWave => seq![],
        Identity::ResistWarp => seq![],
        Identity::ResistCurse => seq![],
        Identity::ResistToxic => seq![],
        Identity::ResistSurge => seq![],
        Identity::CostDown => seq![],
        Identity::RecoverSpeedUp => seq![],
        Identity::MoveSpeedUp => seq![],
        Identity::AttackBuff => seq![],
        Identity::HealthBuff => seq![],
        Identity::TbaDown => seq![],
        Identity::ImproveKnockbacks => seq![],
        Identity::TimeBeforeDeath => seq![("Duration", AttrUnit::Frames)],
    }
}

/// The meaning of each value pair a talent granting an ability consumes, in pair order.
pub open spec fn talent_values_of(identity: Identity) -> Seq<TalentValue> {
    match identity {
        Identity::SingleAttack => seq![],
        Identity::AreaAttack => seq![],
        Identity::MultiHit => seq![],
        Identity::LongDistance => seq![],
        Identity::OmniStrike => seq![],
        Identity::TraitRed => seq![],
        Identity::TraitFloating => seq![],
        Identity::TraitDark => seq![],
        Identity::TraitMetal => seq![],
        Identity::TraitAngel => seq![],
        Identity::TraitAlien => seq![],
        Identity::TraitZombie => seq![],
        Identity::TraitRelic => seq![],
        Identity::TraitAku => seq![],
        Identity::TraitTraitless => seq![],
        Identity::TraitWitch => seq![],
        Identity::TraitEva => seq![],
        Identity::TraitDojo => seq![],
        Identity::TraitStarredAlien => seq![],
        Identity::TraitCatGod => seq![],
        Identity::TraitColossus => seq![],
        Identity::TraitBehemoth => seq![],
        Identity::TraitSage => seq![],
        Identity::TraitKaijin => seq![],
        Identity::AttackOnly => seq![],
        Identity::StrongAgainst => seq![],
        Identity::MassiveDamage => seq![],
        Identity::InsaneDamage => seq![],
        Identity::Resist => seq![],
        Identity::InsanelyTough => seq![],
        Identity::IsMetal => seq![],
        Identity::DoubleBounty => seq![],
        Identity::ZombieKiller => seq![],
        Identity::Soulstrike => seq![],
        Identity::ColossusSlayer => seq![],
        Identity::SageSlayer => seq![],
        Identity::BehemothSlayer => seq![pair("Dodge Chance", AttrUnit::Percent), pair("Dodge Duration", AttrUnit::Frames)],
        Identity::WitchKiller => seq![],
        Identity::EvaKiller => seq![],
        Identity::MetalKiller => seq![pair("Damage", AttrUnit::Percent)],
        Identity::BarrierBreaker => seq![pair("Chance", AttrUnit::Percent)],
        Identity::ShieldPiercer => seq![pair("Chance", AttrUnit::Percent)],
        Identity::Conjure => seq![],
        Identity::BaseDestroyer => seq![],
        Identity::Kamikaze => seq![],
        Identity::Stop => seq![],
        Identity::WaveBlock => seq![],
        Identity::CounterSurge => seq![],
        Identity::WaveAttack => seq![pair("Chance", AttrUnit::Percent), pair("Level", AttrUnit::Unitless)],
        Identity::MiniWave => seq![pair("Chance", AttrUnit::Percent), pair("Level", AttrUnit::Unitless)],
        Identity::SurgeAttack => seq![pair("Chance", AttrUnit::Percent), pair("Level", AttrUnit::Unitless), scaled_by(at_minimum(pair("Min Range", AttrUnit::Range)), Scale::Quarter), scaled_by(at_minimum(pair("Width", AttrUnit::Range)), Scale::Quarter)],
        Identity::MiniSurge => seq![pair("Chance", AttrUnit::Percent), pair("Level", AttrUnit::Unitless), scaled_by(at_minimum(pair("Min Range", AttrUnit::Range)), Scale::Quarter), scaled_by(at_minimum(pair("Width", AttrUnit::Range)), Scale::Quarter)],
        Identity::Explosion => seq![pair("Chance", AttrUnit::Percent), scaled_by(at_minimum(pair("Min Range", AttrUnit::Range)), Scale::Quarter), scaled_by(at_minimum(pair("Width", AttrUnit::Range)), Scale::Quarter)],
        Identity::SavageBlow => seq![pair("Chance", AttrUnit::Percent), pair("Boost", AttrUnit::Percent)],
        Identity::CriticalHit => seq![pair("Chance", AttrUnit::Percent)],
        Identity::Strengthen => seq![inverted_from(pair("HP", AttrUnit::Percent), 100), pair("Boost", AttrUnit::Percent)],
        Identity::Survive => seq![pair("Chance", AttrUnit::Percent)],
        Identity::Dodge => seq![pair("Chance", AttrUnit::Percent), pair("Duration", AttrUnit::Frames)],
        Identity::Weaken => seq![pair("Chance", AttrUnit::Percent), pair("Duration", AttrUnit::Frames), inverted_from(at_minimum(pair("Reduced To", AttrUnit::Percent)), 100)],
        Identity::Freeze => seq![pair("Chance", AttrUnit::Percent), pair("Duration", AttrUnit::Frames)],
        Identity::Slow => seq![pair("Chance", AttrUnit::Percent), pair("Duration", AttrUnit::Frames)],
        Identity::Knockback => seq![pair("Chance", AttrUnit::Percent)],
        Identity::Curse => seq![pair("Chance", AttrUnit::Percent), pair("Duration", AttrUnit::Frames)],
        Identity::Warp => seq![],
        Identity::Unknown => seq![],
        Identity::Barrier => seq![],
        Identity::AkuShield => seq![],
        Identity::Burrow => seq![],
        Identity::Revive => seq![],
        Identity::Toxic => seq![],
        Identity::Drain => seq![],
        Identity::DeathSurge => seq![],
        Identity::ImmuneWave => seq![],
        Identity::ImmuneSurge => seq![],
        Identity::ImmuneExplosion => seq![],
        Identity::ImmuneWeaken => seq![],
        Identity::ImmuneFreeze => seq![],
        Identity::ImmuneSlow => seq![],
        Identity::ImmuneKnockback => seq![],
        Identity::ImmuneCurse => seq![],
        Identity::ImmuneWarp => seq![],
        Identity::ImmuneToxic => seq![],
        Identity::ImmuneDrain => seq![],
        Identity::ImmuneBossWave => seq![],
        Identity::ResistWeaken => seq![],
        Identity::ResistFreeze => seq![],
        Identity::ResistSlow => seq![],
        Identity::ResistKnockback => seq![],
        Identity::ResistWave => seq![],
        Identity::ResistWarp => seq![],
        Identity::ResistCurse => seq![],
        Identity::ResistToxic => seq![],
        Identity::ResistSurge => seq![],
        Identity::CostDown => seq![pair("Reduction", AttrUnit::Unitless)],
        Identity::RecoverSpeedUp => seq![pair("Reduction", AttrUnit::Frames)],
        Identity::MoveSpeedUp => seq![pair("Increase", AttrUnit::Unitless)],
        Identity::AttackBuff => seq![pair("Boost", AttrUnit::Percent)],
        Identity::HealthBuff => seq![pair("Boost", AttrUnit::Percent)],
        Identity::TbaDown => seq![pair("Reduction", AttrUnit::Percent)],
        Identity::ImproveKnockbacks => seq![pair("Increase", AttrUnit::Unitless)],
        Identity::TimeBeforeDeath => seq![],
    }
}

/// The talent identifier that grants an ability.
fn talent_id_for(identity: Identity) -> (r: Option<u8>)
    ensures
        r == talent_of(identity),
{
    match identity {
        Identity::SingleAttack => None,
        Identity::AreaAttack => None,
        Identity::MultiHit => None,
        Identity::LongDistance => None,
        Identity::OmniStrike => None,
        Identity::TraitRed => Some(33),
        Identity::TraitFloating => Some(34),
        Identity::TraitDark => Some(35),
        Identity::TraitMetal => Some(36),
        Identity::TraitAngel => Some(37),
        Identity::TraitAlien => Some(38),
        Identity::TraitZombie => Some(39),
        Identity::TraitRelic => Some(40),
        Identity::TraitAku => Some(57),
        Identity::TraitTraitless => Some(41),
        Identity::TraitWitch => None,
        Identity::TraitEva => None,
        Identity::TraitDojo => None,
        Identity::TraitStarredAlien => None,
        Identity::TraitCatGod => None,
        Identity::TraitColossus => None,
        Identity::TraitBehemoth => None,
        Identity::TraitSage => None,
        Identity::TraitKaijin => None,
        Identity::AttackOnly => Some(4),
        Identity::StrongAgainst => Some(5),
        Identity::MassiveDamage => Some(7),
        Identity::InsaneDamage => Some(7),
        Identity::Resist => Some(6),
        Identity::InsanelyTough => Some(6),
        Identity::IsMetal => Some(43),
        Identity::DoubleBounty => Some(16),
        Identity::ZombieKiller => Some(14),
        Identity::Soulstrike => Some(59),
        Identity::ColossusSlayer => Some(63),
        Identity::SageSlayer => Some(66),
        Identity::BehemothSlayer => Some(64),
        Identity::WitchKiller => None,
        Identity::EvaKiller => None,
        Identity::MetalKiller => None,
        Identity::BarrierBreaker => Some(15),
        Identity::ShieldPiercer => Some(58),
        Identity::Conjure => None,
        Identity::BaseDestroyer => Some(12),
        Identity::Kamikaze => None,
        Identity::Stop => None,
        Identity::WaveBlock => None,
        Identity::CounterSurge => Some(68),
        Identity::WaveAttack => Some(17),
        Identity::MiniWave => Some(62),
        Identity::SurgeAttack => Some(56),
        Identity::MiniSurge => Some(65),
        Identity::Explosion => Some(67),
        Identity::SavageBlow => Some(50),
        Identity::CriticalHit => Some(13),
        Identity::Strengthen => Some(10),
        Identity::Survive => Some(11),
        Identity::Dodge => Some(51),
        Identity::Weaken => Some(1),
        Identity::Freeze => Some(2),
        Identity::Slow => Some(3),
        Identity::Knockback => Some(8),
        Identity::Curse => Some(60),
        Identity::Warp => Some(9),
        Identity::Unknown => None,
        Identity::Barrier => None,
        Identity::AkuShield => None,
        Identity::Burrow => None,
        Identity::Revive => None,
        Identity::Toxic => None,
        Identity::Drain => None,
        Identity::DeathSurge => None,
        Identity::ImmuneWave => Some(48),
        Identity::ImmuneSurge => Some(55),
        Identity::ImmuneExplosion => Some(69),
        Identity::ImmuneWeaken => Some(44),
        Identity::ImmuneFreeze => Some(45),
        Identity::ImmuneSlow => Some(46),
        Identity::ImmuneKnockback => Some(47),
        Identity::ImmuneCurse => Some(29),
        Identity::ImmuneWarp => Some(49),
        Identity::ImmuneToxic => Some(53),
        Identity::ImmuneDrain => None,
        Identity::ImmuneBossWave => None,
        Identity::ResistWeaken => Some(18),
        Identity::ResistFreeze => Some(19),
        Identity::ResistSlow => Some(20),
        Identity::ResistKnockback => Some(21),
        Identity::ResistWave => Some(22),
        Identity::ResistWarp => Some(24),
        Identity::ResistCurse => Some(30),
        Identity::ResistToxic => Some(52),
        Identity::ResistSurge => Some(54),
        Identity::CostDown => Some(25),
        Identity::RecoverSpeedUp => Some(26),
        Identity::MoveSpeedUp => Some(27),
        Identity::AttackBuff => Some(31),
        Identity::HealthBuff => Some(32),
        Identity::TbaDown => Some(61),
        Identity::ImproveKnockbacks => Some(28),
        Identity::TimeBeforeDeath => None,
    }
}

/// The icon of an ability.
fn icon_id_for(identity: Identity) -> (r: Option<usize>)
    ensures
        r == icon_of(identity),
{
    match identity {
        Identity::SingleAttack => Some(img015::ICON_SINGLE_ATTACK),
        Identity::AreaAttack => Some(img015::ICON_AREA_ATTACK),
        Identity::MultiHit => None,
        Identity::LongDistance => Some(img015::ICON_LONG_DISTANCE),
        Identity::OmniStrike => Some(img015::ICON_OMNI_STRIKE),
        Identity::TraitRed => Some(img015::ICON_TRAIT_RED),
        Identity::TraitFloating => Some(img015::ICON_TRAIT_FLOATING),
        Identity::TraitDark => Some(img015::ICON_TRAIT_BLACK),
        Identity::TraitMetal => Some(img015::ICON_TRAIT_METAL),
        Identity::TraitAngel => Some(img015::ICON_TRAIT_ANGEL),
        Identity::TraitAlien => Some(img015::ICON_TRAIT_ALIEN),
        Identity::TraitZombie => Some(img015::ICON_TRAIT_ZOMBIE),
        Identity::TraitRelic => Some(img015::ICON_TRAIT_RELIC),
        Identity::TraitAku => Some(img015::ICON_TRAIT_AKU),
        Identity::TraitTraitless => Some(img015::ICON_TRAIT_TRAITLESS),
        Identity::TraitWitch => Some(img015::ICON_WITCH),
        Identity::TraitEva => Some(img015::ICON_EVA),
        Identity::TraitDojo => None,
        Identity::TraitStarredAlien => None,
        Identity::TraitCatGod => None,
        Identity::TraitColossus => Some(img015::ICON_COLOSSUS),
        Identity::TraitBehemoth => Some(img015::ICON_BEHEMOTH),
        Identity::TraitSage => Some(img015::ICON_SAGE),
        Identity::TraitKaijin => Some(img015::ICON_SUPERVILLIAN),
        Identity::AttackOnly => Some(img015::ICON_ATTACK_ONLY),
        Identity::StrongAgainst => Some(img015::ICON_STRONG_AGAINST),
        Identity::MassiveDamage => Some(img015::ICON_MASSIVE_DAMAGE),
        Identity::InsaneDamage => Some(img015::ICON_INSANE_DAMAGE),
        Identity::Resist => Some(img015::ICON_RESIST),
        Identity::InsanelyTough => Some(img015::ICON_INSANELY_TOUGH),
        Identity::IsMetal => Some(img015::ICON_METAL),
        Identity::DoubleBounty => Some(img015::ICON_DOUBLE_BOUNTY),
        Identity::ZombieKiller => Some(img015::ICON_ZOMBIE_KILLER),
        Identity::Soulstrike => Some(img015::ICON_SOULSTRIKE),
        Identity::ColossusSlayer => Some(img015::ICON_COLOSSUS_SLAYER),
        Identity::SageSlayer => Some(img015::ICON_SAGE_SLAYER),
        Identity::BehemothSlayer => Some(img015::ICON_BEHEMOTH_SLAYER),
        Identity::WitchKiller => Some(img015::ICON_WITCH_KILLER),
        Identity::EvaKiller => Some(img015::ICON_EVA_KILLER),
        Identity::MetalKiller => Some(img015::ICON_METAL_KILLER),
        Identity::BarrierBreaker => Some(img015::ICON_BARRIER_BREAKER),
        Identity::ShieldPiercer => Some(img015::ICON_SHIELD_PIERCER),
        Identity::Conjure => Some(img015::ICON_CONJURE),
        Identity::BaseDestroyer => Some(img015::ICON_BASE_DESTROYER),
        Identity::Kamikaze => None,
        Identity::Stop => None,
        Identity::WaveBlock => Some(img015::ICON_WAVE_BLOCK),
        Identity::CounterSurge => Some(img015::ICON_COUNTER_SURGE),
        Identity::WaveAttack => Some(img015::ICON_WAVE),
        Identity::MiniWave => Some(img015::ICON_MINI_WAVE),
        Identity::SurgeAttack => Some(img015::ICON_SURGE),
        Identity::MiniSurge => Some(img015::ICON_MINI_SURGE),
        Identity::Explosion => Some(img015::ICON_EXPLOSION),
        Identity::SavageBlow => Some(img015::ICON_SAVAGE_BLOW),
        Identity::CriticalHit => Some(img015::ICON_CRITICAL_HIT),
        Identity::Strengthen => Some(img015::ICON_STRENGTHEN),
        Identity::Survive => Some(img015::ICON_SURVIVE),
        Identity::Dodge => Some(img015::ICON_DODGE),
        Identity::Weaken => Some(img015::ICON_WEAKEN),
        Identity::Freeze => Some(img015::ICON_FREEZE),
        Identity::Slow => Some(img015::ICON_SLOW),
        Identity::Knockback => Some(img015::ICON_KNOCKBACK),
        Identity::Curse => Some(img015::ICON_CURSE),
        Identity::Warp => Some(img015::ICON_WARP),
        Identity::Unknown => None,
        Identity::Barrier => Some(img015::ICON_BARRIER),
        Identity::AkuShield => Some(img015::ICON_SHIELD),
        Identity::Burrow => None,
        Identity::Revive => None,
        Identity::Toxic => Some(img015::ICON_TOXIC),
        Identity::Drain => Some(img015::ICON_DRAIN),
        Identity::DeathSurge => Some(img015::ICON_DEATH_SURGE),
        Identity::ImmuneWave => Some(img015::ICON_IMMUNE_WAVE),
        Identity::ImmuneSurge => Some(img015::ICON_IMMUNE_SURGE),
        Identity::ImmuneExplosion => Some(img015::ICON_IMMUNE_EXPLOSION),
        Identity::ImmuneWeaken => Some(img015::ICON_IMMUNE_WEAKEN),
        Identity::ImmuneFreeze => Some(img015::ICON_IMMUNE_FREEZE),
        Identity::ImmuneSlow => Some(img015::ICON_IMMUNE_SLOW),
        Identity::ImmuneKnockback => Some(img015::ICON_IMMUNE_KNOCKBACK),
        Identity::ImmuneCurse => Some(img015::ICON_IMMUNE_CURSE),
        Identity::ImmuneWarp => Some(img015::ICON_IMMUNE_WARP),
        Identity::ImmuneToxic => Some(img015::ICON_IMMUNE_TOXIC),
        Identity::ImmuneDrain => None,
        Identity::ImmuneBossWave => None,
        Identity::ResistWeaken => Some(img015::ICON_RESIST_WEAKEN),
        Identity::ResistFreeze => Some(img015::ICON_RESIST_FREEZE),
        Identity::ResistSlow => Some(img015::ICON_RESIST_SLOW),
        Identity::ResistKnockback => Some(img015::ICON_RESIST_KNOCKBACK),
        Identity::ResistWave => Some(img015::ICON_RESIST_WAVE),
        Identity::ResistWarp => Some(img015::ICON_RESIST_WARP),
        Identity::ResistCurse => Some(img015::ICON_RESIST_CURSE),
        Identity::ResistToxic => Some(img015::ICON_RESIST_TOXIC),
        Identity::ResistSurge => Some(img015::ICON_SURGE_RESIST),
        Identity::CostDown => Some(img015::ICON_COST_DOWN),
        Identity::RecoverSpeedUp => Some(img015::ICON_RECOVER_SPEED_UP),
        Identity::MoveSpeedUp => Some(img015::ICON_MOVE_SPEED),
        Identity::AttackBuff => Some(img015::ICON_ATTACK_BUFF),
        Identity::HealthBuff => Some(img015::ICON_HEALTH_BUFF),
        Identity::TbaDown => Some(img015::ICON_TBA_DOWN),
        Identity::ImproveKnockbacks => Some(img015::ICON_IMPROVE_KNOCKBACK_COUNT),
        Identity::TimeBeforeDeath => None,
    }
}

/// Whether an ability applies as a talent.
fn applies_for(identity: Identity) -> (r: bool)
    ensures
        r == applies_as_talent(identity),
{
    match identity {
        Identity::SingleAttack => false,
        Identity::AreaAttack => false,
        Identity::MultiHit => false,
        Identity::LongDistance => false,
        Identity::OmniStrike => false,
        Identity::TraitRed => true,
        Identity::TraitFloating => true,
        Identity::TraitDark => true,
        Identity::TraitMetal => true,
        Identity::TraitAngel => true,
        Identity::TraitAlien => true,
        Identity::TraitZombie => true,
        Identity::TraitRelic => true,
        Identity::TraitAku => true,
        Identity::TraitTraitless => true,
        Identity::TraitWitch => true,
        Identity::TraitEva => true,
        Identity::TraitDojo => false,
        Identity::TraitStarredAlien => false,
        Identity::TraitCatGod => false,
        Identity::TraitColossus => false,
        Identity::TraitBehemoth => false,
        Identity::TraitSage => false,
        Identity::TraitKaijin => false,
        Identity::AttackOnly => true,
        Identity::StrongAgainst => true,
        Identity::MassiveDamage => true,
        Identity::InsaneDamage => false,
        Identity::Resist => true,
        Identity::InsanelyTough => false,
        Identity::IsMetal => true,
        Identity::DoubleBounty => true,
        Identity::ZombieKiller => true,
        Identity::Soulstrike => true,
        Identity::ColossusSlayer => true,
        Identity::SageSlayer => true,
        Identity::BehemothSlayer => true,
        Identity::WitchKiller => true,
        Identity::EvaKiller => true,
        Identity::MetalKiller => true,
        Identity::BarrierBreaker => true,
        Identity::ShieldPiercer => true,
        Identity::Conjure => false,
        Identity::BaseDestroyer => true,
        Identity::Kamikaze => false,
        Identity::Stop => false,
        Identity::WaveBlock => true,
        Identity::CounterSurge => true,
        Identity::WaveAttack => true,
        Identity::MiniWave => true,
        Identity::SurgeAttack => true,
        Identity::MiniSurge => true,
        Identity::Explosion => true,
        Identity::SavageBlow => true,
        Identity::CriticalHit => true,
        Identity::Strengthen => true,
        Identity::Survive => true,
        Identity::Dodge => true,
        Identity::Weaken => true,
        Identity::Freeze => true,
        Identity::Slow => true,
        Identity::Knockback => true,
        Identity::Curse => true,
        Identity::Warp => false,
        Identity::Unknown => false,
        Identity::Barrier => false,
        Identity::AkuShield => false,
        Identity::Burrow => false,
        Identity::Revive => false,
        Identity::Toxic => false,
        Identity::Drain => false,
        Identity::DeathSurge => false,
        Identity::ImmuneWave => true,
        Identity::ImmuneSurge => true,
        Identity::ImmuneExplosion => true,
        Identity::ImmuneWeaken => true,
        Identity::ImmuneFreeze => true,
        Identity::ImmuneSlow => true,
        Identity::ImmuneKnockback => true,
        Identity::ImmuneCurse => true,
        Identity::ImmuneWarp => true,
        Identity::ImmuneToxic => true,
        Identity::ImmuneDrain => true,
        Identity::ImmuneBossWave => true,
        Identity::ResistWeaken => true,
        Identity::ResistFreeze => true,
        Identity::ResistSlow => true,
        Identity::ResistKnockback => true,
        Identity::ResistWave => true,
        Identity::ResistWarp => true,
        Identity::ResistCurse => true,
        Identity::ResistToxic => true,
        Identity::ResistSurge => true,
        Identity::CostDown => true,
        Identity::RecoverSpeedUp => true,
        Identity::MoveSpeedUp => true,
        Identity::AttackBuff => true,
        Identity::HealthBuff => true,
        Identity::TbaDown => true,
        Identity::ImproveKnockbacks => true,
        Identity::TimeBeforeDeath => false,
    }
}

/// The attribute schema of an ability.
fn schema_for(identity: Identity) -> (r: Vec<(&'static str, AttrUnit)>)
    ensures
        r@ == schema_of(identity),
{
    match identity {
        Identity::SingleAttack => vec![],
        Identity::AreaAttack => vec![],
        Identity::MultiHit => vec![],
        Identity::LongDistance => vec![],
        Identity::OmniStrike => vec![],
        Identity::TraitRed => vec![],
        Identity::TraitFloating => vec![],
        Identity::TraitDark => vec![],
        Identity::TraitMetal => vec![],
        Identity::TraitAngel => vec![],
        Identity::TraitAlien => vec![],
        Identity::TraitZombie => vec![],
        Identity::TraitRelic => vec![],
        Identity::TraitAku => vec![],
        Identity::TraitTraitless => vec![],
        Identity::TraitWitch => vec![],
        Identity::TraitEva => vec![],
        Identity::TraitDojo => vec![],
        Identity::TraitStarredAlien => vec![],
        Identity::TraitCatGod => vec![("Type", AttrUnit::Unitless)],
        Identity::TraitColossus => vec![],
        Identity::TraitBehemoth => vec![],
        Identity::TraitSage => vec![],
        Identity::TraitKaijin => vec![],
        Identity::AttackOnly => vec![],
        Identity::StrongAgainst => vec![],
        Identity::MassiveDamage => vec![],
        Identity::InsaneDamage => vec![],
        Identity::Resist => vec![],
        Identity::InsanelyTough => vec![],
        Identity::IsMetal => vec![],
        Identity::DoubleBounty => vec![],
        Identity::ZombieKiller => vec![],
        Identity::Soulstrike => vec![],
        Identity::ColossusSlayer => vec![],
        Identity::SageSlayer => vec![],
        Identity::BehemothSlayer => vec![("Dodge Chance", AttrUnit::Percent), ("Dodge Duration", AttrUnit::Frames)],
        Identity::WitchKiller => vec![],
        Identity::EvaKiller => vec![],
        Identity::MetalKiller => vec![("Damage", AttrUnit::Percent)],
        Identity::BarrierBreaker => vec![("Chance", AttrUnit::Percent)],
        Identity::ShieldPiercer => vec![("Chance", AttrUnit::Percent)],
        Identity::Conjure => vec![("Spirit ID", AttrUnit::Unitless)],
        Identity::BaseDestroyer => vec![],
        Identity::Kamikaze => vec![("Attacks", AttrUnit::Unitless)],
        Identity::Stop => vec![("Attacks", AttrUnit::Unitless)],
        Identity::WaveBlock => vec![],
        Identity::CounterSurge => vec![],
        Identity::WaveAttack => vec![("Chance", AttrUnit::Percent), ("Level", AttrUnit::Unitless), ("Max Reach", AttrUnit::Range)],
        Identity::MiniWave => vec![("Chance", AttrUnit::Percent), ("Level", AttrUnit::Unitless), ("Max Reach", AttrUnit::Range)],
        Identity::SurgeAttack => vec![("Chance", AttrUnit::Percent), ("Level", AttrUnit::Unitless), ("Min Range", AttrUnit::Range), ("Max Range", AttrUnit::Range), ("Width", AttrUnit::Range)],
        Identity::MiniSurge => vec![("Chance", AttrUnit::Percent), ("Level", AttrUnit::Unitless), ("Min Range", AttrUnit::Range), ("Max Range", AttrUnit::Range), ("Width", AttrUnit::Range)],
        Identity::Explosion => vec![("Chance", AttrUnit::Percent), ("Min Range", AttrUnit::Range), ("Max Range", AttrUnit::Range), ("Width", AttrUnit::Range)],
        Identity::SavageBlow => vec![("Chance", AttrUnit::Percent), ("Boost", AttrUnit::Percent)],
        Identity::CriticalHit => vec![("Chance", AttrUnit::Percent)],
        Identity::Strengthen => vec![("HP", AttrUnit::Percent), ("Boost", AttrUnit::Percent)],
        Identity::Survive => vec![("Chance", AttrUnit::Percent)],
        Identity::Dodge => vec![("Chance", AttrUnit::Percent), ("Duration", AttrUnit::Frames)],
        Identity::Weaken => vec![("Chance", AttrUnit::Percent), ("Reduced To", AttrUnit::Percent), ("Duration", AttrUnit::Frames)],
        Identity::Freeze => vec![("Chance", AttrUnit::Percent), ("Duration", AttrUnit::Frames)],
        Identity::Slow => vec![("Chance", AttrUnit::Percent), ("Duration", AttrUnit::Frames)],
        Identity::Knockback => vec![("Chance", AttrUnit::Percent)],
        Identity::Curse => vec![("Chance", AttrUnit::Percent), ("Duration", AttrUnit::Frames)],
        Identity::Warp => vec![("Chance", AttrUnit::Percent), ("Duration", AttrUnit::Frames), ("Min Distance", AttrUnit::Range), ("Max Distance", AttrUnit::Range)],
        Identity::Unknown => vec![],
        Identity::Barrier => vec![("Hitpoints", AttrUnit::Unitless)],
        Identity::AkuShield => vec![("Hitpoints", AttrUnit::Unitless), ("Regen", AttrUnit::Percent)],
        Identity::Burrow => vec![("Count", AttrUnit::Unitless), ("Distance", AttrUnit::Range)],
        Identity::Revive => vec![("Count", AttrUnit::Unitless), ("Duration", AttrUnit::Frames), ("Hitpoints", AttrUnit::Percent)],
        Identity::Toxic => vec![("Chance", AttrUnit::Percent), ("Damage", AttrUnit::Percent)],
        Identity::Drain => vec![("Chance", AttrUnit::Percent), ("Amount", AttrUnit::Percent)],
        Identity::DeathSurge => vec![("Chance", AttrUnit::Percent), ("Level", AttrUnit::Unitless), ("Min Range", AttrUnit::Range), ("Max Range", AttrUnit::Range), ("Width", AttrUnit::Range)],
        Identity::ImmuneWave => vec![],
        Identity::ImmuneSurge => vec![],
        Identity::ImmuneExplosion => vec![],
        Identity::ImmuneWeaken => vec![],
        Identity::ImmuneFreeze => vec![],
        Identity::ImmuneSlow => vec![],
        Identity::ImmuneKnockback => vec![],
        Identity::ImmuneCurse => vec![],
        Identity::ImmuneWarp => vec![],
        Identity::ImmuneToxic => vec![],
        Identity::ImmuneDrain => vec![],
        Identity::ImmuneBossWave => vec![],
        Identity::ResistWeaken => vec![],
        Identity::ResistFreeze => vec![],
        Identity::ResistSlow => vec![],
        Identity::ResistKnockback => vec![],
        Identity::ResistWave => vec![],
        Identity::ResistWarp => vec![],
        Identity::ResistCurse => vec![],
        Identity::ResistToxic => vec![],
        Identity::ResistSurge => vec![],
        Identity::CostDown => vec![],
        Identity::RecoverSpeedUp => vec![],
        Identity::MoveSpeedUp => vec![],
        Identity::AttackBuff => vec![],
        Identity::HealthBuff => vec![],
        Identity::TbaDown => vec![],
        Identity::ImproveKnockbacks => vec![],
        Identity::TimeBeforeDeath => vec![("Duration", AttrUnit::Frames)],
    }
}

/// The talent value pairs of an ability.
fn talent_values_for(identity: Identity) -> (r: Vec<TalentValue>)
    ensures
        r@ == talent_values_of(identity),
{
    match identity {
        Identity::SingleAttack => vec![],
        Identity::AreaAttack => vec![],
        Identity::MultiHit => vec![],
        Identity::LongDistance => vec![],
        Identity::OmniStrike => vec![],
        Identity::TraitRed => vec![],
        Identity::TraitFloating => vec![],
        Identity::TraitDark => vec![],
        Identity::TraitMetal => vec![],
        Identity::TraitAngel => vec![],
        Identity::TraitAlien => vec![],
        Identity::TraitZombie => vec![],
        Identity::TraitRelic => vec![],
        Identity::TraitAku => vec![],
        Identity::TraitTraitless => vec![],
        Identity::TraitWitch => vec![],
        Identity::TraitEva => vec![],
        Identity::TraitDojo => vec![],
        Identity::TraitStarredAlien => vec![],
        Identity::TraitCatGod => vec![],
        Identity::TraitColossus => vec![],
        Identity::TraitBehemoth => vec![],
        Identity::TraitSage => vec![],
        Identity::TraitKaijin => vec![],
        Identity::AttackOnly => vec![],
        Identity::StrongAgainst => vec![],
        Identity::MassiveDamage => vec![],
        Identity::InsaneDamage => vec![],
        Identity::Resist => vec![],
        Identity::InsanelyTough => vec![],
        Identity::IsMetal => vec![],
        Identity::DoubleBounty => vec![],
        Identity::ZombieKiller => vec![],
        Identity::Soulstrike => vec![],
        Identity::ColossusSlayer => vec![],
        Identity::SageSlayer => vec![],
        Identity::BehemothSlayer => vec![TalentValue::new("Dodge Chance", AttrUnit::Percent), TalentValue::new("Dodge Duration", AttrUnit::Frames)],
        Identity::WitchKiller => vec![],
        Identity::EvaKiller => vec![],
        Identity::MetalKiller => vec![TalentValue::new("Damage", AttrUnit::Percent)],
        Identity::BarrierBreaker => vec![TalentValue::new("Chance", AttrUnit::Percent)],
        Identity::ShieldPiercer => vec![TalentValue::new("Chance", AttrUnit::Percent)],
        Identity::Conjure => vec![],
        Identity::BaseDestroyer => vec![],
        Identity::Kamikaze => vec![],
        Identity::Stop => vec![],
        Identity::WaveBlock => vec![],
        Identity::CounterSurge => vec![],
        Identity::WaveAttack => vec![TalentValue::new("Chance", AttrUnit::Percent), TalentValue::new("Level", AttrUnit::Unitless)],
        Identity::MiniWave => vec![TalentValue::new("Chance", AttrUnit::Percent), TalentValue::new("Level", AttrUnit::Unitless)],
        Identity::SurgeAttack => vec![TalentValue::new("Chance", AttrUnit::Percent), TalentValue::new("Level", AttrUnit::Unitless), TalentValue::new("Min Range", AttrUnit::Range).minimum().scaled(Scale::Quarter), TalentValue::new("Width", AttrUnit::Range).minimum().scaled(Scale::Quarter)],
        Identity::MiniSurge => vec![TalentValue::new("Chance", AttrUnit::Percent), TalentValue::new("Level", AttrUnit::Unitless), TalentValue::new("Min Range", AttrUnit::Range).minimum().scaled(Scale::Quarter), TalentValue::new("Width", AttrUnit::Range).minimum().scaled(Scale::Quarter)],
        Identity::Explosion => vec![TalentValue::new("Chance", AttrUnit::Percent), TalentValue::new("Min Range", AttrUnit::Range).minimum().scaled(Scale::Quarter), TalentValue::new("Width", AttrUnit::Range).minimum().scaled(Scale::Quarter)],
        Identity::SavageBlow => vec![TalentValue::new("Chance", AttrUnit::Percent), TalentValue::new("Boost", AttrUnit::Percent)],
        Identity::CriticalHit => vec![TalentValue::new("Chance", AttrUnit::Percent)],
        Identity::Strengthen => vec![TalentValue::new("HP", AttrUnit::Percent).inverted(100), TalentValue::new("Boost", AttrUnit::Percent)],
        Identity::Survive => vec![TalentValue::new("Chance", AttrUnit::Percent)],
        Identity::Dodge => vec![TalentValue::new("Chance", AttrUnit::Percent), TalentValue::new("Duration", AttrUnit::Frames)],
        Identity::Weaken => vec![TalentValue::new("Chance", AttrUnit::Percent), TalentValue::new("Duration", AttrUnit::Frames), TalentValue::new("Reduced To", AttrUnit::Percent).minimum().inverted(100)],
        Identity::Freeze => vec![TalentValue::new("Chance", AttrUnit::Percent), TalentValue::new("Duration", AttrUnit::Frames)],
        Identity::Slow => vec![TalentValue::new("Chance", AttrUnit::Percent), TalentValue::new("Duration", AttrUnit::Frames)],
        Identity::Knockback => vec![TalentValue::new("Chance", AttrUnit::Percent)],
        Identity::Curse => vec![TalentValue::new("Chance", AttrUnit::Percent), TalentValue::new("Duration", AttrUnit::Frames)],
        Identity::Warp => vec![],
        Identity::Unknown => vec![],
        Identity::Barrier => vec![],
        Identity::AkuShield => vec![],
        Identity::Burrow => vec![],
        Identity::Revive => vec![],
        Identity::Toxic => vec![],
        Identity::Drain => vec![],
        Identity::DeathSurge => vec![],
        Identity::ImmuneWave => vec![],
        Identity::ImmuneSurge => vec![],
        Identity::ImmuneExplosion => vec![],
        Identity::ImmuneWeaken => vec![],
        Identity::ImmuneFreeze => vec![],
        Identity::ImmuneSlow => vec![],
        Identity::ImmuneKnockback => vec![],
        Identity::ImmuneCurse => vec![],
        Identity::ImmuneWarp => vec![],
        Identity::ImmuneToxic => vec![],
        Identity::ImmuneDrain => vec![],
        Identity::ImmuneBossWave => vec![],
        Identity::ResistWeaken => vec![],
        Identity::ResistFreeze => vec![],
        Identity::ResistSlow => vec![],
        Identity::ResistKnockback => vec![],
        Identity::ResistWave => vec![],
        Identity::ResistWarp => vec![],
        Identity::ResistCurse => vec![],
        Identity::ResistToxic => vec![],
        Identity::ResistSurge => vec![],
        Identity::CostDown => vec![TalentValue::new("Reduction", AttrUnit::Unitless)],
        Identity::RecoverSpeedUp => vec![TalentValue::new("Reduction", AttrUnit::Frames)],
        Identity::MoveSpeedUp => vec![TalentValue::new("Increase", AttrUnit::Unitless)],
        Identity::AttackBuff => vec![TalentValue::new("Boost", AttrUnit::Percent)],
        Identity::HealthBuff => vec![TalentValue::new("Boost", AttrUnit::Percent)],
        Identity::TbaDown => vec![TalentValue::new("Reduction", AttrUnit::Percent)],
        Identity::ImproveKnockbacks => vec![TalentValue::new("Increase", AttrUnit::Unitless)],
        Identity::TimeBeforeDeath => vec![],
    }
}

/// The attributes an ability yields for an entity: empty when the entity
/// lacks the ability.
pub open spec fn attributes_of(identity: Identity, stats: Entity) -> Seq<Attribute> {
    match identity {
        Identity::SingleAttack => {
            if stats.area_attack == 0 { active_attrs() } else { Seq::empty() }
        },
        Identity::AreaAttack => {
            if stats.area_attack == 1 { active_attrs() } else { Seq::empty() }
        },
        Identity::MultiHit => {
            flag_attrs(stats.attack_2)
        },
        Identity::LongDistance => {
            if has_long_distance_spec(stats) && !has_omni_spec(stats) { active_attrs() } else { Seq::empty() }
        },
        Identity::OmniStrike => {
            if has_omni_spec(stats) { active_attrs() } else { Seq::empty() }
        },
        Identity::TraitRed => {
            flag_attrs(stats.trait_red)
        },
        Identity::TraitFloating => {
            flag_attrs(stats.trait_floating)
        },
        Identity::TraitDark => {
            flag_attrs(stats.trait_dark)
        },
        Identity::TraitMetal => {
            flag_attrs(stats.trait_metal)
        },
        Identity::TraitAngel => {
            flag_attrs(stats.trait_angel)
        },
        Identity::TraitAlien => {
            flag_attrs(stats.trait_alien)
        },
        Identity::TraitZombie => {
            flag_attrs(stats.trait_zombie)
        },
        Identity::TraitRelic => {
            flag_attrs(stats.trait_relic)
        },
        Identity::TraitAku => {
            flag_attrs(stats.trait_aku)
        },
        Identity::TraitTraitless => {
            flag_attrs(stats.trait_traitless)
        },
        Identity::TraitWitch => {
            flag_attrs(stats.trait_witch)
        },
        Identity::TraitEva => {
            flag_attrs(stats.trait_eva)
        },
        Identity::TraitDojo => {
            flag_attrs(stats.trait_dojo)
        },
        Identity::TraitStarredAlien => {
            if stats.trait_starred_alien == 1 { active_attrs() } else { Seq::empty() }
        },
        Identity::TraitCatGod => {
            if stats.trait_starred_alien >= 2 && stats.trait_starred_alien <= 4 {
                seq![("Type", AttrValue::Finite(stats.trait_starred_alien), AttrUnit::Unitless)]
            } else { Seq::empty() }
        },
        Identity::TraitColossus => {
            flag_attrs(stats.trait_colossus)
        },
        Identity::TraitBehemoth => {
            flag_attrs(stats.trait_behemoth)
        },
        Identity::TraitSage => {
            flag_attrs(stats.trait_sage)
        },
        Identity::TraitKaijin => {
            flag_attrs(stats.trait_kaijin)
        },
        Identity::AttackOnly => {
            flag_attrs(stats.attack_only)
        },
        Identity::StrongAgainst => {
            flag_attrs(stats.strong_against)
        },
        Identity::MassiveDamage => {
            flag_attrs(stats.massive_damage)
        },
        Identity::InsaneDamage => {
            flag_attrs(stats.insane_damage)
        },
        Identity::Resist => {
            flag_attrs(stats.resist)
        },
        Identity::InsanelyTough => {
            flag_attrs(stats.insanely_tough)
        },
        Identity::IsMetal => {
            flag_attrs(stats.is_metal)
        },
        Identity::DoubleBounty => {
            flag_attrs(stats.double_bounty)
        },
        Identity::ZombieKiller => {
            flag_attrs(stats.zombie_killer)
        },
        Identity::Soulstrike => {
            if stats.soulstrike == 2 || (stats.soulstrike > 0 && stats.zombie_killer > 0) { active_attrs() } else { Seq::empty() }
        },
        Identity::ColossusSlayer => {
            flag_attrs(stats.colossus_slayer)
        },
        Identity::SageSlayer => {
            flag_attrs(stats.sage_slayer)
        },
        Identity::BehemothSlayer => {
            if stats.behemoth_slayer <= 0 {
                Seq::empty()
            } else if stats.behemoth_dodge_chance > 0 {
                seq![
                    ("Active", AttrValue::Finite(1), AttrUnit::Unitless),
                    ("Dodge Chance", AttrValue::Finite(stats.behemoth_dodge_chance), AttrUnit::Percent),
                    ("Dodge Duration", AttrValue::Finite(stats.behemoth_dodge_duration), AttrUnit::Frames),
                ]
            } else {
                active_attrs()
            }
        },
        Identity::WitchKiller => {
            flag_attrs(stats.witch_killer)
        },
        Identity::EvaKiller => {
            flag_attrs(stats.eva_killer)
        },
        Identity::MetalKiller => {
            if stats.metal_killer_percent > 0 {
                seq![("Damage", AttrValue::Finite(stats.metal_killer_percent), AttrUnit::Percent)]
            } else { Seq::empty() }
        },
        Identity::BarrierBreaker => {
            if stats.barrier_breaker_chance > 0 {
                seq![("Chance", AttrValue::Finite(stats.barrier_breaker_chance), AttrUnit::Percent)]
            } else { Seq::empty() }
        },
        Identity::ShieldPiercer => {
            if stats.shield_pierce_chance > 0 {
                seq![("Chance", AttrValue::Finite(stats.shield_pierce_chance), AttrUnit::Percent)]
            } else { Seq::empty() }
        },
        Identity::Conjure => {
            if stats.conjure_unit_id > -1 {
                seq![("Spirit ID", AttrValue::Finite(stats.conjure_unit_id), AttrUnit::Unitless)]
            } else { Seq::empty() }
        },
        Identity::BaseDestroyer => {
            flag_attrs(stats.base_destroyer)
        },
        Identity::Kamikaze => {
            if stats.attack_count_total > -1 && stats.attack_count_state == 2 {
                seq![("Attacks", AttrValue::Finite(stats.attack_count_total), AttrUnit::Unitless)]
            } else { Seq::empty() }
        },
        Identity::Stop => {
            if stats.attack_count_total > -1 && stats.attack_count_state == 0 {
                seq![("Attacks", AttrValue::Finite(stats.attack_count_total), AttrUnit::Unitless)]
            } else { Seq::empty() }
        },
        Identity::WaveBlock => {
            flag_attrs(stats.wave_block)
        },
        Identity::CounterSurge => {
            flag_attrs(stats.counter_surge)
        },
        Identity::WaveAttack => {
            if stats.mini_wave_flag == 0 && stats.wave_chance > 0 {
                seq![
                    ("Chance", AttrValue::Finite(stats.wave_chance), AttrUnit::Percent),
                    ("Level", AttrValue::Finite(stats.wave_level), AttrUnit::Unitless),
                    ("Max Reach", AttrValue::Finite(wave_reach_of(stats)), AttrUnit::Range),
                ]
            } else { Seq::empty() }
        },
        Identity::MiniWave => {
            if stats.mini_wave_flag > 0 && stats.wave_chance > 0 {
                seq![
                    ("Chance", AttrValue::Finite(stats.wave_chance), AttrUnit::Percent),
                    ("Level", AttrValue::Finite(stats.wave_level), AttrUnit::Unitless),
                    ("Max Reach", AttrValue::Finite(wave_reach_of(stats)), AttrUnit::Range),
                ]
            } else { Seq::empty() }
        },
        Identity::SurgeAttack => {
            if stats.mini_surge_flag == 0 && stats.surge_chance > 0 {
                seq![
                    ("Chance", AttrValue::Finite(stats.surge_chance), AttrUnit::Percent),
                    ("Level", AttrValue::Finite(stats.surge_level), AttrUnit::Unitless),
                    ("Min Range", AttrValue::Finite(stats.surge_spawn_anchor), AttrUnit::Range),
                    ("Max Range", AttrValue::Finite((stats.surge_spawn_anchor + stats.surge_spawn_span) as i32), AttrUnit::Range),
                    ("Width", AttrValue::Finite(stats.surge_spawn_span), AttrUnit::Range),
                ]
            } else { Seq::empty() }
        },
        Identity::MiniSurge => {
            if stats.mini_surge_flag > 0 && stats.surge_chance > 0 {
                seq![
                    ("Chance", AttrValue::Finite(stats.surge_chance), AttrUnit::Percent),
                    ("Level", AttrValue::Finite(stats.surge_level), AttrUnit::Unitless),
                    ("Min Range", AttrValue::Finite(stats.surge_spawn_anchor), AttrUnit::Range),
                    ("Max Range", AttrValue::Finite((stats.surge_spawn_anchor + stats.surge_spawn_span) as i32), AttrUnit::Range),
                    ("Width", AttrValue::Finite(stats.surge_spawn_span), AttrUnit::Range),
                ]
            } else { Seq::empty() }
        },
        Identity::Explosion => {
            if stats.explosion_chance > 0 {
                seq![
                    ("Chance", AttrValue::Finite(stats.explosion_chance), AttrUnit::Percent),
                    ("Min Range", AttrValue::Finite(stats.explosion_spawn_anchor), AttrUnit::Range),
                    ("Max Range", AttrValue::Finite((stats.explosion_spawn_anchor + stats.explosion_spawn_span) as i32), AttrUnit::Range),
                    ("Width", AttrValue::Finite(stats.explosion_spawn_span), AttrUnit::Range),
                ]
            } else { Seq::empty() }
        },
        Identity::SavageBlow => {
            if stats.savage_blow_chance > 0 {
                seq![
                    ("Chance", AttrValue::Finite(stats.savage_blow_chance), AttrUnit::Percent),
                    ("Boost", AttrValue::Finite(stats.savage_blow_boost), AttrUnit::Percent),
                ]
            } else { Seq::empty() }
        },
        Identity::CriticalHit => {
            if stats.critical_chance > 0 {
                seq![("Chance", AttrValue::Finite(stats.critical_chance), AttrUnit::Percent)]
            } else { Seq::empty() }
        },
        Identity::Strengthen => {
            if stats.strengthen_threshold > 0 {
                seq![
                    ("HP", AttrValue::Finite(stats.strengthen_threshold), AttrUnit::Percent),
                    ("Boost", AttrValue::Finite(stats.strengthen_boost), AttrUnit::Percent),
                ]
            } else { Seq::empty() }
        },
        Identity::Survive => {
            if stats.survive > 0 {
                seq![("Chance", AttrValue::Finite(stats.survive), AttrUnit::Percent)]
            } else { Seq::empty() }
        },
        Identity::Dodge => {
            if stats.dodge_chance > 0 {
                seq![
                    ("Chance", AttrValue::Finite(stats.dodge_chance), AttrUnit::Percent),
                    ("Duration", AttrValue::Finite(stats.dodge_duration), AttrUnit::Frames),
                ]
            } else { Seq::empty() }
        },
        Identity::Weaken => {
            if stats.weaken_chance > 0 {
                seq![
                    ("Chance", AttrValue::Finite(stats.weaken_chance), AttrUnit::Percent),
                    ("Reduced To", AttrValue::Finite(stats.weaken_to), AttrUnit::Percent),
                    ("Duration", AttrValue::Finite(stats.weaken_duration), AttrUnit::Frames),
                ]
            } else { Seq::empty() }
        },
        Identity::Freeze => {
            if stats.freeze_chance > 0 {
                seq![
                    ("Chance", AttrValue::Finite(stats.freeze_chance), AttrUnit::Percent),
                    ("Duration", AttrValue::Finite(stats.freeze_duration), AttrUnit::Frames),
                ]
            } else { Seq::empty() }
        },
        Identity::Slow => {
            if stats.slow_chance > 0 {
                seq![
                    ("Chance", AttrValue::Finite(stats.slow_chance), AttrUnit::Percent),
                    ("Duration", AttrValue::Finite(stats.slow_duration), AttrUnit::Frames),
                ]
            } else { Seq::empty() }
        },
        Identity::Knockback => {
            if stats.knockback_chance > 0 {
                seq![("Chance", AttrValue::Finite(stats.knockback_chance), AttrUnit::Percent)]
            } else { Seq::empty() }
        },
        Identity::Curse => {
            if stats.curse_chance > 0 {
                seq![
                    ("Chance", AttrValue::Finite(stats.curse_chance), AttrUnit::Percent),
                    ("Duration", AttrValue::Finite(stats.curse_duration), AttrUnit::Frames),
                ]
            } else { Seq::empty() }
        },
        Identity::Warp => {
            if stats.warp_chance > 0 {
                seq![
                    ("Chance", AttrValue::Finite(stats.warp_chance), AttrUnit::Percent),
                    ("Duration", AttrValue::Finite(stats.warp_duration), AttrUnit::Frames),
                    ("Min Distance", AttrValue::Finite(stats.warp_distance_minimum), AttrUnit::Range),
                    ("Max Distance", AttrValue::Finite(stats.warp_distance_maximum), AttrUnit::Range),
                ]
            } else { Seq::empty() }
        },
        Identity::Unknown => {
            flag_attrs(stats.has_unknown_abilities)
        },
        Identity::Barrier => {
            if stats.barrier_hitpoints > 0 {
                seq![("Hitpoints", AttrValue::Finite(stats.barrier_hitpoints), AttrUnit::Unitless)]
            } else { Seq::empty() }
        },
        Identity::AkuShield => {
            if stats.shield_hitpoints > 0 {
                seq![
                    ("Hitpoints", AttrValue::Finite(stats.shield_hitpoints), AttrUnit::Unitless),
                    ("Regen", AttrValue::Finite(stats.shield_regen), AttrUnit::Percent),
                ]
            } else { Seq::empty() }
        },
        Identity::Burrow => {
            if stats.burrow_amount != 0 {
                seq![
                    ("Count", sentinel_value(stats.burrow_amount), AttrUnit::Unitless),
                    ("Distance", AttrValue::Finite(stats.burrow_distance), AttrUnit::Range),
                ]
            } else { Seq::empty() }
        },
        Identity::Revive => {
            if stats.revive_count != 0 {
                seq![
                    ("Count", sentinel_value(stats.revive_count), AttrUnit::Unitless),
                    ("Duration", AttrValue::Finite(stats.revive_time), AttrUnit::Frames),
                    ("Hitpoints", AttrValue::Finite(stats.revive_hp), AttrUnit::Percent),
                ]
            } else { Seq::empty() }
        },
        Identity::Toxic => {
            if stats.toxic_chance > 0 {
                seq![
                    ("Chance", AttrValue::Finite(stats.toxic_chance), AttrUnit::Percent),
                    ("Damage", AttrValue::Finite(stats.toxic_damage), AttrUnit::Percent),
                ]
            } else { Seq::empty() }
        },
        Identity::Drain => {
            if stats.drain_chance > 0 {
                seq![
                    ("Chance", AttrValue::Finite(stats.drain_chance), AttrUnit::Percent),
                    ("Amount", AttrValue::Finite(stats.drain_percent), AttrUnit::Percent),
                ]
            } else { Seq::empty() }
        },
        Identity::DeathSurge => {
            if stats.death_surge_chance > 0 {
                seq![
                    ("Chance", AttrValue::Finite(stats.death_surge_chance), AttrUnit::Percent),
                    ("Level", AttrValue::Finite(stats.death_surge_level), AttrUnit::Unitless),
                    ("Min Range", AttrValue::Finite(stats.death_surge_spawn_anchor), AttrUnit::Range),
                    ("Max Range", AttrValue::Finite((stats.death_surge_spawn_anchor + stats.death_surge_spawn_span) as i32), AttrUnit::Range),
                    ("Width", AttrValue::Finite(stats.death_surge_spawn_span), AttrUnit::Range),
                ]
            } else { Seq::empty() }
        },
        Identity::ImmuneWave => {
            flag_attrs(stats.wave_immune)
        },
        Identity::ImmuneSurge => {
            flag_attrs(stats.surge_immune)
        },
        Identity::ImmuneExplosion => {
            flag_attrs(stats.explosion_immune)
        },
        Identity::ImmuneWeaken => {
            flag_attrs(stats.weaken_immune)
        },
        Identity::ImmuneFreeze => {
            flag_attrs(stats.freeze_immune)
        },
        Identity::ImmuneSlow => {
            flag_attrs(stats.slow_immune)
        },
        Identity::ImmuneKnockback => {
            flag_attrs(stats.knockback_immune)
        },
        Identity::ImmuneCurse => {
            flag_attrs(stats.curse_immune)
        },
        Identity::ImmuneWarp => {
            flag_attrs(stats.warp_immune)
        },
        Identity::ImmuneToxic => {
            flag_attrs(stats.toxic_immune)
        },
        Identity::ImmuneDrain => {
            Seq::empty()
        },
        Identity::ImmuneBossWave => {
            flag_attrs(stats.boss_wave_immune)
        },
        Identity::ResistWeaken => {
            Seq::empty()
        },
        Identity::ResistFreeze => {
            Seq::empty()
        },
        Identity::ResistSlow => {
            Seq::empty()
        },
        Identity::ResistKnockback => {
            Seq::empty()
        },
        Identity::ResistWave => {
            Seq::empty()
        },
        Identity::ResistWarp => {
            Seq::empty()
        },
        Identity::ResistCurse => {
            Seq::empty()
        },
        Identity::ResistToxic => {
            Seq::empty()
        },
        Identity::ResistSurge => {
            Seq::empty()
        },
        Identity::CostDown => {
            Seq::empty()
        },
        Identity::RecoverSpeedUp => {
            Seq::empty()
        },
        Identity::MoveSpeedUp => {
            Seq::empty()
        },
        Identity::AttackBuff => {
            Seq::empty()
        },
        Identity::HealthBuff => {
            Seq::empty()
        },
        Identity::TbaDown => {
            Seq::empty()
        },
        Identity::ImproveKnockbacks => {
            Seq::empty()
        },
        Identity::TimeBeforeDeath => {
            if stats.time_before_death > -1 {
                seq![("Duration", AttrValue::Finite(stats.time_before_death), AttrUnit::Frames)]
            } else { Seq::empty() }
        },
    }
}

impl Ability {
    /// The registry's definition of an ability.
    fn entry(identity: Identity) -> (r: Ability)
        ensures
            describes(r, identity),
    {
        Ability {
            identity,
            talent_id: talent_id_for(identity),
            icon_id: icon_id_for(identity),
            name: "",
            description: "",
            schema: schema_for(identity),
            talent_values: talent_values_for(identity),
            applies_talent: applies_for(identity),
        }
    }

    /// Extracts this ability's attributes from an entity, yielding an empty
    /// vector when the entity lacks the ability.
    #[verifier::rlimit(40)]
    pub fn attributes(&self, stats: &Entity) -> (r: Vec<Attribute>)
        requires
            attributes_defined(self.identity, *stats),
        ensures
            r@ == attributes_of(self.identity, *stats),
    {
        match self.identity {
            Identity::SingleAttack => {
                if stats.area_attack == 0 { active() } else { Vec::new() }
            },
            Identity::AreaAttack => {
                if stats.area_attack == 1 { active() } else { Vec::new() }
            },
            Identity::MultiHit => {
                flag(stats.attack_2)
            },
            Identity::LongDistance => {
                if has_long_distance(stats) && !has_omni(stats) { active() } else { Vec::new() }
            },
            Identity::OmniStrike => {
                if has_omni(stats) { active() } else { Vec::new() }
            },
            Identity::TraitRed => {
                flag(stats.trait_red)
            },
            Identity::TraitFloating => {
                flag(stats.trait_floating)
            },
            Identity::TraitDark => {
                flag(stats.trait_dark)
            },
            Identity::TraitMetal => {
                flag(stats.trait_metal)
            },
            Identity::TraitAngel => {
                flag(stats.trait_angel)
            },
            Identity::TraitAlien => {
                flag(stats.trait_alien)
            },
            Identity::TraitZombie => {
                flag(stats.trait_zombie)
            },
            Identity::TraitRelic => {
                flag(stats.trait_relic)
            },
            Identity::TraitAku => {
                flag(stats.trait_aku)
            },
            Identity::TraitTraitless => {
                flag(stats.trait_traitless)
            },
            Identity::TraitWitch => {
                flag(stats.trait_witch)
            },
            Identity::TraitEva => {
                flag(stats.trait_eva)
            },
            Identity::TraitDojo => {
                flag(stats.trait_dojo)
            },
            Identity::TraitStarredAlien => {
                if stats.trait_starred_alien == 1 { active() } else { Vec::new() }
            },
            Identity::TraitCatGod => {
                if stats.trait_starred_alien >= 2 && stats.trait_starred_alien <= 4 {
                    vec![("Type", AttrValue::Finite(stats.trait_starred_alien), AttrUnit::Unitless)]
                } else { Vec::new() }
            },
            Identity::TraitColossus => {
                flag(stats.trait_colossus)
            },
            Identity::TraitBehemoth => {
                flag(stats.trait_behemoth)
            },
            Identity::TraitSage => {
                flag(stats.trait_sage)
            },
            Identity::TraitKaijin => {
                flag(stats.trait_kaijin)
            },
            Identity::AttackOnly => {
                flag(stats.attack_only)
            },
            Identity::StrongAgainst => {
                flag(stats.strong_against)
            },
            Identity::MassiveDamage => {
                flag(stats.massive_damage)
            },
            Identity::InsaneDamage => {
                flag(stats.insane_damage)
            },
            Identity::Resist => {
                flag(stats.resist)
            },
            Identity::InsanelyTough => {
                flag(stats.insanely_tough)
            },
            Identity::IsMetal => {
                flag(stats.is_metal)
            },
            Identity::DoubleBounty => {
                flag(stats.double_bounty)
            },
            Identity::ZombieKiller => {
                flag(stats.zombie_killer)
            },
            Identity::Soulstrike => {
                if stats.soulstrike == 2 || (stats.soulstrike > 0 && stats.zombie_killer > 0) { active() } else { Vec::new() }
            },
            Identity::ColossusSlayer => {
                flag(stats.colossus_slayer)
            },
            Identity::SageSlayer => {
                flag(stats.sage_slayer)
            },
            Identity::BehemothSlayer => {
                if stats.behemoth_slayer <= 0 {
                    Vec::new()
                } else if stats.behemoth_dodge_chance > 0 {
                    vec![
                        ("Active", AttrValue::Finite(1), AttrUnit::Unitless),
                        ("Dodge Chance", AttrValue::Finite(stats.behemoth_dodge_chance), AttrUnit::Percent),
                        ("Dodge Duration", AttrValue::Finite(stats.behemoth_dodge_duration), AttrUnit::Frames),
                    ]
                } else {
                    active()
                }
            },
            Identity::WitchKiller => {
                flag(stats.witch_killer)
            },
            Identity::EvaKiller => {
                flag(stats.eva_killer)
            },
            Identity::MetalKiller => {
                if stats.metal_killer_percent > 0 {
                    vec![("Damage", AttrValue::Finite(stats.metal_killer_percent), AttrUnit::Percent)]
                } else { Vec::new() }
            },
            Identity::BarrierBreaker => {
                if stats.barrier_breaker_chance > 0 {
                    vec![("Chance", AttrValue::Finite(stats.barrier_breaker_chance), AttrUnit::Percent)]
                } else { Vec::new() }
            },
            Identity::ShieldPiercer => {
                if stats.shield_pierce_chance > 0 {
                    vec![("Chance", AttrValue::Finite(stats.shield_pierce_chance), AttrUnit::Percent)]
                } else { Vec::new() }
            },
            Identity::Conjure => {
                if stats.conjure_unit_id > -1 {
                    vec![("Spirit ID", AttrValue::Finite(stats.conjure_unit_id), AttrUnit::Unitless)]
                } else { Vec::new() }
            },
            Identity::BaseDestroyer => {
                flag(stats.base_destroyer)
            },
            Identity::Kamikaze => {
                if stats.attack_count_total > -1 && stats.attack_count_state == 2 {
                    vec![("Attacks", AttrValue::Finite(stats.attack_count_total), AttrUnit::Unitless)]
                } else { Vec::new() }
            },
            Identity::Stop => {
                if stats.attack_count_total > -1 && stats.attack_count_state == 0 {
                    vec![("Attacks", AttrValue::Finite(stats.attack_count_total), AttrUnit::Unitless)]
                } else { Vec::new() }
            },
            Identity::WaveBlock => {
                flag(stats.wave_block)
            },
            Identity::CounterSurge => {
                flag(stats.counter_surge)
            },
            Identity::WaveAttack => {
                if stats.mini_wave_flag == 0 && stats.wave_chance > 0 {
                    vec![
                        ("Chance", AttrValue::Finite(stats.wave_chance), AttrUnit::Percent),
                        ("Level", AttrValue::Finite(stats.wave_level), AttrUnit::Unitless),
                        ("Max Reach", AttrValue::Finite(wave_reach(stats)), AttrUnit::Range),
                    ]
                } else { Vec::new() }
            },
            Identity::MiniWave => {
                if stats.mini_wave_flag > 0 && stats.wave_chance > 0 {
                    vec![
                        ("Chance", AttrValue::Finite(stats.wave_chance), AttrUnit::Percent),
                        ("Level", AttrValue::Finite(stats.wave_level), AttrUnit::Unitless),
                        ("Max Reach", AttrValue::Finite(wave_reach(stats)), AttrUnit::Range),
                    ]
                } else { Vec::new() }
            },
            Identity::SurgeAttack => {
                if stats.mini_surge_flag == 0 && stats.surge_chance > 0 {
                    vec![
                        ("Chance", AttrValue::Finite(stats.surge_chance), AttrUnit::Percent),
                        ("Level", AttrValue::Finite(stats.surge_level), AttrUnit::Unitless),
                        ("Min Range", AttrValue::Finite(stats.surge_spawn_anchor), AttrUnit::Range),
                        ("Max Range", AttrValue::Finite(stats.surge_spawn_anchor + stats.surge_spawn_span), AttrUnit::Range),
                        ("Width", AttrValue::Finite(stats.surge_spawn_span), AttrUnit::Range),
                    ]
                } else { Vec::new() }
            },
            Identity::MiniSurge => {
                if stats.mini_surge_flag > 0 && stats.surge_chance > 0 {
                    vec![
                        ("Chance", AttrValue::Finite(stats.surge_chance), AttrUnit::Percent),
                        ("Level", AttrValue::Finite(stats.surge_level), AttrUnit::Unitless),
                        ("Min Range", AttrValue::Finite(stats.surge_spawn_anchor), AttrUnit::Range),
                        ("Max Range", AttrValue::Finite(stats.surge_spawn_anchor + stats.surge_spawn_span), AttrUnit::Range),
                        ("Width", AttrValue::Finite(stats.surge_spawn_span), AttrUnit::Range),
                    ]
                } else { Vec::new() }
            },
            Identity::Explosion => {
                if stats.explosion_chance > 0 {
                    vec![
                        ("Chance", AttrValue::Finite(stats.explosion_chance), AttrUnit::Percent),
                        ("Min Range", AttrValue::Finite(stats.explosion_spawn_anchor), AttrUnit::Range),
                        ("Max Range", AttrValue::Finite(stats.explosion_spawn_anchor + stats.explosion_spawn_span), AttrUnit::Range),
                        ("Width", AttrValue::Finite(stats.explosion_spawn_span), AttrUnit::Range),
                    ]
                } else { Vec::new() }
            },
            Identity::SavageBlow => {
                if stats.savage_blow_chance > 0 {
                    vec![
                        ("Chance", AttrValue::Finite(stats.savage_blow_chance), AttrUnit::Percent),
                        ("Boost", AttrValue::Finite(stats.savage_blow_boost), AttrUnit::Percent),
                    ]
                } else { Vec::new() }
            },
            Identity::CriticalHit => {
                if stats.critical_chance > 0 {
                    vec![("Chance", AttrValue::Finite(stats.critical_chance), AttrUnit::Percent)]
                } else { Vec::new() }
            },
            Identity::Strengthen => {
                if stats.strengthen_threshold > 0 {
                    vec![
                        ("HP", AttrValue::Finite(stats.strengthen_threshold), AttrUnit::Percent),
                        ("Boost", AttrValue::Finite(stats.strengthen_boost), AttrUnit::Percent),
                    ]
                } else { Vec::new() }
            },
            Identity::Survive => {
                if stats.survive > 0 {
                    vec![("Chance", AttrValue::Finite(stats.survive), AttrUnit::Percent)]
                } else { Vec::new() }
            },
            Identity::Dodge => {
                if stats.dodge_chance > 0 {
                    vec![
                        ("Chance", AttrValue::Finite(stats.dodge_chance), AttrUnit::Percent),
                        ("Duration", AttrValue::Finite(stats.dodge_duration), AttrUnit::Frames),
                    ]
                } else { Vec::new() }
            },
            Identity::Weaken => {
                if stats.weaken_chance > 0 {
                    vec![
                        ("Chance", AttrValue::Finite(stats.weaken_chance), AttrUnit::Percent),
                        ("Reduced To", AttrValue::Finite(stats.weaken_to), AttrUnit::Percent),
                        ("Duration", AttrValue::Finite(stats.weaken_duration), AttrUnit::Frames),
                    ]
                } else { Vec::new() }
            },
            Identity::Freeze => {
                if stats.freeze_chance > 0 {
                    vec![
                        ("Chance", AttrValue::Finite(stats.freeze_chance), AttrUnit::Percent),
                        ("Duration", AttrValue::Finite(stats.freeze_duration), AttrUnit::Frames),
                    ]
                } else { Vec::new() }
            },
            Identity::Slow => {
                if stats.slow_chance > 0 {
                    vec![
                        ("Chance", AttrValue::Finite(stats.slow_chance), AttrUnit::Percent),
                        ("Duration", AttrValue::Finite(stats.slow_duration), AttrUnit::Frames),
                    ]
                } else { Vec::new() }
            },
            Identity::Knockback => {
                if stats.knockback_chance > 0 {
                    vec![("Chance", AttrValue::Finite(stats.knockback_chance), AttrUnit::Percent)]
                } else { Vec::new() }
            },
            Identity::Curse => {
                if stats.curse_chance > 0 {
                    vec![
                        ("Chance", AttrValue::Finite(stats.curse_chance), AttrUnit::Percent),
                        ("Duration", AttrValue::Finite(stats.curse_duration), AttrUnit::Frames),
                    ]
                } else { Vec::new() }
            },
            Identity::Warp => {
                if stats.warp_chance > 0 {
                    vec![
                        ("Chance", AttrValue::Finite(stats.warp_chance), AttrUnit::Percent),
                        ("Duration", AttrValue::Finite(stats.warp_duration), AttrUnit::Frames),
                        ("Min Distance", AttrValue::Finite(stats.warp_distance_minimum), AttrUnit::Range),
                        ("Max Distance", AttrValue::Finite(stats.warp_distance_maximum), AttrUnit::Range),
                    ]
                } else { Vec::new() }
            },
            Identity::Unknown => {
                flag(stats.has_unknown_abilities)
            },
            Identity::Barrier => {
                if stats.barrier_hitpoints > 0 {
                    vec![("Hitpoints", AttrValue::Finite(stats.barrier_hitpoints), AttrUnit::Unitless)]
                } else { Vec::new() }
            },
            Identity::AkuShield => {
                if stats.shield_hitpoints > 0 {
                    vec![
                        ("Hitpoints", AttrValue::Finite(stats.shield_hitpoints), AttrUnit::Unitless),
                        ("Regen", AttrValue::Finite(stats.shield_regen), AttrUnit::Percent),
                    ]
                } else { Vec::new() }
            },
            Identity::Burrow => {
                if stats.burrow_amount != 0 {
                    vec![
                        ("Count", AttrValue::from_sentinel(stats.burrow_amount), AttrUnit::Unitless),
                        ("Distance", AttrValue::Finite(stats.burrow_distance), AttrUnit::Range),
                    ]
                } else { Vec::new() }
            },
            Identity::Revive => {
                if stats.revive_count != 0 {
                    vec![
                        ("Count", AttrValue::from_sentinel(stats.revive_count), AttrUnit::Unitless),
                        ("Duration", AttrValue::Finite(stats.revive_time), AttrUnit::Frames),
                        ("Hitpoints", AttrValue::Finite(stats.revive_hp), AttrUnit::Percent),
                    ]
                } else { Vec::new() }
            },
            Identity::Toxic => {
                if stats.toxic_chance > 0 {
                    vec![
                        ("Chance", AttrValue::Finite(stats.toxic_chance), AttrUnit::Percent),
                        ("Damage", AttrValue::Finite(stats.toxic_damage), AttrUnit::Percent),
                    ]
                } else { Vec::new() }
            },
            Identity::Drain => {
                if stats.drain_chance > 0 {
                    vec![
                        ("Chance", AttrValue::Finite(stats.drain_chance), AttrUnit::Percent),
                        ("Amount", AttrValue::Finite(stats.drain_percent), AttrUnit::Percent),
                    ]
                } else { Vec::new() }
            },
            Identity::DeathSurge => {
                if stats.death_surge_chance > 0 {
                    vec![
                        ("Chance", AttrValue::Finite(stats.death_surge_chance), AttrUnit::Percent),
                        ("Level", AttrValue::Finite(stats.death_surge_level), AttrUnit::Unitless),
                        ("Min Range", AttrValue::Finite(stats.death_surge_spawn_anchor), AttrUnit::Range),
                        ("Max Range", AttrValue::Finite(stats.death_surge_spawn_anchor + stats.death_surge_spawn_span), AttrUnit::Range),
                        ("Width", AttrValue::Finite(stats.death_surge_spawn_span), AttrUnit::Range),
                    ]
                } else { Vec::new() }
            },
            Identity::ImmuneWave => {
                flag(stats.wave_immune)
            },
            Identity::ImmuneSurge => {
                flag(stats.surge_immune)
            },
            Identity::ImmuneExplosion => {
                flag(stats.explosion_immune)
            },
            Identity::ImmuneWeaken => {
                flag(stats.weaken_immune)
            },
            Identity::ImmuneFreeze => {
                flag(stats.freeze_immune)
            },
            Identity::ImmuneSlow => {
                flag(stats.slow_immune)
            },
            Identity::ImmuneKnockback => {
                flag(stats.knockback_immune)
            },
            Identity::ImmuneCurse => {
                flag(stats.curse_immune)
            },
            Identity::ImmuneWarp => {
                flag(stats.warp_immune)
            },
            Identity::ImmuneToxic => {
                flag(stats.toxic_immune)
            },
            Identity::ImmuneDrain => {
                Vec::new()
            },
            Identity::ImmuneBossWave => {
                flag(stats.boss_wave_immune)
            },
            Identity::ResistWeaken => {
                Vec::new()
            },
            Identity::ResistFreeze => {
                Vec::new()
            },
            Identity::ResistSlow => {
                Vec::new()
            },
            Identity::ResistKnockback => {
                Vec::new()
            },
            Identity::ResistWave => {
                Vec::new()
            },
            Identity::ResistWarp => {
                Vec::new()
            },
            Identity::ResistCurse => {
                Vec::new()
            },
            Identity::ResistToxic => {
                Vec::new()
            },
            Identity::ResistSurge => {
                Vec::new()
            },
            Identity::CostDown => {
                Vec::new()
            },
            Identity::RecoverSpeedUp => {
                Vec::new()
            },
            Identity::MoveSpeedUp => {
                Vec::new()
            },
            Identity::AttackBuff => {
                Vec::new()
            },
            Identity::HealthBuff => {
                Vec::new()
            },
            Identity::TbaDown => {
                Vec::new()
            },
            Identity::ImproveKnockbacks => {
                Vec::new()
            },
            Identity::TimeBeforeDeath => {
                if stats.time_before_death > -1 {
                    vec![("Duration", AttrValue::Finite(stats.time_before_death), AttrUnit::Frames)]
                } else { Vec::new() }
            },
        }
    }
}

/// The definitions of every combat ability this crate recognizes, in
/// registry order.
///
/// Prefer [`get_ability`] and [`get_talent`] over scanning this directly; the
/// ordering of the entries is not part of the interface and may change.
pub fn registry() -> (r: Vec<Ability>)
    ensures
        r.len() == registry_order().len(),
        forall|i: int| 0 <= i < r.len() ==> describes(#[trigger] r[i], registry_order()[i]),
{
    let identities = registry_identities();
    let mut r: Vec<Ability> = Vec::new();
    let mut i: usize = 0;
    while i < identities.len()
        invariant
            identities@ == registry_order(),
            i <= identities.len(),
            r.len() == i,
            forall|j: int| 0 <= j < i ==> describes(#[trigger] r[j], registry_order()[j]),
        decreases identities.len() - i,
    {
        r.push(Ability::entry(identities[i]));
        i += 1;
    }
    r
}

/// Looks up the ability a talent identifier grants: the first in registry
/// order that a talent of that identifier grants, or `None` when no ability
/// is granted by it.
pub fn get_talent(id: u8) -> (r: Option<Ability>)
    ensures
        match r {
            Some(ability) => exists|k: int|
                0 <= k < registry_order().len()
                && talent_of(#[trigger] registry_order()[k]) == Some(id)
                && (forall|j: int| 0 <= j < k ==> talent_of(#[trigger] registry_order()[j]) != Some(id))
                && describes(ability, registry_order()[k]),
            None => forall|k: int| 0 <= k < registry_order().len() ==> talent_of(#[trigger] registry_order()[k]) != Some(id),
        },
{
    let identities = registry_identities();
    let mut i: usize = 0;
    while i < identities.len()
        invariant
            identities@ == registry_order(),
            i <= identities.len(),
            forall|j: int| 0 <= j < i ==> talent_of(#[trigger] registry_order()[j]) != Some(id),
        decreases identities.len() - i,
    {
        let identity = identities[i];
        if talent_id_for(identity) == Some(id) {
            let ability = Ability::entry(identity);
            assert(talent_of(registry_order()[i as int]) == Some(id));
            return Some(ability);
        }
        i += 1;
    }
    None
}

/// Looks up an ability's definition by its identifier. The registry defines
/// every identifier, so the lookup always finds one.
pub fn get_ability(identity: Identity) -> (r: Option<Ability>)
    ensures
        r matches Some(ability) && describes(ability, identity),
{
    Some(Ability::entry(identity))
}

/// Every ability identifier has a definition in the registry.
pub proof fn lemma_registry_holds_every_identity(identity: Identity)
    ensures
        registry_order().contains(identity),
{
    let order = registry_order();
    match identity {
        Identity::SingleAttack => assert(order[0] == identity),
        Identity::AreaAttack => assert(order[1] == identity),
        Identity::MultiHit => assert(order[2] == identity),
        Identity::LongDistance => assert(order[3] == identity),
        Identity::OmniStrike => assert(order[4] == identity),
        Identity::TraitRed => assert(order[5] == identity),
        Identity::TraitFloating => assert(order[6] == identity),
        Identity::TraitDark => assert(order[7] == identity),
        Identity::TraitMetal => assert(order[8] == identity),
        Identity::TraitAngel => assert(order[9] == identity),
        Identity::TraitAlien => assert(order[10] == identity),
        Identity::TraitZombie => assert(order[11] == identity),
        Identity::TraitRelic => assert(order[12] == identity),
        Identity::TraitAku => assert(order[13] == identity),
        Identity::TraitTraitless => assert(order[14] == identity),
        Identity::TraitWitch => assert(order[15] == identity),
        Identity::TraitEva => assert(order[16] == identity),
        Identity::TraitDojo => assert(order[17] == identity),
        Identity::TraitStarredAlien => assert(order[18] == identity),
        Identity::TraitCatGod => assert(order[19] == identity),
        Identity::TraitColossus => assert(order[20] == identity),
        Identity::TraitBehemoth => assert(order[21] == identity),
        Identity::TraitSage => assert(order[22] == identity),
        Identity::TraitKaijin => assert(order[23] == identity),
        Identity::AttackOnly => assert(order[24] == identity),
        Identity::StrongAgainst => assert(order[25] == identity),
        Identity::MassiveDamage => assert(order[26] == identity),
        Identity::InsaneDamage => assert(order[27] == identity),
        Identity::Resist => assert(order[28] == identity),
        Identity::InsanelyTough => assert(order[29] == identity),
        Identity::IsMetal => assert(order[30] == identity),
        Identity::DoubleBounty => assert(order[31] == identity),
        Identity::ZombieKiller => assert(order[32] == identity),
        Identity::Soulstrike => assert(order[33] == identity),
        Identity::ColossusSlayer => assert(order[34] == identity),
        Identity::SageSlayer => assert(order[35] == identity),
        Identity::BehemothSlayer => assert(order[36] == identity),
        Identity::WitchKiller => assert(order[37] == identity),
        Identity::EvaKiller => assert(order[38] == identity),
        Identity::MetalKiller => assert(order[39] == identity),
        Identity::BarrierBreaker => assert(order[40] == identity),
        Identity::ShieldPiercer => assert(order[41] == identity),
        Identity::Conjure => assert(order[42] == identity),
        Identity::BaseDestroyer => assert(order[43] == identity),
        Identity::Kamikaze => assert(order[44] == identity),
        Identity::Stop => assert(order[45] == identity),
        Identity::WaveBlock => assert(order[46] == identity),
        Identity::CounterSurge => assert(order[47] == identity),
        Identity::WaveAttack => assert(order[48] == identity),
        Identity::MiniWave => assert(order[49] == identity),
        Identity::SurgeAttack => assert(order[50] == identity),
        Identity::MiniSurge => assert(order[51] == identity),
        Identity::Explosion => assert(order[52] == identity),
        Identity::SavageBlow => assert(order[53] == identity),
        Identity::CriticalHit => assert(order[54] == identity),
        Identity::Strengthen => assert(order[55] == identity),
        Identity::Survive => assert(order[56] == identity),
        Identity::Dodge => assert(order[57] == identity),
        Identity::Weaken => assert(order[58] == identity),
        Identity::Freeze => assert(order[59] == identity),
        Identity::Slow => assert(order[60] == identity),
        Identity::Knockback => assert(order[61] == identity),
        Identity::Curse => assert(order[62] == identity),
        Identity::Warp => assert(order[63] == identity),
        Identity::Unknown => assert(order[64] == identity),
        Identity::Barrier => assert(order[65] == identity),
        Identity::AkuShield => assert(order[66] == identity),
        Identity::Burrow => assert(order[67] == identity),
        Identity::Revive => assert(order[68] == identity),
        Identity::Toxic => assert(order[69] == identity),
        Identity::Drain => assert(order[70] == identity),
        Identity::DeathSurge => assert(order[71] == identity),
        Identity::ImmuneWave => assert(order[72] == identity),
        Identity::ImmuneSurge => assert(order[73] == identity),
        Identity::ImmuneExplosion => assert(order[74] == identity),
        Identity::ImmuneWeaken => assert(order[75] == identity),
        Identity::ImmuneFreeze => assert(order[76] == identity),
        Identity::ImmuneSlow => assert(order[77] == identity),
        Identity::ImmuneKnockback => assert(order[78] == identity),
        Identity::ImmuneCurse => assert(order[79] == identity),
        Identity::ImmuneWarp => assert(order[80] == identity),
        Identity::ImmuneToxic => assert(order[81] == identity),
        Identity::ImmuneDrain => assert(order[82] == identity),
        Identity::ImmuneBossWave => assert(order[83] == identity),
        Identity::ResistWeaken => assert(order[84] == identity),
        Identity::ResistFreeze => assert(order[85] == identity),
        Identity::ResistSlow => assert(order[86] == identity),
        Identity::ResistKnockback => assert(order[87] == identity),
        Identity::ResistWave => assert(order[88] == identity),
        Identity::ResistWarp => assert(order[89] == identity),
        Identity::ResistCurse => assert(order[90] == identity),
        Identity::ResistToxic => assert(order[91] == identity),
        Identity::ResistSurge => assert(order[92] == identity),
        Identity::CostDown => assert(order[93] == identity),
        Identity::RecoverSpeedUp => assert(order[94] == identity),
        Identity::MoveSpeedUp => assert(order[95] == identity),
        Identity::AttackBuff => assert(order[96] == identity),
        Identity::HealthBuff => assert(order[97] == identity),
        Identity::TbaDown => assert(order[98] == identity),
        Identity::ImproveKnockbacks => assert(order[99] == identity),
        Identity::TimeBeforeDeath => assert(order[100] == identity),
    }
}

/// No ability describes more value pairs than the four a talent group
/// declares, and only an ability a talent can apply describes any.
pub proof fn lemma_talent_values_fit_a_group(identity: Identity)
    ensures
        talent_values_of(identity).len() <= 4,
        talent_values_of(identity).len() > 0 ==> applies_as_talent(identity),
{
}

/// An entity shows at most one of each pair of rival abilities: single or
/// area attack, long distance or omni strike, wave or mini wave, and surge or
/// mini surge.
pub proof fn lemma_rival_abilities_exclude(stats: Entity)
    ensures
        attributes_of(Identity::SingleAttack, stats).len() == 0 || attributes_of(Identity::AreaAttack, stats).len() == 0,
        attributes_of(Identity::LongDistance, stats).len() == 0 || attributes_of(Identity::OmniStrike, stats).len() == 0,
        attributes_of(Identity::WaveAttack, stats).len() == 0 || attributes_of(Identity::MiniWave, stats).len() == 0,
        attributes_of(Identity::SurgeAttack, stats).len() == 0 || attributes_of(Identity::MiniSurge, stats).len() == 0,
{
}

/// What an ability reports of an entity, read off the statistic columns each
/// attribute names: whether the ability is present, and the value of each
/// attribute its schema labels, in the schema's order (part 1).
pub proof fn lemma_attributes_name_their_fields_1(stats: Entity)
    ensures
        attributes_of(Identity::SingleAttack, stats) == (if stats.area_attack == 0 { seq![("Active", AttrValue::Finite(1), AttrUnit::Unitless)] } else { Seq::empty() }),
        attributes_of(Identity::AreaAttack, stats) == (if stats.area_attack == 1 { seq![("Active", AttrValue::Finite(1), AttrUnit::Unitless)] } else { Seq::empty() }),
        attributes_of(Identity::MultiHit, stats) == (if stats.attack_2 > 0 { seq![("Active", AttrValue::Finite(1), AttrUnit::Unitless)] } else { Seq::empty() }),
        attributes_of(Identity::TraitRed, stats) == (if stats.trait_red > 0 { seq![("Active", AttrValue::Finite(1), AttrUnit::Unitless)] } else { Seq::empty() }),
        attributes_of(Identity::TraitFloating, stats) == (if stats.trait_floating > 0 { seq![("Active", AttrValue::Finite(1), AttrUnit::Unitless)] } else { Seq::empty() }),
        attributes_of(Identity::TraitDark, stats) == (if stats.trait_dark > 0 { seq![("Active", AttrValue::Finite(1), AttrUnit::Unitless)] } else { Seq::empty() }),
        attributes_of(Identity::TraitMetal, stats) == (if stats.trait_metal > 0 { seq![("Active", AttrValue::Finite(1), AttrUnit::Unitless)] } else { Seq::empty() }),
        attributes_of(Identity::TraitAngel, stats) == (if stats.trait_angel > 0 { seq![("Active", AttrValue::Finite(1), AttrUnit::Unitless)] } else { Seq::empty() }),
        attributes_of(Identity::TraitAlien, stats) == (if stats.trait_alien > 0 { seq![("Active", AttrValue::Finite(1), AttrUnit::Unitless)] } else { Seq::empty() }),
        attributes_of(Identity::TraitZombie, stats) == (if stats.trait_zombie > 0 { seq![("Active", AttrValue::Finite(1), AttrUnit::Unitless)] } else { Seq::empty() }),
        attributes_of(Identity::TraitRelic, stats) == (if stats.trait_relic > 0 { seq![("Active", AttrValue::Finite(1), AttrUnit::Unitless)] } else { Seq::empty() }),
        attributes_of(Identity::TraitAku, stats) == (if stats.trait_aku > 0 { seq![("Active", AttrValue::Finite(1), AttrUnit::Unitless)] } else { Seq::empty() }),
        attributes_of(Identity::TraitTraitless, stats) == (if stats.trait_traitless > 0 { seq![("Active", AttrValue::Finite(1), AttrUnit::Unitless)] } else { Seq::empty() }),
        attributes_of(Identity::TraitWitch, stats) == (if stats.trait_witch > 0 { seq![("Active", AttrValue::Finite(1), AttrUnit::Unitless)] } else { Seq::empty() }),
        attributes_of(Identity::TraitEva, stats) == (if stats.trait_eva > 0 { seq![("Active", AttrValue::Finite(1), AttrUnit::Unitless)] } else { Seq::empty() }),
        attributes_of(Identity::TraitDojo, stats) == (if stats.trait_dojo > 0 { seq![("Active", AttrValue::Finite(1), AttrUnit::Unitless)] } else { Seq::empty() }),
        attributes_of(Identity::TraitStarredAlien, stats) == (if stats.trait_starred_alien == 1 { seq![("Active", AttrValue::Finite(1), AttrUnit::Unitless)] } else { Seq::empty() }),
        attributes_of(Identity::TraitCatGod, stats) == (if stats.trait_starred_alien >= 2 && stats.trait_starred_alien <= 4 { seq![("Type", AttrValue::Finite(stats.trait_starred_alien), AttrUnit::Unitless)] } else { Seq::empty() }),
        attributes_of(Identity::TraitColossus, stats) == (if stats.trait_colossus > 0 { seq![("Active", AttrValue::Finite(1), AttrUnit::Unitless)] } else { Seq::empty() }),
        attributes_of(Identity::TraitBehemoth, stats) == (if stats.trait_behemoth > 0 { seq![("Active", AttrValue::Finite(1), AttrUnit::Unitless)] } else { Seq::empty() }),
{
}

/// What an ability reports of an entity, read off the statistic columns each
/// attribute names: whether the ability is present, and the value of each
/// attribute its schema labels, in the schema's order (part 2).
pub proof fn lemma_attributes_name_their_fields_2(stats: Entity)
    ensures
        attributes_of(Identity::TraitSage, stats) == (if stats.trait_sage > 0 { seq![("Active", AttrValue::Finite(1), AttrUnit::Unitless)] } else { Seq::empty() }),
        attributes_of(Identity::TraitKaijin, stats) == (if stats.trait_kaijin > 0 { seq![("Active", AttrValue::Finite(1), AttrUnit::Unitless)] } else { Seq::empty() }),
        attributes_of(Identity::AttackOnly, stats) == (if stats.attack_only > 0 { seq![("Active", AttrValue::Finite(1), AttrUnit::Unitless)] } else { Seq::empty() }),
        attributes_of(Identity::StrongAgainst, stats) == (if stats.strong_against > 0 { seq![("Active", AttrValue::Finite(1), AttrUnit::Unitless)] } else { Seq::empty() }),
        attributes_of(Identity::MassiveDamage, stats) == (if stats.massive_damage > 0 { seq![("Active", AttrValue::Finite(1), AttrUnit::Unitless)] } else { Seq::empty() }),
        attributes_of(Identity::InsaneDamage, stats) == (if stats.insane_damage > 0 { seq![("Active", AttrValue::Finite(1), AttrUnit::Unitless)] } else { Seq::empty() }),
        attributes_of(Identity::Resist, stats) == (if stats.resist > 0 { seq![("Active", AttrValue::Finite(1), AttrUnit::Unitless)] } else { Seq::empty() }),
        attributes_of(Identity::InsanelyTough, stats) == (if stats.insanely_tough > 0 { seq![("Active", AttrValue::Finite(1), AttrUnit::Unitless)] } else { Seq::empty() }),
        attributes_of(Identity::IsMetal, stats) == (if stats.is_metal > 0 { seq![("Active", AttrValue::Finite(1), AttrUnit::Unitless)] } else { Seq::empty() }),
        attributes_of(Identity::DoubleBounty, stats) == (if stats.double_bounty > 0 { seq![("Active", AttrValue::Finite(1), AttrUnit::Unitless)] } else { Seq::empty() }),
        attributes_of(Identity::ZombieKiller, stats) == (if stats.zombie_killer > 0 { seq![("Active", AttrValue::Finite(1), AttrUnit::Unitless)] } else { Seq::empty() }),
        attributes_of(Identity::Soulstrike, stats) == (if stats.soulstrike == 2 || (stats.soulstrike > 0 && stats.zombie_killer > 0) { seq![("Active", AttrValue::Finite(1), AttrUnit::Unitless)] } else { Seq::empty() }),
        attributes_of(Identity::ColossusSlayer, stats) == (if stats.colossus_slayer > 0 { seq![("Active", AttrValue::Finite(1), AttrUnit::Unitless)] } else { Seq::empty() }),
        attributes_of(Identity::SageSlayer, stats) == (if stats.sage_slayer > 0 { seq![("Active", AttrValue::Finite(1), AttrUnit::Unitless)] } else { Seq::empty() }),
        attributes_of(Identity::WitchKiller, stats) == (if stats.witch_killer > 0 { seq![("Active", AttrValue::Finite(1), AttrUnit::Unitless)] } else { Seq::empty() }),
        attributes_of(Identity::EvaKiller, stats) == (if stats.eva_killer > 0 { seq![("Active", AttrValue::Finite(1), AttrUnit::Unitless)] } else { Seq::empty() }),
        attributes_of(Identity::MetalKiller, stats) == (if stats.metal_killer_percent > 0 { seq![("Damage", AttrValue::Finite(stats.metal_killer_percent), AttrUnit::Percent)] } else { Seq::empty() }),
        attributes_of(Identity::BarrierBreaker, stats) == (if stats.barrier_breaker_chance > 0 { seq![("Chance", AttrValue::Finite(stats.barrier_breaker_chance), AttrUnit::Percent)] } else { Seq::empty() }),
        attributes_of(Identity::ShieldPiercer, stats) == (if stats.shield_pierce_chance > 0 { seq![("Chance", AttrValue::Finite(stats.shield_pierce_chance), AttrUnit::Percent)] } else { Seq::empty() }),
        attributes_of(Identity::Conjure, stats) == (if stats.conjure_unit_id > -1 { seq![("Spirit ID", AttrValue::Finite(stats.conjure_unit_id), AttrUnit::Unitless)] } else { Seq::empty() }),
{
}

/// What an ability reports of an entity, read off the statistic columns each
/// attribute names: whether the ability is present, and the value of each
/// attribute its schema labels, in the schema's order (part 3).
pub proof fn lemma_attributes_name_their_fields_3(stats: Entity)
    ensures
        attributes_of(Identity::BaseDestroyer, stats) == (if stats.base_destroyer > 0 { seq![("Active", AttrValue::Finite(1), AttrUnit::Unitless)] } else { Seq::empty() }),
        attributes_of(Identity::Kamikaze, stats) == (if stats.attack_count_total > -1 && stats.attack_count_state == 2 { seq![("Attacks", AttrValue::Finite(stats.attack_count_total), AttrUnit::Unitless)] } else { Seq::empty() }),
        attributes_of(Identity::Stop, stats) == (if stats.attack_count_total > -1 && stats.attack_count_state == 0 { seq![("Attacks", AttrValue::Finite(stats.attack_count_total), AttrUnit::Unitless)] } else { Seq::empty() }),
        attributes_of(Identity::WaveBlock, stats) == (if stats.wave_block > 0 { seq![("Active", AttrValue::Finite(1), AttrUnit::Unitless)] } else { Seq::empty() }),
        attributes_of(Identity::CounterSurge, stats) == (if stats.counter_surge > 0 { seq![("Active", AttrValue::Finite(1), AttrUnit::Unitless)] } else { Seq::empty() }),
        attributes_of(Identity::WaveAttack, stats) == (if stats.mini_wave_flag == 0 && stats.wave_chance > 0 { seq![ ("Chance", AttrValue::Finite(stats.wave_chance), AttrUnit::Percent), ("Level", AttrValue::Finite(stats.wave_level), AttrUnit::Unitless), ("Max Reach", AttrValue::Finite(single_reach(match stats.faction { Faction::Cat => 665, Faction::Enemy => 935 }, stats.wave_level as int)), AttrUnit::Range)] } else { Seq::empty() }),
        attributes_of(Identity::MiniWave, stats) == (if stats.mini_wave_flag > 0 && stats.wave_chance > 0 { seq![ ("Chance", AttrValue::Finite(stats.wave_chance), AttrUnit::Percent), ("Level", AttrValue::Finite(stats.wave_level), AttrUnit::Unitless), ("Max Reach", AttrValue::Finite(single_reach(match stats.faction { Faction::Cat => 665, Faction::Enemy => 935 }, stats.wave_level as int)), AttrUnit::Range)] } else { Seq::empty() }),
        attributes_of(Identity::SurgeAttack, stats) == (if stats.mini_surge_flag == 0 && stats.surge_chance > 0 { seq![ ("Chance", AttrValue::Finite(stats.surge_chance), AttrUnit::Percent), ("Level", AttrValue::Finite(stats.surge_level), AttrUnit::Unitless), ("Min Range", AttrValue::Finite(stats.surge_spawn_anchor), AttrUnit::Range), ("Max Range", AttrValue::Finite((stats.surge_spawn_anchor + stats.surge_spawn_span) as i32), AttrUnit::Range), ("Width", AttrValue::Finite(stats.surge_spawn_span), AttrUnit::Range)] } else { Seq::empty() }),
        attributes_of(Identity::MiniSurge, stats) == (if stats.mini_surge_flag > 0 && stats.surge_chance > 0 { seq![ ("Chance", AttrValue::Finite(stats.surge_chance), AttrUnit::Percent), ("Level", AttrValue::Finite(stats.surge_level), AttrUnit::Unitless), ("Min Range", AttrValue::Finite(stats.surge_spawn_anchor), AttrUnit::Range), ("Max Range", AttrValue::Finite((stats.surge_spawn_anchor + stats.surge_spawn_span) as i32), AttrUnit::Range), ("Width", AttrValue::Finite(stats.surge_spawn_span), AttrUnit::Range)] } else { Seq::empty() }),
        attributes_of(Identity::Explosion, stats) == (if stats.explosion_chance > 0 { seq![ ("Chance", AttrValue::Finite(stats.explosion_chance), AttrUnit::Percent), ("Min Range", AttrValue::Finite(stats.explosion_spawn_anchor), AttrUnit::Range), ("Max Range", AttrValue::Finite((stats.explosion_spawn_anchor + stats.explosion_spawn_span) as i32), AttrUnit::Range), ("Width", AttrValue::Finite(stats.explosion_spawn_span), AttrUnit::Range)] } else { Seq::empty() }),
        attributes_of(Identity::SavageBlow, stats) == (if stats.savage_blow_chance > 0 { seq![ ("Chance", AttrValue::Finite(stats.savage_blow_chance), AttrUnit::Percent), ("Boost", AttrValue::Finite(stats.savage_blow_boost), AttrUnit::Percent)] } else { Seq::empty() }),
        attributes_of(Identity::CriticalHit, stats) == (if stats.critical_chance > 0 { seq![("Chance", AttrValue::Finite(stats.critical_chance), AttrUnit::Percent)] } else { Seq::empty() }),
        attributes_of(Identity::Strengthen, stats) == (if stats.strengthen_threshold > 0 { seq![ ("HP", AttrValue::Finite(stats.strengthen_threshold), AttrUnit::Percent), ("Boost", AttrValue::Finite(stats.strengthen_boost), AttrUnit::Percent)] } else { Seq::empty() }),
        attributes_of(Identity::Survive, stats) == (if stats.survive > 0 { seq![("Chance", AttrValue::Finite(stats.survive), AttrUnit::Percent)] } else { Seq::empty() }),
        attributes_of(Identity::Dodge, stats) == (if stats.dodge_chance > 0 { seq![ ("Chance", AttrValue::Finite(stats.dodge_chance), AttrUnit::Percent), ("Duration", AttrValue::Finite(stats.dodge_duration), AttrUnit::Frames)] } else { Seq::empty() }),
        attributes_of(Identity::Weaken, stats) == (if stats.weaken_chance > 0 { seq![ ("Chance", AttrValue::Finite(stats.weaken_chance), AttrUnit::Percent), ("Reduced To", AttrValue::Finite(stats.weaken_to), AttrUnit::Percent), ("Duration", AttrValue::Finite(stats.weaken_duration), AttrUnit::Frames)] } else { Seq::empty() }),
        attributes_of(Identity::Freeze, stats) == (if stats.freeze_chance > 0 { seq![ ("Chance", AttrValue::Finite(stats.freeze_chance), AttrUnit::Percent), ("Duration", AttrValue::Finite(stats.freeze_duration), AttrUnit::Frames)] } else { Seq::empty() }),
        attributes_of(Identity::Slow, stats) == (if stats.slow_chance > 0 { seq![ ("Chance", AttrValue::Finite(stats.slow_chance), AttrUnit::Percent), ("Duration", AttrValue::Finite(stats.slow_duration), AttrUnit::Frames)] } else { Seq::empty() }),
        attributes_of(Identity::Knockback, stats) == (if stats.knockback_chance > 0 { seq![("Chance", AttrValue::Finite(stats.knockback_chance), AttrUnit::Percent)] } else { Seq::empty() }),
        attributes_of(Identity::Curse, stats) == (if stats.curse_chance > 0 { seq![ ("Chance", AttrValue::Finite(stats.curse_chance), AttrUnit::Percent), ("Duration", AttrValue::Finite(stats.curse_duration), AttrUnit::Frames)] } else { Seq::empty() }),
{
}

/// What an ability reports of an entity, read off the statistic columns each
/// attribute names: whether the ability is present, and the value of each
/// attribute its schema labels, in the schema's order (part 4).
pub proof fn lemma_attributes_name_their_fields_4(stats: Entity)
    ensures
        attributes_of(Identity::Warp, stats) == (if stats.warp_chance > 0 { seq![ ("Chance", AttrValue::Finite(stats.warp_chance), AttrUnit::Percent), ("Duration", AttrValue::Finite(stats.warp_duration), AttrUnit::Frames), ("Min Distance", AttrValue::Finite(stats.warp_distance_minimum), AttrUnit::Range), ("Max Distance", AttrValue::Finite(stats.warp_distance_maximum), AttrUnit::Range)] } else { Seq::empty() }),
        attributes_of(Identity::Unknown, stats) == (if stats.has_unknown_abilities > 0 { seq![("Active", AttrValue::Finite(1), AttrUnit::Unitless)] } else { Seq::empty() }),
        attributes_of(Identity::Barrier, stats) == (if stats.barrier_hitpoints > 0 { seq![("Hitpoints", AttrValue::Finite(stats.barrier_hitpoints), AttrUnit::Unitless)] } else { Seq::empty() }),
        attributes_of(Identity::AkuShield, stats) == (if stats.shield_hitpoints > 0 { seq![ ("Hitpoints", AttrValue::Finite(stats.shield_hitpoints), AttrUnit::Unitless), ("Regen", AttrValue::Finite(stats.shield_regen), AttrUnit::Percent)] } else { Seq::empty() }),
        attributes_of(Identity::Burrow, stats) == (if stats.burrow_amount != 0 { seq![ ("Count", sentinel_value(stats.burrow_amount), AttrUnit::Unitless), ("Distance", AttrValue::Finite(stats.burrow_distance), AttrUnit::Range)] } else { Seq::empty() }),
        attributes_of(Identity::Revive, stats) == (if stats.revive_count != 0 { seq![ ("Count", sentinel_value(stats.revive_count), AttrUnit::Unitless), ("Duration", AttrValue::Finite(stats.revive_time), AttrUnit::Frames), ("Hitpoints", AttrValue::Finite(stats.revive_hp), AttrUnit::Percent)] } else { Seq::empty() }),
        attributes_of(Identity::Toxic, stats) == (if stats.toxic_chance > 0 { seq![ ("Chance", AttrValue::Finite(stats.toxic_chance), AttrUnit::Percent), ("Damage", AttrValue::Finite(stats.toxic_damage), AttrUnit::Percent)] } else { Seq::empty() }),
        attributes_of(Identity::Drain, stats) == (if stats.drain_chance > 0 { seq![ ("Chance", AttrValue::Finite(stats.drain_chance), AttrUnit::Percent), ("Amount", AttrValue::Finite(stats.drain_percent), AttrUnit::Percent)] } else { Seq::empty() }),
        attributes_of(Identity::DeathSurge, stats) == (if stats.death_surge_chance > 0 { seq![ ("Chance", AttrValue::Finite(stats.death_surge_chance), AttrUnit::Percent), ("Level", AttrValue::Finite(stats.death_surge_level), AttrUnit::Unitless), ("Min Range", AttrValue::Finite(stats.death_surge_spawn_anchor), AttrUnit::Range), ("Max Range", AttrValue::Finite((stats.death_surge_spawn_anchor + stats.death_surge_spawn_span) as i32), AttrUnit::Range), ("Width", AttrValue::Finite(stats.death_surge_spawn_span), AttrUnit::Range)] } else { Seq::empty() }),
        attributes_of(Identity::ImmuneWave, stats) == (if stats.wave_immune > 0 { seq![("Active", AttrValue::Finite(1), AttrUnit::Unitless)] } else { Seq::empty() }),
        attributes_of(Identity::ImmuneSurge, stats) == (if stats.surge_immune > 0 { seq![("Active", AttrValue::Finite(1), AttrUnit::Unitless)] } else { Seq::empty() }),
        attributes_of(Identity::ImmuneExplosion, stats) == (if stats.explosion_immune > 0 { seq![("Active", AttrValue::Finite(1), AttrUnit::Unitless)] } else { Seq::empty() }),
        attributes_of(Identity::ImmuneWeaken, stats) == (if stats.weaken_immune > 0 { seq![("Active", AttrValue::Finite(1), AttrUnit::Unitless)] } else { Seq::empty() }),
        attributes_of(Identity::ImmuneFreeze, stats) == (if stats.freeze_immune > 0 { seq![("Active", AttrValue::Finite(1), AttrUnit::Unitless)] } else { Seq::empty() }),
        attributes_of(Identity::ImmuneSlow, stats) == (if stats.slow_immune > 0 { seq![("Active", AttrValue::Finite(1), AttrUnit::Unitless)] } else { Seq::empty() }),
        attributes_of(Identity::ImmuneKnockback, stats) == (if stats.knockback_immune > 0 { seq![("Active", AttrValue::Finite(1), AttrUnit::Unitless)] } else { Seq::empty() }),
        attributes_of(Identity::ImmuneCurse, stats) == (if stats.curse_immune > 0 { seq![("Active", AttrValue::Finite(1), AttrUnit::Unitless)] } else { Seq::empty() }),
        attributes_of(Identity::ImmuneWarp, stats) == (if stats.warp_immune > 0 { seq![("Active", AttrValue::Finite(1), AttrUnit::Unitless)] } else { Seq::empty() }),
        attributes_of(Identity::ImmuneToxic, stats) == (if stats.toxic_immune > 0 { seq![("Active", AttrValue::Finite(1), AttrUnit::Unitless)] } else { Seq::empty() }),
        attributes_of(Identity::ImmuneDrain, stats) == Seq::<Attribute>::empty(),
{
}

/// What an ability reports of an entity, read off the statistic columns each
/// attribute names: whether the ability is present, and the value of each
/// attribute its schema labels, in the schema's order (part 5).
pub proof fn lemma_attributes_name_their_fields_5(stats: Entity)
    ensures
        attributes_of(Identity::ImmuneBossWave, stats) == (if stats.boss_wave_immune > 0 { seq![("Active", AttrValue::Finite(1), AttrUnit::Unitless)] } else { Seq::empty() }),
        attributes_of(Identity::ResistWeaken, stats) == Seq::<Attribute>::empty(),
        attributes_of(Identity::ResistFreeze, stats) == Seq::<Attribute>::empty(),
        attributes_of(Identity::ResistSlow, stats) == Seq::<Attribute>::empty(),
        attributes_of(Identity::ResistKnockback, stats) == Seq::<Attribute>::empty(),
        attributes_of(Identity::ResistWave, stats) == Seq::<Attribute>::empty(),
        attributes_of(Identity::ResistWarp, stats) == Seq::<Attribute>::empty(),
        attributes_of(Identity::ResistCurse, stats) == Seq::<Attribute>::empty(),
        attributes_of(Identity::ResistToxic, stats) == Seq::<Attribute>::empty(),
        attributes_of(Identity::ResistSurge, stats) == Seq::<Attribute>::empty(),
        attributes_of(Identity::CostDown, stats) == Seq::<Attribute>::empty(),
        attributes_of(Identity::RecoverSpeedUp, stats) == Seq::<Attribute>::empty(),
        attributes_of(Identity::MoveSpeedUp, stats) == Seq::<Attribute>::empty(),
        attributes_of(Identity::AttackBuff, stats) == Seq::<Attribute>::empty(),
        attributes_of(Identity::HealthBuff, stats) == Seq::<Attribute>::empty(),
        attributes_of(Identity::TbaDown, stats) == Seq::<Attribute>::empty(),
        attributes_of(Identity::ImproveKnockbacks, stats) == Seq::<Attribute>::empty(),
        attributes_of(Identity::TimeBeforeDeath, stats) == (if stats.time_before_death > -1 { seq![("Duration", AttrValue::Finite(stats.time_before_death), AttrUnit::Frames)] } else { Seq::empty() }),
{
}

/// Whether an entity hits at long distance or everywhere, and the behemoth
/// slayer's dodge, as their attributes report them.
pub proof fn lemma_attributes_name_their_fields_ranges(stats: Entity)
    ensures
        attributes_of(Identity::LongDistance, stats) == (if ((stats.long_distance_1_span > 0) || (stats.long_distance_2_flag > 0 && stats.long_distance_2_span > 0)
            || (stats.long_distance_3_flag > 0 && stats.long_distance_3_span > 0)) && !((stats.long_distance_1_span < 0 || (stats.long_distance_1_span == 0 && stats.long_distance_1_anchor != 0))
            || (stats.long_distance_2_flag > 0 && (stats.long_distance_2_span < 0
                || (stats.long_distance_2_span == 0 && stats.long_distance_2_anchor != 0)))
            || (stats.long_distance_3_flag > 0 && (stats.long_distance_3_span < 0
                || (stats.long_distance_3_span == 0 && stats.long_distance_3_anchor != 0)))) {
            seq![("Active", AttrValue::Finite(1), AttrUnit::Unitless)]
        } else {
            Seq::empty()
        }),
        attributes_of(Identity::OmniStrike, stats) == (if (stats.long_distance_1_span < 0 || (stats.long_distance_1_span == 0 && stats.long_distance_1_anchor != 0))
            || (stats.long_distance_2_flag > 0 && (stats.long_distance_2_span < 0
                || (stats.long_distance_2_span == 0 && stats.long_distance_2_anchor != 0)))
            || (stats.long_distance_3_flag > 0 && (stats.long_distance_3_span < 0
                || (stats.long_distance_3_span == 0 && stats.long_distance_3_anchor != 0))) {
            seq![("Active", AttrValue::Finite(1), AttrUnit::Unitless)]
        } else {
            Seq::empty()
        }),
        attributes_of(Identity::BehemothSlayer, stats) == (if stats.behemoth_slayer <= 0 {
            Seq::empty()
        } else if stats.behemoth_dodge_chance > 0 {
            seq![
                ("Active", AttrValue::Finite(1), AttrUnit::Unitless),
                ("Dodge Chance", AttrValue::Finite(stats.behemoth_dodge_chance), AttrUnit::Percent),
                ("Dodge Duration", AttrValue::Finite(stats.behemoth_dodge_duration), AttrUnit::Frames),
            ]
        } else {
            seq![("Active", AttrValue::Finite(1), AttrUnit::Unitless)]
        }),
{
}

/// What the registry declares of each ability: the talent that grants it, its
/// icon in the atlas, the labels and units of its attributes, the value pairs
/// a talent granting it consumes, and whether it can be applied as a talent
/// (part 1).
pub proof fn lemma_registry_declares_1()
    ensures
        talent_of(Identity::SingleAttack) == None::<u8>,
        icon_of(Identity::SingleAttack) == Some(img015::ICON_SINGLE_ATTACK),
        schema_of(Identity::SingleAttack) == Seq::<(&'static str, AttrUnit)>::empty(),
        talent_values_of(Identity::SingleAttack) == Seq::<TalentValue>::empty(),
        applies_as_talent(Identity::SingleAttack) == false,
        talent_of(Identity::AreaAttack) == None::<u8>,
        icon_of(Identity::AreaAttack) == Some(img015::ICON_AREA_ATTACK),
        schema_of(Identity::AreaAttack) == Seq::<(&'static str, AttrUnit)>::empty(),
        talent_values_of(Identity::AreaAttack) == Seq::<TalentValue>::empty(),
        applies_as_talent(Identity::AreaAttack) == false,
        talent_of(Identity::MultiHit) == None::<u8>,
        icon_of(Identity::MultiHit) == None::<usize>,
        schema_of(Identity::MultiHit) == Seq::<(&'static str, AttrUnit)>::empty(),
        talent_values_of(Identity::MultiHit) == Seq::<TalentValue>::empty(),
        applies_as_talent(Identity::MultiHit) == false,
        talent_of(Identity::LongDistance) == None::<u8>,
        icon_of(Identity::LongDistance) == Some(img015::ICON_LONG_DISTANCE),
        schema_of(Identity::LongDistance) == Seq::<(&'static str, AttrUnit)>::empty(),
        talent_values_of(Identity::LongDistance) == Seq::<TalentValue>::empty(),
        applies_as_talent(Identity::LongDistance) == false,
        talent_of(Identity::OmniStrike) == None::<u8>,
        icon_of(Identity::OmniStrike) == Some(img015::ICON_OMNI_STRIKE),
        schema_of(Identity::OmniStrike) == Seq::<(&'static str, AttrUnit)>::empty(),
        talent_values_of(Identity::OmniStrike) == Seq::<TalentValue>::empty(),
        applies_as_talent(Identity::OmniStrike) == false,
        talent_of(Identity::TraitRed) == Some(33u8),
        icon_of(Identity::TraitRed) == Some(img015::ICON_TRAIT_RED),
        schema_of(Identity::TraitRed) == Seq::<(&'static str, AttrUnit)>::empty(),
        talent_values_of(Identity::TraitRed) == Seq::<TalentValue>::empty(),
        applies_as_talent(Identity::TraitRed) == true,
        talent_of(Identity::TraitFloating) == Some(34u8),
        icon_of(Identity::TraitFloating) == Some(img015::ICON_TRAIT_FLOATING),
        schema_of(Identity::TraitFloating) == Seq::<(&'static str, AttrUnit)>::empty(),
        talent_values_of(Identity::TraitFloating) == Seq::<TalentValue>::empty(),
        applies_as_talent(Identity::TraitFloating) == true,
        talent_of(Identity::TraitDark) == Some(35u8),
        icon_of(Identity::TraitDark) == Some(img015::ICON_TRAIT_BLACK),
        schema_of(Identity::TraitDark) == Seq::<(&'static str, AttrUnit)>::empty(),
        talent_values_of(Identity::TraitDark) == Seq::<TalentValue>::empty(),
        applies_as_talent(Identity::TraitDark) == true,
        talent_of(Identity::TraitMetal) == Some(36u8),
        icon_of(Identity::TraitMetal) == Some(img015::ICON_TRAIT_METAL),
        schema_of(Identity::TraitMetal) == Seq::<(&'static str, AttrUnit)>::empty(),
        talent_values_of(Identity::TraitMetal) == Seq::<TalentValue>::empty(),
        applies_as_talent(Identity::TraitMetal) == true,
        talent_of(Identity::TraitAngel) == Some(37u8),
        icon_of(Identity::TraitAngel) == Some(img015::ICON_TRAIT_ANGEL),
        schema_of(Identity::TraitAngel) == Seq::<(&'static str, AttrUnit)>::empty(),
        talent_values_of(Identity::TraitAngel) == Seq::<TalentValue>::empty(),
        applies_as_talent(Identity::TraitAngel) == true,
        talent_of(Identity::TraitAlien) == Some(38u8),
        icon_of(Identity::TraitAlien) == Some(img015::ICON_TRAIT_ALIEN),
        schema_of(Identity::TraitAlien) == Seq::<(&'static str, AttrUnit)>::empty(),
        talent_values_of(Identity::TraitAlien) == Seq::<TalentValue>::empty(),
        applies_as_talent(Identity::TraitAlien) == true,
        talent_of(Identity::TraitZombie) == Some(39u8),
        icon_of(Identity::TraitZombie) == Some(img015::ICON_TRAIT_ZOMBIE),
        schema_of(Identity::TraitZombie) == Seq::<(&'static str, AttrUnit)>::empty(),
        talent_values_of(Identity::TraitZombie) == Seq::<TalentValue>::empty(),
        applies_as_talent(Identity::TraitZombie) == true,
        talent_of(Identity::TraitRelic) == Some(40u8),
        icon_of(Identity::TraitRelic) == Some(img015::ICON_TRAIT_RELIC),
        schema_of(Identity::TraitRelic) == Seq::<(&'static str, AttrUnit)>::empty(),
        talent_values_of(Identity::TraitRelic) == Seq::<TalentValue>::empty(),
        applies_as_talent(Identity::TraitRelic) == true,
        talent_of(Identity::TraitAku) == Some(57u8),
        icon_of(Identity::TraitAku) == Some(img015::ICON_TRAIT_AKU),
        schema_of(Identity::TraitAku) == Seq::<(&'static str, AttrUnit)>::empty(),
        talent_values_of(Identity::TraitAku) == Seq::<TalentValue>::empty(),
        applies_as_talent(Identity::TraitAku) == true,
        talent_of(Identity::TraitTraitless) == Some(41u8),
        icon_of(Identity::TraitTraitless) == Some(img015::ICON_TRAIT_TRAITLESS),
        schema_of(Identity::TraitTraitless) == Seq::<(&'static str, AttrUnit)>::empty(),
        talent_values_of(Identity::TraitTraitless) == Seq::<TalentValue>::empty(),
        applies_as_talent(Identity::TraitTraitless) == true,
        talent_of(Identity::TraitWitch) == None::<u8>,
        icon_of(Identity::TraitWitch) == Some(img015::ICON_WITCH),
        schema_of(Identity::TraitWitch) == Seq::<(&'static str, AttrUnit)>::empty(),
        talent_values_of(Identity::TraitWitch) == Seq::<TalentValue>::empty(),
        applies_as_talent(Identity::TraitWitch) == true,
        talent_of(Identity::TraitEva) == None::<u8>,
        icon_of(Identity::TraitEva) == Some(img015::ICON_EVA),
        schema_of(Identity::TraitEva) == Seq::<(&'static str, AttrUnit)>::empty(),
        talent_values_of(Identity::TraitEva) == Seq::<TalentValue>::empty(),
        applies_as_talent(Identity::TraitEva) == true,
        talent_of(Identity::TraitDojo) == None::<u8>,
        icon_of(Identity::TraitDojo) == None::<usize>,
        schema_of(Identity::TraitDojo) == Seq::<(&'static str, AttrUnit)>::empty(),
        talent_values_of(Identity::TraitDojo) == Seq::<TalentValue>::empty(),
        applies_as_talent(Identity::TraitDojo) == false,
        talent_of(Identity::TraitStarredAlien) == None::<u8>,
        icon_of(Identity::TraitStarredAlien) == None::<usize>,
        schema_of(Identity::TraitStarredAlien) == Seq::<(&'static str, AttrUnit)>::empty(),
        talent_values_of(Identity::TraitStarredAlien) == Seq::<TalentValue>::empty(),
        applies_as_talent(Identity::TraitStarredAlien) == false,
        talent_of(Identity::TraitCatGod) == None::<u8>,
        icon_of(Identity::TraitCatGod) == None::<usize>,
        schema_of(Identity::TraitCatGod) == seq![("Type", AttrUnit::Unitless)],
        talent_values_of(Identity::TraitCatGod) == Seq::<TalentValue>::empty(),
        applies_as_talent(Identity::TraitCatGod) == false,
        talent_of(Identity::TraitColossus) == None::<u8>,
        icon_of(Identity::TraitColossus) == Some(img015::ICON_COLOSSUS),
        schema_of(Identity::TraitColossus) == Seq::<(&'static str, AttrUnit)>::empty(),
        talent_values_of(Identity::TraitColossus) == Seq::<TalentValue>::empty(),
        applies_as_talent(Identity::TraitColossus) == false,
        talent_of(Identity::TraitBehemoth) == None::<u8>,
        icon_of(Identity::TraitBehemoth) == Some(img015::ICON_BEHEMOTH),
        schema_of(Identity::TraitBehemoth) == Seq::<(&'static str, AttrUnit)>::empty(),
        talent_values_of(Identity::TraitBehemoth) == Seq::<TalentValue>::empty(),
        applies_as_talent(Identity::TraitBehemoth) == false,
        talent_of(Identity::TraitSage) == None::<u8>,
        icon_of(Identity::TraitSage) == Some(img015::ICON_SAGE),
        schema_of(Identity::TraitSage) == Seq::<(&'static str, AttrUnit)>::empty(),
        talent_values_of(Identity::TraitSage) == Seq::<TalentValue>::empty(),
        applies_as_talent(Identity::TraitSage) == false,
        talent_of(Identity::TraitKaijin) == None::<u8>,
        icon_of(Identity::TraitKaijin) == Some(img015::ICON_SUPERVILLIAN),
        schema_of(Identity::TraitKaijin) == Seq::<(&'static str, AttrUnit)>::empty(),
        talent_values_of(Identity::TraitKaijin) == Seq::<TalentValue>::empty(),
        applies_as_talent(Identity::TraitKaijin) == false,
        talent_of(Identity::AttackOnly) == Some(4u8),
        icon_of(Identity::AttackOnly) == Some(img015::ICON_ATTACK_ONLY),
        schema_of(Identity::AttackOnly) == Seq::<(&'static str, AttrUnit)>::empty(),
        talent_values_of(Identity::AttackOnly) == Seq::<TalentValue>::empty(),
        applies_as_talent(Identity::AttackOnly) == true,
{
}

/// What the registry declares of each ability: the talent that grants it, its
/// icon in the atlas, the labels and units of its attributes, the value pairs
/// a talent granting it consumes, and whether it can be applied as a talent
/// (part 2).
pub proof fn lemma_registry_declares_2()
    ensures
        talent_of(Identity::StrongAgainst) == Some(5u8),
        icon_of(Identity::StrongAgainst) == Some(img015::ICON_STRONG_AGAINST),
        schema_of(Identity::StrongAgainst) == Seq::<(&'static str, AttrUnit)>::empty(),
        talent_values_of(Identity::StrongAgainst) == Seq::<TalentValue>::empty(),
        applies_as_talent(Identity::StrongAgainst) == true,
        talent_of(Identity::MassiveDamage) == Some(7u8),
        icon_of(Identity::MassiveDamage) == Some(img015::ICON_MASSIVE_DAMAGE),
        schema_of(Identity::MassiveDamage) == Seq::<(&'static str, AttrUnit)>::empty(),
        talent_values_of(Identity::MassiveDamage) == Seq::<TalentValue>::empty(),
        applies_as_talent(Identity::MassiveDamage) == true,
        talent_of(Identity::InsaneDamage) == Some(7u8),
        icon_of(Identity::InsaneDamage) == Some(img015::ICON_INSANE_DAMAGE),
        schema_of(Identity::InsaneDamage) == Seq::<(&'static str, AttrUnit)>::empty(),
        talent_values_of(Identity::InsaneDamage) == Seq::<TalentValue>::empty(),
        applies_as_talent(Identity::InsaneDamage) == false,
        talent_of(Identity::Resist) == Some(6u8),
        icon_of(Identity::Resist) == Some(img015::ICON_RESIST),
        schema_of(Identity::Resist) == Seq::<(&'static str, AttrUnit)>::empty(),
        talent_values_of(Identity::Resist) == Seq::<TalentValue>::empty(),
        applies_as_talent(Identity::Resist) == true,
        talent_of(Identity::InsanelyTough) == Some(6u8),
        icon_of(Identity::InsanelyTough) == Some(img015::ICON_INSANELY_TOUGH),
        schema_of(Identity::InsanelyTough) == Seq::<(&'static str, AttrUnit)>::empty(),
        talent_values_of(Identity::InsanelyTough) == Seq::<TalentValue>::empty(),
        applies_as_talent(Identity::InsanelyTough) == false,
        talent_of(Identity::IsMetal) == Some(43u8),
        icon_of(Identity::IsMetal) == Some(img015::ICON_METAL),
        schema_of(Identity::IsMetal) == Seq::<(&'static str, AttrUnit)>::empty(),
        talent_values_of(Identity::IsMetal) == Seq::<TalentValue>::empty(),
        applies_as_talent(Identity::IsMetal) == true,
        talent_of(Identity::DoubleBounty) == Some(16u8),
        icon_of(Identity::DoubleBounty) == Some(img015::ICON_DOUBLE_BOUNTY),
        schema_of(Identity::DoubleBounty) == Seq::<(&'static str, AttrUnit)>::empty(),
        talent_values_of(Identity::DoubleBounty) == Seq::<TalentValue>::empty(),
        applies_as_talent(Identity::DoubleBounty) == true,
        talent_of(Identity::ZombieKiller) == Some(14u8),
        icon_of(Identity::ZombieKiller) == Some(img015::ICON_ZOMBIE_KILLER),
        schema_of(Identity::ZombieKiller) == Seq::<(&'static str, AttrUnit)>::empty(),
        talent_values_of(Identity::ZombieKiller) == Seq::<TalentValue>::empty(),
        applies_as_talent(Identity::ZombieKiller) == true,
        talent_of(Identity::Soulstrike) == Some(59u8),
        icon_of(Identity::Soulstrike) == Some(img015::ICON_SOULSTRIKE),
        schema_of(Identity::Soulstrike) == Seq::<(&'static str, AttrUnit)>::empty(),
        talent_values_of(Identity::Soulstrike) == Seq::<TalentValue>::empty(),
        applies_as_talent(Identity::Soulstrike) == true,
        talent_of(Identity::ColossusSlayer) == Some(63u8),
        icon_of(Identity::ColossusSlayer) == Some(img015::ICON_COLOSSUS_SLAYER),
        schema_of(Identity::ColossusSlayer) == Seq::<(&'static str, AttrUnit)>::empty(),
        talent_values_of(Identity::ColossusSlayer) == Seq::<TalentValue>::empty(),
        applies_as_talent(Identity::ColossusSlayer) == true,
        talent_of(Identity::SageSlayer) == Some(66u8),
        icon_of(Identity::SageSlayer) == Some(img015::ICON_SAGE_SLAYER),
        schema_of(Identity::SageSlayer) == Seq::<(&'static str, AttrUnit)>::empty(),
        talent_values_of(Identity::SageSlayer) == Seq::<TalentValue>::empty(),
        applies_as_talent(Identity::SageSlayer) == true,
        talent_of(Identity::BehemothSlayer) == Some(64u8),
        icon_of(Identity::BehemothSlayer) == Some(img015::ICON_BEHEMOTH_SLAYER),
        schema_of(Identity::BehemothSlayer) == seq![("Dodge Chance", AttrUnit::Percent), ("Dodge Duration", AttrUnit::Frames)],
        talent_values_of(Identity::BehemothSlayer) == seq![TalentValue { label: "Dodge Chance", unit: AttrUnit::Percent, interpolated: true, scale: Scale::Raw, stored: Stored::Direct }, TalentValue { label: "Dodge Duration", unit: AttrUnit::Frames, interpolated: true, scale: Scale::Raw, stored: Stored::Direct }],
        applies_as_talent(Identity::BehemothSlayer) == true,
        talent_of(Identity::WitchKiller) == None::<u8>,
        icon_of(Identity::WitchKiller) == Some(img015::ICON_WITCH_KILLER),
        schema_of(Identity::WitchKiller) == Seq::<(&'static str, AttrUnit)>::empty(),
        talent_values_of(Identity::WitchKiller) == Seq::<TalentValue>::empty(),
        applies_as_talent(Identity::WitchKiller) == true,
        talent_of(Identity::EvaKiller) == None::<u8>,
        icon_of(Identity::EvaKiller) == Some(img015::ICON_EVA_KILLER),
        schema_of(Identity::EvaKiller) == Seq::<(&'static str, AttrUnit)>::empty(),
        talent_values_of(Identity::EvaKiller) == Seq::<TalentValue>::empty(),
        applies_as_talent(Identity::EvaKiller) == true,
        talent_of(Identity::MetalKiller) == None::<u8>,
        icon_of(Identity::MetalKiller) == Some(img015::ICON_METAL_KILLER),
        schema_of(Identity::MetalKiller) == seq![("Damage", AttrUnit::Percent)],
        talent_values_of(Identity::MetalKiller) == seq![TalentValue { label: "Damage", unit: AttrUnit::Percent, interpolated: true, scale: Scale::Raw, stored: Stored::Direct }],
        applies_as_talent(Identity::MetalKiller) == true,
        talent_of(Identity::BarrierBreaker) == Some(15u8),
        icon_of(Identity::BarrierBreaker) == Some(img015::ICON_BARRIER_BREAKER),
        schema_of(Identity::BarrierBreaker) == seq![("Chance", AttrUnit::Percent)],
        talent_values_of(Identity::BarrierBreaker) == seq![TalentValue { label: "Chance", unit: AttrUnit::Percent, interpolated: true, scale: Scale::Raw, stored: Stored::Direct }],
        applies_as_talent(Identity::BarrierBreaker) == true,
        talent_of(Identity::ShieldPiercer) == Some(58u8),
        icon_of(Identity::ShieldPiercer) == Some(img015::ICON_SHIELD_PIERCER),
        schema_of(Identity::ShieldPiercer) == seq![("Chance", AttrUnit::Percent)],
        talent_values_of(Identity::ShieldPiercer) == seq![TalentValue { label: "Chance", unit: AttrUnit::Percent, interpolated: true, scale: Scale::Raw, stored: Stored::Direct }],
        applies_as_talent(Identity::ShieldPiercer) == true,
        talent_of(Identity::Conjure) == None::<u8>,
        icon_of(Identity::Conjure) == Some(img015::ICON_CONJURE),
        schema_of(Identity::Conjure) == seq![("Spirit ID", AttrUnit::Unitless)],
        talent_values_of(Identity::Conjure) == Seq::<TalentValue>::empty(),
        applies_as_talent(Identity::Conjure) == false,
        talent_of(Identity::BaseDestroyer) == Some(12u8),
        icon_of(Identity::BaseDestroyer) == Some(img015::ICON_BASE_DESTROYER),
        schema_of(Identity::BaseDestroyer) == Seq::<(&'static str, AttrUnit)>::empty(),
        talent_values_of(Identity::BaseDestroyer) == Seq::<TalentValue>::empty(),
        applies_as_talent(Identity::BaseDestroyer) == true,
        talent_of(Identity::Kamikaze) == None::<u8>,
        icon_of(Identity::Kamikaze) == None::<usize>,
        schema_of(Identity::Kamikaze) == seq![("Attacks", AttrUnit::Unitless)],
        talent_values_of(Identity::Kamikaze) == Seq::<TalentValue>::empty(),
        applies_as_talent(Identity::Kamikaze) == false,
        talent_of(Identity::Stop) == None::<u8>,
        icon_of(Identity::Stop) == None::<usize>,
        schema_of(Identity::Stop) == seq![("Attacks", AttrUnit::Unitless)],
        talent_values_of(Identity::Stop) == Seq::<TalentValue>::empty(),
        applies_as_talent(Identity::Stop) == false,
        talent_of(Identity::WaveBlock) == None::<u8>,
        icon_of(Identity::WaveBlock) == Some(img015::ICON_WAVE_BLOCK),
        schema_of(Identity::WaveBlock) == Seq::<(&'static str, AttrUnit)>::empty(),
        talent_values_of(Identity::WaveBlock) == Seq::<TalentValue>::empty(),
        applies_as_talent(Identity::WaveBlock) == true,
        talent_of(Identity::CounterSurge) == Some(68u8),
        icon_of(Identity::CounterSurge) == Some(img015::ICON_COUNTER_SURGE),
        schema_of(Identity::CounterSurge) == Seq::<(&'static str, AttrUnit)>::empty(),
        talent_values_of(Identity::CounterSurge) == Seq::<TalentValue>::empty(),
        applies_as_talent(Identity::CounterSurge) == true,
        talent_of(Identity::WaveAttack) == Some(17u8),
        icon_of(Identity::WaveAttack) == Some(img015::ICON_WAVE),
        schema_of(Identity::WaveAttack) == seq![("Chance", AttrUnit::Percent), ("Level", AttrUnit::Unitless), ("Max Reach", AttrUnit::Range)],
        talent_values_of(Identity::WaveAttack) == seq![TalentValue { label: "Chance", unit: AttrUnit::Percent, interpolated: true, scale: Scale::Raw, stored: Stored::Direct }, TalentValue { label: "Level", unit: AttrUnit::Unitless, interpolated: true, scale: Scale::Raw, stored: Stored::Direct }],
        applies_as_talent(Identity::WaveAttack) == true,
        talent_of(Identity::MiniWave) == Some(62u8),
        icon_of(Identity::MiniWave) == Some(img015::ICON_MINI_WAVE),
        schema_of(Identity::MiniWave) == seq![("Chance", AttrUnit::Percent), ("Level", AttrUnit::Unitless), ("Max Reach", AttrUnit::Range)],
        talent_values_of(Identity::MiniWave) == seq![TalentValue { label: "Chance", unit: AttrUnit::Percent, interpolated: true, scale: Scale::Raw, stored: Stored::Direct }, TalentValue { label: "Level", unit: AttrUnit::Unitless, interpolated: true, scale: Scale::Raw, stored: Stored::Direct }],
        applies_as_talent(Identity::MiniWave) == true,
{
}

/// What the registry declares of each ability: the talent that grants it, its
/// icon in the atlas, the labels and units of its attributes, the value pairs
/// a talent granting it consumes, and whether it can be applied as a talent
/// (part 3).
pub proof fn lemma_registry_declares_3()
    ensures
        talent_of(Identity::SurgeAttack) == Some(56u8),
        icon_of(Identity::SurgeAttack) == Some(img015::ICON_SURGE),
        schema_of(Identity::SurgeAttack) == seq![("Chance", AttrUnit::Percent), ("Level", AttrUnit::Unitless), ("Min Range", AttrUnit::Range), ("Max Range", AttrUnit::Range), ("Width", AttrUnit::Range)],
        talent_values_of(Identity::SurgeAttack) == seq![TalentValue { label: "Chance", unit: AttrUnit::Percent, interpolated: true, scale: Scale::Raw, stored: Stored::Direct }, TalentValue { label: "Level", unit: AttrUnit::Unitless, interpolated: true, scale: Scale::Raw, stored: Stored::Direct }, TalentValue { label: "Min Range", unit: AttrUnit::Range, interpolated: false, scale: Scale::Quarter, stored: Stored::Direct }, TalentValue { label: "Width", unit: AttrUnit::Range, interpolated: false, scale: Scale::Quarter, stored: Stored::Direct }],
        applies_as_talent(Identity::SurgeAttack) == true,
        talent_of(Identity::MiniSurge) == Some(65u8),
        icon_of(Identity::MiniSurge) == Some(img015::ICON_MINI_SURGE),
        schema_of(Identity::MiniSurge) == seq![("Chance", AttrUnit::Percent), ("Level", AttrUnit::Unitless), ("Min Range", AttrUnit::Range), ("Max Range", AttrUnit::Range), ("Width", AttrUnit::Range)],
        talent_values_of(Identity::MiniSurge) == seq![TalentValue { label: "Chance", unit: AttrUnit::Percent, interpolated: true, scale: Scale::Raw, stored: Stored::Direct }, TalentValue { label: "Level", unit: AttrUnit::Unitless, interpolated: true, scale: Scale::Raw, stored: Stored::Direct }, TalentValue { label: "Min Range", unit: AttrUnit::Range, interpolated: false, scale: Scale::Quarter, stored: Stored::Direct }, TalentValue { label: "Width", unit: AttrUnit::Range, interpolated: false, scale: Scale::Quarter, stored: Stored::Direct }],
        applies_as_talent(Identity::MiniSurge) == true,
        talent_of(Identity::Explosion) == Some(67u8),
        icon_of(Identity::Explosion) == Some(img015::ICON_EXPLOSION),
        schema_of(Identity::Explosion) == seq![("Chance", AttrUnit::Percent), ("Min Range", AttrUnit::Range), ("Max Range", AttrUnit::Range), ("Width", AttrUnit::Range)],
        talent_values_of(Identity::Explosion) == seq![TalentValue { label: "Chance", unit: AttrUnit::Percent, interpolated: true, scale: Scale::Raw, stored: Stored::Direct }, TalentValue { label: "Min Range", unit: AttrUnit::Range, interpolated: false, scale: Scale::Quarter, stored: Stored::Direct }, TalentValue { label: "Width", unit: AttrUnit::Range, interpolated: false, scale: Scale::Quarter, stored: Stored::Direct }],
        applies_as_talent(Identity::Explosion) == true,
        talent_of(Identity::SavageBlow) == Some(50u8),
        icon_of(Identity::SavageBlow) == Some(img015::ICON_SAVAGE_BLOW),
        schema_of(Identity::SavageBlow) == seq![("Chance", AttrUnit::Percent), ("Boost", AttrUnit::Percent)],
        talent_values_of(Identity::SavageBlow) == seq![TalentValue { label: "Chance", unit: AttrUnit::Percent, interpolated: true, scale: Scale::Raw, stored: Stored::Direct }, TalentValue { label: "Boost", unit: AttrUnit::Percent, interpolated: true, scale: Scale::Raw, stored: Stored::Direct }],
        applies_as_talent(Identity::SavageBlow) == true,
        talent_of(Identity::CriticalHit) == Some(13u8),
        icon_of(Identity::CriticalHit) == Some(img015::ICON_CRITICAL_HIT),
        schema_of(Identity::CriticalHit) == seq![("Chance", AttrUnit::Percent)],
        talent_values_of(Identity::CriticalHit) == seq![TalentValue { label: "Chance", unit: AttrUnit::Percent, interpolated: true, scale: Scale::Raw, stored: Stored::Direct }],
        applies_as_talent(Identity::CriticalHit) == true,
        talent_of(Identity::Strengthen) == Some(10u8),
        icon_of(Identity::Strengthen) == Some(img015::ICON_STRENGTHEN),
        schema_of(Identity::Strengthen) == seq![("HP", AttrUnit::Percent), ("Boost", AttrUnit::Percent)],
        talent_values_of(Identity::Strengthen) == seq![TalentValue { label: "HP", unit: AttrUnit::Percent, interpolated: true, scale: Scale::Raw, stored: Stored::Inverted(100) }, TalentValue { label: "Boost", unit: AttrUnit::Percent, interpolated: true, scale: Scale::Raw, stored: Stored::Direct }],
        applies_as_talent(Identity::Strengthen) == true,
        talent_of(Identity::Survive) == Some(11u8),
        icon_of(Identity::Survive) == Some(img015::ICON_SURVIVE),
        schema_of(Identity::Survive) == seq![("Chance", AttrUnit::Percent)],
        talent_values_of(Identity::Survive) == seq![TalentValue { label: "Chance", unit: AttrUnit::Percent, interpolated: true, scale: Scale::Raw, stored: Stored::Direct }],
        applies_as_talent(Identity::Survive) == true,
        talent_of(Identity::Dodge) == Some(51u8),
        icon_of(Identity::Dodge) == Some(img015::ICON_DODGE),
        schema_of(Identity::Dodge) == seq![("Chance", AttrUnit::Percent), ("Duration", AttrUnit::Frames)],
        talent_values_of(Identity::Dodge) == seq![TalentValue { label: "Chance", unit: AttrUnit::Percent, interpolated: true, scale: Scale::Raw, stored: Stored::Direct }, TalentValue { label: "Duration", unit: AttrUnit::Frames, interpolated: true, scale: Scale::Raw, stored: Stored::Direct }],
        applies_as_talent(Identity::Dodge) == true,
        talent_of(Identity::Weaken) == Some(1u8),
        icon_of(Identity::Weaken) == Some(img015::ICON_WEAKEN),
        schema_of(Identity::Weaken) == seq![("Chance", AttrUnit::Percent), ("Reduced To", AttrUnit::Percent), ("Duration", AttrUnit::Frames)],
        talent_values_of(Identity::Weaken) == seq![TalentValue { label: "Chance", unit: AttrUnit::Percent, interpolated: true, scale: Scale::Raw, stored: Stored::Direct }, TalentValue { label: "Duration", unit: AttrUnit::Frames, interpolated: true, scale: Scale::Raw, stored: Stored::Direct }, TalentValue { label: "Reduced To", unit: AttrUnit::Percent, interpolated: false, scale: Scale::Raw, stored: Stored::Inverted(100) }],
        applies_as_talent(Identity::Weaken) == true,
        talent_of(Identity::Freeze) == Some(2u8),
        icon_of(Identity::Freeze) == Some(img015::ICON_FREEZE),
        schema_of(Identity::Freeze) == seq![("Chance", AttrUnit::Percent), ("Duration", AttrUnit::Frames)],
        talent_values_of(Identity::Freeze) == seq![TalentValue { label: "Chance", unit: AttrUnit::Percent, interpolated: true, scale: Scale::Raw, stored: Stored::Direct }, TalentValue { label: "Duration", unit: AttrUnit::Frames, interpolated: true, scale: Scale::Raw, stored: Stored::Direct }],
        applies_as_talent(Identity::Freeze) == true,
        talent_of(Identity::Slow) == Some(3u8),
        icon_of(Identity::Slow) == Some(img015::ICON_SLOW),
        schema_of(Identity::Slow) == seq![("Chance", AttrUnit::Percent), ("Duration", AttrUnit::Frames)],
        talent_values_of(Identity::Slow) == seq![TalentValue { label: "Chance", unit: AttrUnit::Percent, interpolated: true, scale: Scale::Raw, stored: Stored::Direct }, TalentValue { label: "Duration", unit: AttrUnit::Frames, interpolated: true, scale: Scale::Raw, stored: Stored::Direct }],
        applies_as_talent(Identity::Slow) == true,
        talent_of(Identity::Knockback) == Some(8u8),
        icon_of(Identity::Knockback) == Some(img015::ICON_KNOCKBACK),
        schema_of(Identity::Knockback) == seq![("Chance", AttrUnit::Percent)],
        talent_values_of(Identity::Knockback) == seq![TalentValue { label: "Chance", unit: AttrUnit::Percent, interpolated: true, scale: Scale::Raw, stored: Stored::Direct }],
        applies_as_talent(Identity::Knockback) == true,
        talent_of(Identity::Curse) == Some(60u8),
        icon_of(Identity::Curse) == Some(img015::ICON_CURSE),
        schema_of(Identity::Curse) == seq![("Chance", AttrUnit::Percent), ("Duration", AttrUnit::Frames)],
        talent_values_of(Identity::Curse) == seq![TalentValue { label: "Chance", unit: AttrUnit::Percent, interpolated: true, scale: Scale::Raw, stored: Stored::Direct }, TalentValue { label: "Duration", unit: AttrUnit::Frames, interpolated: true, scale: Scale::Raw, stored: Stored::Direct }],
        applies_as_talent(Identity::Curse) == true,
        talent_of(Identity::Warp) == Some(9u8),
        icon_of(Identity::Warp) == Some(img015::ICON_WARP),
        schema_of(Identity::Warp) == seq![("Chance", AttrUnit::Percent), ("Duration", AttrUnit::Frames), ("Min Distance", AttrUnit::Range), ("Max Distance", AttrUnit::Range)],
        talent_values_of(Identity::Warp) == Seq::<TalentValue>::empty(),
        applies_as_talent(Identity::Warp) == false,
        talent_of(Identity::Unknown) == None::<u8>,
        icon_of(Identity::Unknown) == None::<usize>,
        schema_of(Identity::Unknown) == Seq::<(&'static str, AttrUnit)>::empty(),
        talent_values_of(Identity::Unknown) == Seq::<TalentValue>::empty(),
        applies_as_talent(Identity::Unknown) == false,
        talent_of(Identity::Barrier) == None::<u8>,
        icon_of(Identity::Barrier) == Some(img015::ICON_BARRIER),
        schema_of(Identity::Barrier) == seq![("Hitpoints", AttrUnit::Unitless)],
        talent_values_of(Identity::Barrier) == Seq::<TalentValue>::empty(),
        applies_as_talent(Identity::Barrier) == false,
        talent_of(Identity::AkuShield) == None::<u8>,
        icon_of(Identity::AkuShield) == Some(img015::ICON_SHIELD),
        schema_of(Identity::AkuShield) == seq![("Hitpoints", AttrUnit::Unitless), ("Regen", AttrUnit::Percent)],
        talent_values_of(Identity::AkuShield) == Seq::<TalentValue>::empty(),
        applies_as_talent(Identity::AkuShield) == false,
        talent_of(Identity::Burrow) == None::<u8>,
        icon_of(Identity::Burrow) == None::<usize>,
        schema_of(Identity::Burrow) == seq![("Count", AttrUnit::Unitless), ("Distance", AttrUnit::Range)],
        talent_values_of(Identity::Burrow) == Seq::<TalentValue>::empty(),
        applies_as_talent(Identity::Burrow) == false,
        talent_of(Identity::Revive) == None::<u8>,
        icon_of(Identity::Revive) == None::<usize>,
        schema_of(Identity::Revive) == seq![("Count", AttrUnit::Unitless), ("Duration", AttrUnit::Frames), ("Hitpoints", AttrUnit::Percent)],
        talent_values_of(Identity::Revive) == Seq::<TalentValue>::empty(),
        applies_as_talent(Identity::Revive) == false,
        talent_of(Identity::Toxic) == None::<u8>,
        icon_of(Identity::Toxic) == Some(img015::ICON_TOXIC),
        schema_of(Identity::Toxic) == seq![("Chance", AttrUnit::Percent), ("Damage", AttrUnit::Percent)],
        talent_values_of(Identity::Toxic) == Seq::<TalentValue>::empty(),
        applies_as_talent(Identity::Toxic) == false,
        talent_of(Identity::Drain) == None::<u8>,
        icon_of(Identity::Drain) == Some(img015::ICON_DRAIN),
        schema_of(Identity::Drain) == seq![("Chance", AttrUnit::Percent), ("Amount", AttrUnit::Percent)],
        talent_values_of(Identity::Drain) == Seq::<TalentValue>::empty(),
        applies_as_talent(Identity::Drain) == false,
        talent_of(Identity::DeathSurge) == None::<u8>,
        icon_of(Identity::DeathSurge) == Some(img015::ICON_DEATH_SURGE),
        schema_of(Identity::DeathSurge) == seq![("Chance", AttrUnit::Percent), ("Level", AttrUnit::Unitless), ("Min Range", AttrUnit::Range), ("Max Range", AttrUnit::Range), ("Width", AttrUnit::Range)],
        talent_values_of(Identity::DeathSurge) == Seq::<TalentValue>::empty(),
        applies_as_talent(Identity::DeathSurge) == false,
        talent_of(Identity::ImmuneWave) == Some(48u8),
        icon_of(Identity::ImmuneWave) == Some(img015::ICON_IMMUNE_WAVE),
        schema_of(Identity::ImmuneWave) == Seq::<(&'static str, AttrUnit)>::empty(),
        talent_values_of(Identity::ImmuneWave) == Seq::<TalentValue>::empty(),
        applies_as_talent(Identity::ImmuneWave) == true,
        talent_of(Identity::ImmuneSurge) == Some(55u8),
        icon_of(Identity::ImmuneSurge) == Some(img015::ICON_IMMUNE_SURGE),
        schema_of(Identity::ImmuneSurge) == Seq::<(&'static str, AttrUnit)>::empty(),
        talent_values_of(Identity::ImmuneSurge) == Seq::<TalentValue>::empty(),
        applies_as_talent(Identity::ImmuneSurge) == true,
        talent_of(Identity::ImmuneExplosion) == Some(69u8),
        icon_of(Identity::ImmuneExplosion) == Some(img015::ICON_IMMUNE_EXPLOSION),
        schema_of(Identity::ImmuneExplosion) == Seq::<(&'static str, AttrUnit)>::empty(),
        talent_values_of(Identity::ImmuneExplosion) == Seq::<TalentValue>::empty(),
        applies_as_talent(Identity::ImmuneExplosion) == true,
{
}

/// What the registry declares of each ability: the talent that grants it, its
/// icon in the atlas, the labels and units of its attributes, the value pairs
/// a talent granting it consumes, and whether it can be applied as a talent
/// (part 4).
pub proof fn lemma_registry_declares_4()
    ensures
        talent_of(Identity::ImmuneWeaken) == Some(44u8),
        icon_of(Identity::ImmuneWeaken) == Some(img015::ICON_IMMUNE_WEAKEN),
        schema_of(Identity::ImmuneWeaken) == Seq::<(&'static str, AttrUnit)>::empty(),
        talent_values_of(Identity::ImmuneWeaken) == Seq::<TalentValue>::empty(),
        applies_as_talent(Identity::ImmuneWeaken) == true,
        talent_of(Identity::ImmuneFreeze) == Some(45u8),
        icon_of(Identity::ImmuneFreeze) == Some(img015::ICON_IMMUNE_FREEZE),
        schema_of(Identity::ImmuneFreeze) == Seq::<(&'static str, AttrUnit)>::empty(),
        talent_values_of(Identity::ImmuneFreeze) == Seq::<TalentValue>::empty(),
        applies_as_talent(Identity::ImmuneFreeze) == true,
        talent_of(Identity::ImmuneSlow) == Some(46u8),
        icon_of(Identity::ImmuneSlow) == Some(img015::ICON_IMMUNE_SLOW),
        schema_of(Identity::ImmuneSlow) == Seq::<(&'static str, AttrUnit)>::empty(),
        talent_values_of(Identity::ImmuneSlow) == Seq::<TalentValue>::empty(),
        applies_as_talent(Identity::ImmuneSlow) == true,
        talent_of(Identity::ImmuneKnockback) == Some(47u8),
        icon_of(Identity::ImmuneKnockback) == Some(img015::ICON_IMMUNE_KNOCKBACK),
        schema_of(Identity::ImmuneKnockback) == Seq::<(&'static str, AttrUnit)>::empty(),
        talent_values_of(Identity::ImmuneKnockback) == Seq::<TalentValue>::empty(),
        applies_as_talent(Identity::ImmuneKnockback) == true,
        talent_of(Identity::ImmuneCurse) == Some(29u8),
        icon_of(Identity::ImmuneCurse) == Some(img015::ICON_IMMUNE_CURSE),
        schema_of(Identity::ImmuneCurse) == Seq::<(&'static str, AttrUnit)>::empty(),
        talent_values_of(Identity::ImmuneCurse) == Seq::<TalentValue>::empty(),
        applies_as_talent(Identity::ImmuneCurse) == true,
        talent_of(Identity::ImmuneWarp) == Some(49u8),
        icon_of(Identity::ImmuneWarp) == Some(img015::ICON_IMMUNE_WARP),
        schema_of(Identity::ImmuneWarp) == Seq::<(&'static str, AttrUnit)>::empty(),
        talent_values_of(Identity::ImmuneWarp) == Seq::<TalentValue>::empty(),
        applies_as_talent(Identity::ImmuneWarp) == true,
        talent_of(Identity::ImmuneToxic) == Some(53u8),
        icon_of(Identity::ImmuneToxic) == Some(img015::ICON_IMMUNE_TOXIC),
        schema_of(Identity::ImmuneToxic) == Seq::<(&'static str, AttrUnit)>::empty(),
        talent_values_of(Identity::ImmuneToxic) == Seq::<TalentValue>::empty(),
        applies_as_talent(Identity::ImmuneToxic) == true,
        talent_of(Identity::ImmuneDrain) == None::<u8>,
        icon_of(Identity::ImmuneDrain) == None::<usize>,
        schema_of(Identity::ImmuneDrain) == Seq::<(&'static str, AttrUnit)>::empty(),
        talent_values_of(Identity::ImmuneDrain) == Seq::<TalentValue>::empty(),
        applies_as_talent(Identity::ImmuneDrain) == true,
        talent_of(Identity::ImmuneBossWave) == None::<u8>,
        icon_of(Identity::ImmuneBossWave) == None::<usize>,
        schema_of(Identity::ImmuneBossWave) == Seq::<(&'static str, AttrUnit)>::empty(),
        talent_values_of(Identity::ImmuneBossWave) == Seq::<TalentValue>::empty(),
        applies_as_talent(Identity::ImmuneBossWave) == true,
        talent_of(Identity::ResistWeaken) == Some(18u8),
        icon_of(Identity::ResistWeaken) == Some(img015::ICON_RESIST_WEAKEN),
        schema_of(Identity::ResistWeaken) == Seq::<(&'static str, AttrUnit)>::empty(),
        talent_values_of(Identity::ResistWeaken) == Seq::<TalentValue>::empty(),
        applies_as_talent(Identity::ResistWeaken) == true,
        talent_of(Identity::ResistFreeze) == Some(19u8),
        icon_of(Identity::ResistFreeze) == Some(img015::ICON_RESIST_FREEZE),
        schema_of(Identity::ResistFreeze) == Seq::<(&'static str, AttrUnit)>::empty(),
        talent_values_of(Identity::ResistFreeze) == Seq::<TalentValue>::empty(),
        applies_as_talent(Identity::ResistFreeze) == true,
        talent_of(Identity::ResistSlow) == Some(20u8),
        icon_of(Identity::ResistSlow) == Some(img015::ICON_RESIST_SLOW),
        schema_of(Identity::ResistSlow) == Seq::<(&'static str, AttrUnit)>::empty(),
        talent_values_of(Identity::ResistSlow) == Seq::<TalentValue>::empty(),
        applies_as_talent(Identity::ResistSlow) == true,
        talent_of(Identity::ResistKnockback) == Some(21u8),
        icon_of(Identity::ResistKnockback) == Some(img015::ICON_RESIST_KNOCKBACK),
        schema_of(Identity::ResistKnockback) == Seq::<(&'static str, AttrUnit)>::empty(),
        talent_values_of(Identity::ResistKnockback) == Seq::<TalentValue>::empty(),
        applies_as_talent(Identity::ResistKnockback) == true,
        talent_of(Identity::ResistWave) == Some(22u8),
        icon_of(Identity::ResistWave) == Some(img015::ICON_RESIST_WAVE),
        schema_of(Identity::ResistWave) == Seq::<(&'static str, AttrUnit)>::empty(),
        talent_values_of(Identity::ResistWave) == Seq::<TalentValue>::empty(),
        applies_as_talent(Identity::ResistWave) == true,
        talent_of(Identity::ResistWarp) == Some(24u8),
        icon_of(Identity::ResistWarp) == Some(img015::ICON_RESIST_WARP),
        schema_of(Identity::ResistWarp) == Seq::<(&'static str, AttrUnit)>::empty(),
        talent_values_of(Identity::ResistWarp) == Seq::<TalentValue>::empty(),
        applies_as_talent(Identity::ResistWarp) == true,
        talent_of(Identity::ResistCurse) == Some(30u8),
        icon_of(Identity::ResistCurse) == Some(img015::ICON_RESIST_CURSE),
        schema_of(Identity::ResistCurse) == Seq::<(&'static str, AttrUnit)>::empty(),
        talent_values_of(Identity::ResistCurse) == Seq::<TalentValue>::empty(),
        applies_as_talent(Identity::ResistCurse) == true,
        talent_of(Identity::ResistToxic) == Some(52u8),
        icon_of(Identity::ResistToxic) == Some(img015::ICON_RESIST_TOXIC),
        schema_of(Identity::ResistToxic) == Seq::<(&'static str, AttrUnit)>::empty(),
        talent_values_of(Identity::ResistToxic) == Seq::<TalentValue>::empty(),
        applies_as_talent(Identity::ResistToxic) == true,
        talent_of(Identity::ResistSurge) == Some(54u8),
        icon_of(Identity::ResistSurge) == Some(img015::ICON_SURGE_RESIST),
        schema_of(Identity::ResistSurge) == Seq::<(&'static str, AttrUnit)>::empty(),
        talent_values_of(Identity::ResistSurge) == Seq::<TalentValue>::empty(),
        applies_as_talent(Identity::ResistSurge) == true,
        talent_of(Identity::CostDown) == Some(25u8),
        icon_of(Identity::CostDown) == Some(img015::ICON_COST_DOWN),
        schema_of(Identity::CostDown) == Seq::<(&'static str, AttrUnit)>::empty(),
        talent_values_of(Identity::CostDown) == seq![TalentValue { label: "Reduction", unit: AttrUnit::Unitless, interpolated: true, scale: Scale::Raw, stored: Stored::Direct }],
        applies_as_talent(Identity::CostDown) == true,
        talent_of(Identity::RecoverSpeedUp) == Some(26u8),
        icon_of(Identity::RecoverSpeedUp) == Some(img015::ICON_RECOVER_SPEED_UP),
        schema_of(Identity::RecoverSpeedUp) == Seq::<(&'static str, AttrUnit)>::empty(),
        talent_values_of(Identity::RecoverSpeedUp) == seq![TalentValue { label: "Reduction", unit: AttrUnit::Frames, interpolated: true, scale: Scale::Raw, stored: Stored::Direct }],
        applies_as_talent(Identity::RecoverSpeedUp) == true,
        talent_of(Identity::MoveSpeedUp) == Some(27u8),
        icon_of(Identity::MoveSpeedUp) == Some(img015::ICON_MOVE_SPEED),
        schema_of(Identity::MoveSpeedUp) == Seq::<(&'static str, AttrUnit)>::empty(),
        talent_values_of(Identity::MoveSpeedUp) == seq![TalentValue { label: "Increase", unit: AttrUnit::Unitless, interpolated: true, scale: Scale::Raw, stored: Stored::Direct }],
        applies_as_talent(Identity::MoveSpeedUp) == true,
        talent_of(Identity::AttackBuff) == Some(31u8),
        icon_of(Identity::AttackBuff) == Some(img015::ICON_ATTACK_BUFF),
        schema_of(Identity::AttackBuff) == Seq::<(&'static str, AttrUnit)>::empty(),
        talent_values_of(Identity::AttackBuff) == seq![TalentValue { label: "Boost", unit: AttrUnit::Percent, interpolated: true, scale: Scale::Raw, stored: Stored::Direct }],
        applies_as_talent(Identity::AttackBuff) == true,
        talent_of(Identity::HealthBuff) == Some(32u8),
        icon_of(Identity::HealthBuff) == Some(img015::ICON_HEALTH_BUFF),
        schema_of(Identity::HealthBuff) == Seq::<(&'static str, AttrUnit)>::empty(),
        talent_values_of(Identity::HealthBuff) == seq![TalentValue { label: "Boost", unit: AttrUnit::Percent, interpolated: true, scale: Scale::Raw, stored: Stored::Direct }],
        applies_as_talent(Identity::HealthBuff) == true,
        talent_of(Identity::TbaDown) == Some(61u8),
        icon_of(Identity::TbaDown) == Some(img015::ICON_TBA_DOWN),
        schema_of(Identity::TbaDown) == Seq::<(&'static str, AttrUnit)>::empty(),
        talent_values_of(Identity::TbaDown) == seq![TalentValue { label: "Reduction", unit: AttrUnit::Percent, interpolated: true, scale: Scale::Raw, stored: Stored::Direct }],
        applies_as_talent(Identity::TbaDown) == true,
        talent_of(Identity::ImproveKnockbacks) == Some(28u8),
        icon_of(Identity::ImproveKnockbacks) == Some(img015::ICON_IMPROVE_KNOCKBACK_COUNT),
        schema_of(Identity::ImproveKnockbacks) == Seq::<(&'static str, AttrUnit)>::empty(),
        talent_values_of(Identity::ImproveKnockbacks) == seq![TalentValue { label: "Increase", unit: AttrUnit::Unitless, interpolated: true, scale: Scale::Raw, stored: Stored::Direct }],
        applies_as_talent(Identity::ImproveKnockbacks) == true,
{
}

/// What the registry declares of each ability: the talent that grants it, its
/// icon in the atlas, the labels and units of its attributes, the value pairs
/// a talent granting it consumes, and whether it can be applied as a talent
/// (part 5).
pub proof fn lemma_registry_declares_5()
    ensures
        talent_of(Identity::TimeBeforeDeath) == None::<u8>,
        icon_of(Identity::TimeBeforeDeath) == None::<usize>,
        schema_of(Identity::TimeBeforeDeath) == seq![("Duration", AttrUnit::Frames)],
        talent_values_of(Identity::TimeBeforeDeath) == Seq::<TalentValue>::empty(),
        applies_as_talent(Identity::TimeBeforeDeath) == false,
{
}

/// The registry lists the abilities in the order the original table declares them.
pub proof fn lemma_registry_order()
    ensures
        registry_order() == seq![Identity::SingleAttack, Identity::AreaAttack, Identity::MultiHit, Identity::LongDistance, Identity::OmniStrike, Identity::TraitRed, Identity::TraitFloating, Identity::TraitDark, Identity::TraitMetal, Identity::TraitAngel, Identity::TraitAlien, Identity::TraitZombie, Identity::TraitRelic, Identity::TraitAku, Identity::TraitTraitless, Identity::TraitWitch, Identity::TraitEva, Identity::TraitDojo, Identity::TraitStarredAlien, Identity::TraitCatGod, Identity::TraitColossus, Identity::TraitBehemoth, Identity::TraitSage, Identity::TraitKaijin, Identity::AttackOnly, Identity::StrongAgainst, Identity::MassiveDamage, Identity::InsaneDamage, Identity::Resist, Identity::InsanelyTough, Identity::IsMetal, Identity::DoubleBounty, Identity::ZombieKiller, Identity::Soulstrike, Identity::ColossusSlayer, Identity::SageSlayer, Identity::BehemothSlayer, Identity::WitchKiller, Identity::EvaKiller, Identity::MetalKiller, Identity::BarrierBreaker, Identity::ShieldPiercer, Identity::Conjure, Identity::BaseDestroyer, Identity::Kamikaze, Identity::Stop, Identity::WaveBlock, Identity::CounterSurge, Identity::WaveAttack, Identity::MiniWave, Identity::SurgeAttack, Identity::MiniSurge, Identity::Explosion, Identity::SavageBlow, Identity::CriticalHit, Identity::Strengthen, Identity::Survive, Identity::Dodge, Identity::Weaken, Identity::Freeze, Identity::Slow, Identity::Knockback, Identity::Curse, Identity::Warp, Identity::Unknown, Identity::Barrier, Identity::AkuShield, Identity::Burrow, Identity::Revive, Identity::Toxic, Identity::Drain, Identity::DeathSurge, Identity::ImmuneWave, Identity::ImmuneSurge, Identity::ImmuneExplosion, Identity::ImmuneWeaken, Identity::ImmuneFreeze, Identity::ImmuneSlow, Identity::ImmuneKnockback, Identity::ImmuneCurse, Identity::ImmuneWarp, Identity::ImmuneToxic, Identity::ImmuneDrain, Identity::ImmuneBossWave, Identity::ResistWeaken, Identity::ResistFreeze, Identity::ResistSlow, Identity::ResistKnockback, Identity::ResistWave, Identity::ResistWarp, Identity::ResistCurse, Identity::ResistToxic, Identity::ResistSurge, Identity::CostDown, Identity::RecoverSpeedUp, Identity::MoveSpeedUp, Identity::AttackBuff, Identity::HealthBuff, Identity::TbaDown, Identity::ImproveKnockbacks, Identity::TimeBeforeDeath],
{
}

/// A negative raw value stands for an unbounded count and any other value for
/// itself; a value stored inverted from a base is the base less the value,
/// so storing inverted twice gives the value back.
pub proof fn lemma_sentinels_and_storage(raw: i32, base: i32, v: int)
    ensures
        sentinel_value(raw) == (if raw < 0 { AttrValue::Infinite } else { AttrValue::Finite(raw) }),
        stored_value(Stored::Direct, v) == v,
        stored_value(Stored::Inverted(base), v) == base - v,
        stored_value(Stored::Inverted(base), stored_value(Stored::Inverted(base), v)) == v,
{
}

} // verus!
