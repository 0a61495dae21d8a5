//! The unified combat statistics both factions are parsed into, and the row
//! handling shared by the layouts that feed it.

use vstd::prelude::*;

use crate::common::columns::{scale_i32, Scale};
use crate::text::{before_comment, comment_cut, get_i32_or, i32_or, split_bytes, split_on, trim, trim_end,
    trimmed_end, views};

verus! {

/// Represents errors that can occur while parsing raw combat statistic rows.
#[derive(Debug, Clone, PartialEq, Eq)]
#[non_exhaustive]
pub enum EntityError {
    /// The supplied bytes yielded no rows wide enough to be treated as combat data.
    EmptyFile,
}

impl EntityError {
    /// A human-readable description of the error.
    #[verifier::allow_in_spec]
    pub fn message(&self) -> &'static str
        returns
            (match self {
                EntityError::EmptyFile => "The provided file bytes contained no valid combat entities.",
            }),
    {
        match self {
            EntityError::EmptyFile => "The provided file bytes contained no valid combat entities.",
        }
    }
}

/// Identifies which side of a battle an entity belongs to.
///
/// The two factions read their statistics from different source files with
/// different column orderings, so this flag records which layout produced the
/// surrounding [`Entity`].
#[derive(Debug, Clone, Copy, Default, PartialEq, Eq, Structural, Hash)]
pub enum Faction {
    /// A player-controlled Cat unit, parsed from a per-unit file.
    #[default]
    Cat,
    /// An opposing enemy unit, parsed from a row of the shared enemy table.
    Enemy,
}

/// The complete mechanical combat definition of a single entity form.
///
/// Both factions normalize into this layout, with the origin recorded in
/// [`Entity::faction`]. Fields absent from a faction's source file keep their
/// default.
///
/// Durations are frames at thirty per second, chances are whole percentages,
/// and distances are already divided by four where the raw column quadruples
/// them.
#[derive(Debug, Clone, Copy, Default, PartialEq, Eq)]
pub struct Entity {
    /// The side of the battle this entity fights on, and therefore which source layout produced it.
    pub faction: Faction,
    /// The total health pool before any level or treasure scaling is applied.
    pub hitpoints: i32,
    /// The number of times the entity is repelled before it is defeated.
    pub knockbacks: i32,
    /// The horizontal movement rate in engine distance units per frame.
    pub speed: i32,
    /// The damage dealt by the first attack in the entity's attack sequence.
    pub attack_1: i32,
    /// The damage dealt by the second attack, or zero when the entity has a single-hit attack.
    pub attack_2: i32,
    /// The damage dealt by the third attack, or zero when the entity has fewer than three hits.
    pub attack_3: i32,
    /// The recovery period in frames between the end of one attack sequence and the start of the next.
    pub attack_cooldown: i32,
    /// The distance at which the entity halts and begins attacking.
    pub standing_range: i32,
    /// The offset of the damage hitbox relative to the entity's own position.
    pub hitbox_position: i32,
    /// The width of the damage hitbox.
    pub hitbox_width: i32,
    /// Non-zero when the entity is a valid target of the legacy strong-against matchup.
    pub legacy_weak_against: i32,
    /// Non-zero when the entity applies the legacy strong-against matchup to opponents that accept it.
    pub legacy_strong_against: i32,
    /// The deployment cost in currency during the first chapter, before chapter cost multipliers.
    pub eoc1_cost: i32,
    /// The redeployment delay in frames after the entity is summoned.
    pub cooldown: i32,
    /// The currency awarded to the opposing player when this entity is defeated.
    pub cash_drop: i32,
    /// The lower bound of the random draw layer used to order overlapping sprites.
    pub minimum_z_layer: i32,
    /// The upper bound of the random draw layer used to order overlapping sprites.
    pub maximum_z_layer: i32,
    /// Non-zero when the entity carries the Red trait.
    pub trait_red: i32,
    /// Non-zero when the entity carries the Floating trait.
    pub trait_floating: i32,
    /// Non-zero when the entity carries the Black trait.
    pub trait_dark: i32,
    /// Non-zero when the entity carries the Metal trait.
    pub trait_metal: i32,
    /// Non-zero when the entity carries the Traitless classification.
    pub trait_traitless: i32,
    /// Non-zero when the entity carries the Angel trait.
    pub trait_angel: i32,
    /// Non-zero when the entity carries the Alien trait.
    pub trait_alien: i32,
    /// Non-zero when the entity carries the Zombie trait.
    pub trait_zombie: i32,
    /// Non-zero when the entity carries the Witch trait.
    pub trait_witch: i32,
    /// Non-zero when the entity carries the Eva Angel trait.
    pub trait_eva: i32,
    /// Non-zero when the entity carries the Relic trait.
    pub trait_relic: i32,
    /// Non-zero when the entity carries the Aku trait.
    pub trait_aku: i32,
    /// Non-zero when the entity carries the Dojo classification used by base-defense stages.
    pub trait_dojo: i32,
    /// Non-zero when the entity carries the Starred Alien trait.
    pub trait_starred_alien: i32,
    /// Non-zero when the entity carries the Behemoth trait.
    pub trait_behemoth: i32,
    /// Non-zero when the entity carries the Colossus trait.
    pub trait_colossus: i32,
    /// Non-zero when the entity carries the Sage trait.
    pub trait_sage: i32,
    /// Non-zero when the entity carries the Kaijin trait.
    pub trait_kaijin: i32,
    /// Non-zero when the entity damages every target within its hitbox rather than only the first.
    pub area_attack: i32,
    /// The frame within the attack animation at which the first attack applies its damage.
    pub time_until_attack_1: i32,
    /// The frame within the attack animation at which the second attack applies its damage.
    pub time_until_attack_2: i32,
    /// The frame within the attack animation at which the third attack applies its damage.
    pub time_until_attack_3: i32,
    /// A bitfield selecting which of the entity's abilities are carried by the first attack.
    pub attack_1_abilities: i32,
    /// A bitfield selecting which of the entity's abilities are carried by the second attack.
    pub attack_2_abilities: i32,
    /// A bitfield selecting which of the entity's abilities are carried by the third attack.
    pub attack_3_abilities: i32,
    /// The number of attacks that make up one complete attack sequence.
    pub attack_count_total: i32,
    /// The internal counter tracking which attack of the sequence is next to resolve.
    pub attack_count_state: i32,
    /// The delay in frames between the entity's death and the removal of its corpse.
    pub time_before_death: i32,
    /// The identifier of the animation played when the entity enters the battlefield.
    pub spawn_animation_type: i32,
    /// The identifier of the animation played when the entity is defeated.
    pub soul_animation_type: i32,
    /// Non-zero when the spawn animation is enabled for this entity.
    pub spawn_animation_flag: i32,
    /// Non-zero when the death animation is enabled for this entity.
    pub use_gudetama_soul: i32,
    /// Non-zero when the entity may only attack and cannot block advancing opponents.
    pub attack_only: i32,
    /// The damage multiplier applied against the traits this entity is strong against.
    pub strong_against: i32,
    /// The damage multiplier applied by the Massive Damage ability.
    pub massive_damage: i32,
    /// The damage multiplier applied by the Insane Damage ability.
    pub insane_damage: i32,
    /// The incoming damage reduction applied by the Resistant ability.
    pub resist: i32,
    /// The incoming damage reduction applied by the Insanely Tough ability.
    pub insanely_tough: i32,
    /// Non-zero when the entity behaves as a Metal target, taking one damage from ordinary hits.
    pub is_metal: i32,
    /// Non-zero when the entity yields twice the ordinary currency on defeat.
    pub double_bounty: i32,
    /// The damage multiplier applied against Zombie targets, which also prevents their revival.
    pub zombie_killer: i32,
    /// Non-zero when the entity's attacks pierce the burrowed state of Zombie targets.
    pub soulstrike: i32,
    /// The damage multiplier applied against Colossus targets.
    pub colossus_slayer: i32,
    /// The damage multiplier applied against Sage targets.
    pub sage_slayer: i32,
    /// The damage multiplier applied against Behemoth targets.
    pub behemoth_slayer: i32,
    /// The percentage chance of evading an incoming attack from a Behemoth target.
    pub behemoth_dodge_chance: i32,
    /// The duration in frames of the evasion granted against Behemoth targets.
    pub behemoth_dodge_duration: i32,
    /// The damage multiplier applied against Witch targets.
    pub witch_killer: i32,
    /// The damage multiplier applied against Eva Angel targets.
    pub eva_killer: i32,
    /// The percentage of the target's health dealt as damage against Metal targets.
    pub metal_killer_percent: i32,
    /// The percentage chance of destroying a target's barrier outright.
    pub barrier_breaker_chance: i32,
    /// The percentage chance of ignoring a target's shield.
    pub shield_pierce_chance: i32,
    /// The identifier of the unit summoned by the Conjure ability, or negative one when absent.
    pub conjure_unit_id: i32,
    /// The percentage chance of repelling the target on hit.
    pub knockback_chance: i32,
    /// The percentage chance of freezing the target on hit.
    pub freeze_chance: i32,
    /// The duration in frames of the freeze effect.
    pub freeze_duration: i32,
    /// The percentage chance of slowing the target on hit.
    pub slow_chance: i32,
    /// The duration in frames of the slow effect.
    pub slow_duration: i32,
    /// The percentage chance of weakening the target on hit.
    pub weaken_chance: i32,
    /// The duration in frames of the weaken effect.
    pub weaken_duration: i32,
    /// The percentage of its original attack power a weakened target retains.
    pub weaken_to: i32,
    /// The percentage chance of cursing the target, suppressing its trait-based abilities.
    pub curse_chance: i32,
    /// The duration in frames of the curse effect.
    pub curse_duration: i32,
    /// The percentage chance of warping the target backwards on hit.
    pub warp_chance: i32,
    /// The duration in frames the target remains immobilized after being warped.
    pub warp_duration: i32,
    /// The shortest distance a warped target is displaced.
    pub warp_distance_minimum: i32,
    /// The longest distance a warped target is displaced.
    pub warp_distance_maximum: i32,
    /// The percentage chance of evading an incoming attack.
    pub dodge_chance: i32,
    /// The duration in frames of the evasion effect.
    pub dodge_duration: i32,
    /// The percentage chance of triggering a Savage Blow.
    pub savage_blow_chance: i32,
    /// The additional damage percentage applied by a Savage Blow.
    pub savage_blow_boost: i32,
    /// The percentage chance of dealing a critical hit, which also damages Metal targets normally.
    pub critical_chance: i32,
    /// The remaining health percentage below which the Strengthen ability activates.
    pub strengthen_threshold: i32,
    /// The additional attack percentage granted once Strengthen activates.
    pub strengthen_boost: i32,
    /// The percentage chance of surviving a lethal hit with one health point remaining.
    pub survive: i32,
    /// The damage multiplier applied against enemy and player bases.
    pub base_destroyer: i32,
    /// The percentage chance of emitting a shockwave on attack.
    pub wave_chance: i32,
    /// The level of the emitted shockwave, which determines how far it travels.
    pub wave_level: i32,
    /// Non-zero when the emitted shockwave deals reduced mini-wave damage.
    pub mini_wave_flag: i32,
    /// Non-zero when the entity is immune to shockwaves and prevents them from passing.
    pub wave_block: i32,
    /// The percentage chance of creating a surge at a distant point on attack.
    pub surge_chance: i32,
    /// The nearest distance at which a surge may be created.
    pub surge_spawn_anchor: i32,
    /// The width of the range within which a surge may be created.
    pub surge_spawn_span: i32,
    /// The level of the created surge, which determines its duration.
    pub surge_level: i32,
    /// Non-zero when the created surge deals reduced mini-surge damage.
    pub mini_surge_flag: i32,
    /// Non-zero when the entity retaliates against surges that strike it.
    pub counter_surge: i32,
    /// The percentage chance of creating an explosion at a distant point on attack.
    pub explosion_chance: i32,
    /// The nearest distance at which an explosion may be created.
    pub explosion_spawn_anchor: i32,
    /// The width of the range within which an explosion may be created.
    pub explosion_spawn_span: i32,
    /// The percentage chance of creating a surge at the point of the entity's death.
    pub death_surge_chance: i32,
    /// The nearest distance at which a death surge may be created.
    pub death_surge_spawn_anchor: i32,
    /// The width of the range within which a death surge may be created.
    pub death_surge_spawn_span: i32,
    /// The level of the created death surge, which determines its duration.
    pub death_surge_level: i32,
    /// The nearest distance covered by the entity's first long-distance attack band.
    pub long_distance_1_anchor: i32,
    /// The width of the entity's first long-distance attack band.
    pub long_distance_1_span: i32,
    /// Non-zero when the second long-distance attack band is active.
    pub long_distance_2_flag: i32,
    /// The nearest distance covered by the entity's second long-distance attack band.
    pub long_distance_2_anchor: i32,
    /// The width of the entity's second long-distance attack band.
    pub long_distance_2_span: i32,
    /// Non-zero when the third long-distance attack band is active.
    pub long_distance_3_flag: i32,
    /// The nearest distance covered by the entity's third long-distance attack band.
    pub long_distance_3_anchor: i32,
    /// The width of the entity's third long-distance attack band.
    pub long_distance_3_span: i32,
    /// Non-zero when the entity ignores incoming shockwaves.
    pub wave_immune: i32,
    /// Non-zero when the entity ignores incoming knockback effects.
    pub knockback_immune: i32,
    /// Non-zero when the entity ignores incoming freeze effects.
    pub freeze_immune: i32,
    /// Non-zero when the entity ignores incoming slow effects.
    pub slow_immune: i32,
    /// Non-zero when the entity ignores incoming weaken effects.
    pub weaken_immune: i32,
    /// Non-zero when the entity ignores incoming warp effects.
    pub warp_immune: i32,
    /// Non-zero when the entity ignores incoming curse effects.
    pub curse_immune: i32,
    /// Non-zero when the entity ignores incoming toxic damage.
    pub toxic_immune: i32,
    /// Non-zero when the entity ignores incoming surges.
    pub surge_immune: i32,
    /// Non-zero when the entity ignores incoming explosions.
    pub explosion_immune: i32,
    /// Non-zero when the entity ignores the knockback inflicted by boss waves.
    pub boss_wave_immune: i32,
    /// The health pool of the barrier that must be broken before the entity itself takes damage.
    pub barrier_hitpoints: i32,
    /// The health pool of the regenerating shield that absorbs incoming damage.
    pub shield_hitpoints: i32,
    /// The percentage of shield health restored once the shield is broken.
    pub shield_regen: i32,
    /// The number of times the entity may burrow beneath attacks.
    pub burrow_amount: i32,
    /// The distance from the player base at which the entity begins to burrow.
    pub burrow_distance: i32,
    /// The number of times the entity returns to life after being defeated.
    pub revive_count: i32,
    /// The delay in frames between the entity's death and its revival.
    pub revive_time: i32,
    /// The percentage of maximum health the entity is restored to on revival.
    pub revive_hp: i32,
    /// The percentage chance of inflicting proportional toxic damage on hit.
    pub toxic_chance: i32,
    /// The percentage of the target's maximum health dealt as toxic damage.
    pub toxic_damage: i32,
    /// The percentage chance of restoring health proportional to the damage dealt.
    pub drain_chance: i32,
    /// The percentage of damage dealt that is restored as health.
    pub drain_percent: i32,
    /// Non-zero when the source row carried trailing values this parser does not interpret.
    pub has_unknown_abilities: i32,
}

/// The foreswing of the last attack that both deals damage and declares a
/// strike frame, falling back to the first attack's.
pub open spec fn effective_foreswing(a2: i32, t2: i32, a3: i32, t3: i32, t1: i32) -> int {
    if a3 > 0 && t3 > 0 {
        t3 as int
    } else if a2 > 0 && t2 > 0 {
        t2 as int
    } else {
        t1 as int
    }
}

/// An `i32` less one, saturating at the lower bound.
pub open spec fn less_one(v: i32) -> int {
    if v == i32::MIN { v as int } else { v - 1 }
}

/// The frames of one attack cycle, before the animation's length bounds it.
pub open spec fn entity_cycle(e: Entity) -> int {
    effective_foreswing(e.attack_2, e.time_until_attack_2, e.attack_3, e.time_until_attack_3, e.time_until_attack_1)
        + less_one(e.attack_cooldown)
}

/// Whether the legacy strong-against matchup resolves from `attacker` onto `target`.
pub open spec fn matchup(attacker: Entity, target: Entity) -> bool {
    attacker.legacy_strong_against != 0 && target.legacy_weak_against != 0 && attacker.faction != target.faction
}

/// The attack cycle winds up on the last attack that both deals damage and
/// declares a strike frame: the third where it does, the second where only it
/// does, and the first otherwise; then it runs through the cooldown less one
/// frame. So the third attack, where it qualifies, decides the cycle whatever
/// the second attack holds.
pub proof fn lemma_cycle_winds_up_on_the_last_attack(e: Entity, a2: i32, t2: i32)
    ensures
        ({
            let cooldown: int = if e.attack_cooldown == i32::MIN { i32::MIN as int } else { e.attack_cooldown - 1 };
            &&& e.attack_3 > 0 && e.time_until_attack_3 > 0
                ==> entity_cycle(e) == e.time_until_attack_3 + cooldown
            &&& !(e.attack_3 > 0 && e.time_until_attack_3 > 0) && e.attack_2 > 0 && e.time_until_attack_2 > 0
                ==> entity_cycle(e) == e.time_until_attack_2 + cooldown
            &&& !(e.attack_3 > 0 && e.time_until_attack_3 > 0) && !(e.attack_2 > 0 && e.time_until_attack_2 > 0)
                ==> entity_cycle(e) == e.time_until_attack_1 + cooldown
        }),
        e.attack_3 > 0 && e.time_until_attack_3 > 0
            ==> entity_cycle(Entity { attack_2: a2, time_until_attack_2: t2, ..e }) == entity_cycle(e),
{
}

/// The legacy matchup holds exactly when the attacker declares its half, the
/// target declares the other, and they fight on opposing sides; it never holds
/// between two entities of one side.
pub proof fn lemma_matchup_needs_both_halves(a: Entity, t: Entity)
    ensures
        matchup(a, t) <==> (a.legacy_strong_against != 0 && t.legacy_weak_against != 0 && a.faction != t.faction),
        a.faction == t.faction ==> !matchup(a, t),
{
}

impl Entity {
    /// Calculates the total length in frames of one complete attack cycle.
    ///
    /// The cycle spans from the start of the attack animation through the frame
    /// on which the final hit lands and then through the recovery period. When
    /// the entity has multiple attacks, the effective wind-up is taken from the
    /// last attack that both deals damage and declares a strike frame.
    ///
    /// # Returns
    /// The greater of the computed cycle length and `frames`.
    pub fn attack_cycle(&self, frames: i32) -> (r: i32)
        requires
            i32::MIN <= entity_cycle(*self) <= i32::MAX,
        ensures
            r == (if entity_cycle(*self) > frames { entity_cycle(*self) } else { frames as int }),
    {
        let mut effective = self.time_until_attack_1;
        if self.attack_3 > 0 && self.time_until_attack_3 > 0 {
            effective = self.time_until_attack_3;
        } else if self.attack_2 > 0 && self.time_until_attack_2 > 0 {
            effective = self.time_until_attack_2;
        }
        let cooldown = if self.attack_cooldown == i32::MIN {
            i32::MIN
        } else {
            self.attack_cooldown - 1
        };
        let cycle = effective + cooldown;
        if cycle > frames { cycle } else { frames }
    }

    /// Reports whether the legacy strong-against matchup resolves against a target.
    ///
    /// It applies when the attacker declares [`Entity::legacy_strong_against`],
    /// the target declares [`Entity::legacy_weak_against`], and the two fight
    /// on opposing sides.
    pub fn legacy_matchup(&self, target: &Self) -> (r: bool)
        ensures
            r == matchup(*self, *target),
    {
        self.legacy_strong_against != 0 && target.legacy_weak_against != 0 && self.faction != target.faction
    }
}

/// The value an integer column contributes: its trimmed text read as an
/// `i32`, else the default, then converted.
pub open spec fn column_i32(cells: Seq<Seq<u8>>, k: int, default: i32, scale: Scale) -> i32 {
    scale_i32(scale, i32_or(cells, k, default))
}

/// Reads an integer column.
pub fn read_i32(cells: &Vec<Vec<u8>>, k: usize, default: i32, scale: Scale) -> (r: i32)
    ensures
        r == column_i32(views(cells@), k as int, default, scale),
{
    scale.apply(get_i32_or(cells, k, default))
}

/// Whether any cell from `start` on reads as an integer other than zero and
/// negative one, a cell that reads as none counting as zero.
pub open spec fn unknown_trailing(cells: Seq<Seq<u8>>, start: int) -> bool {
    exists|i: int| start <= i < cells.len() && #[trigger] i32_or(cells, i, 0) != 0 && i32_or(cells, i, 0) != -1
}

/// Reports whether a row carries values past the columns its layout reads.
pub fn trailing_unknowns(cells: &Vec<Vec<u8>>, start: usize) -> (r: i32)
    ensures
        r == (if unknown_trailing(views(cells@), start as int) { 1i32 } else { 0i32 }),
{
    let mut i: usize = start;
    while i < cells.len()
        invariant
            start <= i,
            forall|j: int| start <= j < i && j < cells@.len() ==> {
                let v = #[trigger] i32_or(views(cells@), j, 0);
                v == 0 || v == -1
            },
        decreases cells@.len() - i,
    {
        let v = get_i32_or(cells, i, 0);
        if v != 0 && v != -1 {
            return 1;
        }
        i += 1;
    }
    0
}

/// `cells` without its trailing cells that are blank once trimmed.
pub open spec fn drop_blank_tail(cells: Seq<Seq<u8>>) -> Seq<Seq<u8>>
    decreases cells.len(),
{
    if cells.len() > 0 && trim(cells.last()).len() == 0 {
        drop_blank_tail(cells.drop_last())
    } else {
        cells
    }
}

/// The columns of a raw row: the text before its first `//`, with trailing
/// whitespace removed, split on the delimiter, without trailing blank columns.
pub open spec fn row_columns(line: Seq<u8>, d: u8) -> Seq<Seq<u8>> {
    drop_blank_tail(split_on(trim_end(before_comment(line)), d))
}

/// Splits one raw row into its columns, dropping a trailing `//` comment and
/// any blank columns the comment's separator left behind.
pub fn split_row(line: &[u8], d: u8) -> (cols: Vec<Vec<u8>>)
    ensures
        views(cols@) == row_columns(line@, d),
{
    let end = comment_cut(line);
    let body = trimmed_end(&line[0..end]);
    proof {
        assert(line@.subrange(0, end as int) =~= line@.take(end as int));
    }
    let mut cols = split_bytes(body.as_slice(), d);
    loop
        invariant
            drop_blank_tail(views(cols@)) == row_columns(line@, d),
        ensures
            views(cols@) == row_columns(line@, d),
        decreases cols@.len(),
    {
        if cols.len() == 0 {
            break;
        }
        let blank = is_blank(cols[cols.len() - 1].as_slice());
        if !blank {
            break;
        }
        proof {
            assert(views(cols@).drop_last() =~= views(cols@.drop_last()));
        }
        cols.pop();
    }
    cols
}

/// Whether a cell is blank once trimmed.
fn is_blank(s: &[u8]) -> (r: bool)
    ensures
        r == (trim(s@).len() == 0),
{
    let (a, b) = crate::text::trim_range(s);
    a == b
}

} // verus!
