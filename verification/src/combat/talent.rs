//! Talent upgrades: how a talent the player unlocks for a unit rewrites the
//! unit's combat statistics.

use vstd::prelude::*;

use crate::combat::abilities::{applies_as_talent, Ability, Identity};
use crate::combat::entity::Entity;

verus! {

/// The values one talent group of a unit declares: the text describing it and
/// four `(min, max)` value pairs, which the talent's ability reads by position.
#[derive(Debug, Clone, Copy, Default, PartialEq, Eq)]
pub struct TalentGroup {
    /// The identifier of the text describing the talent, which tells apart
    /// the talents that upgrade the same ability in different ways.
    pub text_id: u16,
    /// The first value pair's minimum.
    pub min_1: u16,
    /// The first value pair's maximum.
    pub max_1: u16,
    /// The second value pair's minimum.
    pub min_2: u16,
    /// The second value pair's maximum.
    pub max_2: u16,
    /// The third value pair's minimum.
    pub min_3: u16,
    /// The third value pair's maximum.
    pub max_3: u16,
    /// The fourth value pair's minimum.
    pub min_4: u16,
    /// The fourth value pair's maximum.
    pub max_4: u16,
}

/// `a - b`, held within the range of an `i32`.
pub open spec fn saturating_sub_i32(a: i32, b: i32) -> i32 {
    if a - b < i32::MIN { i32::MIN } else if a - b > i32::MAX { i32::MAX } else { (a - b) as i32 }
}

fn saturating_sub(a: i32, b: i32) -> (r: i32)
    ensures
        r == saturating_sub_i32(a, b),
{
    let d: i64 = a as i64 - b as i64;
    if d < i32::MIN as i64 {
        i32::MIN
    } else if d > i32::MAX as i64 {
        i32::MAX
    } else {
        d as i32
    }
}

/// The second talent value where the first is zero, else the first: the one
/// duration-only talents of a status effect carry.
pub open spec fn duration_value(v1: i32, v2: i32) -> i32 {
    if v1 != 0 { v1 } else { v2 }
}

/// The statistics an entity has after the talent granting `identity` is
/// applied with the level's two values `v1` and `v2` and its talent group
/// `g`, or `None` when the ability is applied by no integer rule: it grants no
/// talent, or its talent scales a statistic by a floating-point factor.
pub open spec fn talent_change(identity: Identity, s: Entity, v1: i32, v2: i32, g: TalentGroup) -> Option<Entity> {
    match identity {
        Identity::TraitRed => Some(Entity { trait_red: 1, ..s }),
        Identity::TraitFloating => Some(Entity { trait_floating: 1, ..s }),
        Identity::TraitDark => Some(Entity { trait_dark: 1, ..s }),
        Identity::TraitMetal => Some(Entity { trait_metal: 1, ..s }),
        Identity::TraitAngel => Some(Entity { trait_angel: 1, ..s }),
        Identity::TraitAlien => Some(Entity { trait_alien: 1, ..s }),
        Identity::TraitZombie => Some(Entity { trait_zombie: 1, ..s }),
        Identity::TraitRelic => Some(Entity { trait_relic: 1, ..s }),
        Identity::TraitAku => Some(Entity { trait_aku: 1, ..s }),
        Identity::TraitTraitless => Some(Entity { trait_traitless: 1, ..s }),
        Identity::TraitWitch => Some(Entity { trait_witch: 1, ..s }),
        Identity::TraitEva => Some(Entity { trait_eva: 1, ..s }),
        Identity::AttackOnly => Some(Entity { attack_only: 1, ..s }),
        Identity::StrongAgainst => Some(Entity { strong_against: 1, ..s }),
        Identity::MassiveDamage => Some(Entity { massive_damage: 1, ..s }),
        Identity::Resist => Some(Entity { resist: 1, ..s }),
        Identity::IsMetal => Some(Entity { is_metal: 1, ..s }),
        Identity::DoubleBounty => Some(Entity { double_bounty: 1, ..s }),
        Identity::ZombieKiller => Some(Entity { zombie_killer: 1, ..s }),
        Identity::Soulstrike => Some(Entity { soulstrike: 2, ..s }),
        Identity::ColossusSlayer => Some(Entity { colossus_slayer: 1, ..s }),
        Identity::SageSlayer => Some(Entity { sage_slayer: 1, ..s }),
        Identity::WitchKiller => Some(Entity { witch_killer: 1, ..s }),
        Identity::EvaKiller => Some(Entity { eva_killer: 1, ..s }),
        Identity::MetalKiller => Some(Entity { metal_killer_percent: v1, ..s }),
        Identity::BarrierBreaker => Some(Entity { barrier_breaker_chance: (s.barrier_breaker_chance + v1) as i32, ..s }),
        Identity::ShieldPiercer => Some(Entity { shield_pierce_chance: (s.shield_pierce_chance + v1) as i32, ..s }),
        Identity::BaseDestroyer => Some(Entity { base_destroyer: 1, ..s }),
        Identity::WaveBlock => Some(Entity { wave_block: 1, ..s }),
        Identity::CounterSurge => Some(Entity { counter_surge: 1, ..s }),
        Identity::WaveAttack => {
            let s1 = Entity { wave_chance: (s.wave_chance + v1) as i32, ..s };
            let s2 = Entity { wave_level: v2, ..s1 };
            Some(s2)
        },
        Identity::MiniWave => {
            let s1 = Entity { mini_wave_flag: 1, ..s };
            let s2 = Entity { wave_chance: (s1.wave_chance + v1) as i32, ..s1 };
            let s3 = Entity { wave_level: v2, ..s2 };
            Some(s3)
        },
        Identity::CriticalHit => Some(Entity { critical_chance: (s.critical_chance + v1) as i32, ..s }),
        Identity::Survive => Some(Entity { survive: (s.survive + v1) as i32, ..s }),
        Identity::Dodge => {
            let s1 = Entity { dodge_chance: (s.dodge_chance + v1) as i32, ..s };
            let s2 = Entity { dodge_duration: (s1.dodge_duration + v2) as i32, ..s1 };
            Some(s2)
        },
        Identity::Knockback => Some(Entity { knockback_chance: (s.knockback_chance + v1) as i32, ..s }),
        Identity::ImmuneWave => Some(Entity { wave_immune: 1, ..s }),
        Identity::ImmuneSurge => Some(Entity { surge_immune: 1, ..s }),
        Identity::ImmuneExplosion => Some(Entity { explosion_immune: 1, ..s }),
        Identity::ImmuneWeaken => Some(Entity { weaken_immune: 1, ..s }),
        Identity::ImmuneFreeze => Some(Entity { freeze_immune: 1, ..s }),
        Identity::ImmuneSlow => Some(Entity { slow_immune: 1, ..s }),
        Identity::ImmuneKnockback => Some(Entity { knockback_immune: 1, ..s }),
        Identity::ImmuneCurse => Some(Entity { curse_immune: 1, ..s }),
        Identity::ImmuneWarp => Some(Entity { warp_immune: 1, ..s }),
        Identity::ImmuneToxic => Some(Entity { toxic_immune: 1, ..s }),
        // An entity records no immunity to drain, so this talent changes no statistic.
        Identity::ImmuneDrain => Some(s),
        Identity::ImmuneBossWave => Some(Entity { boss_wave_immune: 1, ..s }),
        Identity::ResistWeaken => Some(s),
        Identity::ResistFreeze => Some(s),
        Identity::ResistSlow => Some(s),
        Identity::ResistKnockback => Some(s),
        Identity::ResistWave => Some(s),
        Identity::ResistWarp => Some(s),
        Identity::ResistCurse => Some(s),
        Identity::ResistToxic => Some(s),
        Identity::ResistSurge => Some(s),
        Identity::CostDown => Some(Entity { eoc1_cost: saturating_sub_i32(s.eoc1_cost, v1), ..s }),
        Identity::RecoverSpeedUp => Some(Entity { cooldown: saturating_sub_i32(s.cooldown, v1), ..s }),
        Identity::MoveSpeedUp => Some(Entity { speed: (s.speed + v1) as i32, ..s }),
        Identity::ImproveKnockbacks => Some(Entity { knockbacks: (s.knockbacks + v1) as i32, ..s }),
        Identity::BehemothSlayer => Some(Entity {
            behemoth_slayer: 1,
            behemoth_dodge_chance: if v1 > 0 { v1 } else { 5 },
            behemoth_dodge_duration: if v2 > 0 { v2 } else { 30 },
            ..s
        }),
        Identity::SurgeAttack => Some(Entity {
            surge_chance: (s.surge_chance + v1) as i32,
            surge_level: v2,
            surge_spawn_anchor: (g.min_3 / 4) as i32,
            surge_spawn_span: (g.min_4 / 4) as i32,
            ..s
        }),
        Identity::MiniSurge => Some(Entity {
            mini_surge_flag: 1,
            surge_chance: (s.surge_chance + v1) as i32,
            surge_level: v2,
            surge_spawn_anchor: (g.min_3 / 4) as i32,
            surge_spawn_span: (g.min_4 / 4) as i32,
            ..s
        }),
        Identity::Explosion => Some(Entity {
            explosion_chance: (s.explosion_chance + v1) as i32,
            explosion_spawn_anchor: (g.min_2 / 4) as i32,
            explosion_spawn_span: (g.min_3 / 4) as i32,
            ..s
        }),
        Identity::SavageBlow => Some(Entity {
            savage_blow_chance: (s.savage_blow_chance + v1) as i32,
            savage_blow_boost: if v2 > 0 { v2 } else { s.savage_blow_boost },
            ..s
        }),
        Identity::Strengthen => if s.strengthen_boost == 0 {
            Some(Entity { strengthen_threshold: (100 - v1) as i32, strengthen_boost: v2, ..s })
        } else {
            Some(Entity { strengthen_boost: (s.strengthen_boost + duration_value(v1, v2)) as i32, ..s })
        },
        Identity::Weaken => if s.weaken_chance == 0 {
            Some(Entity { weaken_chance: v1, weaken_duration: v2, weaken_to: (100 - g.min_3) as i32, ..s })
        } else if g.text_id == 42 {
            Some(Entity { weaken_duration: (s.weaken_duration + duration_value(v1, v2)) as i32, ..s })
        } else {
            Some(Entity {
                weaken_chance: (s.weaken_chance + v1) as i32,
                weaken_duration: (s.weaken_duration + v2) as i32,
                ..s
            })
        },
        Identity::Freeze => if s.freeze_chance == 0 {
            Some(Entity { freeze_chance: v1, freeze_duration: v2, ..s })
        } else if g.text_id == 74 {
            Some(Entity { freeze_chance: (s.freeze_chance + v1) as i32, ..s })
        } else {
            Some(Entity { freeze_duration: (s.freeze_duration + duration_value(v1, v2)) as i32, ..s })
        },
        Identity::Slow => if s.slow_chance == 0 {
            Some(Entity { slow_chance: v1, slow_duration: v2, ..s })
        } else if g.text_id == 63 {
            Some(Entity { slow_chance: (s.slow_chance + v1) as i32, ..s })
        } else {
            Some(Entity { slow_duration: (s.slow_duration + duration_value(v1, v2)) as i32, ..s })
        },
        Identity::Curse => if s.curse_chance == 0 {
            Some(Entity { curse_chance: v1, curse_duration: v2, ..s })
        } else if g.text_id == 93 {
            Some(Entity { curse_duration: (s.curse_duration + duration_value(v1, v2)) as i32, ..s })
        } else {
            Some(Entity { curse_chance: (s.curse_chance + v1) as i32, ..s })
        },
        _ => None,
    }
}

/// Whether applying a talent keeps every sum it forms within an `i32` and
/// every difference of its group values at or above zero.
pub open spec fn talent_fits(identity: Identity, s: Entity, v1: i32, v2: i32, g: TalentGroup) -> bool {
    match identity {
        Identity::BarrierBreaker => i32::MIN <= s.barrier_breaker_chance + v1 <= i32::MAX,
        Identity::ShieldPiercer => i32::MIN <= s.shield_pierce_chance + v1 <= i32::MAX,
        Identity::WaveAttack => i32::MIN <= s.wave_chance + v1 <= i32::MAX,
        Identity::MiniWave => i32::MIN <= s.wave_chance + v1 <= i32::MAX,
        Identity::CriticalHit => i32::MIN <= s.critical_chance + v1 <= i32::MAX,
        Identity::Survive => i32::MIN <= s.survive + v1 <= i32::MAX,
        Identity::Dodge => i32::MIN <= s.dodge_chance + v1 <= i32::MAX && i32::MIN <= s.dodge_duration + v2 <= i32::MAX,
        Identity::Knockback => i32::MIN <= s.knockback_chance + v1 <= i32::MAX,
        Identity::MoveSpeedUp => i32::MIN <= s.speed + v1 <= i32::MAX,
        Identity::ImproveKnockbacks => i32::MIN <= s.knockbacks + v1 <= i32::MAX,
        Identity::SurgeAttack | Identity::MiniSurge => i32::MIN <= s.surge_chance + v1 <= i32::MAX,
        Identity::Explosion => i32::MIN <= s.explosion_chance + v1 <= i32::MAX,
        Identity::SavageBlow => i32::MIN <= s.savage_blow_chance + v1 <= i32::MAX,
        Identity::Strengthen => if s.strengthen_boost == 0 {
            i32::MIN <= 100 - v1 <= i32::MAX
        } else {
            i32::MIN <= s.strengthen_boost + duration_value(v1, v2) <= i32::MAX
        },
        Identity::Weaken => if s.weaken_chance == 0 {
            g.min_3 <= 100
        } else if g.text_id == 42 {
            i32::MIN <= s.weaken_duration + duration_value(v1, v2) <= i32::MAX
        } else {
            i32::MIN <= s.weaken_chance + v1 <= i32::MAX && i32::MIN <= s.weaken_duration + v2 <= i32::MAX
        },
        Identity::Freeze => s.freeze_chance == 0 || (if g.text_id == 74 {
            i32::MIN <= s.freeze_chance + v1 <= i32::MAX
        } else {
            i32::MIN <= s.freeze_duration + duration_value(v1, v2) <= i32::MAX
        }),
        Identity::Slow => s.slow_chance == 0 || (if g.text_id == 63 {
            i32::MIN <= s.slow_chance + v1 <= i32::MAX
        } else {
            i32::MIN <= s.slow_duration + duration_value(v1, v2) <= i32::MAX
        }),
        Identity::Curse => s.curse_chance == 0 || (if g.text_id == 93 {
            i32::MIN <= s.curse_duration + duration_value(v1, v2) <= i32::MAX
        } else {
            i32::MIN <= s.curse_chance + v1 <= i32::MAX
        }),
        _ => true,
    }
}

/// Every ability that can be applied as a talent has an integer rule here,
/// but for the three whose talent scales a statistic by a percentage, and no
/// other ability has one.
pub proof fn lemma_talent_rules_cover(identity: Identity, s: Entity, v1: i32, v2: i32, g: TalentGroup)
    ensures
        talent_change(identity, s, v1, v2, g) is Some <==> (applies_as_talent(identity)
            && identity != Identity::AttackBuff && identity != Identity::HealthBuff
            && identity != Identity::TbaDown),
{
}

impl Ability {
    /// Applies this ability to an entity as a talent upgrade, with the two
    /// values the talent declares at the level being applied and the talent
    /// group that declares them.
    ///
    /// # Returns
    /// Whether the talent was applied: `false`, with the entity unchanged,
    /// when the ability grants no talent, or when its talent scales a
    /// statistic by a percentage, which this integer rule leaves to the caller.
    pub fn apply_talent(&self, stats: &mut Entity, val1: i32, val2: i32, group: &TalentGroup) -> (applied: bool)
        requires
            talent_fits(self.identity, *old(stats), val1, val2, *group),
        ensures
            match talent_change(self.identity, *old(stats), val1, val2, *group) {
                Some(e) => applied && *final(stats) == e,
                None => !applied && *final(stats) == *old(stats),
            },
    {
        match self.identity {
            Identity::TraitRed => { stats.trait_red = 1; true },
            Identity::TraitFloating => { stats.trait_floating = 1; true },
            Identity::TraitDark => { stats.trait_dark = 1; true },
            Identity::TraitMetal => { stats.trait_metal = 1; true },
            Identity::TraitAngel => { stats.trait_angel = 1; true },
            Identity::TraitAlien => { stats.trait_alien = 1; true },
            Identity::TraitZombie => { stats.trait_zombie = 1; true },
            Identity::TraitRelic => { stats.trait_relic = 1; true },
            Identity::TraitAku => { stats.trait_aku = 1; true },
            Identity::TraitTraitless => { stats.trait_traitless = 1; true },
            Identity::TraitWitch => { stats.trait_witch = 1; true },
            Identity::TraitEva => { stats.trait_eva = 1; true },
            Identity::AttackOnly => { stats.attack_only = 1; true },
            Identity::StrongAgainst => { stats.strong_against = 1; true },
            Identity::MassiveDamage => { stats.massive_damage = 1; true },
            Identity::Resist => { stats.resist = 1; true },
            Identity::IsMetal => { stats.is_metal = 1; true },
            Identity::DoubleBounty => { stats.double_bounty = 1; true },
            Identity::ZombieKiller => { stats.zombie_killer = 1; true },
            Identity::Soulstrike => { stats.soulstrike = 2; true },
            Identity::ColossusSlayer => { stats.colossus_slayer = 1; true },
            Identity::SageSlayer => { stats.sage_slayer = 1; true },
            Identity::WitchKiller => { stats.witch_killer = 1; true },
            Identity::EvaKiller => { stats.eva_killer = 1; true },
            Identity::MetalKiller => { stats.metal_killer_percent = val1; true },
            Identity::BarrierBreaker => { stats.barrier_breaker_chance = stats.barrier_breaker_chance + val1; true },
            Identity::ShieldPiercer => { stats.shield_pierce_chance = stats.shield_pierce_chance + val1; true },
            Identity::BaseDestroyer => { stats.base_destroyer = 1; true },
            Identity::WaveBlock => { stats.wave_block = 1; true },
            Identity::CounterSurge => { stats.counter_surge = 1; true },
            Identity::WaveAttack => {
                stats.wave_chance = stats.wave_chance + val1;
                stats.wave_level = val2;
                true
            },
            Identity::MiniWave => {
                stats.mini_wave_flag = 1;
                stats.wave_chance = stats.wave_chance + val1;
                stats.wave_level = val2;
                true
            },
            Identity::CriticalHit => { stats.critical_chance = stats.critical_chance + val1; true },
            Identity::Survive => { stats.survive = stats.survive + val1; true },
            Identity::Dodge => {
                stats.dodge_chance = stats.dodge_chance + val1;
                stats.dodge_duration = stats.dodge_duration + val2;
                true
            },
            Identity::Knockback => { stats.knockback_chance = stats.knockback_chance + val1; true },
            Identity::ImmuneWave => { stats.wave_immune = 1; true },
            Identity::ImmuneSurge => { stats.surge_immune = 1; true },
            Identity::ImmuneExplosion => { stats.explosion_immune = 1; true },
            Identity::ImmuneWeaken => { stats.weaken_immune = 1; true },
            Identity::ImmuneFreeze => { stats.freeze_immune = 1; true },
            Identity::ImmuneSlow => { stats.slow_immune = 1; true },
            Identity::ImmuneKnockback => { stats.knockback_immune = 1; true },
            Identity::ImmuneCurse => { stats.curse_immune = 1; true },
            Identity::ImmuneWarp => { stats.warp_immune = 1; true },
            Identity::ImmuneToxic => { stats.toxic_immune = 1; true },
            Identity::ImmuneDrain => true,
            Identity::ImmuneBossWave => { stats.boss_wave_immune = 1; true },
            Identity::ResistWeaken => true,
            Identity::ResistFreeze => true,
            Identity::ResistSlow => true,
            Identity::ResistKnockback => true,
            Identity::ResistWave => true,
            Identity::ResistWarp => true,
            Identity::ResistCurse => true,
            Identity::ResistToxic => true,
            Identity::ResistSurge => true,
            Identity::CostDown => { stats.eoc1_cost = saturating_sub(stats.eoc1_cost, val1); true },
            Identity::RecoverSpeedUp => { stats.cooldown = saturating_sub(stats.cooldown, val1); true },
            Identity::MoveSpeedUp => { stats.speed = stats.speed + val1; true },
            Identity::ImproveKnockbacks => { stats.knockbacks = stats.knockbacks + val1; true },
            Identity::BehemothSlayer => {
                stats.behemoth_slayer = 1;
                stats.behemoth_dodge_chance = if val1 > 0 { val1 } else { 5 };
                stats.behemoth_dodge_duration = if val2 > 0 { val2 } else { 30 };
                true
            },
            Identity::SurgeAttack => {
                stats.surge_chance = stats.surge_chance + val1;
                stats.surge_level = val2;
                stats.surge_spawn_anchor = (group.min_3 / 4) as i32;
                stats.surge_spawn_span = (group.min_4 / 4) as i32;
                true
            },
            Identity::MiniSurge => {
                stats.mini_surge_flag = 1;
                stats.surge_chance = stats.surge_chance + val1;
                stats.surge_level = val2;
                stats.surge_spawn_anchor = (group.min_3 / 4) as i32;
                stats.surge_spawn_span = (group.min_4 / 4) as i32;
                true
            },
            Identity::Explosion => {
                stats.explosion_chance = stats.explosion_chance + val1;
                stats.explosion_spawn_anchor = (group.min_2 / 4) as i32;
                stats.explosion_spawn_span = (group.min_3 / 4) as i32;
                true
            },
            Identity::SavageBlow => {
                stats.savage_blow_chance = stats.savage_blow_chance + val1;
                if val2 > 0 {
                    stats.savage_blow_boost = val2;
                }
                true
            },
            Identity::Strengthen => {
                if stats.strengthen_boost == 0 {
                    stats.strengthen_threshold = 100 - val1;
                    stats.strengthen_boost = val2;
                } else {
                    stats.strengthen_boost = stats.strengthen_boost + duration(val1, val2);
                }
                true
            },
            Identity::Weaken => {
                if stats.weaken_chance == 0 {
                    stats.weaken_chance = val1;
                    stats.weaken_duration = val2;
                    stats.weaken_to = (100 - group.min_3) as i32;
                } else if group.text_id == 42 {
                    stats.weaken_duration = stats.weaken_duration + duration(val1, val2);
                } else {
                    stats.weaken_chance = stats.weaken_chance + val1;
                    stats.weaken_duration = stats.weaken_duration + val2;
                }
                true
            },
            Identity::Freeze => {
                if stats.freeze_chance == 0 {
                    stats.freeze_chance = val1;
                    stats.freeze_duration = val2;
                } else if group.text_id == 74 {
                    stats.freeze_chance = stats.freeze_chance + val1;
                } else {
                    stats.freeze_duration = stats.freeze_duration + duration(val1, val2);
                }
                true
            },
            Identity::Slow => {
                if stats.slow_chance == 0 {
                    stats.slow_chance = val1;
                    stats.slow_duration = val2;
                } else if group.text_id == 63 {
                    stats.slow_chance = stats.slow_chance + val1;
                } else {
                    stats.slow_duration = stats.slow_duration + duration(val1, val2);
                }
                true
            },
            Identity::Curse => {
                if stats.curse_chance == 0 {
                    stats.curse_chance = val1;
                    stats.curse_duration = val2;
                } else if group.text_id == 93 {
                    stats.curse_duration = stats.curse_duration + duration(val1, val2);
                } else {
                    stats.curse_chance = stats.curse_chance + val1;
                }
                true
            },
            _ => false,
        }
    }

    /// Whether applying this ability's talent keeps every sum it forms within
    /// an `i32` and every difference of its group values at or above zero, so
    /// that [`Ability::apply_talent`] may be called.
    pub fn talent_fits(&self, stats: &Entity, val1: i32, val2: i32, group: &TalentGroup) -> (r: bool)
        ensures
            r == talent_fits(self.identity, *stats, val1, val2, *group),
    {
        match self.identity {
            Identity::BarrierBreaker => sum_fits(stats.barrier_breaker_chance, val1),
            Identity::ShieldPiercer => sum_fits(stats.shield_pierce_chance, val1),
            Identity::WaveAttack => sum_fits(stats.wave_chance, val1),
            Identity::MiniWave => sum_fits(stats.wave_chance, val1),
            Identity::CriticalHit => sum_fits(stats.critical_chance, val1),
            Identity::Survive => sum_fits(stats.survive, val1),
            Identity::Dodge => sum_fits(stats.dodge_chance, val1) && sum_fits(stats.dodge_duration, val2),
            Identity::Knockback => sum_fits(stats.knockback_chance, val1),
            Identity::MoveSpeedUp => sum_fits(stats.speed, val1),
            Identity::ImproveKnockbacks => sum_fits(stats.knockbacks, val1),
            Identity::SurgeAttack | Identity::MiniSurge => sum_fits(stats.surge_chance, val1),
            Identity::Explosion => sum_fits(stats.explosion_chance, val1),
            Identity::SavageBlow => sum_fits(stats.savage_blow_chance, val1),
            Identity::Strengthen => if stats.strengthen_boost == 0 {
                val1 > i32::MIN + 100
            } else {
                sum_fits(stats.strengthen_boost, duration(val1, val2))
            },
            Identity::Weaken => if stats.weaken_chance == 0 {
                group.min_3 <= 100
            } else if group.text_id == 42 {
                sum_fits(stats.weaken_duration, duration(val1, val2))
            } else {
                sum_fits(stats.weaken_chance, val1) && sum_fits(stats.weaken_duration, val2)
            },
            Identity::Freeze => stats.freeze_chance == 0 || if group.text_id == 74 {
                sum_fits(stats.freeze_chance, val1)
            } else {
                sum_fits(stats.freeze_duration, duration(val1, val2))
            },
            Identity::Slow => stats.slow_chance == 0 || if group.text_id == 63 {
                sum_fits(stats.slow_chance, val1)
            } else {
                sum_fits(stats.slow_duration, duration(val1, val2))
            },
            Identity::Curse => stats.curse_chance == 0 || if group.text_id == 93 {
                sum_fits(stats.curse_duration, duration(val1, val2))
            } else {
                sum_fits(stats.curse_chance, val1)
            },
            _ => true,
        }
    }
}

fn sum_fits(a: i32, b: i32) -> (r: bool)
    ensures
        r == (i32::MIN <= a + b <= i32::MAX),
{
    let t: i64 = a as i64 + b as i64;
    i32::MIN as i64 <= t && t <= i32::MAX as i64
}

fn duration(v1: i32, v2: i32) -> (r: i32)
    ensures
        r == duration_value(v1, v2),
{
    if v1 != 0 { v1 } else { v2 }
}

/// How each talent rewrites an entity's statistics, field by field: a flag
/// talent sets its flag, a chance or duration talent adds its value to what
/// the entity already carries, a status talent the entity lacks sets its
/// chance and duration, and every field a talent does not name is left as it
/// was (part 1).
pub proof fn lemma_talent_rewrites_1(s: Entity, v1: i32, v2: i32, g: TalentGroup)
    ensures
        talent_change(Identity::TraitRed, s, v1, v2, g) == (Some(Entity { trait_red: 1, ..s })),
        talent_change(Identity::TraitFloating, s, v1, v2, g) == (Some(Entity { trait_floating: 1, ..s })),
        talent_change(Identity::TraitDark, s, v1, v2, g) == (Some(Entity { trait_dark: 1, ..s })),
        talent_change(Identity::TraitMetal, s, v1, v2, g) == (Some(Entity { trait_metal: 1, ..s })),
        talent_change(Identity::TraitAngel, s, v1, v2, g) == (Some(Entity { trait_angel: 1, ..s })),
        talent_change(Identity::TraitAlien, s, v1, v2, g) == (Some(Entity { trait_alien: 1, ..s })),
        talent_change(Identity::TraitZombie, s, v1, v2, g) == (Some(Entity { trait_zombie: 1, ..s })),
        talent_change(Identity::TraitRelic, s, v1, v2, g) == (Some(Entity { trait_relic: 1, ..s })),
        talent_change(Identity::TraitAku, s, v1, v2, g) == (Some(Entity { trait_aku: 1, ..s })),
        talent_change(Identity::TraitTraitless, s, v1, v2, g) == (Some(Entity { trait_traitless: 1, ..s })),
        talent_change(Identity::TraitWitch, s, v1, v2, g) == (Some(Entity { trait_witch: 1, ..s })),
        talent_change(Identity::TraitEva, s, v1, v2, g) == (Some(Entity { trait_eva: 1, ..s })),
        talent_change(Identity::AttackOnly, s, v1, v2, g) == (Some(Entity { attack_only: 1, ..s })),
        talent_change(Identity::StrongAgainst, s, v1, v2, g) == (Some(Entity { strong_against: 1, ..s })),
        talent_change(Identity::MassiveDamage, s, v1, v2, g) == (Some(Entity { massive_damage: 1, ..s })),
        talent_change(Identity::Resist, s, v1, v2, g) == (Some(Entity { resist: 1, ..s })),
        talent_change(Identity::IsMetal, s, v1, v2, g) == (Some(Entity { is_metal: 1, ..s })),
        talent_change(Identity::DoubleBounty, s, v1, v2, g) == (Some(Entity { double_bounty: 1, ..s })),
        talent_change(Identity::ZombieKiller, s, v1, v2, g) == (Some(Entity { zombie_killer: 1, ..s })),
        talent_change(Identity::Soulstrike, s, v1, v2, g) == (Some(Entity { soulstrike: 2, ..s })),
        talent_change(Identity::ColossusSlayer, s, v1, v2, g) == (Some(Entity { colossus_slayer: 1, ..s })),
        talent_change(Identity::SageSlayer, s, v1, v2, g) == (Some(Entity { sage_slayer: 1, ..s })),
        talent_change(Identity::WitchKiller, s, v1, v2, g) == (Some(Entity { witch_killer: 1, ..s })),
        talent_change(Identity::EvaKiller, s, v1, v2, g) == (Some(Entity { eva_killer: 1, ..s })),
        talent_change(Identity::MetalKiller, s, v1, v2, g) == (Some(Entity { metal_killer_percent: v1, ..s })),
{
}

/// How each talent rewrites an entity's statistics, field by field: a flag
/// talent sets its flag, a chance or duration talent adds its value to what
/// the entity already carries, a status talent the entity lacks sets its
/// chance and duration, and every field a talent does not name is left as it
/// was (part 2).
pub proof fn lemma_talent_rewrites_2(s: Entity, v1: i32, v2: i32, g: TalentGroup)
    ensures
        talent_change(Identity::BarrierBreaker, s, v1, v2, g) == (Some(Entity { barrier_breaker_chance: (s.barrier_breaker_chance + v1) as i32, ..s })),
        talent_change(Identity::ShieldPiercer, s, v1, v2, g) == (Some(Entity { shield_pierce_chance: (s.shield_pierce_chance + v1) as i32, ..s })),
        talent_change(Identity::BaseDestroyer, s, v1, v2, g) == (Some(Entity { base_destroyer: 1, ..s })),
        talent_change(Identity::WaveBlock, s, v1, v2, g) == (Some(Entity { wave_block: 1, ..s })),
        talent_change(Identity::CounterSurge, s, v1, v2, g) == (Some(Entity { counter_surge: 1, ..s })),
        talent_change(Identity::WaveAttack, s, v1, v2, g) == ({
            let s1 = Entity { wave_chance: (s.wave_chance + v1) as i32, ..s };
            let s2 = Entity { wave_level: v2, ..s1 };
            Some(s2)
        }),
        talent_change(Identity::MiniWave, s, v1, v2, g) == ({
            let s1 = Entity { mini_wave_flag: 1, ..s };
            let s2 = Entity { wave_chance: (s1.wave_chance + v1) as i32, ..s1 };
            let s3 = Entity { wave_level: v2, ..s2 };
            Some(s3)
        }),
        talent_change(Identity::CriticalHit, s, v1, v2, g) == (Some(Entity { critical_chance: (s.critical_chance + v1) as i32, ..s })),
        talent_change(Identity::Survive, s, v1, v2, g) == (Some(Entity { survive: (s.survive + v1) as i32, ..s })),
        talent_change(Identity::Dodge, s, v1, v2, g) == ({
            let s1 = Entity { dodge_chance: (s.dodge_chance + v1) as i32, ..s };
            let s2 = Entity { dodge_duration: (s1.dodge_duration + v2) as i32, ..s1 };
            Some(s2)
        }),
        talent_change(Identity::Knockback, s, v1, v2, g) == (Some(Entity { knockback_chance: (s.knockback_chance + v1) as i32, ..s })),
        talent_change(Identity::ImmuneWave, s, v1, v2, g) == (Some(Entity { wave_immune: 1, ..s })),
        talent_change(Identity::ImmuneSurge, s, v1, v2, g) == (Some(Entity { surge_immune: 1, ..s })),
        talent_change(Identity::ImmuneExplosion, s, v1, v2, g) == (Some(Entity { explosion_immune: 1, ..s })),
        talent_change(Identity::ImmuneWeaken, s, v1, v2, g) == (Some(Entity { weaken_immune: 1, ..s })),
        talent_change(Identity::ImmuneFreeze, s, v1, v2, g) == (Some(Entity { freeze_immune: 1, ..s })),
        talent_change(Identity::ImmuneSlow, s, v1, v2, g) == (Some(Entity { slow_immune: 1, ..s })),
        talent_change(Identity::ImmuneKnockback, s, v1, v2, g) == (Some(Entity { knockback_immune: 1, ..s })),
        talent_change(Identity::ImmuneCurse, s, v1, v2, g) == (Some(Entity { curse_immune: 1, ..s })),
        talent_change(Identity::ImmuneWarp, s, v1, v2, g) == (Some(Entity { warp_immune: 1, ..s })),
        talent_change(Identity::ImmuneToxic, s, v1, v2, g) == (Some(Entity { toxic_immune: 1, ..s })),
        talent_change(Identity::ImmuneDrain, s, v1, v2, g) == (Some(s)),
        talent_change(Identity::ImmuneBossWave, s, v1, v2, g) == (Some(Entity { boss_wave_immune: 1, ..s })),
        talent_change(Identity::ResistWeaken, s, v1, v2, g) == (Some(s)),
        talent_change(Identity::ResistFreeze, s, v1, v2, g) == (Some(s)),
{
}

/// How each talent rewrites an entity's statistics, field by field: a flag
/// talent sets its flag, a chance or duration talent adds its value to what
/// the entity already carries, a status talent the entity lacks sets its
/// chance and duration, and every field a talent does not name is left as it
/// was (part 3).
pub proof fn lemma_talent_rewrites_3(s: Entity, v1: i32, v2: i32, g: TalentGroup)
    ensures
        talent_change(Identity::ResistSlow, s, v1, v2, g) == (Some(s)),
        talent_change(Identity::ResistKnockback, s, v1, v2, g) == (Some(s)),
        talent_change(Identity::ResistWave, s, v1, v2, g) == (Some(s)),
        talent_change(Identity::ResistWarp, s, v1, v2, g) == (Some(s)),
        talent_change(Identity::ResistCurse, s, v1, v2, g) == (Some(s)),
        talent_change(Identity::ResistToxic, s, v1, v2, g) == (Some(s)),
        talent_change(Identity::ResistSurge, s, v1, v2, g) == (Some(s)),
        talent_change(Identity::CostDown, s, v1, v2, g) == (Some(Entity { eoc1_cost: saturating_sub_i32(s.eoc1_cost, v1), ..s })),
        talent_change(Identity::RecoverSpeedUp, s, v1, v2, g) == (Some(Entity { cooldown: saturating_sub_i32(s.cooldown, v1), ..s })),
        talent_change(Identity::MoveSpeedUp, s, v1, v2, g) == (Some(Entity { speed: (s.speed + v1) as i32, ..s })),
        talent_change(Identity::ImproveKnockbacks, s, v1, v2, g) == (Some(Entity { knockbacks: (s.knockbacks + v1) as i32, ..s })),
        talent_change(Identity::BehemothSlayer, s, v1, v2, g) == (Some(Entity {
            behemoth_slayer: 1,
            behemoth_dodge_chance: if v1 > 0 { v1 } else { 5 },
            behemoth_dodge_duration: if v2 > 0 { v2 } else { 30 },
            ..s
        })),
        talent_change(Identity::SurgeAttack, s, v1, v2, g) == (Some(Entity {
            surge_chance: (s.surge_chance + v1) as i32,
            surge_level: v2,
            surge_spawn_anchor: (g.min_3 / 4) as i32,
            surge_spawn_span: (g.min_4 / 4) as i32,
            ..s
        })),
        talent_change(Identity::MiniSurge, s, v1, v2, g) == (Some(Entity {
            mini_surge_flag: 1,
            surge_chance: (s.surge_chance + v1) as i32,
            surge_level: v2,
            surge_spawn_anchor: (g.min_3 / 4) as i32,
            surge_spawn_span: (g.min_4 / 4) as i32,
            ..s
        })),
        talent_change(Identity::Explosion, s, v1, v2, g) == (Some(Entity {
            explosion_chance: (s.explosion_chance + v1) as i32,
            explosion_spawn_anchor: (g.min_2 / 4) as i32,
            explosion_spawn_span: (g.min_3 / 4) as i32,
            ..s
        })),
        talent_change(Identity::SavageBlow, s, v1, v2, g) == (Some(Entity {
            savage_blow_chance: (s.savage_blow_chance + v1) as i32,
            savage_blow_boost: if v2 > 0 { v2 } else { s.savage_blow_boost },
            ..s
        })),
        talent_change(Identity::Strengthen, s, v1, v2, g) == (if s.strengthen_boost == 0 {
            Some(Entity { strengthen_threshold: (100 - v1) as i32, strengthen_boost: v2, ..s })
        } else {
            Some(Entity { strengthen_boost: (s.strengthen_boost + duration_value(v1, v2)) as i32, ..s })
        }),
        talent_change(Identity::Weaken, s, v1, v2, g) == (if s.weaken_chance == 0 {
            Some(Entity { weaken_chance: v1, weaken_duration: v2, weaken_to: (100 - g.min_3) as i32, ..s })
        } else if g.text_id == 42 {
            Some(Entity { weaken_duration: (s.weaken_duration + duration_value(v1, v2)) as i32, ..s })
        } else {
            Some(Entity {
                weaken_chance: (s.weaken_chance + v1) as i32,
                weaken_duration: (s.weaken_duration + v2) as i32,
                ..s
            })
        }),
        talent_change(Identity::Freeze, s, v1, v2, g) == (if s.freeze_chance == 0 {
            Some(Entity { freeze_chance: v1, freeze_duration: v2, ..s })
        } else if g.text_id == 74 {
            Some(Entity { freeze_chance: (s.freeze_chance + v1) as i32, ..s })
        } else {
            Some(Entity { freeze_duration: (s.freeze_duration + duration_value(v1, v2)) as i32, ..s })
        }),
        talent_change(Identity::Slow, s, v1, v2, g) == (if s.slow_chance == 0 {
            Some(Entity { slow_chance: v1, slow_duration: v2, ..s })
        } else if g.text_id == 63 {
            Some(Entity { slow_chance: (s.slow_chance + v1) as i32, ..s })
        } else {
            Some(Entity { slow_duration: (s.slow_duration + duration_value(v1, v2)) as i32, ..s })
        }),
        talent_change(Identity::Curse, s, v1, v2, g) == (if s.curse_chance == 0 {
            Some(Entity { curse_chance: v1, curse_duration: v2, ..s })
        } else if g.text_id == 93 {
            Some(Entity { curse_duration: (s.curse_duration + duration_value(v1, v2)) as i32, ..s })
        } else {
            Some(Entity { curse_chance: (s.curse_chance + v1) as i32, ..s })
        }),
{
}

/// The talents whose rule scales a statistic by a percentage, and the
/// abilities that grant no talent, leave no integer rule here.
pub proof fn lemma_talent_rewrites_none(s: Entity, v1: i32, v2: i32, g: TalentGroup)
    ensures
        talent_change(Identity::AttackBuff, s, v1, v2, g) is None,
        talent_change(Identity::HealthBuff, s, v1, v2, g) is None,
        talent_change(Identity::TbaDown, s, v1, v2, g) is None,
        talent_change(Identity::SingleAttack, s, v1, v2, g) is None,
{
}

} // verus!
