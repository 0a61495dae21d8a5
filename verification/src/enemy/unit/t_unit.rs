//! Parsing of the shared enemy combat statistic table.
//!
//! The engine stores every enemy's statistics in a single table carrying two
//! header lines, with one row per enemy in identifier order.

use vstd::prelude::*;

use crate::combat::entity::{column_i32, read_i32, row_columns, split_row, trailing_unknowns, unknown_trailing,
    Entity, EntityError, Faction};
use crate::common::columns::{column_value, lemma_i32_column, Column, Scale};
use crate::common::file::{open_table, resolve_spec, table_lines, Separator};
use crate::text::{drop_n, scrubbed, skip_lines, views};

verus! {

/// The number of header lines the table opens with.
pub const HEADER_LINES: usize = 2;

/// The fewest columns a row needs to be read as combat data.
pub const MIN_COLUMNS: usize = 10;

/// The first column past the layout this parser understands.
pub const KNOWN_COLUMNS: usize = 113;

/// The column mapping this parser applies, in the order it applies it.
///
/// The Conjure identifier has no column in this layout and is always the
/// absent sentinel of negative one.
pub open spec fn enemy_layout() -> Seq<Column> {
    seq![
        Column { field: "hitpoints", index: 0, scale: Scale::Raw, default: "0" },
        Column { field: "knockbacks", index: 1, scale: Scale::Raw, default: "0" },
        Column { field: "speed", index: 2, scale: Scale::Raw, default: "0" },
        Column { field: "attack_1", index: 3, scale: Scale::Raw, default: "0" },
        Column { field: "attack_cooldown", index: 4, scale: Scale::Double, default: "0" },
        Column { field: "standing_range", index: 5, scale: Scale::Raw, default: "0" },
        Column { field: "cash_drop", index: 6, scale: Scale::Raw, default: "0" },
        Column { field: "hitbox_position", index: 7, scale: Scale::Raw, default: "0" },
        Column { field: "hitbox_width", index: 8, scale: Scale::Raw, default: "0" },
        Column { field: "legacy_strong_against", index: 9, scale: Scale::Raw, default: "0" },
        Column { field: "trait_red", index: 10, scale: Scale::Raw, default: "0" },
        Column { field: "area_attack", index: 11, scale: Scale::Raw, default: "0" },
        Column { field: "time_until_attack_1", index: 12, scale: Scale::Raw, default: "0" },
        Column { field: "trait_floating", index: 13, scale: Scale::Raw, default: "0" },
        Column { field: "trait_dark", index: 14, scale: Scale::Raw, default: "0" },
        Column { field: "trait_metal", index: 15, scale: Scale::Raw, default: "0" },
        Column { field: "trait_traitless", index: 16, scale: Scale::Raw, default: "0" },
        Column { field: "trait_angel", index: 17, scale: Scale::Raw, default: "0" },
        Column { field: "trait_alien", index: 18, scale: Scale::Raw, default: "0" },
        Column { field: "trait_zombie", index: 19, scale: Scale::Raw, default: "0" },
        Column { field: "knockback_chance", index: 20, scale: Scale::Raw, default: "0" },
        Column { field: "freeze_chance", index: 21, scale: Scale::Raw, default: "0" },
        Column { field: "freeze_duration", index: 22, scale: Scale::Raw, default: "0" },
        Column { field: "slow_chance", index: 23, scale: Scale::Raw, default: "0" },
        Column { field: "slow_duration", index: 24, scale: Scale::Raw, default: "0" },
        Column { field: "critical_chance", index: 25, scale: Scale::Raw, default: "0" },
        Column { field: "base_destroyer", index: 26, scale: Scale::Raw, default: "0" },
        Column { field: "wave_chance", index: 27, scale: Scale::Raw, default: "0" },
        Column { field: "wave_level", index: 28, scale: Scale::Raw, default: "0" },
        Column { field: "weaken_chance", index: 29, scale: Scale::Raw, default: "0" },
        Column { field: "weaken_duration", index: 30, scale: Scale::Raw, default: "0" },
        Column { field: "weaken_to", index: 31, scale: Scale::Raw, default: "0" },
        Column { field: "strengthen_threshold", index: 32, scale: Scale::Raw, default: "0" },
        Column { field: "strengthen_boost", index: 33, scale: Scale::Raw, default: "0" },
        Column { field: "survive", index: 34, scale: Scale::Raw, default: "0" },
        Column { field: "long_distance_1_anchor", index: 35, scale: Scale::Raw, default: "0" },
        Column { field: "long_distance_1_span", index: 36, scale: Scale::Raw, default: "0" },
        Column { field: "wave_immune", index: 37, scale: Scale::Raw, default: "0" },
        Column { field: "wave_block", index: 38, scale: Scale::Raw, default: "0" },
        Column { field: "knockback_immune", index: 39, scale: Scale::Raw, default: "0" },
        Column { field: "freeze_immune", index: 40, scale: Scale::Raw, default: "0" },
        Column { field: "slow_immune", index: 41, scale: Scale::Raw, default: "0" },
        Column { field: "weaken_immune", index: 42, scale: Scale::Raw, default: "0" },
        Column { field: "burrow_amount", index: 43, scale: Scale::Raw, default: "0" },
        Column { field: "burrow_distance", index: 44, scale: Scale::Quarter, default: "0" },
        Column { field: "revive_count", index: 45, scale: Scale::Raw, default: "0" },
        Column { field: "revive_time", index: 46, scale: Scale::Raw, default: "0" },
        Column { field: "revive_hp", index: 47, scale: Scale::Raw, default: "0" },
        Column { field: "trait_witch", index: 48, scale: Scale::Raw, default: "0" },
        Column { field: "trait_dojo", index: 49, scale: Scale::Raw, default: "0" },
        Column { field: "attack_count_total", index: 50, scale: Scale::Raw, default: "-1" },
        Column { field: "time_before_death", index: 51, scale: Scale::Raw, default: "-1" },
        Column { field: "attack_count_state", index: 52, scale: Scale::Raw, default: "0" },
        Column { field: "spawn_animation_type", index: 53, scale: Scale::Raw, default: "-1" },
        Column { field: "soul_animation_type", index: 54, scale: Scale::Raw, default: "-1" },
        Column { field: "attack_2", index: 55, scale: Scale::Raw, default: "0" },
        Column { field: "attack_3", index: 56, scale: Scale::Raw, default: "0" },
        Column { field: "time_until_attack_2", index: 57, scale: Scale::Raw, default: "0" },
        Column { field: "time_until_attack_3", index: 58, scale: Scale::Raw, default: "0" },
        Column { field: "attack_1_abilities", index: 59, scale: Scale::Raw, default: "0" },
        Column { field: "attack_2_abilities", index: 60, scale: Scale::Raw, default: "0" },
        Column { field: "attack_3_abilities", index: 61, scale: Scale::Raw, default: "0" },
        Column { field: "spawn_animation_flag", index: 62, scale: Scale::Raw, default: "0" },
        Column { field: "use_gudetama_soul", index: 63, scale: Scale::Raw, default: "0" },
        Column { field: "barrier_hitpoints", index: 64, scale: Scale::Raw, default: "0" },
        Column { field: "warp_chance", index: 65, scale: Scale::Raw, default: "0" },
        Column { field: "warp_duration", index: 66, scale: Scale::Raw, default: "0" },
        Column { field: "warp_distance_minimum", index: 67, scale: Scale::Quarter, default: "0" },
        Column { field: "warp_distance_maximum", index: 68, scale: Scale::Quarter, default: "0" },
        Column { field: "trait_starred_alien", index: 69, scale: Scale::Raw, default: "0" },
        Column { field: "warp_immune", index: 70, scale: Scale::Raw, default: "0" },
        Column { field: "trait_eva", index: 71, scale: Scale::Raw, default: "0" },
        Column { field: "trait_relic", index: 72, scale: Scale::Raw, default: "0" },
        Column { field: "curse_chance", index: 73, scale: Scale::Raw, default: "0" },
        Column { field: "curse_duration", index: 74, scale: Scale::Raw, default: "0" },
        Column { field: "savage_blow_chance", index: 75, scale: Scale::Raw, default: "0" },
        Column { field: "savage_blow_boost", index: 76, scale: Scale::Raw, default: "0" },
        Column { field: "dodge_chance", index: 77, scale: Scale::Raw, default: "0" },
        Column { field: "dodge_duration", index: 78, scale: Scale::Raw, default: "0" },
        Column { field: "toxic_chance", index: 79, scale: Scale::Raw, default: "0" },
        Column { field: "toxic_damage", index: 80, scale: Scale::Raw, default: "0" },
        Column { field: "surge_chance", index: 81, scale: Scale::Raw, default: "0" },
        Column { field: "surge_spawn_anchor", index: 82, scale: Scale::Quarter, default: "0" },
        Column { field: "surge_spawn_span", index: 83, scale: Scale::Quarter, default: "0" },
        Column { field: "surge_level", index: 84, scale: Scale::Raw, default: "0" },
        Column { field: "surge_immune", index: 85, scale: Scale::Raw, default: "0" },
        Column { field: "mini_wave_flag", index: 86, scale: Scale::Raw, default: "0" },
        Column { field: "shield_hitpoints", index: 87, scale: Scale::Raw, default: "0" },
        Column { field: "shield_regen", index: 88, scale: Scale::Raw, default: "0" },
        Column { field: "death_surge_chance", index: 89, scale: Scale::Raw, default: "0" },
        Column { field: "death_surge_spawn_anchor", index: 90, scale: Scale::Quarter, default: "0" },
        Column { field: "death_surge_spawn_span", index: 91, scale: Scale::Quarter, default: "0" },
        Column { field: "death_surge_level", index: 92, scale: Scale::Raw, default: "0" },
        Column { field: "trait_aku", index: 93, scale: Scale::Raw, default: "0" },
        Column { field: "trait_colossus", index: 94, scale: Scale::Raw, default: "0" },
        Column { field: "long_distance_2_flag", index: 95, scale: Scale::Raw, default: "0" },
        Column { field: "long_distance_2_anchor", index: 96, scale: Scale::Raw, default: "0" },
        Column { field: "long_distance_2_span", index: 97, scale: Scale::Raw, default: "0" },
        Column { field: "long_distance_3_flag", index: 98, scale: Scale::Raw, default: "0" },
        Column { field: "long_distance_3_anchor", index: 99, scale: Scale::Raw, default: "0" },
        Column { field: "long_distance_3_span", index: 100, scale: Scale::Raw, default: "0" },
        Column { field: "trait_behemoth", index: 101, scale: Scale::Raw, default: "0" },
        Column { field: "mini_surge_flag", index: 102, scale: Scale::Raw, default: "0" },
        Column { field: "counter_surge", index: 103, scale: Scale::Raw, default: "0" },
        Column { field: "trait_sage", index: 104, scale: Scale::Raw, default: "0" },
        Column { field: "curse_immune", index: 105, scale: Scale::Raw, default: "0" },
        Column { field: "explosion_chance", index: 106, scale: Scale::Raw, default: "0" },
        Column { field: "explosion_spawn_anchor", index: 107, scale: Scale::Quarter, default: "0" },
        Column { field: "explosion_spawn_span", index: 108, scale: Scale::Quarter, default: "0" },
        Column { field: "explosion_immune", index: 109, scale: Scale::Raw, default: "0" },
        Column { field: "trait_kaijin", index: 110, scale: Scale::Raw, default: "0" },
        Column { field: "drain_chance", index: 111, scale: Scale::Raw, default: "0" },
        Column { field: "drain_percent", index: 112, scale: Scale::Raw, default: "0" }
    ]
}

/// The enemy layout's columns, in the order the parser applies them: the
/// field each populates, its position in the row, the conversion applied to
/// it and the value it falls back to.
pub proof fn lemma_layout_positions()
    ensures
        enemy_layout().len() == 113,
        enemy_layout()[0] == (Column { field: "hitpoints", index: 0, scale: Scale::Raw, default: "0" }),
        enemy_layout()[1] == (Column { field: "knockbacks", index: 1, scale: Scale::Raw, default: "0" }),
        enemy_layout()[2] == (Column { field: "speed", index: 2, scale: Scale::Raw, default: "0" }),
        enemy_layout()[3] == (Column { field: "attack_1", index: 3, scale: Scale::Raw, default: "0" }),
        enemy_layout()[4] == (Column { field: "attack_cooldown", index: 4, scale: Scale::Double, default: "0" }),
        enemy_layout()[5] == (Column { field: "standing_range", index: 5, scale: Scale::Raw, default: "0" }),
        enemy_layout()[6] == (Column { field: "cash_drop", index: 6, scale: Scale::Raw, default: "0" }),
        enemy_layout()[7] == (Column { field: "hitbox_position", index: 7, scale: Scale::Raw, default: "0" }),
        enemy_layout()[8] == (Column { field: "hitbox_width", index: 8, scale: Scale::Raw, default: "0" }),
        enemy_layout()[9] == (Column { field: "legacy_strong_against", index: 9, scale: Scale::Raw, default: "0" }),
        enemy_layout()[10] == (Column { field: "trait_red", index: 10, scale: Scale::Raw, default: "0" }),
        enemy_layout()[11] == (Column { field: "area_attack", index: 11, scale: Scale::Raw, default: "0" }),
        enemy_layout()[12] == (Column { field: "time_until_attack_1", index: 12, scale: Scale::Raw, default: "0" }),
        enemy_layout()[13] == (Column { field: "trait_floating", index: 13, scale: Scale::Raw, default: "0" }),
        enemy_layout()[14] == (Column { field: "trait_dark", index: 14, scale: Scale::Raw, default: "0" }),
        enemy_layout()[15] == (Column { field: "trait_metal", index: 15, scale: Scale::Raw, default: "0" }),
        enemy_layout()[16] == (Column { field: "trait_traitless", index: 16, scale: Scale::Raw, default: "0" }),
        enemy_layout()[17] == (Column { field: "trait_angel", index: 17, scale: Scale::Raw, default: "0" }),
        enemy_layout()[18] == (Column { field: "trait_alien", index: 18, scale: Scale::Raw, default: "0" }),
        enemy_layout()[19] == (Column { field: "trait_zombie", index: 19, scale: Scale::Raw, default: "0" }),
        enemy_layout()[20] == (Column { field: "knockback_chance", index: 20, scale: Scale::Raw, default: "0" }),
        enemy_layout()[21] == (Column { field: "freeze_chance", index: 21, scale: Scale::Raw, default: "0" }),
        enemy_layout()[22] == (Column { field: "freeze_duration", index: 22, scale: Scale::Raw, default: "0" }),
        enemy_layout()[23] == (Column { field: "slow_chance", index: 23, scale: Scale::Raw, default: "0" }),
        enemy_layout()[24] == (Column { field: "slow_duration", index: 24, scale: Scale::Raw, default: "0" }),
        enemy_layout()[25] == (Column { field: "critical_chance", index: 25, scale: Scale::Raw, default: "0" }),
        enemy_layout()[26] == (Column { field: "base_destroyer", index: 26, scale: Scale::Raw, default: "0" }),
        enemy_layout()[27] == (Column { field: "wave_chance", index: 27, scale: Scale::Raw, default: "0" }),
        enemy_layout()[28] == (Column { field: "wave_level", index: 28, scale: Scale::Raw, default: "0" }),
        enemy_layout()[29] == (Column { field: "weaken_chance", index: 29, scale: Scale::Raw, default: "0" }),
        enemy_layout()[30] == (Column { field: "weaken_duration", index: 30, scale: Scale::Raw, default: "0" }),
        enemy_layout()[31] == (Column { field: "weaken_to", index: 31, scale: Scale::Raw, default: "0" }),
        enemy_layout()[32] == (Column { field: "strengthen_threshold", index: 32, scale: Scale::Raw, default: "0" }),
        enemy_layout()[33] == (Column { field: "strengthen_boost", index: 33, scale: Scale::Raw, default: "0" }),
        enemy_layout()[34] == (Column { field: "survive", index: 34, scale: Scale::Raw, default: "0" }),
        enemy_layout()[35] == (Column { field: "long_distance_1_anchor", index: 35, scale: Scale::Raw, default: "0" }),
        enemy_layout()[36] == (Column { field: "long_distance_1_span", index: 36, scale: Scale::Raw, default: "0" }),
        enemy_layout()[37] == (Column { field: "wave_immune", index: 37, scale: Scale::Raw, default: "0" }),
        enemy_layout()[38] == (Column { field: "wave_block", index: 38, scale: Scale::Raw, default: "0" }),
        enemy_layout()[39] == (Column { field: "knockback_immune", index: 39, scale: Scale::Raw, default: "0" }),
        enemy_layout()[40] == (Column { field: "freeze_immune", index: 40, scale: Scale::Raw, default: "0" }),
        enemy_layout()[41] == (Column { field: "slow_immune", index: 41, scale: Scale::Raw, default: "0" }),
        enemy_layout()[42] == (Column { field: "weaken_immune", index: 42, scale: Scale::Raw, default: "0" }),
        enemy_layout()[43] == (Column { field: "burrow_amount", index: 43, scale: Scale::Raw, default: "0" }),
        enemy_layout()[44] == (Column { field: "burrow_distance", index: 44, scale: Scale::Quarter, default: "0" }),
        enemy_layout()[45] == (Column { field: "revive_count", index: 45, scale: Scale::Raw, default: "0" }),
        enemy_layout()[46] == (Column { field: "revive_time", index: 46, scale: Scale::Raw, default: "0" }),
        enemy_layout()[47] == (Column { field: "revive_hp", index: 47, scale: Scale::Raw, default: "0" }),
        enemy_layout()[48] == (Column { field: "trait_witch", index: 48, scale: Scale::Raw, default: "0" }),
        enemy_layout()[49] == (Column { field: "trait_dojo", index: 49, scale: Scale::Raw, default: "0" }),
        enemy_layout()[50] == (Column { field: "attack_count_total", index: 50, scale: Scale::Raw, default: "-1" }),
        enemy_layout()[51] == (Column { field: "time_before_death", index: 51, scale: Scale::Raw, default: "-1" }),
        enemy_layout()[52] == (Column { field: "attack_count_state", index: 52, scale: Scale::Raw, default: "0" }),
        enemy_layout()[53] == (Column { field: "spawn_animation_type", index: 53, scale: Scale::Raw, default: "-1" }),
        enemy_layout()[54] == (Column { field: "soul_animation_type", index: 54, scale: Scale::Raw, default: "-1" }),
        enemy_layout()[55] == (Column { field: "attack_2", index: 55, scale: Scale::Raw, default: "0" }),
        enemy_layout()[56] == (Column { field: "attack_3", index: 56, scale: Scale::Raw, default: "0" }),
        enemy_layout()[57] == (Column { field: "time_until_attack_2", index: 57, scale: Scale::Raw, default: "0" }),
        enemy_layout()[58] == (Column { field: "time_until_attack_3", index: 58, scale: Scale::Raw, default: "0" }),
        enemy_layout()[59] == (Column { field: "attack_1_abilities", index: 59, scale: Scale::Raw, default: "0" }),
        enemy_layout()[60] == (Column { field: "attack_2_abilities", index: 60, scale: Scale::Raw, default: "0" }),
        enemy_layout()[61] == (Column { field: "attack_3_abilities", index: 61, scale: Scale::Raw, default: "0" }),
        enemy_layout()[62] == (Column { field: "spawn_animation_flag", index: 62, scale: Scale::Raw, default: "0" }),
        enemy_layout()[63] == (Column { field: "use_gudetama_soul", index: 63, scale: Scale::Raw, default: "0" }),
        enemy_layout()[64] == (Column { field: "barrier_hitpoints", index: 64, scale: Scale::Raw, default: "0" }),
        enemy_layout()[65] == (Column { field: "warp_chance", index: 65, scale: Scale::Raw, default: "0" }),
        enemy_layout()[66] == (Column { field: "warp_duration", index: 66, scale: Scale::Raw, default: "0" }),
        enemy_layout()[67] == (Column { field: "warp_distance_minimum", index: 67, scale: Scale::Quarter, default: "0" }),
        enemy_layout()[68] == (Column { field: "warp_distance_maximum", index: 68, scale: Scale::Quarter, default: "0" }),
        enemy_layout()[69] == (Column { field: "trait_starred_alien", index: 69, scale: Scale::Raw, default: "0" }),
        enemy_layout()[70] == (Column { field: "warp_immune", index: 70, scale: Scale::Raw, default: "0" }),
        enemy_layout()[71] == (Column { field: "trait_eva", index: 71, scale: Scale::Raw, default: "0" }),
        enemy_layout()[72] == (Column { field: "trait_relic", index: 72, scale: Scale::Raw, default: "0" }),
        enemy_layout()[73] == (Column { field: "curse_chance", index: 73, scale: Scale::Raw, default: "0" }),
        enemy_layout()[74] == (Column { field: "curse_duration", index: 74, scale: Scale::Raw, default: "0" }),
        enemy_layout()[75] == (Column { field: "savage_blow_chance", index: 75, scale: Scale::Raw, default: "0" }),
        enemy_layout()[76] == (Column { field: "savage_blow_boost", index: 76, scale: Scale::Raw, default: "0" }),
        enemy_layout()[77] == (Column { field: "dodge_chance", index: 77, scale: Scale::Raw, default: "0" }),
        enemy_layout()[78] == (Column { field: "dodge_duration", index: 78, scale: Scale::Raw, default: "0" }),
        enemy_layout()[79] == (Column { field: "toxic_chance", index: 79, scale: Scale::Raw, default: "0" }),
        enemy_layout()[80] == (Column { field: "toxic_damage", index: 80, scale: Scale::Raw, default: "0" }),
        enemy_layout()[81] == (Column { field: "surge_chance", index: 81, scale: Scale::Raw, default: "0" }),
        enemy_layout()[82] == (Column { field: "surge_spawn_anchor", index: 82, scale: Scale::Quarter, default: "0" }),
        enemy_layout()[83] == (Column { field: "surge_spawn_span", index: 83, scale: Scale::Quarter, default: "0" }),
        enemy_layout()[84] == (Column { field: "surge_level", index: 84, scale: Scale::Raw, default: "0" }),
        enemy_layout()[85] == (Column { field: "surge_immune", index: 85, scale: Scale::Raw, default: "0" }),
        enemy_layout()[86] == (Column { field: "mini_wave_flag", index: 86, scale: Scale::Raw, default: "0" }),
        enemy_layout()[87] == (Column { field: "shield_hitpoints", index: 87, scale: Scale::Raw, default: "0" }),
        enemy_layout()[88] == (Column { field: "shield_regen", index: 88, scale: Scale::Raw, default: "0" }),
        enemy_layout()[89] == (Column { field: "death_surge_chance", index: 89, scale: Scale::Raw, default: "0" }),
        enemy_layout()[90] == (Column { field: "death_surge_spawn_anchor", index: 90, scale: Scale::Quarter, default: "0" }),
        enemy_layout()[91] == (Column { field: "death_surge_spawn_span", index: 91, scale: Scale::Quarter, default: "0" }),
        enemy_layout()[92] == (Column { field: "death_surge_level", index: 92, scale: Scale::Raw, default: "0" }),
        enemy_layout()[93] == (Column { field: "trait_aku", index: 93, scale: Scale::Raw, default: "0" }),
        enemy_layout()[94] == (Column { field: "trait_colossus", index: 94, scale: Scale::Raw, default: "0" }),
        enemy_layout()[95] == (Column { field: "long_distance_2_flag", index: 95, scale: Scale::Raw, default: "0" }),
        enemy_layout()[96] == (Column { field: "long_distance_2_anchor", index: 96, scale: Scale::Raw, default: "0" }),
        enemy_layout()[97] == (Column { field: "long_distance_2_span", index: 97, scale: Scale::Raw, default: "0" }),
        enemy_layout()[98] == (Column { field: "long_distance_3_flag", index: 98, scale: Scale::Raw, default: "0" }),
        enemy_layout()[99] == (Column { field: "long_distance_3_anchor", index: 99, scale: Scale::Raw, default: "0" }),
        enemy_layout()[100] == (Column { field: "long_distance_3_span", index: 100, scale: Scale::Raw, default: "0" }),
        enemy_layout()[101] == (Column { field: "trait_behemoth", index: 101, scale: Scale::Raw, default: "0" }),
        enemy_layout()[102] == (Column { field: "mini_surge_flag", index: 102, scale: Scale::Raw, default: "0" }),
        enemy_layout()[103] == (Column { field: "counter_surge", index: 103, scale: Scale::Raw, default: "0" }),
        enemy_layout()[104] == (Column { field: "trait_sage", index: 104, scale: Scale::Raw, default: "0" }),
        enemy_layout()[105] == (Column { field: "curse_immune", index: 105, scale: Scale::Raw, default: "0" }),
        enemy_layout()[106] == (Column { field: "explosion_chance", index: 106, scale: Scale::Raw, default: "0" }),
        enemy_layout()[107] == (Column { field: "explosion_spawn_anchor", index: 107, scale: Scale::Quarter, default: "0" }),
        enemy_layout()[108] == (Column { field: "explosion_spawn_span", index: 108, scale: Scale::Quarter, default: "0" }),
        enemy_layout()[109] == (Column { field: "explosion_immune", index: 109, scale: Scale::Raw, default: "0" }),
        enemy_layout()[110] == (Column { field: "trait_kaijin", index: 110, scale: Scale::Raw, default: "0" }),
        enemy_layout()[111] == (Column { field: "drain_chance", index: 111, scale: Scale::Raw, default: "0" }),
        enemy_layout()[112] == (Column { field: "drain_percent", index: 112, scale: Scale::Raw, default: "0" }),
{
}

/// The column mapping this parser applies, in the order it applies it.
///
/// Published so a consumer can read the layout of a row from the parser's own
/// table instead of restating it.
pub fn columns() -> (r: Vec<Column>)
    ensures
        r@ == enemy_layout(),
{
    let r = vec![
        Column { field: "hitpoints", index: 0, scale: Scale::Raw, default: "0" },
        Column { field: "knockbacks", index: 1, scale: Scale::Raw, default: "0" },
        Column { field: "speed", index: 2, scale: Scale::Raw, default: "0" },
        Column { field: "attack_1", index: 3, scale: Scale::Raw, default: "0" },
        Column { field: "attack_cooldown", index: 4, scale: Scale::Double, default: "0" },
        Column { field: "standing_range", index: 5, scale: Scale::Raw, default: "0" },
        Column { field: "cash_drop", index: 6, scale: Scale::Raw, default: "0" },
        Column { field: "hitbox_position", index: 7, scale: Scale::Raw, default: "0" },
        Column { field: "hitbox_width", index: 8, scale: Scale::Raw, default: "0" },
        Column { field: "legacy_strong_against", index: 9, scale: Scale::Raw, default: "0" },
        Column { field: "trait_red", index: 10, scale: Scale::Raw, default: "0" },
        Column { field: "area_attack", index: 11, scale: Scale::Raw, default: "0" },
        Column { field: "time_until_attack_1", index: 12, scale: Scale::Raw, default: "0" },
        Column { field: "trait_floating", index: 13, scale: Scale::Raw, default: "0" },
        Column { field: "trait_dark", index: 14, scale: Scale::Raw, default: "0" },
        Column { field: "trait_metal", index: 15, scale: Scale::Raw, default: "0" },
        Column { field: "trait_traitless", index: 16, scale: Scale::Raw, default: "0" },
        Column { field: "trait_angel", index: 17, scale: Scale::Raw, default: "0" },
        Column { field: "trait_alien", index: 18, scale: Scale::Raw, default: "0" },
        Column { field: "trait_zombie", index: 19, scale: Scale::Raw, default: "0" },
        Column { field: "knockback_chance", index: 20, scale: Scale::Raw, default: "0" },
        Column { field: "freeze_chance", index: 21, scale: Scale::Raw, default: "0" },
        Column { field: "freeze_duration", index: 22, scale: Scale::Raw, default: "0" },
        Column { field: "slow_chance", index: 23, scale: Scale::Raw, default: "0" },
        Column { field: "slow_duration", index: 24, scale: Scale::Raw, default: "0" },
        Column { field: "critical_chance", index: 25, scale: Scale::Raw, default: "0" },
        Column { field: "base_destroyer", index: 26, scale: Scale::Raw, default: "0" },
        Column { field: "wave_chance", index: 27, scale: Scale::Raw, default: "0" },
        Column { field: "wave_level", index: 28, scale: Scale::Raw, default: "0" },
        Column { field: "weaken_chance", index: 29, scale: Scale::Raw, default: "0" },
        Column { field: "weaken_duration", index: 30, scale: Scale::Raw, default: "0" },
        Column { field: "weaken_to", index: 31, scale: Scale::Raw, default: "0" },
        Column { field: "strengthen_threshold", index: 32, scale: Scale::Raw, default: "0" },
        Column { field: "strengthen_boost", index: 33, scale: Scale::Raw, default: "0" },
        Column { field: "survive", index: 34, scale: Scale::Raw, default: "0" },
        Column { field: "long_distance_1_anchor", index: 35, scale: Scale::Raw, default: "0" },
        Column { field: "long_distance_1_span", index: 36, scale: Scale::Raw, default: "0" },
        Column { field: "wave_immune", index: 37, scale: Scale::Raw, default: "0" },
        Column { field: "wave_block", index: 38, scale: Scale::Raw, default: "0" },
        Column { field: "knockback_immune", index: 39, scale: Scale::Raw, default: "0" },
        Column { field: "freeze_immune", index: 40, scale: Scale::Raw, default: "0" },
        Column { field: "slow_immune", index: 41, scale: Scale::Raw, default: "0" },
        Column { field: "weaken_immune", index: 42, scale: Scale::Raw, default: "0" },
        Column { field: "burrow_amount", index: 43, scale: Scale::Raw, default: "0" },
        Column { field: "burrow_distance", index: 44, scale: Scale::Quarter, default: "0" },
        Column { field: "revive_count", index: 45, scale: Scale::Raw, default: "0" },
        Column { field: "revive_time", index: 46, scale: Scale::Raw, default: "0" },
        Column { field: "revive_hp", index: 47, scale: Scale::Raw, default: "0" },
        Column { field: "trait_witch", index: 48, scale: Scale::Raw, default: "0" },
        Column { field: "trait_dojo", index: 49, scale: Scale::Raw, default: "0" },
        Column { field: "attack_count_total", index: 50, scale: Scale::Raw, default: "-1" },
        Column { field: "time_before_death", index: 51, scale: Scale::Raw, default: "-1" },
        Column { field: "attack_count_state", index: 52, scale: Scale::Raw, default: "0" },
        Column { field: "spawn_animation_type", index: 53, scale: Scale::Raw, default: "-1" },
        Column { field: "soul_animation_type", index: 54, scale: Scale::Raw, default: "-1" },
        Column { field: "attack_2", index: 55, scale: Scale::Raw, default: "0" },
        Column { field: "attack_3", index: 56, scale: Scale::Raw, default: "0" },
        Column { field: "time_until_attack_2", index: 57, scale: Scale::Raw, default: "0" },
        Column { field: "time_until_attack_3", index: 58, scale: Scale::Raw, default: "0" },
        Column { field: "attack_1_abilities", index: 59, scale: Scale::Raw, default: "0" },
        Column { field: "attack_2_abilities", index: 60, scale: Scale::Raw, default: "0" },
        Column { field: "attack_3_abilities", index: 61, scale: Scale::Raw, default: "0" },
        Column { field: "spawn_animation_flag", index: 62, scale: Scale::Raw, default: "0" },
        Column { field: "use_gudetama_soul", index: 63, scale: Scale::Raw, default: "0" },
        Column { field: "barrier_hitpoints", index: 64, scale: Scale::Raw, default: "0" },
        Column { field: "warp_chance", index: 65, scale: Scale::Raw, default: "0" },
        Column { field: "warp_duration", index: 66, scale: Scale::Raw, default: "0" },
        Column { field: "warp_distance_minimum", index: 67, scale: Scale::Quarter, default: "0" },
        Column { field: "warp_distance_maximum", index: 68, scale: Scale::Quarter, default: "0" },
        Column { field: "trait_starred_alien", index: 69, scale: Scale::Raw, default: "0" },
        Column { field: "warp_immune", index: 70, scale: Scale::Raw, default: "0" },
        Column { field: "trait_eva", index: 71, scale: Scale::Raw, default: "0" },
        Column { field: "trait_relic", index: 72, scale: Scale::Raw, default: "0" },
        Column { field: "curse_chance", index: 73, scale: Scale::Raw, default: "0" },
        Column { field: "curse_duration", index: 74, scale: Scale::Raw, default: "0" },
        Column { field: "savage_blow_chance", index: 75, scale: Scale::Raw, default: "0" },
        Column { field: "savage_blow_boost", index: 76, scale: Scale::Raw, default: "0" },
        Column { field: "dodge_chance", index: 77, scale: Scale::Raw, default: "0" },
        Column { field: "dodge_duration", index: 78, scale: Scale::Raw, default: "0" },
        Column { field: "toxic_chance", index: 79, scale: Scale::Raw, default: "0" },
        Column { field: "toxic_damage", index: 80, scale: Scale::Raw, default: "0" },
        Column { field: "surge_chance", index: 81, scale: Scale::Raw, default: "0" },
        Column { field: "surge_spawn_anchor", index: 82, scale: Scale::Quarter, default: "0" },
        Column { field: "surge_spawn_span", index: 83, scale: Scale::Quarter, default: "0" },
        Column { field: "surge_level", index: 84, scale: Scale::Raw, default: "0" },
        Column { field: "surge_immune", index: 85, scale: Scale::Raw, default: "0" },
        Column { field: "mini_wave_flag", index: 86, scale: Scale::Raw, default: "0" },
        Column { field: "shield_hitpoints", index: 87, scale: Scale::Raw, default: "0" },
        Column { field: "shield_regen", index: 88, scale: Scale::Raw, default: "0" },
        Column { field: "death_surge_chance", index: 89, scale: Scale::Raw, default: "0" },
        Column { field: "death_surge_spawn_anchor", index: 90, scale: Scale::Quarter, default: "0" },
        Column { field: "death_surge_spawn_span", index: 91, scale: Scale::Quarter, default: "0" },
        Column { field: "death_surge_level", index: 92, scale: Scale::Raw, default: "0" },
        Column { field: "trait_aku", index: 93, scale: Scale::Raw, default: "0" },
        Column { field: "trait_colossus", index: 94, scale: Scale::Raw, default: "0" },
        Column { field: "long_distance_2_flag", index: 95, scale: Scale::Raw, default: "0" },
        Column { field: "long_distance_2_anchor", index: 96, scale: Scale::Raw, default: "0" },
        Column { field: "long_distance_2_span", index: 97, scale: Scale::Raw, default: "0" },
        Column { field: "long_distance_3_flag", index: 98, scale: Scale::Raw, default: "0" },
        Column { field: "long_distance_3_anchor", index: 99, scale: Scale::Raw, default: "0" },
        Column { field: "long_distance_3_span", index: 100, scale: Scale::Raw, default: "0" },
        Column { field: "trait_behemoth", index: 101, scale: Scale::Raw, default: "0" },
        Column { field: "mini_surge_flag", index: 102, scale: Scale::Raw, default: "0" },
        Column { field: "counter_surge", index: 103, scale: Scale::Raw, default: "0" },
        Column { field: "trait_sage", index: 104, scale: Scale::Raw, default: "0" },
        Column { field: "curse_immune", index: 105, scale: Scale::Raw, default: "0" },
        Column { field: "explosion_chance", index: 106, scale: Scale::Raw, default: "0" },
        Column { field: "explosion_spawn_anchor", index: 107, scale: Scale::Quarter, default: "0" },
        Column { field: "explosion_spawn_span", index: 108, scale: Scale::Quarter, default: "0" },
        Column { field: "explosion_immune", index: 109, scale: Scale::Raw, default: "0" },
        Column { field: "trait_kaijin", index: 110, scale: Scale::Raw, default: "0" },
        Column { field: "drain_chance", index: 111, scale: Scale::Raw, default: "0" },
        Column { field: "drain_percent", index: 112, scale: Scale::Raw, default: "0" }
    ];
    assert(r@ =~= enemy_layout());
    r
}

/// The entity one row's columns read as.
pub open spec fn enemy_entity(cells: Seq<Seq<u8>>) -> Entity {
    Entity {
        faction: Faction::Enemy,
        hitpoints: column_i32(cells, 0, 0, Scale::Raw),
        knockbacks: column_i32(cells, 1, 0, Scale::Raw),
        speed: column_i32(cells, 2, 0, Scale::Raw),
        attack_1: column_i32(cells, 3, 0, Scale::Raw),
        attack_2: column_i32(cells, 55, 0, Scale::Raw),
        attack_3: column_i32(cells, 56, 0, Scale::Raw),
        attack_cooldown: column_i32(cells, 4, 0, Scale::Double),
        standing_range: column_i32(cells, 5, 0, Scale::Raw),
        hitbox_position: column_i32(cells, 7, 0, Scale::Raw),
        hitbox_width: column_i32(cells, 8, 0, Scale::Raw),
        legacy_weak_against: 0,
        legacy_strong_against: column_i32(cells, 9, 0, Scale::Raw),
        eoc1_cost: 0,
        cooldown: 0,
        cash_drop: column_i32(cells, 6, 0, Scale::Raw),
        minimum_z_layer: 0,
        maximum_z_layer: 0,
        trait_red: column_i32(cells, 10, 0, Scale::Raw),
        trait_floating: column_i32(cells, 13, 0, Scale::Raw),
        trait_dark: column_i32(cells, 14, 0, Scale::Raw),
        trait_metal: column_i32(cells, 15, 0, Scale::Raw),
        trait_traitless: column_i32(cells, 16, 0, Scale::Raw),
        trait_angel: column_i32(cells, 17, 0, Scale::Raw),
        trait_alien: column_i32(cells, 18, 0, Scale::Raw),
        trait_zombie: column_i32(cells, 19, 0, Scale::Raw),
        trait_witch: column_i32(cells, 48, 0, Scale::Raw),
        trait_eva: column_i32(cells, 71, 0, Scale::Raw),
        trait_relic: column_i32(cells, 72, 0, Scale::Raw),
        trait_aku: column_i32(cells, 93, 0, Scale::Raw),
        trait_dojo: column_i32(cells, 49, 0, Scale::Raw),
        trait_starred_alien: column_i32(cells, 69, 0, Scale::Raw),
        trait_behemoth: column_i32(cells, 101, 0, Scale::Raw),
        trait_colossus: column_i32(cells, 94, 0, Scale::Raw),
        trait_sage: column_i32(cells, 104, 0, Scale::Raw),
        trait_kaijin: column_i32(cells, 110, 0, Scale::Raw),
        area_attack: column_i32(cells, 11, 0, Scale::Raw),
        time_until_attack_1: column_i32(cells, 12, 0, Scale::Raw),
        time_until_attack_2: column_i32(cells, 57, 0, Scale::Raw),
        time_until_attack_3: column_i32(cells, 58, 0, Scale::Raw),
        attack_1_abilities: column_i32(cells, 59, 0, Scale::Raw),
        attack_2_abilities: column_i32(cells, 60, 0, Scale::Raw),
        attack_3_abilities: column_i32(cells, 61, 0, Scale::Raw),
        attack_count_total: column_i32(cells, 50, -1i32, Scale::Raw),
        attack_count_state: column_i32(cells, 52, 0, Scale::Raw),
        time_before_death: column_i32(cells, 51, -1i32, Scale::Raw),
        spawn_animation_type: column_i32(cells, 53, -1i32, Scale::Raw),
        soul_animation_type: column_i32(cells, 54, -1i32, Scale::Raw),
        spawn_animation_flag: column_i32(cells, 62, 0, Scale::Raw),
        use_gudetama_soul: column_i32(cells, 63, 0, Scale::Raw),
        attack_only: 0,
        strong_against: 0,
        massive_damage: 0,
        insane_damage: 0,
        resist: 0,
        insanely_tough: 0,
        is_metal: 0,
        double_bounty: 0,
        zombie_killer: 0,
        soulstrike: 0,
        colossus_slayer: 0,
        sage_slayer: 0,
        behemoth_slayer: 0,
        behemoth_dodge_chance: 0,
        behemoth_dodge_duration: 0,
        witch_killer: 0,
        eva_killer: 0,
        metal_killer_percent: 0,
        barrier_breaker_chance: 0,
        shield_pierce_chance: 0,
        conjure_unit_id: -1i32,
        knockback_chance: column_i32(cells, 20, 0, Scale::Raw),
        freeze_chance: column_i32(cells, 21, 0, Scale::Raw),
        freeze_duration: column_i32(cells, 22, 0, Scale::Raw),
        slow_chance: column_i32(cells, 23, 0, Scale::Raw),
        slow_duration: column_i32(cells, 24, 0, Scale::Raw),
        weaken_chance: column_i32(cells, 29, 0, Scale::Raw),
        weaken_duration: column_i32(cells, 30, 0, Scale::Raw),
        weaken_to: column_i32(cells, 31, 0, Scale::Raw),
        curse_chance: column_i32(cells, 73, 0, Scale::Raw),
        curse_duration: column_i32(cells, 74, 0, Scale::Raw),
        warp_chance: column_i32(cells, 65, 0, Scale::Raw),
        warp_duration: column_i32(cells, 66, 0, Scale::Raw),
        warp_distance_minimum: column_i32(cells, 67, 0, Scale::Quarter),
        warp_distance_maximum: column_i32(cells, 68, 0, Scale::Quarter),
        dodge_chance: column_i32(cells, 77, 0, Scale::Raw),
        dodge_duration: column_i32(cells, 78, 0, Scale::Raw),
        savage_blow_chance: column_i32(cells, 75, 0, Scale::Raw),
        savage_blow_boost: column_i32(cells, 76, 0, Scale::Raw),
        critical_chance: column_i32(cells, 25, 0, Scale::Raw),
        strengthen_threshold: column_i32(cells, 32, 0, Scale::Raw),
        strengthen_boost: column_i32(cells, 33, 0, Scale::Raw),
        survive: column_i32(cells, 34, 0, Scale::Raw),
        base_destroyer: column_i32(cells, 26, 0, Scale::Raw),
        wave_chance: column_i32(cells, 27, 0, Scale::Raw),
        wave_level: column_i32(cells, 28, 0, Scale::Raw),
        mini_wave_flag: column_i32(cells, 86, 0, Scale::Raw),
        wave_block: column_i32(cells, 38, 0, Scale::Raw),
        surge_chance: column_i32(cells, 81, 0, Scale::Raw),
        surge_spawn_anchor: column_i32(cells, 82, 0, Scale::Quarter),
        surge_spawn_span: column_i32(cells, 83, 0, Scale::Quarter),
        surge_level: column_i32(cells, 84, 0, Scale::Raw),
        mini_surge_flag: column_i32(cells, 102, 0, Scale::Raw),
        counter_surge: column_i32(cells, 103, 0, Scale::Raw),
        explosion_chance: column_i32(cells, 106, 0, Scale::Raw),
        explosion_spawn_anchor: column_i32(cells, 107, 0, Scale::Quarter),
        explosion_spawn_span: column_i32(cells, 108, 0, Scale::Quarter),
        death_surge_chance: column_i32(cells, 89, 0, Scale::Raw),
        death_surge_spawn_anchor: column_i32(cells, 90, 0, Scale::Quarter),
        death_surge_spawn_span: column_i32(cells, 91, 0, Scale::Quarter),
        death_surge_level: column_i32(cells, 92, 0, Scale::Raw),
        long_distance_1_anchor: column_i32(cells, 35, 0, Scale::Raw),
        long_distance_1_span: column_i32(cells, 36, 0, Scale::Raw),
        long_distance_2_flag: column_i32(cells, 95, 0, Scale::Raw),
        long_distance_2_anchor: column_i32(cells, 96, 0, Scale::Raw),
        long_distance_2_span: column_i32(cells, 97, 0, Scale::Raw),
        long_distance_3_flag: column_i32(cells, 98, 0, Scale::Raw),
        long_distance_3_anchor: column_i32(cells, 99, 0, Scale::Raw),
        long_distance_3_span: column_i32(cells, 100, 0, Scale::Raw),
        wave_immune: column_i32(cells, 37, 0, Scale::Raw),
        knockback_immune: column_i32(cells, 39, 0, Scale::Raw),
        freeze_immune: column_i32(cells, 40, 0, Scale::Raw),
        slow_immune: column_i32(cells, 41, 0, Scale::Raw),
        weaken_immune: column_i32(cells, 42, 0, Scale::Raw),
        warp_immune: column_i32(cells, 70, 0, Scale::Raw),
        curse_immune: column_i32(cells, 105, 0, Scale::Raw),
        toxic_immune: 0,
        surge_immune: column_i32(cells, 85, 0, Scale::Raw),
        explosion_immune: column_i32(cells, 109, 0, Scale::Raw),
        boss_wave_immune: 0,
        barrier_hitpoints: column_i32(cells, 64, 0, Scale::Raw),
        shield_hitpoints: column_i32(cells, 87, 0, Scale::Raw),
        shield_regen: column_i32(cells, 88, 0, Scale::Raw),
        burrow_amount: column_i32(cells, 43, 0, Scale::Raw),
        burrow_distance: column_i32(cells, 44, 0, Scale::Quarter),
        revive_count: column_i32(cells, 45, 0, Scale::Raw),
        revive_time: column_i32(cells, 46, 0, Scale::Raw),
        revive_hp: column_i32(cells, 47, 0, Scale::Raw),
        toxic_chance: column_i32(cells, 79, 0, Scale::Raw),
        toxic_damage: column_i32(cells, 80, 0, Scale::Raw),
        drain_chance: column_i32(cells, 111, 0, Scale::Raw),
        drain_percent: column_i32(cells, 112, 0, Scale::Raw),
        has_unknown_abilities: if unknown_trailing(cells, KNOWN_COLUMNS as int) { 1 } else { 0 },
    }
}

/// Reads one row's columns into an enemy entity.
pub fn from_row(cells: &Vec<Vec<u8>>) -> (r: Entity)
    ensures
        r == enemy_entity(views(cells@)),
{
    let unknown = trailing_unknowns(cells, KNOWN_COLUMNS) == 1;
    Entity {
        faction: Faction::Enemy,
        hitpoints: read_i32(cells, 0, 0, Scale::Raw),
        knockbacks: read_i32(cells, 1, 0, Scale::Raw),
        speed: read_i32(cells, 2, 0, Scale::Raw),
        attack_1: read_i32(cells, 3, 0, Scale::Raw),
        attack_2: read_i32(cells, 55, 0, Scale::Raw),
        attack_3: read_i32(cells, 56, 0, Scale::Raw),
        attack_cooldown: read_i32(cells, 4, 0, Scale::Double),
        standing_range: read_i32(cells, 5, 0, Scale::Raw),
        hitbox_position: read_i32(cells, 7, 0, Scale::Raw),
        hitbox_width: read_i32(cells, 8, 0, Scale::Raw),
        legacy_weak_against: 0,
        legacy_strong_against: read_i32(cells, 9, 0, Scale::Raw),
        eoc1_cost: 0,
        cooldown: 0,
        cash_drop: read_i32(cells, 6, 0, Scale::Raw),
        minimum_z_layer: 0,
        maximum_z_layer: 0,
        trait_red: read_i32(cells, 10, 0, Scale::Raw),
        trait_floating: read_i32(cells, 13, 0, Scale::Raw),
        trait_dark: read_i32(cells, 14, 0, Scale::Raw),
        trait_metal: read_i32(cells, 15, 0, Scale::Raw),
        trait_traitless: read_i32(cells, 16, 0, Scale::Raw),
        trait_angel: read_i32(cells, 17, 0, Scale::Raw),
        trait_alien: read_i32(cells, 18, 0, Scale::Raw),
        trait_zombie: read_i32(cells, 19, 0, Scale::Raw),
        trait_witch: read_i32(cells, 48, 0, Scale::Raw),
        trait_eva: read_i32(cells, 71, 0, Scale::Raw),
        trait_relic: read_i32(cells, 72, 0, Scale::Raw),
        trait_aku: read_i32(cells, 93, 0, Scale::Raw),
        trait_dojo: read_i32(cells, 49, 0, Scale::Raw),
        trait_starred_alien: read_i32(cells, 69, 0, Scale::Raw),
        trait_behemoth: read_i32(cells, 101, 0, Scale::Raw),
        trait_colossus: read_i32(cells, 94, 0, Scale::Raw),
        trait_sage: read_i32(cells, 104, 0, Scale::Raw),
        trait_kaijin: read_i32(cells, 110, 0, Scale::Raw),
        area_attack: read_i32(cells, 11, 0, Scale::Raw),
        time_until_attack_1: read_i32(cells, 12, 0, Scale::Raw),
        time_until_attack_2: read_i32(cells, 57, 0, Scale::Raw),
        time_until_attack_3: read_i32(cells, 58, 0, Scale::Raw),
        attack_1_abilities: read_i32(cells, 59, 0, Scale::Raw),
        attack_2_abilities: read_i32(cells, 60, 0, Scale::Raw),
        attack_3_abilities: read_i32(cells, 61, 0, Scale::Raw),
        attack_count_total: read_i32(cells, 50, -1, Scale::Raw),
        attack_count_state: read_i32(cells, 52, 0, Scale::Raw),
        time_before_death: read_i32(cells, 51, -1, Scale::Raw),
        spawn_animation_type: read_i32(cells, 53, -1, Scale::Raw),
        soul_animation_type: read_i32(cells, 54, -1, Scale::Raw),
        spawn_animation_flag: read_i32(cells, 62, 0, Scale::Raw),
        use_gudetama_soul: read_i32(cells, 63, 0, Scale::Raw),
        attack_only: 0,
        strong_against: 0,
        massive_damage: 0,
        insane_damage: 0,
        resist: 0,
        insanely_tough: 0,
        is_metal: 0,
        double_bounty: 0,
        zombie_killer: 0,
        soulstrike: 0,
        colossus_slayer: 0,
        sage_slayer: 0,
        behemoth_slayer: 0,
        behemoth_dodge_chance: 0,
        behemoth_dodge_duration: 0,
        witch_killer: 0,
        eva_killer: 0,
        metal_killer_percent: 0,
        barrier_breaker_chance: 0,
        shield_pierce_chance: 0,
        conjure_unit_id: -1,
        knockback_chance: read_i32(cells, 20, 0, Scale::Raw),
        freeze_chance: read_i32(cells, 21, 0, Scale::Raw),
        freeze_duration: read_i32(cells, 22, 0, Scale::Raw),
        slow_chance: read_i32(cells, 23, 0, Scale::Raw),
        slow_duration: read_i32(cells, 24, 0, Scale::Raw),
        weaken_chance: read_i32(cells, 29, 0, Scale::Raw),
        weaken_duration: read_i32(cells, 30, 0, Scale::Raw),
        weaken_to: read_i32(cells, 31, 0, Scale::Raw),
        curse_chance: read_i32(cells, 73, 0, Scale::Raw),
        curse_duration: read_i32(cells, 74, 0, Scale::Raw),
        warp_chance: read_i32(cells, 65, 0, Scale::Raw),
        warp_duration: read_i32(cells, 66, 0, Scale::Raw),
        warp_distance_minimum: read_i32(cells, 67, 0, Scale::Quarter),
        warp_distance_maximum: read_i32(cells, 68, 0, Scale::Quarter),
        dodge_chance: read_i32(cells, 77, 0, Scale::Raw),
        dodge_duration: read_i32(cells, 78, 0, Scale::Raw),
        savage_blow_chance: read_i32(cells, 75, 0, Scale::Raw),
        savage_blow_boost: read_i32(cells, 76, 0, Scale::Raw),
        critical_chance: read_i32(cells, 25, 0, Scale::Raw),
        strengthen_threshold: read_i32(cells, 32, 0, Scale::Raw),
        strengthen_boost: read_i32(cells, 33, 0, Scale::Raw),
        survive: read_i32(cells, 34, 0, Scale::Raw),
        base_destroyer: read_i32(cells, 26, 0, Scale::Raw),
        wave_chance: read_i32(cells, 27, 0, Scale::Raw),
        wave_level: read_i32(cells, 28, 0, Scale::Raw),
        mini_wave_flag: read_i32(cells, 86, 0, Scale::Raw),
        wave_block: read_i32(cells, 38, 0, Scale::Raw),
        surge_chance: read_i32(cells, 81, 0, Scale::Raw),
        surge_spawn_anchor: read_i32(cells, 82, 0, Scale::Quarter),
        surge_spawn_span: read_i32(cells, 83, 0, Scale::Quarter),
        surge_level: read_i32(cells, 84, 0, Scale::Raw),
        mini_surge_flag: read_i32(cells, 102, 0, Scale::Raw),
        counter_surge: read_i32(cells, 103, 0, Scale::Raw),
        explosion_chance: read_i32(cells, 106, 0, Scale::Raw),
        explosion_spawn_anchor: read_i32(cells, 107, 0, Scale::Quarter),
        explosion_spawn_span: read_i32(cells, 108, 0, Scale::Quarter),
        death_surge_chance: read_i32(cells, 89, 0, Scale::Raw),
        death_surge_spawn_anchor: read_i32(cells, 90, 0, Scale::Quarter),
        death_surge_spawn_span: read_i32(cells, 91, 0, Scale::Quarter),
        death_surge_level: read_i32(cells, 92, 0, Scale::Raw),
        long_distance_1_anchor: read_i32(cells, 35, 0, Scale::Raw),
        long_distance_1_span: read_i32(cells, 36, 0, Scale::Raw),
        long_distance_2_flag: read_i32(cells, 95, 0, Scale::Raw),
        long_distance_2_anchor: read_i32(cells, 96, 0, Scale::Raw),
        long_distance_2_span: read_i32(cells, 97, 0, Scale::Raw),
        long_distance_3_flag: read_i32(cells, 98, 0, Scale::Raw),
        long_distance_3_anchor: read_i32(cells, 99, 0, Scale::Raw),
        long_distance_3_span: read_i32(cells, 100, 0, Scale::Raw),
        wave_immune: read_i32(cells, 37, 0, Scale::Raw),
        knockback_immune: read_i32(cells, 39, 0, Scale::Raw),
        freeze_immune: read_i32(cells, 40, 0, Scale::Raw),
        slow_immune: read_i32(cells, 41, 0, Scale::Raw),
        weaken_immune: read_i32(cells, 42, 0, Scale::Raw),
        warp_immune: read_i32(cells, 70, 0, Scale::Raw),
        curse_immune: read_i32(cells, 105, 0, Scale::Raw),
        toxic_immune: 0,
        surge_immune: read_i32(cells, 85, 0, Scale::Raw),
        explosion_immune: read_i32(cells, 109, 0, Scale::Raw),
        boss_wave_immune: 0,
        barrier_hitpoints: read_i32(cells, 64, 0, Scale::Raw),
        shield_hitpoints: read_i32(cells, 87, 0, Scale::Raw),
        shield_regen: read_i32(cells, 88, 0, Scale::Raw),
        burrow_amount: read_i32(cells, 43, 0, Scale::Raw),
        burrow_distance: read_i32(cells, 44, 0, Scale::Quarter),
        revive_count: read_i32(cells, 45, 0, Scale::Raw),
        revive_time: read_i32(cells, 46, 0, Scale::Raw),
        revive_hp: read_i32(cells, 47, 0, Scale::Raw),
        toxic_chance: read_i32(cells, 79, 0, Scale::Raw),
        toxic_damage: read_i32(cells, 80, 0, Scale::Raw),
        drain_chance: read_i32(cells, 111, 0, Scale::Raw),
        drain_percent: read_i32(cells, 112, 0, Scale::Raw),
        has_unknown_abilities: if unknown { 1 } else { 0 },
    }
}

/// The rows of the table: its lines past the header.
pub open spec fn enemy_lines(bytes: Seq<u8>) -> Seq<Seq<u8>> {
    drop_n(table_lines(bytes), HEADER_LINES as int)
}

/// Whether a row's columns are wide enough to be combat data.
pub open spec fn is_entity_row(cols: Seq<Seq<u8>>) -> bool {
    cols.len() >= MIN_COLUMNS
}

/// The entity read from each line, so that every entity sits at its own
/// line's position; a line too narrow to be combat data holds a placeholder
/// read from what columns it has.
pub open spec fn enemies_of(lines: Seq<Seq<u8>>, d: u8) -> Seq<Entity> {
    Seq::new(lines.len(), |j: int| enemy_entity(row_columns(lines[j], d)))
}

/// Whether any line is wide enough to be combat data.
pub open spec fn any_entity_row(lines: Seq<Seq<u8>>, d: u8) -> bool {
    exists|j: int| 0 <= j < lines.len() && #[trigger] is_entity_row(row_columns(lines[j], d))
}

/// Parses the shared enemy statistic table into one entity per declared enemy.
///
/// The two header lines are skipped and the remaining rows are read in file
/// order. The position of an entity within the returned vector is its internal
/// enemy identifier: a row narrower than ten columns keeps its position with a
/// placeholder entity read from the columns it has.
///
/// # Returns
/// The entities, or `EntityError::EmptyFile` exactly when no row is wide
/// enough to be combat data.
pub fn parse(bytes: &[u8], separator: Option<Separator>) -> (r: Result<Vec<Entity>, EntityError>)
    ensures
        ({
            let lines = enemy_lines(bytes@);
            let d = resolve_spec(separator, scrubbed(bytes@));
            match r {
                Ok(v) => any_entity_row(lines, d) && v@ == enemies_of(lines, d),
                Err(e) => !any_entity_row(lines, d) && e == EntityError::EmptyFile,
            }
        }),
{
    let (all_lines, d) = open_table(bytes, separator);
    let lines = skip_lines(&all_lines, HEADER_LINES);
    let ghost ls = views(lines@);
    let mut out: Vec<Entity> = Vec::new();
    let mut found = false;
    let mut i: usize = 0;
    while i < lines.len()
        invariant
            i <= lines@.len(),
            ls == views(lines@),
            out@ == enemies_of(ls.take(i as int), d),
            found == any_entity_row(ls.take(i as int), d),
        decreases lines@.len() - i,
    {
        let cols = split_row(lines[i].as_slice(), d);
        let wide = cols.len() >= MIN_COLUMNS;
        out.push(from_row(&cols));
        proof {
            let next = ls.take(i + 1);
            assert(next[i as int] == lines@[i as int]@);
            assert(forall|j: int| 0 <= j < i ==> #[trigger] next[j] == ls.take(i as int)[j]);
            assert(out@ =~= enemies_of(next, d));
            if wide {
                assert(is_entity_row(row_columns(next[i as int], d)));
            }
            if found {
                let w = choose|j: int| 0 <= j < i && #[trigger] is_entity_row(row_columns(ls.take(i as int)[j], d));
                assert(is_entity_row(row_columns(next[w], d)));
            }
            if any_entity_row(next, d) && !wide {
                let w = choose|j: int| 0 <= j < i + 1 && #[trigger] is_entity_row(row_columns(next[j], d));
                assert(w < i);
                assert(is_entity_row(row_columns(ls.take(i as int)[w], d)));
            }
        }
        found = found || wide;
        i += 1;
    }
    proof {
        assert(ls.take(i as int) =~= ls);
    }
    if !found {
        return Err(EntityError::EmptyFile);
    }
    Ok(out)
}

/// Reading one row by identifier agrees with reading the whole table: both
/// find the same entity, or neither finds one. A row too narrow to be combat
/// data is left out, since only the whole table keeps a placeholder for it.
pub proof fn lemma_row_agrees_with_table(bytes: Seq<u8>, separator: Option<Separator>, id: int)
    requires
        0 <= id,
        ({
            let lines = enemy_lines(bytes);
            let d = resolve_spec(separator, scrubbed(bytes));
            id < lines.len() ==> is_entity_row(row_columns(lines[id], d))
        }),
    ensures
        ({
            let lines = enemy_lines(bytes);
            let d = resolve_spec(separator, scrubbed(bytes));
            let whole: Option<Seq<Entity>> = if any_entity_row(lines, d) { Some(enemies_of(lines, d)) } else { None };
            let row: Option<Entity> = if id < lines.len() && is_entity_row(row_columns(lines[id], d)) {
                Some(enemy_entity(row_columns(lines[id], d)))
            } else {
                None
            };
            row == match whole {
                Some(v) => if id < v.len() { Some(v[id]) } else { None },
                None => None,
            }
        }),
{
    let lines = enemy_lines(bytes);
    let d = resolve_spec(separator, scrubbed(bytes));
    if id < lines.len() {
        assert(is_entity_row(row_columns(lines[id], d)));
        assert(any_entity_row(lines, d));
    }
}

/// Parses a single row of the shared enemy statistic table by enemy identifier.
///
/// The two header lines are skipped before the identifier is applied as a row
/// offset.
///
/// # Returns
/// The entity, or `None` when the identifier lies beyond the end of the table
/// or addresses a row too narrow to be combat data.
pub fn parse_row(bytes: &[u8], id: usize, separator: Option<Separator>) -> (r: Option<Entity>)
    ensures
        ({
            let lines = enemy_lines(bytes@);
            let cols = row_columns(lines[id as int], resolve_spec(separator, scrubbed(bytes@)));
            r == (if id < lines.len() && is_entity_row(cols) { Some(enemy_entity(cols)) } else { None })
        }),
{
    let (all_lines, d) = open_table(bytes, separator);
    let lines = skip_lines(&all_lines, HEADER_LINES);
    if id >= lines.len() {
        return None;
    }
    let cols = split_row(lines[id].as_slice(), d);
    if cols.len() < MIN_COLUMNS {
        return None;
    }
    Some(from_row(&cols))
}



proof fn lemma_columns_reach_fields_0(cells: Seq<Seq<u8>>)
    ensures
        enemy_layout()[0].field == "hitpoints" && Some(enemy_entity(cells).hitpoints) == column_value::<i32>(enemy_layout()[0], cells),
        enemy_layout()[1].field == "knockbacks" && Some(enemy_entity(cells).knockbacks) == column_value::<i32>(enemy_layout()[1], cells),
        enemy_layout()[2].field == "speed" && Some(enemy_entity(cells).speed) == column_value::<i32>(enemy_layout()[2], cells),
        enemy_layout()[3].field == "attack_1" && Some(enemy_entity(cells).attack_1) == column_value::<i32>(enemy_layout()[3], cells),
        enemy_layout()[4].field == "attack_cooldown" && Some(enemy_entity(cells).attack_cooldown) == column_value::<i32>(enemy_layout()[4], cells),
        enemy_layout()[5].field == "standing_range" && Some(enemy_entity(cells).standing_range) == column_value::<i32>(enemy_layout()[5], cells),
        enemy_layout()[6].field == "cash_drop" && Some(enemy_entity(cells).cash_drop) == column_value::<i32>(enemy_layout()[6], cells),
        enemy_layout()[7].field == "hitbox_position" && Some(enemy_entity(cells).hitbox_position) == column_value::<i32>(enemy_layout()[7], cells),
        enemy_layout()[8].field == "hitbox_width" && Some(enemy_entity(cells).hitbox_width) == column_value::<i32>(enemy_layout()[8], cells),
        enemy_layout()[9].field == "legacy_strong_against" && Some(enemy_entity(cells).legacy_strong_against) == column_value::<i32>(enemy_layout()[9], cells),
        enemy_layout()[10].field == "trait_red" && Some(enemy_entity(cells).trait_red) == column_value::<i32>(enemy_layout()[10], cells),
        enemy_layout()[11].field == "area_attack" && Some(enemy_entity(cells).area_attack) == column_value::<i32>(enemy_layout()[11], cells),
        enemy_layout()[12].field == "time_until_attack_1" && Some(enemy_entity(cells).time_until_attack_1) == column_value::<i32>(enemy_layout()[12], cells),
        enemy_layout()[13].field == "trait_floating" && Some(enemy_entity(cells).trait_floating) == column_value::<i32>(enemy_layout()[13], cells),
        enemy_layout()[14].field == "trait_dark" && Some(enemy_entity(cells).trait_dark) == column_value::<i32>(enemy_layout()[14], cells),
        enemy_layout()[15].field == "trait_metal" && Some(enemy_entity(cells).trait_metal) == column_value::<i32>(enemy_layout()[15], cells),
{
    let layout = enemy_layout();
    lemma_i32_column(cells, layout[0], 0i32);
    lemma_i32_column(cells, layout[1], 0i32);
    lemma_i32_column(cells, layout[2], 0i32);
    lemma_i32_column(cells, layout[3], 0i32);
    lemma_i32_column(cells, layout[4], 0i32);
    lemma_i32_column(cells, layout[5], 0i32);
    lemma_i32_column(cells, layout[6], 0i32);
    lemma_i32_column(cells, layout[7], 0i32);
    lemma_i32_column(cells, layout[8], 0i32);
    lemma_i32_column(cells, layout[9], 0i32);
    lemma_i32_column(cells, layout[10], 0i32);
    lemma_i32_column(cells, layout[11], 0i32);
    lemma_i32_column(cells, layout[12], 0i32);
    lemma_i32_column(cells, layout[13], 0i32);
    lemma_i32_column(cells, layout[14], 0i32);
    lemma_i32_column(cells, layout[15], 0i32);
}

proof fn lemma_columns_reach_fields_1(cells: Seq<Seq<u8>>)
    ensures
        enemy_layout()[16].field == "trait_traitless" && Some(enemy_entity(cells).trait_traitless) == column_value::<i32>(enemy_layout()[16], cells),
        enemy_layout()[17].field == "trait_angel" && Some(enemy_entity(cells).trait_angel) == column_value::<i32>(enemy_layout()[17], cells),
        enemy_layout()[18].field == "trait_alien" && Some(enemy_entity(cells).trait_alien) == column_value::<i32>(enemy_layout()[18], cells),
        enemy_layout()[19].field == "trait_zombie" && Some(enemy_entity(cells).trait_zombie) == column_value::<i32>(enemy_layout()[19], cells),
        enemy_layout()[20].field == "knockback_chance" && Some(enemy_entity(cells).knockback_chance) == column_value::<i32>(enemy_layout()[20], cells),
        enemy_layout()[21].field == "freeze_chance" && Some(enemy_entity(cells).freeze_chance) == column_value::<i32>(enemy_layout()[21], cells),
        enemy_layout()[22].field == "freeze_duration" && Some(enemy_entity(cells).freeze_duration) == column_value::<i32>(enemy_layout()[22], cells),
        enemy_layout()[23].field == "slow_chance" && Some(enemy_entity(cells).slow_chance) == column_value::<i32>(enemy_layout()[23], cells),
        enemy_layout()[24].field == "slow_duration" && Some(enemy_entity(cells).slow_duration) == column_value::<i32>(enemy_layout()[24], cells),
        enemy_layout()[25].field == "critical_chance" && Some(enemy_entity(cells).critical_chance) == column_value::<i32>(enemy_layout()[25], cells),
        enemy_layout()[26].field == "base_destroyer" && Some(enemy_entity(cells).base_destroyer) == column_value::<i32>(enemy_layout()[26], cells),
        enemy_layout()[27].field == "wave_chance" && Some(enemy_entity(cells).wave_chance) == column_value::<i32>(enemy_layout()[27], cells),
        enemy_layout()[28].field == "wave_level" && Some(enemy_entity(cells).wave_level) == column_value::<i32>(enemy_layout()[28], cells),
        enemy_layout()[29].field == "weaken_chance" && Some(enemy_entity(cells).weaken_chance) == column_value::<i32>(enemy_layout()[29], cells),
        enemy_layout()[30].field == "weaken_duration" && Some(enemy_entity(cells).weaken_duration) == column_value::<i32>(enemy_layout()[30], cells),
        enemy_layout()[31].field == "weaken_to" && Some(enemy_entity(cells).weaken_to) == column_value::<i32>(enemy_layout()[31], cells),
{
    let layout = enemy_layout();
    lemma_i32_column(cells, layout[16], 0i32);
    lemma_i32_column(cells, layout[17], 0i32);
    lemma_i32_column(cells, layout[18], 0i32);
    lemma_i32_column(cells, layout[19], 0i32);
    lemma_i32_column(cells, layout[20], 0i32);
    lemma_i32_column(cells, layout[21], 0i32);
    lemma_i32_column(cells, layout[22], 0i32);
    lemma_i32_column(cells, layout[23], 0i32);
    lemma_i32_column(cells, layout[24], 0i32);
    lemma_i32_column(cells, layout[25], 0i32);
    lemma_i32_column(cells, layout[26], 0i32);
    lemma_i32_column(cells, layout[27], 0i32);
    lemma_i32_column(cells, layout[28], 0i32);
    lemma_i32_column(cells, layout[29], 0i32);
    lemma_i32_column(cells, layout[30], 0i32);
    lemma_i32_column(cells, layout[31], 0i32);
}

proof fn lemma_columns_reach_fields_2(cells: Seq<Seq<u8>>)
    ensures
        enemy_layout()[32].field == "strengthen_threshold" && Some(enemy_entity(cells).strengthen_threshold) == column_value::<i32>(enemy_layout()[32], cells),
        enemy_layout()[33].field == "strengthen_boost" && Some(enemy_entity(cells).strengthen_boost) == column_value::<i32>(enemy_layout()[33], cells),
        enemy_layout()[34].field == "survive" && Some(enemy_entity(cells).survive) == column_value::<i32>(enemy_layout()[34], cells),
        enemy_layout()[35].field == "long_distance_1_anchor" && Some(enemy_entity(cells).long_distance_1_anchor) == column_value::<i32>(enemy_layout()[35], cells),
        enemy_layout()[36].field == "long_distance_1_span" && Some(enemy_entity(cells).long_distance_1_span) == column_value::<i32>(enemy_layout()[36], cells),
        enemy_layout()[37].field == "wave_immune" && Some(enemy_entity(cells).wave_immune) == column_value::<i32>(enemy_layout()[37], cells),
        enemy_layout()[38].field == "wave_block" && Some(enemy_entity(cells).wave_block) == column_value::<i32>(enemy_layout()[38], cells),
        enemy_layout()[39].field == "knockback_immune" && Some(enemy_entity(cells).knockback_immune) == column_value::<i32>(enemy_layout()[39], cells),
        enemy_layout()[40].field == "freeze_immune" && Some(enemy_entity(cells).freeze_immune) == column_value::<i32>(enemy_layout()[40], cells),
        enemy_layout()[41].field == "slow_immune" && Some(enemy_entity(cells).slow_immune) == column_value::<i32>(enemy_layout()[41], cells),
        enemy_layout()[42].field == "weaken_immune" && Some(enemy_entity(cells).weaken_immune) == column_value::<i32>(enemy_layout()[42], cells),
        enemy_layout()[43].field == "burrow_amount" && Some(enemy_entity(cells).burrow_amount) == column_value::<i32>(enemy_layout()[43], cells),
        enemy_layout()[44].field == "burrow_distance" && Some(enemy_entity(cells).burrow_distance) == column_value::<i32>(enemy_layout()[44], cells),
        enemy_layout()[45].field == "revive_count" && Some(enemy_entity(cells).revive_count) == column_value::<i32>(enemy_layout()[45], cells),
        enemy_layout()[46].field == "revive_time" && Some(enemy_entity(cells).revive_time) == column_value::<i32>(enemy_layout()[46], cells),
        enemy_layout()[47].field == "revive_hp" && Some(enemy_entity(cells).revive_hp) == column_value::<i32>(enemy_layout()[47], cells),
{
    let layout = enemy_layout();
    lemma_i32_column(cells, layout[32], 0i32);
    lemma_i32_column(cells, layout[33], 0i32);
    lemma_i32_column(cells, layout[34], 0i32);
    lemma_i32_column(cells, layout[35], 0i32);
    lemma_i32_column(cells, layout[36], 0i32);
    lemma_i32_column(cells, layout[37], 0i32);
    lemma_i32_column(cells, layout[38], 0i32);
    lemma_i32_column(cells, layout[39], 0i32);
    lemma_i32_column(cells, layout[40], 0i32);
    lemma_i32_column(cells, layout[41], 0i32);
    lemma_i32_column(cells, layout[42], 0i32);
    lemma_i32_column(cells, layout[43], 0i32);
    lemma_i32_column(cells, layout[44], 0i32);
    lemma_i32_column(cells, layout[45], 0i32);
    lemma_i32_column(cells, layout[46], 0i32);
    lemma_i32_column(cells, layout[47], 0i32);
}

proof fn lemma_columns_reach_fields_3(cells: Seq<Seq<u8>>)
    ensures
        enemy_layout()[48].field == "trait_witch" && Some(enemy_entity(cells).trait_witch) == column_value::<i32>(enemy_layout()[48], cells),
        enemy_layout()[49].field == "trait_dojo" && Some(enemy_entity(cells).trait_dojo) == column_value::<i32>(enemy_layout()[49], cells),
        enemy_layout()[50].field == "attack_count_total" && Some(enemy_entity(cells).attack_count_total) == column_value::<i32>(enemy_layout()[50], cells),
        enemy_layout()[51].field == "time_before_death" && Some(enemy_entity(cells).time_before_death) == column_value::<i32>(enemy_layout()[51], cells),
        enemy_layout()[52].field == "attack_count_state" && Some(enemy_entity(cells).attack_count_state) == column_value::<i32>(enemy_layout()[52], cells),
        enemy_layout()[53].field == "spawn_animation_type" && Some(enemy_entity(cells).spawn_animation_type) == column_value::<i32>(enemy_layout()[53], cells),
        enemy_layout()[54].field == "soul_animation_type" && Some(enemy_entity(cells).soul_animation_type) == column_value::<i32>(enemy_layout()[54], cells),
        enemy_layout()[55].field == "attack_2" && Some(enemy_entity(cells).attack_2) == column_value::<i32>(enemy_layout()[55], cells),
        enemy_layout()[56].field == "attack_3" && Some(enemy_entity(cells).attack_3) == column_value::<i32>(enemy_layout()[56], cells),
        enemy_layout()[57].field == "time_until_attack_2" && Some(enemy_entity(cells).time_until_attack_2) == column_value::<i32>(enemy_layout()[57], cells),
        enemy_layout()[58].field == "time_until_attack_3" && Some(enemy_entity(cells).time_until_attack_3) == column_value::<i32>(enemy_layout()[58], cells),
        enemy_layout()[59].field == "attack_1_abilities" && Some(enemy_entity(cells).attack_1_abilities) == column_value::<i32>(enemy_layout()[59], cells),
        enemy_layout()[60].field == "attack_2_abilities" && Some(enemy_entity(cells).attack_2_abilities) == column_value::<i32>(enemy_layout()[60], cells),
        enemy_layout()[61].field == "attack_3_abilities" && Some(enemy_entity(cells).attack_3_abilities) == column_value::<i32>(enemy_layout()[61], cells),
        enemy_layout()[62].field == "spawn_animation_flag" && Some(enemy_entity(cells).spawn_animation_flag) == column_value::<i32>(enemy_layout()[62], cells),
        enemy_layout()[63].field == "use_gudetama_soul" && Some(enemy_entity(cells).use_gudetama_soul) == column_value::<i32>(enemy_layout()[63], cells),
{
    let layout = enemy_layout();
    lemma_i32_column(cells, layout[48], 0i32);
    lemma_i32_column(cells, layout[49], 0i32);
    lemma_i32_column(cells, layout[50], -1i32);
    lemma_i32_column(cells, layout[51], -1i32);
    lemma_i32_column(cells, layout[52], 0i32);
    lemma_i32_column(cells, layout[53], -1i32);
    lemma_i32_column(cells, layout[54], -1i32);
    lemma_i32_column(cells, layout[55], 0i32);
    lemma_i32_column(cells, layout[56], 0i32);
    lemma_i32_column(cells, layout[57], 0i32);
    lemma_i32_column(cells, layout[58], 0i32);
    lemma_i32_column(cells, layout[59], 0i32);
    lemma_i32_column(cells, layout[60], 0i32);
    lemma_i32_column(cells, layout[61], 0i32);
    lemma_i32_column(cells, layout[62], 0i32);
    lemma_i32_column(cells, layout[63], 0i32);
}

proof fn lemma_columns_reach_fields_4(cells: Seq<Seq<u8>>)
    ensures
        enemy_layout()[64].field == "barrier_hitpoints" && Some(enemy_entity(cells).barrier_hitpoints) == column_value::<i32>(enemy_layout()[64], cells),
        enemy_layout()[65].field == "warp_chance" && Some(enemy_entity(cells).warp_chance) == column_value::<i32>(enemy_layout()[65], cells),
        enemy_layout()[66].field == "warp_duration" && Some(enemy_entity(cells).warp_duration) == column_value::<i32>(enemy_layout()[66], cells),
        enemy_layout()[67].field == "warp_distance_minimum" && Some(enemy_entity(cells).warp_distance_minimum) == column_value::<i32>(enemy_layout()[67], cells),
        enemy_layout()[68].field == "warp_distance_maximum" && Some(enemy_entity(cells).warp_distance_maximum) == column_value::<i32>(enemy_layout()[68], cells),
        enemy_layout()[69].field == "trait_starred_alien" && Some(enemy_entity(cells).trait_starred_alien) == column_value::<i32>(enemy_layout()[69], cells),
        enemy_layout()[70].field == "warp_immune" && Some(enemy_entity(cells).warp_immune) == column_value::<i32>(enemy_layout()[70], cells),
        enemy_layout()[71].field == "trait_eva" && Some(enemy_entity(cells).trait_eva) == column_value::<i32>(enemy_layout()[71], cells),
        enemy_layout()[72].field == "trait_relic" && Some(enemy_entity(cells).trait_relic) == column_value::<i32>(enemy_layout()[72], cells),
        enemy_layout()[73].field == "curse_chance" && Some(enemy_entity(cells).curse_chance) == column_value::<i32>(enemy_layout()[73], cells),
        enemy_layout()[74].field == "curse_duration" && Some(enemy_entity(cells).curse_duration) == column_value::<i32>(enemy_layout()[74], cells),
        enemy_layout()[75].field == "savage_blow_chance" && Some(enemy_entity(cells).savage_blow_chance) == column_value::<i32>(enemy_layout()[75], cells),
        enemy_layout()[76].field == "savage_blow_boost" && Some(enemy_entity(cells).savage_blow_boost) == column_value::<i32>(enemy_layout()[76], cells),
        enemy_layout()[77].field == "dodge_chance" && Some(enemy_entity(cells).dodge_chance) == column_value::<i32>(enemy_layout()[77], cells),
        enemy_layout()[78].field == "dodge_duration" && Some(enemy_entity(cells).dodge_duration) == column_value::<i32>(enemy_layout()[78], cells),
        enemy_layout()[79].field == "toxic_chance" && Some(enemy_entity(cells).toxic_chance) == column_value::<i32>(enemy_layout()[79], cells),
{
    let layout = enemy_layout();
    lemma_i32_column(cells, layout[64], 0i32);
    lemma_i32_column(cells, layout[65], 0i32);
    lemma_i32_column(cells, layout[66], 0i32);
    lemma_i32_column(cells, layout[67], 0i32);
    lemma_i32_column(cells, layout[68], 0i32);
    lemma_i32_column(cells, layout[69], 0i32);
    lemma_i32_column(cells, layout[70], 0i32);
    lemma_i32_column(cells, layout[71], 0i32);
    lemma_i32_column(cells, layout[72], 0i32);
    lemma_i32_column(cells, layout[73], 0i32);
    lemma_i32_column(cells, layout[74], 0i32);
    lemma_i32_column(cells, layout[75], 0i32);
    lemma_i32_column(cells, layout[76], 0i32);
    lemma_i32_column(cells, layout[77], 0i32);
    lemma_i32_column(cells, layout[78], 0i32);
    lemma_i32_column(cells, layout[79], 0i32);
}

proof fn lemma_columns_reach_fields_5(cells: Seq<Seq<u8>>)
    ensures
        enemy_layout()[80].field == "toxic_damage" && Some(enemy_entity(cells).toxic_damage) == column_value::<i32>(enemy_layout()[80], cells),
        enemy_layout()[81].field == "surge_chance" && Some(enemy_entity(cells).surge_chance) == column_value::<i32>(enemy_layout()[81], cells),
        enemy_layout()[82].field == "surge_spawn_anchor" && Some(enemy_entity(cells).surge_spawn_anchor) == column_value::<i32>(enemy_layout()[82], cells),
        enemy_layout()[83].field == "surge_spawn_span" && Some(enemy_entity(cells).surge_spawn_span) == column_value::<i32>(enemy_layout()[83], cells),
        enemy_layout()[84].field == "surge_level" && Some(enemy_entity(cells).surge_level) == column_value::<i32>(enemy_layout()[84], cells),
        enemy_layout()[85].field == "surge_immune" && Some(enemy_entity(cells).surge_immune) == column_value::<i32>(enemy_layout()[85], cells),
        enemy_layout()[86].field == "mini_wave_flag" && Some(enemy_entity(cells).mini_wave_flag) == column_value::<i32>(enemy_layout()[86], cells),
        enemy_layout()[87].field == "shield_hitpoints" && Some(enemy_entity(cells).shield_hitpoints) == column_value::<i32>(enemy_layout()[87], cells),
        enemy_layout()[88].field == "shield_regen" && Some(enemy_entity(cells).shield_regen) == column_value::<i32>(enemy_layout()[88], cells),
        enemy_layout()[89].field == "death_surge_chance" && Some(enemy_entity(cells).death_surge_chance) == column_value::<i32>(enemy_layout()[89], cells),
        enemy_layout()[90].field == "death_surge_spawn_anchor" && Some(enemy_entity(cells).death_surge_spawn_anchor) == column_value::<i32>(enemy_layout()[90], cells),
        enemy_layout()[91].field == "death_surge_spawn_span" && Some(enemy_entity(cells).death_surge_spawn_span) == column_value::<i32>(enemy_layout()[91], cells),
        enemy_layout()[92].field == "death_surge_level" && Some(enemy_entity(cells).death_surge_level) == column_value::<i32>(enemy_layout()[92], cells),
        enemy_layout()[93].field == "trait_aku" && Some(enemy_entity(cells).trait_aku) == column_value::<i32>(enemy_layout()[93], cells),
        enemy_layout()[94].field == "trait_colossus" && Some(enemy_entity(cells).trait_colossus) == column_value::<i32>(enemy_layout()[94], cells),
        enemy_layout()[95].field == "long_distance_2_flag" && Some(enemy_entity(cells).long_distance_2_flag) == column_value::<i32>(enemy_layout()[95], cells),
{
    let layout = enemy_layout();
    lemma_i32_column(cells, layout[80], 0i32);
    lemma_i32_column(cells, layout[81], 0i32);
    lemma_i32_column(cells, layout[82], 0i32);
    lemma_i32_column(cells, layout[83], 0i32);
    lemma_i32_column(cells, layout[84], 0i32);
    lemma_i32_column(cells, layout[85], 0i32);
    lemma_i32_column(cells, layout[86], 0i32);
    lemma_i32_column(cells, layout[87], 0i32);
    lemma_i32_column(cells, layout[88], 0i32);
    lemma_i32_column(cells, layout[89], 0i32);
    lemma_i32_column(cells, layout[90], 0i32);
    lemma_i32_column(cells, layout[91], 0i32);
    lemma_i32_column(cells, layout[92], 0i32);
    lemma_i32_column(cells, layout[93], 0i32);
    lemma_i32_column(cells, layout[94], 0i32);
    lemma_i32_column(cells, layout[95], 0i32);
}

proof fn lemma_columns_reach_fields_6(cells: Seq<Seq<u8>>)
    ensures
        enemy_layout()[96].field == "long_distance_2_anchor" && Some(enemy_entity(cells).long_distance_2_anchor) == column_value::<i32>(enemy_layout()[96], cells),
        enemy_layout()[97].field == "long_distance_2_span" && Some(enemy_entity(cells).long_distance_2_span) == column_value::<i32>(enemy_layout()[97], cells),
        enemy_layout()[98].field == "long_distance_3_flag" && Some(enemy_entity(cells).long_distance_3_flag) == column_value::<i32>(enemy_layout()[98], cells),
        enemy_layout()[99].field == "long_distance_3_anchor" && Some(enemy_entity(cells).long_distance_3_anchor) == column_value::<i32>(enemy_layout()[99], cells),
        enemy_layout()[100].field == "long_distance_3_span" && Some(enemy_entity(cells).long_distance_3_span) == column_value::<i32>(enemy_layout()[100], cells),
        enemy_layout()[101].field == "trait_behemoth" && Some(enemy_entity(cells).trait_behemoth) == column_value::<i32>(enemy_layout()[101], cells),
        enemy_layout()[102].field == "mini_surge_flag" && Some(enemy_entity(cells).mini_surge_flag) == column_value::<i32>(enemy_layout()[102], cells),
        enemy_layout()[103].field == "counter_surge" && Some(enemy_entity(cells).counter_surge) == column_value::<i32>(enemy_layout()[103], cells),
        enemy_layout()[104].field == "trait_sage" && Some(enemy_entity(cells).trait_sage) == column_value::<i32>(enemy_layout()[104], cells),
        enemy_layout()[105].field == "curse_immune" && Some(enemy_entity(cells).curse_immune) == column_value::<i32>(enemy_layout()[105], cells),
        enemy_layout()[106].field == "explosion_chance" && Some(enemy_entity(cells).explosion_chance) == column_value::<i32>(enemy_layout()[106], cells),
        enemy_layout()[107].field == "explosion_spawn_anchor" && Some(enemy_entity(cells).explosion_spawn_anchor) == column_value::<i32>(enemy_layout()[107], cells),
        enemy_layout()[108].field == "explosion_spawn_span" && Some(enemy_entity(cells).explosion_spawn_span) == column_value::<i32>(enemy_layout()[108], cells),
        enemy_layout()[109].field == "explosion_immune" && Some(enemy_entity(cells).explosion_immune) == column_value::<i32>(enemy_layout()[109], cells),
        enemy_layout()[110].field == "trait_kaijin" && Some(enemy_entity(cells).trait_kaijin) == column_value::<i32>(enemy_layout()[110], cells),
        enemy_layout()[111].field == "drain_chance" && Some(enemy_entity(cells).drain_chance) == column_value::<i32>(enemy_layout()[111], cells),
{
    let layout = enemy_layout();
    lemma_i32_column(cells, layout[96], 0i32);
    lemma_i32_column(cells, layout[97], 0i32);
    lemma_i32_column(cells, layout[98], 0i32);
    lemma_i32_column(cells, layout[99], 0i32);
    lemma_i32_column(cells, layout[100], 0i32);
    lemma_i32_column(cells, layout[101], 0i32);
    lemma_i32_column(cells, layout[102], 0i32);
    lemma_i32_column(cells, layout[103], 0i32);
    lemma_i32_column(cells, layout[104], 0i32);
    lemma_i32_column(cells, layout[105], 0i32);
    lemma_i32_column(cells, layout[106], 0i32);
    lemma_i32_column(cells, layout[107], 0i32);
    lemma_i32_column(cells, layout[108], 0i32);
    lemma_i32_column(cells, layout[109], 0i32);
    lemma_i32_column(cells, layout[110], 0i32);
    lemma_i32_column(cells, layout[111], 0i32);
}

proof fn lemma_columns_reach_fields_7(cells: Seq<Seq<u8>>)
    ensures
        enemy_layout()[112].field == "drain_percent" && Some(enemy_entity(cells).drain_percent) == column_value::<i32>(enemy_layout()[112], cells),
{
    let layout = enemy_layout();
    lemma_i32_column(cells, layout[112], 0i32);
}

/// Every column of the enemy layout reaches the field it names: in the entity
/// a row reads as, the field each column names holds the value that column
/// reads from the row.
pub proof fn lemma_every_column_reaches_its_field(cells: Seq<Seq<u8>>)
    ensures
        enemy_layout()[0].field == "hitpoints" && Some(enemy_entity(cells).hitpoints) == column_value::<i32>(enemy_layout()[0], cells),
        enemy_layout()[1].field == "knockbacks" && Some(enemy_entity(cells).knockbacks) == column_value::<i32>(enemy_layout()[1], cells),
        enemy_layout()[2].field == "speed" && Some(enemy_entity(cells).speed) == column_value::<i32>(enemy_layout()[2], cells),
        enemy_layout()[3].field == "attack_1" && Some(enemy_entity(cells).attack_1) == column_value::<i32>(enemy_layout()[3], cells),
        enemy_layout()[4].field == "attack_cooldown" && Some(enemy_entity(cells).attack_cooldown) == column_value::<i32>(enemy_layout()[4], cells),
        enemy_layout()[5].field == "standing_range" && Some(enemy_entity(cells).standing_range) == column_value::<i32>(enemy_layout()[5], cells),
        enemy_layout()[6].field == "cash_drop" && Some(enemy_entity(cells).cash_drop) == column_value::<i32>(enemy_layout()[6], cells),
        enemy_layout()[7].field == "hitbox_position" && Some(enemy_entity(cells).hitbox_position) == column_value::<i32>(enemy_layout()[7], cells),
        enemy_layout()[8].field == "hitbox_width" && Some(enemy_entity(cells).hitbox_width) == column_value::<i32>(enemy_layout()[8], cells),
        enemy_layout()[9].field == "legacy_strong_against" && Some(enemy_entity(cells).legacy_strong_against) == column_value::<i32>(enemy_layout()[9], cells),
        enemy_layout()[10].field == "trait_red" && Some(enemy_entity(cells).trait_red) == column_value::<i32>(enemy_layout()[10], cells),
        enemy_layout()[11].field == "area_attack" && Some(enemy_entity(cells).area_attack) == column_value::<i32>(enemy_layout()[11], cells),
        enemy_layout()[12].field == "time_until_attack_1" && Some(enemy_entity(cells).time_until_attack_1) == column_value::<i32>(enemy_layout()[12], cells),
        enemy_layout()[13].field == "trait_floating" && Some(enemy_entity(cells).trait_floating) == column_value::<i32>(enemy_layout()[13], cells),
        enemy_layout()[14].field == "trait_dark" && Some(enemy_entity(cells).trait_dark) == column_value::<i32>(enemy_layout()[14], cells),
        enemy_layout()[15].field == "trait_metal" && Some(enemy_entity(cells).trait_metal) == column_value::<i32>(enemy_layout()[15], cells),
        enemy_layout()[16].field == "trait_traitless" && Some(enemy_entity(cells).trait_traitless) == column_value::<i32>(enemy_layout()[16], cells),
        enemy_layout()[17].field == "trait_angel" && Some(enemy_entity(cells).trait_angel) == column_value::<i32>(enemy_layout()[17], cells),
        enemy_layout()[18].field == "trait_alien" && Some(enemy_entity(cells).trait_alien) == column_value::<i32>(enemy_layout()[18], cells),
        enemy_layout()[19].field == "trait_zombie" && Some(enemy_entity(cells).trait_zombie) == column_value::<i32>(enemy_layout()[19], cells),
        enemy_layout()[20].field == "knockback_chance" && Some(enemy_entity(cells).knockback_chance) == column_value::<i32>(enemy_layout()[20], cells),
        enemy_layout()[21].field == "freeze_chance" && Some(enemy_entity(cells).freeze_chance) == column_value::<i32>(enemy_layout()[21], cells),
        enemy_layout()[22].field == "freeze_duration" && Some(enemy_entity(cells).freeze_duration) == column_value::<i32>(enemy_layout()[22], cells),
        enemy_layout()[23].field == "slow_chance" && Some(enemy_entity(cells).slow_chance) == column_value::<i32>(enemy_layout()[23], cells),
        enemy_layout()[24].field == "slow_duration" && Some(enemy_entity(cells).slow_duration) == column_value::<i32>(enemy_layout()[24], cells),
        enemy_layout()[25].field == "critical_chance" && Some(enemy_entity(cells).critical_chance) == column_value::<i32>(enemy_layout()[25], cells),
        enemy_layout()[26].field == "base_destroyer" && Some(enemy_entity(cells).base_destroyer) == column_value::<i32>(enemy_layout()[26], cells),
        enemy_layout()[27].field == "wave_chance" && Some(enemy_entity(cells).wave_chance) == column_value::<i32>(enemy_layout()[27], cells),
        enemy_layout()[28].field == "wave_level" && Some(enemy_entity(cells).wave_level) == column_value::<i32>(enemy_layout()[28], cells),
        enemy_layout()[29].field == "weaken_chance" && Some(enemy_entity(cells).weaken_chance) == column_value::<i32>(enemy_layout()[29], cells),
        enemy_layout()[30].field == "weaken_duration" && Some(enemy_entity(cells).weaken_duration) == column_value::<i32>(enemy_layout()[30], cells),
        enemy_layout()[31].field == "weaken_to" && Some(enemy_entity(cells).weaken_to) == column_value::<i32>(enemy_layout()[31], cells),
        enemy_layout()[32].field == "strengthen_threshold" && Some(enemy_entity(cells).strengthen_threshold) == column_value::<i32>(enemy_layout()[32], cells),
        enemy_layout()[33].field == "strengthen_boost" && Some(enemy_entity(cells).strengthen_boost) == column_value::<i32>(enemy_layout()[33], cells),
        enemy_layout()[34].field == "survive" && Some(enemy_entity(cells).survive) == column_value::<i32>(enemy_layout()[34], cells),
        enemy_layout()[35].field == "long_distance_1_anchor" && Some(enemy_entity(cells).long_distance_1_anchor) == column_value::<i32>(enemy_layout()[35], cells),
        enemy_layout()[36].field == "long_distance_1_span" && Some(enemy_entity(cells).long_distance_1_span) == column_value::<i32>(enemy_layout()[36], cells),
        enemy_layout()[37].field == "wave_immune" && Some(enemy_entity(cells).wave_immune) == column_value::<i32>(enemy_layout()[37], cells),
        enemy_layout()[38].field == "wave_block" && Some(enemy_entity(cells).wave_block) == column_value::<i32>(enemy_layout()[38], cells),
        enemy_layout()[39].field == "knockback_immune" && Some(enemy_entity(cells).knockback_immune) == column_value::<i32>(enemy_layout()[39], cells),
        enemy_layout()[40].field == "freeze_immune" && Some(enemy_entity(cells).freeze_immune) == column_value::<i32>(enemy_layout()[40], cells),
        enemy_layout()[41].field == "slow_immune" && Some(enemy_entity(cells).slow_immune) == column_value::<i32>(enemy_layout()[41], cells),
        enemy_layout()[42].field == "weaken_immune" && Some(enemy_entity(cells).weaken_immune) == column_value::<i32>(enemy_layout()[42], cells),
        enemy_layout()[43].field == "burrow_amount" && Some(enemy_entity(cells).burrow_amount) == column_value::<i32>(enemy_layout()[43], cells),
        enemy_layout()[44].field == "burrow_distance" && Some(enemy_entity(cells).burrow_distance) == column_value::<i32>(enemy_layout()[44], cells),
        enemy_layout()[45].field == "revive_count" && Some(enemy_entity(cells).revive_count) == column_value::<i32>(enemy_layout()[45], cells),
        enemy_layout()[46].field == "revive_time" && Some(enemy_entity(cells).revive_time) == column_value::<i32>(enemy_layout()[46], cells),
        enemy_layout()[47].field == "revive_hp" && Some(enemy_entity(cells).revive_hp) == column_value::<i32>(enemy_layout()[47], cells),
        enemy_layout()[48].field == "trait_witch" && Some(enemy_entity(cells).trait_witch) == column_value::<i32>(enemy_layout()[48], cells),
        enemy_layout()[49].field == "trait_dojo" && Some(enemy_entity(cells).trait_dojo) == column_value::<i32>(enemy_layout()[49], cells),
        enemy_layout()[50].field == "attack_count_total" && Some(enemy_entity(cells).attack_count_total) == column_value::<i32>(enemy_layout()[50], cells),
        enemy_layout()[51].field == "time_before_death" && Some(enemy_entity(cells).time_before_death) == column_value::<i32>(enemy_layout()[51], cells),
        enemy_layout()[52].field == "attack_count_state" && Some(enemy_entity(cells).attack_count_state) == column_value::<i32>(enemy_layout()[52], cells),
        enemy_layout()[53].field == "spawn_animation_type" && Some(enemy_entity(cells).spawn_animation_type) == column_value::<i32>(enemy_layout()[53], cells),
        enemy_layout()[54].field == "soul_animation_type" && Some(enemy_entity(cells).soul_animation_type) == column_value::<i32>(enemy_layout()[54], cells),
        enemy_layout()[55].field == "attack_2" && Some(enemy_entity(cells).attack_2) == column_value::<i32>(enemy_layout()[55], cells),
        enemy_layout()[56].field == "attack_3" && Some(enemy_entity(cells).attack_3) == column_value::<i32>(enemy_layout()[56], cells),
        enemy_layout()[57].field == "time_until_attack_2" && Some(enemy_entity(cells).time_until_attack_2) == column_value::<i32>(enemy_layout()[57], cells),
        enemy_layout()[58].field == "time_until_attack_3" && Some(enemy_entity(cells).time_until_attack_3) == column_value::<i32>(enemy_layout()[58], cells),
        enemy_layout()[59].field == "attack_1_abilities" && Some(enemy_entity(cells).attack_1_abilities) == column_value::<i32>(enemy_layout()[59], cells),
        enemy_layout()[60].field == "attack_2_abilities" && Some(enemy_entity(cells).attack_2_abilities) == column_value::<i32>(enemy_layout()[60], cells),
        enemy_layout()[61].field == "attack_3_abilities" && Some(enemy_entity(cells).attack_3_abilities) == column_value::<i32>(enemy_layout()[61], cells),
        enemy_layout()[62].field == "spawn_animation_flag" && Some(enemy_entity(cells).spawn_animation_flag) == column_value::<i32>(enemy_layout()[62], cells),
        enemy_layout()[63].field == "use_gudetama_soul" && Some(enemy_entity(cells).use_gudetama_soul) == column_value::<i32>(enemy_layout()[63], cells),
        enemy_layout()[64].field == "barrier_hitpoints" && Some(enemy_entity(cells).barrier_hitpoints) == column_value::<i32>(enemy_layout()[64], cells),
        enemy_layout()[65].field == "warp_chance" && Some(enemy_entity(cells).warp_chance) == column_value::<i32>(enemy_layout()[65], cells),
        enemy_layout()[66].field == "warp_duration" && Some(enemy_entity(cells).warp_duration) == column_value::<i32>(enemy_layout()[66], cells),
        enemy_layout()[67].field == "warp_distance_minimum" && Some(enemy_entity(cells).warp_distance_minimum) == column_value::<i32>(enemy_layout()[67], cells),
        enemy_layout()[68].field == "warp_distance_maximum" && Some(enemy_entity(cells).warp_distance_maximum) == column_value::<i32>(enemy_layout()[68], cells),
        enemy_layout()[69].field == "trait_starred_alien" && Some(enemy_entity(cells).trait_starred_alien) == column_value::<i32>(enemy_layout()[69], cells),
        enemy_layout()[70].field == "warp_immune" && Some(enemy_entity(cells).warp_immune) == column_value::<i32>(enemy_layout()[70], cells),
        enemy_layout()[71].field == "trait_eva" && Some(enemy_entity(cells).trait_eva) == column_value::<i32>(enemy_layout()[71], cells),
        enemy_layout()[72].field == "trait_relic" && Some(enemy_entity(cells).trait_relic) == column_value::<i32>(enemy_layout()[72], cells),
        enemy_layout()[73].field == "curse_chance" && Some(enemy_entity(cells).curse_chance) == column_value::<i32>(enemy_layout()[73], cells),
        enemy_layout()[74].field == "curse_duration" && Some(enemy_entity(cells).curse_duration) == column_value::<i32>(enemy_layout()[74], cells),
        enemy_layout()[75].field == "savage_blow_chance" && Some(enemy_entity(cells).savage_blow_chance) == column_value::<i32>(enemy_layout()[75], cells),
        enemy_layout()[76].field == "savage_blow_boost" && Some(enemy_entity(cells).savage_blow_boost) == column_value::<i32>(enemy_layout()[76], cells),
        enemy_layout()[77].field == "dodge_chance" && Some(enemy_entity(cells).dodge_chance) == column_value::<i32>(enemy_layout()[77], cells),
        enemy_layout()[78].field == "dodge_duration" && Some(enemy_entity(cells).dodge_duration) == column_value::<i32>(enemy_layout()[78], cells),
        enemy_layout()[79].field == "toxic_chance" && Some(enemy_entity(cells).toxic_chance) == column_value::<i32>(enemy_layout()[79], cells),
        enemy_layout()[80].field == "toxic_damage" && Some(enemy_entity(cells).toxic_damage) == column_value::<i32>(enemy_layout()[80], cells),
        enemy_layout()[81].field == "surge_chance" && Some(enemy_entity(cells).surge_chance) == column_value::<i32>(enemy_layout()[81], cells),
        enemy_layout()[82].field == "surge_spawn_anchor" && Some(enemy_entity(cells).surge_spawn_anchor) == column_value::<i32>(enemy_layout()[82], cells),
        enemy_layout()[83].field == "surge_spawn_span" && Some(enemy_entity(cells).surge_spawn_span) == column_value::<i32>(enemy_layout()[83], cells),
        enemy_layout()[84].field == "surge_level" && Some(enemy_entity(cells).surge_level) == column_value::<i32>(enemy_layout()[84], cells),
        enemy_layout()[85].field == "surge_immune" && Some(enemy_entity(cells).surge_immune) == column_value::<i32>(enemy_layout()[85], cells),
        enemy_layout()[86].field == "mini_wave_flag" && Some(enemy_entity(cells).mini_wave_flag) == column_value::<i32>(enemy_layout()[86], cells),
        enemy_layout()[87].field == "shield_hitpoints" && Some(enemy_entity(cells).shield_hitpoints) == column_value::<i32>(enemy_layout()[87], cells),
        enemy_layout()[88].field == "shield_regen" && Some(enemy_entity(cells).shield_regen) == column_value::<i32>(enemy_layout()[88], cells),
        enemy_layout()[89].field == "death_surge_chance" && Some(enemy_entity(cells).death_surge_chance) == column_value::<i32>(enemy_layout()[89], cells),
        enemy_layout()[90].field == "death_surge_spawn_anchor" && Some(enemy_entity(cells).death_surge_spawn_anchor) == column_value::<i32>(enemy_layout()[90], cells),
        enemy_layout()[91].field == "death_surge_spawn_span" && Some(enemy_entity(cells).death_surge_spawn_span) == column_value::<i32>(enemy_layout()[91], cells),
        enemy_layout()[92].field == "death_surge_level" && Some(enemy_entity(cells).death_surge_level) == column_value::<i32>(enemy_layout()[92], cells),
        enemy_layout()[93].field == "trait_aku" && Some(enemy_entity(cells).trait_aku) == column_value::<i32>(enemy_layout()[93], cells),
        enemy_layout()[94].field == "trait_colossus" && Some(enemy_entity(cells).trait_colossus) == column_value::<i32>(enemy_layout()[94], cells),
        enemy_layout()[95].field == "long_distance_2_flag" && Some(enemy_entity(cells).long_distance_2_flag) == column_value::<i32>(enemy_layout()[95], cells),
        enemy_layout()[96].field == "long_distance_2_anchor" && Some(enemy_entity(cells).long_distance_2_anchor) == column_value::<i32>(enemy_layout()[96], cells),
        enemy_layout()[97].field == "long_distance_2_span" && Some(enemy_entity(cells).long_distance_2_span) == column_value::<i32>(enemy_layout()[97], cells),
        enemy_layout()[98].field == "long_distance_3_flag" && Some(enemy_entity(cells).long_distance_3_flag) == column_value::<i32>(enemy_layout()[98], cells),
        enemy_layout()[99].field == "long_distance_3_anchor" && Some(enemy_entity(cells).long_distance_3_anchor) == column_value::<i32>(enemy_layout()[99], cells),
        enemy_layout()[100].field == "long_distance_3_span" && Some(enemy_entity(cells).long_distance_3_span) == column_value::<i32>(enemy_layout()[100], cells),
        enemy_layout()[101].field == "trait_behemoth" && Some(enemy_entity(cells).trait_behemoth) == column_value::<i32>(enemy_layout()[101], cells),
        enemy_layout()[102].field == "mini_surge_flag" && Some(enemy_entity(cells).mini_surge_flag) == column_value::<i32>(enemy_layout()[102], cells),
        enemy_layout()[103].field == "counter_surge" && Some(enemy_entity(cells).counter_surge) == column_value::<i32>(enemy_layout()[103], cells),
        enemy_layout()[104].field == "trait_sage" && Some(enemy_entity(cells).trait_sage) == column_value::<i32>(enemy_layout()[104], cells),
        enemy_layout()[105].field == "curse_immune" && Some(enemy_entity(cells).curse_immune) == column_value::<i32>(enemy_layout()[105], cells),
        enemy_layout()[106].field == "explosion_chance" && Some(enemy_entity(cells).explosion_chance) == column_value::<i32>(enemy_layout()[106], cells),
        enemy_layout()[107].field == "explosion_spawn_anchor" && Some(enemy_entity(cells).explosion_spawn_anchor) == column_value::<i32>(enemy_layout()[107], cells),
        enemy_layout()[108].field == "explosion_spawn_span" && Some(enemy_entity(cells).explosion_spawn_span) == column_value::<i32>(enemy_layout()[108], cells),
        enemy_layout()[109].field == "explosion_immune" && Some(enemy_entity(cells).explosion_immune) == column_value::<i32>(enemy_layout()[109], cells),
        enemy_layout()[110].field == "trait_kaijin" && Some(enemy_entity(cells).trait_kaijin) == column_value::<i32>(enemy_layout()[110], cells),
        enemy_layout()[111].field == "drain_chance" && Some(enemy_entity(cells).drain_chance) == column_value::<i32>(enemy_layout()[111], cells),
        enemy_layout()[112].field == "drain_percent" && Some(enemy_entity(cells).drain_percent) == column_value::<i32>(enemy_layout()[112], cells),
{
    lemma_columns_reach_fields_0(cells);
    lemma_columns_reach_fields_1(cells);
    lemma_columns_reach_fields_2(cells);
    lemma_columns_reach_fields_3(cells);
    lemma_columns_reach_fields_4(cells);
    lemma_columns_reach_fields_5(cells);
    lemma_columns_reach_fields_6(cells);
    lemma_columns_reach_fields_7(cells);
}

} // verus!
