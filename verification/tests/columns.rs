
use catdata::combat::entity::Entity;
use catdata::enemy::unit::t_unit::{columns, from_row};

fn field_value(entity: &Entity, field: &str) -> i32 {
    match field {
        "hitpoints" => entity.hitpoints,
        "knockbacks" => entity.knockbacks,
        "speed" => entity.speed,
        "attack_1" => entity.attack_1,
        "attack_cooldown" => entity.attack_cooldown,
        "standing_range" => entity.standing_range,
        "cash_drop" => entity.cash_drop,
        "hitbox_position" => entity.hitbox_position,
        "hitbox_width" => entity.hitbox_width,
        "legacy_strong_against" => entity.legacy_strong_against,
        "trait_red" => entity.trait_red,
        "area_attack" => entity.area_attack,
        "time_until_attack_1" => entity.time_until_attack_1,
        "trait_floating" => entity.trait_floating,
        "trait_dark" => entity.trait_dark,
        "trait_metal" => entity.trait_metal,
        "trait_traitless" => entity.trait_traitless,
        "trait_angel" => entity.trait_angel,
        "trait_alien" => entity.trait_alien,
        "trait_zombie" => entity.trait_zombie,
        "knockback_chance" => entity.knockback_chance,
        "freeze_chance" => entity.freeze_chance,
        "freeze_duration" => entity.freeze_duration,
        "slow_chance" => entity.slow_chance,
        "slow_duration" => entity.slow_duration,
        "critical_chance" => entity.critical_chance,
        "base_destroyer" => entity.base_destroyer,
        "wave_chance" => entity.wave_chance,
        "wave_level" => entity.wave_level,
        "weaken_chance" => entity.weaken_chance,
        "weaken_duration" => entity.weaken_duration,
        "weaken_to" => entity.weaken_to,
        "strengthen_threshold" => entity.strengthen_threshold,
        "strengthen_boost" => entity.strengthen_boost,
        "survive" => entity.survive,
        "long_distance_1_anchor" => entity.long_distance_1_anchor,
        "long_distance_1_span" => entity.long_distance_1_span,
        "wave_immune" => entity.wave_immune,
        "wave_block" => entity.wave_block,
        "knockback_immune" => entity.knockback_immune,
        "freeze_immune" => entity.freeze_immune,
        "slow_immune" => entity.slow_immune,
        "weaken_immune" => entity.weaken_immune,
        "burrow_amount" => entity.burrow_amount,
        "burrow_distance" => entity.burrow_distance,
        "revive_count" => entity.revive_count,
        "revive_time" => entity.revive_time,
        "revive_hp" => entity.revive_hp,
        "trait_witch" => entity.trait_witch,
        "trait_dojo" => entity.trait_dojo,
        "attack_count_total" => entity.attack_count_total,
        "time_before_death" => entity.time_before_death,
        "attack_count_state" => entity.attack_count_state,
        "spawn_animation_type" => entity.spawn_animation_type,
        "soul_animation_type" => entity.soul_animation_type,
        "attack_2" => entity.attack_2,
        "attack_3" => entity.attack_3,
        "time_until_attack_2" => entity.time_until_attack_2,
        "time_until_attack_3" => entity.time_until_attack_3,
        "attack_1_abilities" => entity.attack_1_abilities,
        "attack_2_abilities" => entity.attack_2_abilities,
        "attack_3_abilities" => entity.attack_3_abilities,
        "spawn_animation_flag" => entity.spawn_animation_flag,
        "use_gudetama_soul" => entity.use_gudetama_soul,
        "barrier_hitpoints" => entity.barrier_hitpoints,
        "warp_chance" => entity.warp_chance,
        "warp_duration" => entity.warp_duration,
        "warp_distance_minimum" => entity.warp_distance_minimum,
        "warp_distance_maximum" => entity.warp_distance_maximum,
        "trait_starred_alien" => entity.trait_starred_alien,
        "warp_immune" => entity.warp_immune,
        "trait_eva" => entity.trait_eva,
        "trait_relic" => entity.trait_relic,
        "curse_chance" => entity.curse_chance,
        "curse_duration" => entity.curse_duration,
        "savage_blow_chance" => entity.savage_blow_chance,
        "savage_blow_boost" => entity.savage_blow_boost,
        "dodge_chance" => entity.dodge_chance,
        "dodge_duration" => entity.dodge_duration,
        "toxic_chance" => entity.toxic_chance,
        "toxic_damage" => entity.toxic_damage,
        "surge_chance" => entity.surge_chance,
        "surge_spawn_anchor" => entity.surge_spawn_anchor,
        "surge_spawn_span" => entity.surge_spawn_span,
        "surge_level" => entity.surge_level,
        "surge_immune" => entity.surge_immune,
        "mini_wave_flag" => entity.mini_wave_flag,
        "shield_hitpoints" => entity.shield_hitpoints,
        "shield_regen" => entity.shield_regen,
        "death_surge_chance" => entity.death_surge_chance,
        "death_surge_spawn_anchor" => entity.death_surge_spawn_anchor,
        "death_surge_spawn_span" => entity.death_surge_spawn_span,
        "death_surge_level" => entity.death_surge_level,
        "trait_aku" => entity.trait_aku,
        "trait_colossus" => entity.trait_colossus,
        "long_distance_2_flag" => entity.long_distance_2_flag,
        "long_distance_2_anchor" => entity.long_distance_2_anchor,
        "long_distance_2_span" => entity.long_distance_2_span,
        "long_distance_3_flag" => entity.long_distance_3_flag,
        "long_distance_3_anchor" => entity.long_distance_3_anchor,
        "long_distance_3_span" => entity.long_distance_3_span,
        "trait_behemoth" => entity.trait_behemoth,
        "mini_surge_flag" => entity.mini_surge_flag,
        "counter_surge" => entity.counter_surge,
        "trait_sage" => entity.trait_sage,
        "curse_immune" => entity.curse_immune,
        "explosion_chance" => entity.explosion_chance,
        "explosion_spawn_anchor" => entity.explosion_spawn_anchor,
        "explosion_spawn_span" => entity.explosion_spawn_span,
        "explosion_immune" => entity.explosion_immune,
        "trait_kaijin" => entity.trait_kaijin,
        "drain_chance" => entity.drain_chance,
        "drain_percent" => entity.drain_percent,
        other => panic!("no field named {other}"),
    }
}

#[test]
fn every_column_reaches_the_field_it_names() {
    let table = columns();
    for column in &table {
        let mut cells: Vec<Vec<u8>> = vec![b"0".to_vec(); table.len()];
        cells[column.index] = b"8".to_vec();
        let entity = from_row(&cells);
        assert_eq!(field_value(&entity, column.field), column.scale.apply(8), "{}", column.field);
    }
}

use catdata::chapter::map::demoncastle::{DemonCastleDefine, DemonCastleLimit};
use catdata::chapter::map::map_option::{MapOption, MapOptionEntry};
use catdata::chapter::stage::battleground::{Battleground, BattlegroundEntry};
use catdata::chapter::stage::scatcpusetting::ScatCpuSetting;
use catdata::common::columns::Column;
use catdata::files::gatyaitembuy::GatyaItemBuy;

/// Probes each column of a table with the sentinels one and four over a row
/// of zeros: the only field that may change is the one the column names, and
/// one of the sentinels must change it.
fn assert_one_field_per_column<T>(
    table: &[Column],
    base: &[&str],
    read: impl Fn(&str) -> T,
    fields: impl Fn(&T) -> Vec<(&'static str, String)>,
) {
    let baseline = fields(&read(&base.join(",")));
    for column in table {
        let mut reached = false;
        for sentinel in ["1", "4"] {
            let mut cells: Vec<&str> = base.to_vec();
            cells[column.index] = sentinel;
            let probed = fields(&read(&cells.join(",")));
            let changed: Vec<&str> = baseline
                .iter()
                .zip(&probed)
                .filter(|(before, after)| before.1 != after.1)
                .map(|(before, _)| before.0)
                .collect();
            assert!(
                changed.is_empty() || changed == [column.field],
                "column {} at index {} changed {:?}",
                column.field,
                column.index,
                changed,
            );
            reached |= !changed.is_empty();
        }
        assert!(reached, "column {} at index {} reached no field", column.field, column.index);
    }
}

#[test]
fn demoncastle_every_column_reaches_a_field_of_its_own() {
    assert_one_field_per_column(
        &DemonCastleLimit::columns(),
        &["0"; 4],
        |line| DemonCastleLimit::parse(line.as_bytes(), None).unwrap().remove(0),
        |row| vec![("stage_key", format!("{:?}", row.stage_key)), ("amount", format!("{:?}", row.amount)), ("unseal", format!("{:?}", row.unseal)), ("enemy_id", format!("{:?}", row.enemy_id)), ("rest", format!("{:?}", row.rest))],
    );
    assert_one_field_per_column(
        &DemonCastleDefine::columns(),
        &["0"; 2],
        |line| DemonCastleDefine::parse(line.as_bytes(), None).unwrap().remove(0),
        |row| vec![("enemy_id", format!("{:?}", row.enemy_id)), ("spent_enemy_id", format!("{:?}", row.spent_enemy_id)), ("rest", format!("{:?}", row.rest))],
    );
}

#[test]
fn gatyaitembuy_every_column_reaches_a_field_of_its_own() {
    let mut base = vec!["0"; 12];
    base.push("comment");
    assert_one_field_per_column(
        &GatyaItemBuy::columns(),
        &base,
        |line| GatyaItemBuy::parse(line.as_bytes(), None).unwrap().remove(0),
        |row| vec![("rarity", format!("{:?}", row.rarity)), ("reflect_or_storage", format!("{:?}", row.reflect_or_storage)), ("price", format!("{:?}", row.price)), ("stage_drop_item_id", format!("{:?}", row.stage_drop_item_id)), ("quantity", format!("{:?}", row.quantity)), ("sever_id", format!("{:?}", row.sever_id)), ("category", format!("{:?}", row.category)), ("index", format!("{:?}", row.index)), ("src_item_id", format!("{:?}", row.src_item_id)), ("main_menu_type", format!("{:?}", row.main_menu_type)), ("gatya_ticket_id", format!("{:?}", row.gatya_ticket_id)), ("img_id", format!("{:?}", row.img_id)), ("comment", format!("{:?}", row.comment)), ("rest", format!("{:?}", row.rest))],
    );
}

#[test]
fn scatcpusetting_every_column_reaches_a_field_of_its_own() {
    assert_one_field_per_column(
        &ScatCpuSetting::columns(),
        &["0"; 3],
        |line| ScatCpuSetting::parse(line.as_bytes(), None).unwrap(),
        |row| vec![("unknown_1", format!("{:?}", row.unknown_1)), ("super_cpu_daily_limit", format!("{:?}", row.super_cpu_daily_limit)), ("super_cpu_consume_amount", format!("{:?}", row.super_cpu_consume_amount))],
    );
}

fn ground_fields(ground: &Battleground) -> Vec<(&'static str, String)> {
    vec![("base_id", format!("{:?}", ground.base_id)), ("is_no_continues", format!("{:?}", ground.is_no_continues)), ("width", format!("{:?}", ground.width)), ("base_hp", format!("{:?}", ground.base_hp)), ("min_spawn", format!("{:?}", ground.min_spawn)), ("max_spawn", format!("{:?}", ground.max_spawn)), ("background_id", format!("{:?}", ground.background_id)), ("max_enemies", format!("{:?}", ground.max_enemies)), ("anim_base_id", format!("{:?}", ground.anim_base_id)), ("time_limit", format!("{:?}", ground.time_limit)), ("is_base_indestructible", format!("{:?}", ground.is_base_indestructible)), ("unknown_value", format!("{:?}", ground.unknown_value)), ("entries", format!("{:?}", ground.entries))]
}

const CONFIG_ZEROS: &str = "0,0,0,0,0,0,0,0,0,0";

#[test]
fn battleground_every_column_reaches_a_field_of_its_own() {
    assert_one_field_per_column(
        &Battleground::header_columns(),
        &["0"; 2],
        |line| Battleground::parse(format!("{line}\n{CONFIG_ZEROS}").as_bytes(), None).unwrap(),
        ground_fields,
    );
    assert_one_field_per_column(
        &Battleground::config_columns(),
        &["0"; 10],
        |line| Battleground::parse(line.as_bytes(), None).unwrap(),
        ground_fields,
    );
    let mut enemy = vec!["0"; 14];
    enemy[0] = "2";
    enemy[11] = "5";
    assert_one_field_per_column(
        &BattlegroundEntry::columns(),
        &enemy,
        |line| Battleground::parse(format!("{CONFIG_ZEROS}\n{line}").as_bytes(), None).unwrap().entries.remove(0),
        |entry| vec![("enemy_id", format!("{:?}", entry.enemy_id)), ("amount", format!("{:?}", entry.amount)), ("start_frame", format!("{:?}", entry.start_frame)), ("respawn_min", format!("{:?}", entry.respawn_min)), ("respawn_max", format!("{:?}", entry.respawn_max)), ("base_hp_perc", format!("{:?}", entry.base_hp_perc)), ("layer_min", format!("{:?}", entry.layer_min)), ("layer_max", format!("{:?}", entry.layer_max)), ("boss_type", format!("{:?}", entry.boss_type)), ("magnification", format!("{:?}", entry.magnification)), ("score", format!("{:?}", entry.score)), ("atk_magnification", format!("{:?}", entry.atk_magnification)), ("time_flag", format!("{:?}", entry.time_flag)), ("kill_count", format!("{:?}", entry.kill_count)), ("is_base", format!("{:?}", entry.is_base))],
    );
}

#[test]
fn map_option_every_column_reaches_a_field_of_its_own() {
    assert_one_field_per_column(
        &MapOptionEntry::columns(),
        &["0"; 19],
        |line| {
            let options = MapOption::parse(format!("header\n{line}").as_bytes()).unwrap();
            options.entries.into_values().next().unwrap()
        },
        |entry| vec![("map_id", format!("{:?}", entry.map_id)), ("max_crowns", format!("{:?}", entry.max_crowns)), ("has_abyss", format!("{:?}", entry.has_abyss)), ("crown_1_mag", format!("{:?}", entry.crown_1_mag)), ("crown_2_mag", format!("{:?}", entry.crown_2_mag)), ("crown_3_mag", format!("{:?}", entry.crown_3_mag)), ("crown_4_mag", format!("{:?}", entry.crown_4_mag)), ("reset_type", format!("{:?}", entry.reset_type)), ("max_clears", format!("{:?}", entry.max_clears)), ("cooldown_minutes", format!("{:?}", entry.cooldown_minutes)), ("hidden_upon_clear", format!("{:?}", entry.hidden_upon_clear)), ("comment", format!("{:?}", entry.comment))],
    );
}
