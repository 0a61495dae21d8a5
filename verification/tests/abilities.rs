use catdata::combat::abilities::{
    get_ability, get_talent, registry, AttrUnit, AttrValue, Identity, Stored,
};
use catdata::combat::entity::{Entity, Faction};
use catdata::combat::talent::TalentGroup;
use catdata::common::columns::Scale;
use catdata::enemy::abilities as enemy_abilities;
use catdata::enemy::data::t_unit::Battle;

#[test]
fn every_talent_value_addresses_a_declared_pair() {
    for ability in registry() {
        assert!(
            ability.talent_values.len() <= 4,
            "{:?} describes more pairs than a talent group declares",
            ability.identity,
        );
    }
}

#[test]
fn only_appliable_talents_describe_pairs() {
    for ability in registry() {
        assert!(
            ability.talent_values.is_empty() || ability.applies_talent,
            "{:?} describes pairs it never consumes",
            ability.identity,
        );
    }
}

#[test]
fn an_inverted_pair_round_trips_through_its_base() {
    assert_eq!(Stored::Direct.apply(30), 30);
    assert_eq!(Stored::Inverted(100).apply(30), 70);
    assert_eq!(Stored::Inverted(100).apply(Stored::Inverted(100).apply(30)), 30);
}

#[test]
fn weaken_labels_the_pair_its_closure_reads_third() {
    let Some(weaken) = get_talent(1) else {
        panic!("talent 1 grants no ability");
    };

    let labels: Vec<&str> = weaken.talent_values.iter().map(|value| value.label).collect();
    assert_eq!(labels, ["Chance", "Duration", "Reduced To"]);

    let Some(reduced_to) = weaken.talent_values.get(2).copied() else {
        panic!("weaken describes no third pair");
    };
    assert!(!reduced_to.interpolated);
    assert_eq!(reduced_to.stored, Stored::Inverted(100));

    let group = TalentGroup { min_3: 70, ..Default::default() };
    let mut stats = Entity::default();
    assert!(weaken.apply_talent(&mut stats, 10, 60, &group));
    assert_eq!(stats.weaken_to, reduced_to.stored.apply(i32::from(group.min_3)));
}

#[test]
fn a_surge_spawn_pair_is_quartered_and_never_interpolated() {
    let Some(surge) = get_talent(56) else {
        panic!("talent 56 grants no ability");
    };

    let group = TalentGroup { min_3: 400, max_3: 800, min_4: 200, max_4: 600, ..Default::default() };
    let mut stats = Entity::default();
    assert!(surge.apply_talent(&mut stats, 5, 1, &group));

    let Some(anchor) = surge.talent_values.get(2).copied() else {
        panic!("surge describes no third pair");
    };
    assert!(!anchor.interpolated);
    assert_eq!(anchor.scale, Scale::Quarter);
    assert_eq!(stats.surge_spawn_anchor, anchor.scale.apply(i32::from(group.min_3)));
}

#[test]
fn a_talent_adds_to_a_status_effect_it_already_carries() {
    let freeze = get_ability(Identity::Freeze).unwrap();
    let mut stats = Entity::default();
    let group = TalentGroup::default();
    assert!(freeze.apply_talent(&mut stats, 10, 30, &group));
    assert_eq!((stats.freeze_chance, stats.freeze_duration), (10, 30));
    assert!(freeze.apply_talent(&mut stats, 0, 12, &group));
    assert_eq!((stats.freeze_chance, stats.freeze_duration), (10, 42));
    let chance_group = TalentGroup { text_id: 74, ..Default::default() };
    assert!(freeze.apply_talent(&mut stats, 5, 0, &chance_group));
    assert_eq!((stats.freeze_chance, stats.freeze_duration), (15, 42));

    let trait_red = get_talent(33).unwrap();
    assert!(trait_red.apply_talent(&mut stats, 0, 0, &group));
    assert_eq!(stats.trait_red, 1);

    let cost_down = get_ability(Identity::CostDown).unwrap();
    stats.eoc1_cost = 100;
    assert!(cost_down.apply_talent(&mut stats, 150, 0, &group));
    assert_eq!(stats.eoc1_cost, -50);

    let before = stats;
    let single = get_ability(Identity::SingleAttack).unwrap();
    assert!(!single.apply_talent(&mut stats, 1, 1, &group));
    let attack_buff = get_ability(Identity::AttackBuff).unwrap();
    assert!(!attack_buff.apply_talent(&mut stats, 10, 0, &group));
    assert_eq!(stats, before);
}

#[test]
fn a_shared_talent_identifier_finds_the_first_ability_in_the_registry() {
    assert_eq!(get_talent(7).map(|ability| ability.identity), Some(Identity::MassiveDamage));
    assert_eq!(get_talent(6).map(|ability| ability.identity), Some(Identity::Resist));
    assert!(get_talent(0).is_none());
    assert!(get_talent(200).is_none());
}

#[test]
fn every_identity_has_a_definition() {
    for ability in registry() {
        let found = get_ability(ability.identity).unwrap();
        assert_eq!(found.identity, ability.identity);
        assert_eq!(found.talent_id, ability.talent_id);
        assert_eq!(found.schema, ability.schema);
    }
    assert_eq!(registry().len(), 101);
}

#[test]
fn a_sentinel_below_zero_is_unbounded() {
    assert_eq!(AttrValue::from_sentinel(-1), AttrValue::Infinite);
    assert_eq!(AttrValue::from_sentinel(0), AttrValue::Finite(0));
    assert_eq!(AttrValue::from_sentinel(3), AttrValue::Finite(3));
    assert_eq!(AttrValue::from(-1), AttrValue::Finite(-1));
}

#[test]
fn a_wave_reaches_two_hundred_further_per_level() {
    let wave = get_ability(Identity::WaveAttack).unwrap();
    let mut stats = Entity { wave_chance: 50, wave_level: 1, ..Entity::default() };
    assert_eq!(
        wave.attributes(&stats),
        vec![
            ("Chance", AttrValue::Finite(50), AttrUnit::Percent),
            ("Level", AttrValue::Finite(1), AttrUnit::Unitless),
            ("Max Reach", AttrValue::Finite(333), AttrUnit::Range),
        ],
    );
    stats.wave_level = 3;
    assert_eq!(wave.attributes(&stats)[2].1, AttrValue::Finite(733));
    stats.wave_level = -1;
    assert_eq!(wave.attributes(&stats)[2].1, AttrValue::Finite(-68));
    stats.faction = Faction::Enemy;
    stats.wave_level = 1;
    assert_eq!(wave.attributes(&stats)[2].1, AttrValue::Finite(468));
    stats.mini_wave_flag = 1;
    assert!(wave.attributes(&stats).is_empty());
    assert_eq!(get_ability(Identity::MiniWave).unwrap().attributes(&stats).len(), 3);
}

#[test]
fn a_surge_range_adds_its_width_to_its_start() {
    let surge = get_ability(Identity::SurgeAttack).unwrap();
    let stats = Entity {
        surge_chance: 100,
        surge_level: 2,
        surge_spawn_anchor: 100,
        surge_spawn_span: 50,
        ..Entity::default()
    };
    let attributes = surge.attributes(&stats);
    assert_eq!(attributes[2], ("Min Range", AttrValue::Finite(100), AttrUnit::Range));
    assert_eq!(attributes[3], ("Max Range", AttrValue::Finite(150), AttrUnit::Range));
    assert_eq!(attributes[4], ("Width", AttrValue::Finite(50), AttrUnit::Range));
}

#[test]
fn a_burrow_count_of_minus_one_is_unbounded() {
    let burrow = get_ability(Identity::Burrow).unwrap();
    let stats = Entity { burrow_amount: -1, burrow_distance: 300, ..Entity::default() };
    assert_eq!(
        burrow.attributes(&stats),
        vec![
            ("Count", AttrValue::Infinite, AttrUnit::Unitless),
            ("Distance", AttrValue::Finite(300), AttrUnit::Range),
        ],
    );
    assert!(burrow.attributes(&Entity::default()).is_empty());
}

#[test]
fn single_and_area_attacks_split_on_the_area_flag() {
    let single = get_ability(Identity::SingleAttack).unwrap();
    let area = get_ability(Identity::AreaAttack).unwrap();
    let stats = Entity::default();
    assert_eq!(single.attributes(&stats), vec![("Active", AttrValue::Finite(1), AttrUnit::Unitless)]);
    assert!(area.attributes(&stats).is_empty());
    let stats = Entity { area_attack: 1, ..Entity::default() };
    assert!(single.attributes(&stats).is_empty());
    assert_eq!(area.attributes(&stats).len(), 1);
}

#[test]
fn an_omni_strike_is_not_also_long_distance() {
    let long = get_ability(Identity::LongDistance).unwrap();
    let omni = get_ability(Identity::OmniStrike).unwrap();
    let ranged = Entity { long_distance_1_anchor: 100, long_distance_1_span: 200, ..Entity::default() };
    assert_eq!(long.attributes(&ranged).len(), 1);
    assert!(omni.attributes(&ranged).is_empty());
    let behind = Entity { long_distance_1_anchor: 100, long_distance_1_span: -200, ..Entity::default() };
    assert!(long.attributes(&behind).is_empty());
    assert_eq!(omni.attributes(&behind).len(), 1);
}

#[test]
fn an_enemy_wave_reaches_from_the_enemy_base() {
    let wave = enemy_abilities::get_ability(enemy_abilities::Identity::WaveAttack).unwrap();
    let stats = Battle { wave_chance: 20, wave_level: 2, ..Battle::default() };
    assert_eq!(
        wave.attributes(&stats),
        vec![
            ("Chance", 20, enemy_abilities::AttrUnit::Percent),
            ("Level", 2, enemy_abilities::AttrUnit::Unitless),
            ("Max Reach", 668, enemy_abilities::AttrUnit::Range),
        ],
    );
    assert_eq!(enemy_abilities::registry().len(), 62);
}

#[test]
fn an_enemy_revive_count_keeps_its_raw_value() {
    let revive = enemy_abilities::get_ability(enemy_abilities::Identity::Revive).unwrap();
    assert!(revive.minus_one_is_inf);
    let stats = Battle { revive_count: -1, revive_time: 60, revive_hp: 50, ..Battle::default() };
    assert_eq!(revive.attributes(&stats)[0], ("Count", -1, enemy_abilities::AttrUnit::Unitless));
}

fn float_reach(base: f32, level: i32) -> i32 {
    (base + ((level - 1) as f32 * 200.0)).round() as i32
}

fn sample_levels() -> Vec<i32> {
    let mut levels = vec![
        1, 2, 3, 0, -1, -2, -5, 41_943, 41_944, 83_886, 100_000, 1_000_000, 10_737_418, 10_737_419,
        16_777_216, 16_777_217, 16_777_219, 33_554_435, 123_456_789, -987_654_321, -16_777_219,
        i32::MAX, i32::MAX - 1, i32::MIN + 1, i32::MIN + 2,
    ];
    let mut state: u64 = 0x2545_f491_4f6c_dd1d;
    for _ in 0..20_000 {
        state = state.wrapping_mul(6_364_136_223_846_793_005).wrapping_add(1_442_695_040_888_963_407);
        let level = (state >> 32) as u32 as i32;
        if level != i32::MIN {
            levels.push(level);
        }
        levels.push(level >> (state % 24) as u32);
    }
    levels.retain(|&level| level != i32::MIN);
    levels
}

#[test]
fn a_wave_reach_matches_single_precision_arithmetic() {
    let wave = get_ability(Identity::WaveAttack).unwrap();
    let enemy_wave = enemy_abilities::get_ability(enemy_abilities::Identity::WaveAttack).unwrap();
    for level in sample_levels() {
        let cat = Entity { wave_chance: 1, wave_level: level, ..Entity::default() };
        assert_eq!(wave.attributes(&cat)[2].1, AttrValue::Finite(float_reach(332.5, level)), "cat level {level}");
        let enemy = Entity { faction: Faction::Enemy, ..cat };
        assert_eq!(wave.attributes(&enemy)[2].1, AttrValue::Finite(float_reach(467.5, level)), "enemy level {level}");
        let battle = Battle { wave_chance: 1, wave_level: level, ..Battle::default() };
        assert_eq!(enemy_wave.attributes(&battle)[2].1, float_reach(467.5, level), "battle level {level}");
    }
}
