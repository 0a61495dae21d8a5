use catdata::chapter::category::Category;
use catdata::chapter::map::map_name::MapName;
use catdata::chapter::map::map_option::{MapOption, MapOptionError};
use catdata::chapter::map::redirect::redirect_map_id;
use catdata::chapter::map::scorebonusmap::{ScoreBonusMap, ScoreBonusMapError};
use catdata::chapter::map::specialrulesmap::{RuleType, SpecialRulesMap, SpecialRulesMapError};
use catdata::chapter::map::specialrulesmapoption::{SpecialRulesMapOption, SpecialRulesMapOptionError};
use catdata::chapter::stage::battleground::{Battleground, BattlegroundError};
use catdata::chapter::stage::certification_preset::{CertificationPreset, CertificationPresetError};
use catdata::chapter::stage::cost::{resolve_energy, CostType};
use catdata::chapter::stage::mapstagedata::MapStageDataError;
use catdata::common::stream::Reader;
use catdata::error::Error;

#[test]
fn an_image_prefix_is_the_map_prefix_in_lower_case() {
    assert_eq!(Category::CatsOfTheCosmos.map_prefix(), "Space");
    assert_eq!(Category::CatsOfTheCosmos.image_prefix(), "space");
    assert_eq!(Category::EmpireOfCats.image_prefix(), "");
}

fn known_chapters() -> Vec<Category> {
    vec![
        Category::StoriesOfLegend, Category::EventStages, Category::CollabStages,
        Category::EmpireOfCats, Category::IntoTheFuture, Category::CatsOfTheCosmos,
        Category::ExtraStages, Category::DojoHallOfInitiates, Category::TowersAndCitadels,
        Category::DojoRankingEvents, Category::ChallengeBattle, Category::UncannyLegends,
        Category::CataminStages, Category::LegendQuest, Category::ZombieOutbreaks,
        Category::GauntletStages, Category::EnigmaStages, Category::CollabGauntletStages,
        Category::AkuRealms, Category::BehemothCulling, Category::Labyrinth,
        Category::ZeroLegends, Category::OtherworldColosseum, Category::CatclawChampionships,
    ]
}

#[test]
fn the_first_main_story_chapter_has_an_empty_map_prefix() {
    assert_eq!(Category::EmpireOfCats.map_prefix(), "");
    assert_eq!(Category::EmpireOfCats.stage_prefix(), vec!["EC".to_string(), "".to_string()]);
    assert_eq!(Category::from_prefix("ec"), Category::EmpireOfCats);
}

#[test]
fn every_map_prefix_resolves_back_to_its_chapter() {
    for c in known_chapters() {
        assert_eq!(Category::from_prefix(&c.map_prefix()), c);
        assert_eq!(Category::from_prefix(&c.map_prefix().to_lowercase()), c);
        assert_eq!(Category::from_prefix(&c.image_prefix()), c);
    }
}

#[test]
fn every_stage_prefix_resolves_back_to_its_chapter() {
    for c in known_chapters() {
        let v = c.stage_prefix();
        assert!(!v.is_empty() && v.len() <= 2);
        assert!(v.contains(&c.map_prefix()));
        if c != Category::ExtraStages && c != Category::EmpireOfCats {
            assert_eq!(v[0], c.map_prefix());
        }
        for p in v {
            assert_eq!(Category::from_prefix(&p), c);
        }
    }
}

#[test]
fn no_two_chapters_share_a_map_prefix() {
    let all = known_chapters();
    for (i, a) in all.iter().enumerate() {
        for b in all.iter().skip(i + 1) {
            assert_ne!(a.map_prefix().to_uppercase(), b.map_prefix().to_uppercase());
        }
    }
}

#[test]
fn a_prefix_matches_whatever_its_case() {
    assert_eq!(Category::from_prefix("ex"), Category::ExtraStages);
    assert_eq!(Category::from_prefix("space"), Category::CatsOfTheCosmos);
    assert_eq!(Category::from_prefix("zz"), Category::Unknown("zz".to_string()));
    assert_eq!(Category::from_prefix(""), Category::EmpireOfCats);
}

#[test]
fn a_chapter_outside_the_scheme_has_no_global_map_id() {
    assert_eq!(Category::StoriesOfLegend.global_map_id(5), Some(5));
    assert_eq!(Category::EventStages.global_map_id(5), Some(1005));
    assert_eq!(Category::EmpireOfCats.global_map_id(5), None);
}

#[test]
fn redirecting_twice_changes_nothing() {
    for id in [20000, 20001, 22001, 30000, 38000, 3008, 0, 4081] {
        assert_eq!(redirect_map_id(redirect_map_id(id)), redirect_map_id(id));
    }
    assert_eq!(redirect_map_id(20000), 3008);
    assert_eq!(redirect_map_id(4081), 4081);
}

#[test]
fn an_item_cost_round_trips_through_its_packing() {
    let cost = resolve_energy(CostType::Item, 259_030);
    assert_eq!(cost.id.unwrap() * 1000 + cost.value, 259_030);
}

#[test]
fn a_reader_row_past_the_end_keeps_every_cell() {
    let mut reader = Reader::new("1,2,3\n");
    reader.row();
    let before = reader.cells();
    reader.row();
    reader.row();
    assert_eq!(reader.cells(), before);
}

#[test]
fn invalid_utf8_in_a_name_is_replaced_rather_than_refused() {
    let names = MapName::parse(b"0|Ok\n1|Bad\xff\n", None).unwrap();
    assert_eq!(names.names.get(&0).map(String::as_str), Some("Ok"));
    assert_eq!(names.names.get(&1).map(String::as_str), Some("Bad\u{FFFD}"));
}

#[test]
fn a_map_option_table_without_lines_lacks_its_header() {
    assert_eq!(MapOption::parse(b"").unwrap_err(), MapOptionError::MissingHeaders);
    assert_eq!(MapOption::parse(b"header\n\n").unwrap_err(), MapOptionError::EmptyFile);
}

#[test]
fn a_battleground_of_a_header_alone_lacks_its_configuration() {
    assert_eq!(Battleground::parse(b"", None).unwrap_err(), BattlegroundError::EmptyFile);
    assert_eq!(Battleground::parse(b"0,0\n", None).unwrap_err(), BattlegroundError::MissingConfigLine);
}

#[test]
fn malformed_json_documents_are_refused() {
    assert_eq!(SpecialRulesMap::parse(b"{not json").unwrap_err(), SpecialRulesMapError::InvalidJson);
    assert_eq!(ScoreBonusMap::parse(b"[1,").unwrap_err(), ScoreBonusMapError::InvalidJson);
    assert_eq!(SpecialRulesMapOption::parse(b"").unwrap_err(), SpecialRulesMapOptionError::InvalidJson);
    assert_eq!(CertificationPreset::parse(b"}").unwrap_err(), CertificationPresetError::InvalidJson);
}

#[test]
fn a_special_rule_document_is_read_rule_by_rule() {
    let doc = br#"{"MapID":{"3":{"ContentsType":2,"RuleNameLabel":"name","RuleExplanationLabel":"text","RuleType":{"0":{"Parameters":[500]},"42":{"Parameters":[1,2]}}},"x":{}}}"#;
    let rules = SpecialRulesMap::parse(doc).unwrap();
    assert_eq!(rules.entries.len(), 1);
    let entry = rules.entries.get(&3).unwrap();
    assert_eq!(entry.contents_type, 2);
    assert_eq!(entry.name_label, "name");
    assert_eq!(entry.explanation_label, "text");
    assert!(entry.rules.contains(&RuleType::TrustFund(vec![500])));
    assert!(entry.rules.contains(&RuleType::Unknown(42, vec![1, 2])));
}

#[test]
fn a_document_without_maps_is_empty() {
    assert!(SpecialRulesMap::parse(b"{}").unwrap().entries.is_empty());
}

#[test]
fn the_crate_error_reads_as_the_error_it_carries() {
    let error = Error::from(MapStageDataError::EmptyFile);
    assert_eq!(error, Error::MapStageData(MapStageDataError::EmptyFile));
    assert_eq!(error.message(), MapStageDataError::EmptyFile.message());
    assert_eq!(Error::from(BattlegroundError::MissingConfigLine).message(), "The file has a header but is missing the required config line.");
}

use catdata::chapter::map::dropitem::{read_rows, DropItemError};
use catdata::common::data::imgcut::sprite_rows;

const DROP_HEADER: &str = "map,c1,c2,c3,c4,s1,s2,s3,s4,s5,s6,s7,s8,dud,m1,m2,m3,m4,m5,m6,m7,m8";

#[test]
fn a_drop_row_keeps_its_multipliers_as_text_and_reads_the_rest() {
    let table = format!("{DROP_HEADER}\n7,1.0,1.5,2,3.25,1,2,3,4,5,6,7,8,10,11,12,13,14,15,16,17,18,19,x // note\nshort,row\n");
    let rows = read_rows(table.as_bytes(), None).unwrap();
    assert_eq!(rows.len(), 1);
    let row = &rows[0];
    assert_eq!(row.map_id, 7);
    assert_eq!(row.crown_multipliers, vec![b"1.0".to_vec(), b"1.5".to_vec(), b"2".to_vec(), b"3.25".to_vec()]);
    assert_eq!(row.stage_drops, vec![1, 2, 3, 4, 5, 6, 7, 8]);
    assert_eq!(row.dud_chance, 10);
    assert_eq!(row.material_drops, vec![11, 12, 13, 14, 15, 16, 17, 18, 19, 0, 0, 0, 0, 0, 0, 0]);
}

#[test]
fn a_drop_table_of_a_header_alone_is_empty() {
    assert_eq!(read_rows(DROP_HEADER.as_bytes(), None).unwrap_err(), DropItemError::EmptyFile);
}

#[test]
fn a_count_line_marks_the_sprite_lines_after_it() {
    let table = b"[imgcut]\n0\nbody.png\n2\n0,0,10,10,head\n\n10,0,5,5\n20,0,5,5,extra\n";
    let rows = sprite_rows(table);
    assert_eq!(rows.len(), 2);
    assert_eq!(rows[0], vec![b"0".to_vec(), b"0".to_vec(), b"10".to_vec(), b"10".to_vec(), b"head".to_vec()]);
    assert_eq!(rows[1].len(), 4);
}

#[test]
fn without_a_count_line_every_line_is_a_sprite() {
    let rows = sprite_rows(b"1,2,3,4\n5,6,7,8\n");
    assert_eq!(rows.len(), 2);
    assert_eq!(rows[1][0], b"5".to_vec());
}

use catdata::chapter::data::scorebonusmap::RawBonusData;
use catdata::chapter::map::scorebonusmap::BonusType;

#[test]
fn typed_bonus_members_keep_their_readable_keys() {
    let maps = vec![
        (
            "12".to_string(),
            RawBonusData {
                bonus_type: vec![("1".to_string(), vec![5, 6]), ("x".to_string(), vec![1]), ("40".to_string(), vec![])],
                bonus_name_label: Some("name".to_string()),
                bonus_explanation_label: None,
            },
        ),
        ("not a map".to_string(), RawBonusData::default()),
    ];
    let bonuses = ScoreBonusMap::from_raw(&maps);
    assert_eq!(bonuses.entries.len(), 1);
    let entry = &bonuses.entries[&12];
    assert_eq!(entry.bonuses, vec![BonusType::Freeze(vec![5, 6]), BonusType::Unknown(40, vec![])]);
    assert_eq!(entry.name_label, "name");
    assert_eq!(entry.explanation_label, "");
}

use catdata::chapter::map::map_option::ResetType;
use catdata::chapter::stage::battleground::BossType;
use catdata::common::columns::{parse_cell, Scale};

#[test]
fn enumerated_columns_read_through_their_codes() {
    assert_eq!(parse_cell::<CostType>(Some(b" 1 "), b"0", Scale::Raw), Some(CostType::Item));
    assert_eq!(parse_cell::<CostType>(Some(b"7"), b"0", Scale::Raw), Some(CostType::Energy));
    assert_eq!(parse_cell::<CostType>(Some(b"x"), b"1", Scale::Raw), Some(CostType::Item));
    assert_eq!(parse_cell::<BossType>(Some(b"2"), b"0", Scale::Double), Some(BossType::ScreenShake));
    assert_eq!(parse_cell::<BossType>(None, b"9", Scale::Raw), Some(BossType::Unknown(9)));
    assert_eq!(parse_cell::<ResetType>(Some(b"3"), b"0", Scale::Raw), Some(ResetType::ResetMaxClears));
    assert_eq!(parse_cell::<ResetType>(Some(b"-1"), b"", Scale::Raw), None);
}

#[test]
fn a_table_reaches_one_past_its_widest_column() {
    let row: Vec<Vec<u8>> = vec![b"4".to_vec(), b"5".to_vec(), b"6".to_vec()];
    let table = [
        catdata::common::columns::Column { field: "b", index: 2, scale: Scale::Raw, default: "0" },
        catdata::common::columns::Column { field: "a", index: 0, scale: Scale::Raw, default: "0" },
    ];
    let (values, width) = catdata::common::columns::apply::<i32>(&row, &table);
    assert_eq!(values, vec![Some(6), Some(4)]);
    assert_eq!(width, 3);
    let (values, width) = catdata::common::columns::apply::<i32>(&row, &[]);
    assert!(values.is_empty());
    assert_eq!(width, 1);
}

#[test]
fn wide_unsigned_columns_read_and_scale() {
    assert_eq!(parse_cell::<u64>(Some(b" 18446744073709551615 "), b"0", Scale::Raw), Some(u64::MAX));
    assert_eq!(parse_cell::<u64>(Some(b"9223372036854775808"), b"0", Scale::Double), Some(u64::MAX));
    assert_eq!(parse_cell::<u64>(Some(b"-1"), b"7", Scale::Quarter), Some(1));
    assert_eq!(parse_cell::<usize>(Some(b"400"), b"0", Scale::Quarter), Some(100));
    assert_eq!(parse_cell::<usize>(Some(b"21"), b"0", Scale::Double), Some(42));
    assert_eq!(parse_cell::<usize>(None, b"x", Scale::Raw), None);
}
