use catdata::chapter::category::Category;
use catdata::chapter::map::demoncastle::{DemonCastleDefine, DemonCastleError, DemonCastleLimit};
use catdata::chapter::stage::cost::{resolve_energy, CataminGrade, CostType};
use catdata::chapter::stage::mapstagedata::{MapStageData, MapStageDataEntry, MapStageDataError};

#[test]
fn extra_stages_stage_prefix_includes_ex() {
    assert!(Category::ExtraStages.stage_prefix().contains(&"EX".to_string()));
}

#[test]
fn extra_stages_from_prefix_accepts_re_and_ex() {
    assert_eq!(Category::from_prefix("RE"), Category::ExtraStages);
    assert_eq!(Category::from_prefix("EX"), Category::ExtraStages);
}

#[test]
fn extra_stages_global_map_id_matches_map_option_scheme() {
    assert_eq!(Category::ExtraStages.global_map_id(81), Some(4081));
}

#[test]
fn limit_rows_land_column_for_column_and_skip_the_trailing_notes() {
    let rows = DemonCastleLimit::parse(b"3000000,1,0,574\n404200,0,1,574\n\n//note\n//another note\n", None).unwrap();

    assert_eq!(rows.len(), 2);
    assert_eq!((rows[0].stage_key, rows[0].amount, rows[0].unseal, rows[0].enemy_id), (3_000_000, 1, 0, 574));
    assert_eq!((rows[1].map_id(), rows[1].stage()), (4042, 0));
    assert_eq!(rows[1].unseal, 1);
}

#[test]
fn define_rows_follow_the_leading_note() {
    let rows = DemonCastleDefine::parse(b"//a note about the ids\n574,575\n", None).unwrap();

    assert_eq!(rows, vec![DemonCastleDefine { enemy_id: 574, spent_enemy_id: 575, rest: Vec::new() }]);
}

#[test]
fn a_file_of_notes_alone_is_empty() {
    assert_eq!(DemonCastleLimit::parse(b"//only a note\n", None), Err(DemonCastleError::EmptyFile));
}

fn resolved(cost_type: CostType, energy: u32) -> (Option<u32>, u32) {
    let cost = resolve_energy(cost_type, energy);
    (cost.id, cost.value)
}

#[test]
fn energy_resolves_to_itself_and_names_no_currency() {
    assert_eq!(resolved(CostType::Energy, 180), (None, 180));
    assert_eq!(resolved(CostType::Energy, 259030), (None, 259030));
}

#[test]
fn an_item_cost_unpacks_its_identifier_and_quantity() {
    assert_eq!(resolved(CostType::Item, 259010), (Some(259), 10));
    assert_eq!(resolved(CostType::Item, 259100), (Some(259), 100));
}

#[test]
fn an_item_cost_is_never_second_guessed() {
    assert_eq!(resolved(CostType::Item, 300), (Some(0), 300));
    assert_eq!(resolved(CostType::Item, 259000), (Some(259), 0));
    assert_eq!(resolved(CostType::Item, 0), (Some(0), 0));
}

#[test]
fn catamin_keys_select_the_grade() {
    assert_eq!(resolved(CostType::Catamin, 30), (Some(0), 30));
    assert_eq!(resolved(CostType::Catamin, 1030), (Some(1), 30));
    assert_eq!(resolved(CostType::Catamin, 2030), (Some(2), 30));
}

#[test]
fn a_catamin_key_past_the_last_grade_saturates() {
    assert_eq!(resolved(CostType::Catamin, 9030), (Some(2), 30));
}

#[test]
fn a_catamin_quantity_is_never_guarded() {
    assert_eq!(resolved(CostType::Catamin, 0), (Some(0), 0));
    assert_eq!(resolved(CostType::Catamin, 2000), (Some(2), 0));
}

#[test]
fn the_catamin_chapter_overrides_what_the_header_declares() {
    assert_eq!(CostType::of(&Category::CataminStages, CostType::Energy), CostType::Catamin);
    assert_eq!(CostType::of(&Category::CataminStages, CostType::Item), CostType::Catamin);
    assert_eq!(CostType::of(&Category::EventStages, CostType::Item), CostType::Item);
    assert_eq!(CostType::of(&Category::EmpireOfCats, CostType::Energy), CostType::Energy);
}

#[test]
fn a_grade_survives_a_round_trip_through_its_key() {
    for grade in [CataminGrade::A, CataminGrade::B, CataminGrade::C] {
        assert_eq!(CataminGrade::from_key(grade.key()), grade);
    }
}

const HEADERS: &str = "0,0,0\n0,0,0\n";

#[test]
fn blank_rows_do_not_shift_stage_indices() {
    let raw = format!("{HEADERS}10,1000,1,0,-1\n\n30,3000,1,0,-1\n");
    let data = MapStageData::parse(raw.as_bytes()).unwrap();

    assert_eq!(data.entries.len(), 3);
    assert_eq!(data.entries[0].cost, 10);
    assert_eq!(data.entries[0].xp, 1000);
    assert_eq!(data.entries[1], MapStageDataEntry::default());
    assert_eq!(data.entries[2].cost, 30);
    assert_eq!(data.entries[2].xp, 3000);
}

#[test]
fn trailing_blank_rows_are_not_padded() {
    let raw = format!("{HEADERS}10,1000,1,0,-1\n20,2000,1,0,-1\n\n\n");
    let data = MapStageData::parse(raw.as_bytes()).unwrap();

    assert_eq!(data.entries.len(), 2);
    assert_eq!(data.entries[1].cost, 20);
}

#[test]
fn dense_files_are_unaffected() {
    let raw = format!("{HEADERS}10,1000,1,0,-1\n20,2000,1,0,-1\n30,3000,1,0,-1\n");
    let data = MapStageData::parse(raw.as_bytes()).unwrap();

    assert_eq!(data.entries.len(), 3);
    let energies: Vec<u32> = data.entries.iter().map(|entry| entry.cost).collect();
    assert_eq!(energies, vec![10, 20, 30]);
}

#[test]
fn header_columns_are_read_from_the_first_two_rows() {
    let raw = "9,-1,-1,4,5,1600,1\n3\n10,1000,1,0,-1\n";
    let data = MapStageData::parse(raw.as_bytes()).unwrap();

    assert_eq!(data.header.map_number, 9);
    assert_eq!(data.header.map_condition, 4);
    assert_eq!(data.header.stage_condition, 5);
    assert_eq!(data.header.user_rank_threshold, 1600);
    assert_eq!(data.header.cost_type, CostType::Item);
    assert_eq!(data.header.map_pattern, 3);
    assert!(data.header.rest.is_empty());
}

#[test]
fn omitted_header_columns_keep_their_engine_defaults() {
    let raw = "19,-1,-1,-1,-1,    //comment\n1,\t//comment\n10,1000,1,0,-1\n";
    let data = MapStageData::parse(raw.as_bytes()).unwrap();

    assert_eq!(data.header.map_number, 19);
    assert_eq!(data.header.map_condition, -1);
    assert_eq!(data.header.user_rank_threshold, 0);
    assert_eq!(data.header.cost_type, CostType::Energy);
    assert_eq!(data.header.map_pattern, 1);
}

#[test]
fn a_single_column_header_still_parses() {
    let raw = "21,\t//comment\n0\n10,1000,1,0,-1\n";
    let data = MapStageData::parse(raw.as_bytes()).unwrap();

    assert_eq!(data.header.map_number, 21);
    assert_eq!(data.header.unknown_1, -1);
    assert_eq!(data.header.stage_condition, -1);
    assert_eq!(data.entries.len(), 1);
}

#[test]
fn trailing_header_columns_keep_their_positions() {
    let raw = "9,-1,-1,-1,-1,0,1,,42\n0\n10,1000,1,0,-1\n";
    let data = MapStageData::parse(raw.as_bytes()).unwrap();

    assert_eq!(data.header.rest, vec![None, Some(42)]);
}

#[test]
fn a_file_with_no_data_rows_is_an_error() {
    assert_eq!(MapStageData::parse(HEADERS.as_bytes()).unwrap_err(), MapStageDataError::EmptyFile);
}
