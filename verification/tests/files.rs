use catdata::common::file::Separator;
use catdata::files::gatyaitembuy::{GatyaItemBuy, GatyaItemBuyError};
use catdata::files::gatyaitemname::{GatyaItemName, GatyaItemNameError};

const HEADER: &str = "Rarity,reflectORstorage,Price,stageDropItemID,quantity,SeverID,category,index,srcItemID,mainMenuType,gatyaTicketID,imgID,comment";

const FIRST_ROW: &str = "1,0,1000,0,1,0,3,0,-1,0,-1,-1,スピードアップ";

const DIVERGENT_ROW: &str = "1,0,1000,18,1,404,1,4,-1,5,97,155,にゃんこ福引2017春";

fn parse_one(line: &str) -> GatyaItemBuy {
    GatyaItemBuy::parse(format!("{HEADER}\n{line}").as_bytes(), None)
        .map(|mut rows| rows.remove(0))
        .unwrap()
}

#[test]
fn a_real_row_lands_column_for_column() {
    let row = parse_one(FIRST_ROW);

    assert_eq!(row.rarity, 1, "rarity");
    assert_eq!(row.reflect_or_storage, 0, "reflect_or_storage");
    assert_eq!(row.price, 1000, "price");
    assert_eq!(row.stage_drop_item_id, 0, "stage_drop_item_id");
    assert_eq!(row.quantity, 1, "quantity");
    assert_eq!(row.sever_id, 0, "sever_id");
    assert_eq!(row.category, 3, "category");
    assert_eq!(row.index, 0, "index");
    assert_eq!(row.src_item_id, -1, "src_item_id");
    assert_eq!(row.main_menu_type, 0, "main_menu_type");
    assert_eq!(row.gatya_ticket_id, -1, "gatya_ticket_id");
    assert_eq!(row.img_id, -1, "img_id");
    assert_eq!(row.comment, "スピードアップ", "comment");
    assert!(row.rest.is_empty());
}

#[test]
fn the_drop_identifier_is_not_the_line() {
    let rows = GatyaItemBuy::parse(format!("{HEADER}\n{FIRST_ROW}\n{DIVERGENT_ROW}").as_bytes(), None).unwrap();

    assert_eq!(rows[0].stage_drop_item_id, 0);
    assert_eq!(rows[1].stage_drop_item_id, 18);
    assert_eq!(rows.len(), 2);
}

#[test]
fn an_unnamed_icon_falls_back_to_the_line() {
    let named = parse_one(DIVERGENT_ROW);
    let unnamed = parse_one(FIRST_ROW);

    assert_eq!(named.icon_index(27), 155);
    assert_eq!(unnamed.icon_index(27), 27);
}

#[test]
fn a_header_is_dropped_only_when_the_file_carries_one() {
    let with_header = GatyaItemBuy::parse(format!("{HEADER}\n{FIRST_ROW}").as_bytes(), None).unwrap();
    let without_header = GatyaItemBuy::parse(FIRST_ROW.as_bytes(), None).unwrap();

    assert_eq!(with_header.len(), 1);
    assert_eq!(without_header.len(), 1);
    assert_eq!(with_header[0], without_header[0]);
}

#[test]
fn a_blank_or_short_line_holds_its_place_in_the_file() {
    let rows = GatyaItemBuy::parse(format!("{HEADER}\n{FIRST_ROW}\n\n1,0,1000\n{DIVERGENT_ROW}").as_bytes(), None).unwrap();

    assert_eq!(rows.len(), 4);
    assert_eq!(rows[1], GatyaItemBuy::default());
    assert_eq!(rows[2].price, 1000);
    assert_eq!(rows[2].stage_drop_item_id, -1);
    assert_eq!(rows[2].comment, "");
    assert_eq!(rows[3].stage_drop_item_id, 18);
}

#[test]
fn a_trailing_slash_comment_is_cut_before_the_columns() {
    let row = parse_one("1,0,1000,0,1,0,3,0,-1,0,-1,-1,スピードアップ     //unused");

    assert_eq!(row.comment, "スピードアップ");
    assert!(row.rest.is_empty());
}

#[test]
fn a_trailing_column_is_kept_rather_than_dropped() {
    let row = parse_one("1,0,1000,0,1,0,3,0,-1,0,-1,-1,スピードアップ,12,x");

    assert_eq!(row.rest, [Some(12), None]);
}

#[test]
fn a_file_without_rows_is_rejected() {
    assert_eq!(GatyaItemBuy::parse(b"", None), Err(GatyaItemBuyError::EmptyFile));
    assert_eq!(GatyaItemBuy::parse(HEADER.as_bytes(), None), Err(GatyaItemBuyError::EmptyFile));
    assert_eq!(GatyaItemBuy::parse(format!("{HEADER}\n\n\n").as_bytes(), None), Err(GatyaItemBuyError::EmptyFile));
}

const FULL_ENTRY: &str = "Speed Up|3x Battle Speed!|Tap to toggle between|OFF, x2, x3 speed.|＠|";

const TERMINATED_EARLY: &str = "XP|Purchase XP to power up your Cat Units!|＠|＠||";

const NAME_ONLY: &str = "NP|＠||||";

const BLANK_ENTRY: &str = "|＠||||";

const UNTERMINATED: &str = "Rich Cat|Worker Cat starts the battle at MAX Level.|Seize the advantage in battle without needing|to spend money on upgrading Worker Cat!||";

fn parse_name(line: &str) -> GatyaItemName {
    GatyaItemName::parse(line.as_bytes(), None).map(|mut entries| entries.remove(0)).unwrap()
}

#[test]
fn a_real_entry_keeps_its_name_and_every_description_line() {
    let entry = parse_name(FULL_ENTRY);

    assert_eq!(entry.name.as_deref(), Some("Speed Up"));
    assert_eq!(
        entry.description,
        ["3x Battle Speed!", "Tap to toggle between", "OFF, x2, x3 speed."],
    );
}

#[test]
fn the_terminator_ends_the_description_and_is_never_kept() {
    let terminated = parse_name(TERMINATED_EARLY);
    assert_eq!(terminated.name.as_deref(), Some("XP"));
    assert_eq!(terminated.description, ["Purchase XP to power up your Cat Units!"]);

    let named = parse_name(NAME_ONLY);
    assert_eq!(named.name.as_deref(), Some("NP"));
    assert!(named.description.is_empty());
}

#[test]
fn padding_is_not_a_blank_description_line() {
    let entry = parse_name(UNTERMINATED);

    assert_eq!(entry.description.len(), 3);
    assert_eq!(entry.description[2], "to spend money on upgrading Worker Cat!");
}

#[test]
fn an_unwritten_entry_holds_its_place_in_the_file() {
    let entries = GatyaItemName::parse(format!("{FULL_ENTRY}\n{BLANK_ENTRY}\n\n{NAME_ONLY}").as_bytes(), None).unwrap();

    assert_eq!(entries.len(), 4);
    assert_eq!(entries[1], GatyaItemName::default());
    assert_eq!(entries[2], GatyaItemName::default());
    assert_eq!(entries[3].name.as_deref(), Some("NP"));
}

#[test]
fn a_comma_written_region_reads_the_same_way() {
    let entry = GatyaItemName::parse("スピードアップ,戦闘スピードが3倍速になります,＠,".as_bytes(), Some(Separator::Comma))
        .map(|mut entries| entries.remove(0))
        .unwrap();

    assert_eq!(entry.name.as_deref(), Some("スピードアップ"));
    assert_eq!(entry.description, ["戦闘スピードが3倍速になります"]);
}

#[test]
fn a_file_without_text_is_rejected() {
    assert_eq!(GatyaItemName::parse(b"", None), Err(GatyaItemNameError::EmptyFile));
    assert_eq!(GatyaItemName::parse(b"|||||\n|||||", None), Err(GatyaItemNameError::EmptyFile));
}
