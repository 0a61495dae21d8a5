use std::str::FromStr;
use catdata::common::Region;
use catdata::common::utils::variant::Region as LegacyRegion;
use catdata::common::file::{strip_html_tags, BreakHandling};
use catdata::combat::entity::split_row;
use catdata::common::file::{lookup, resolve, Separator};
use catdata::common::stream::{cell_value, declared_rows, Reader};
use catdata::enemy::unit::t_unit;

fn cells_of(parts: &[&str]) -> Vec<Vec<u8>> {
    parts.iter().map(|part| part.as_bytes().to_vec()).collect()
}

#[test]
fn split_row_drops_the_comment_and_trailing_blanks() {
    assert_eq!(split_row("1,2,3, // ねこ占い師".as_bytes(), b','), cells_of(&["1", "2", "3"]));
    assert_eq!(split_row("1,2,3\t//ネコ杏子".as_bytes(), b','), cells_of(&["1", "2", "3"]));
    assert_eq!(split_row("1,2,3 // ちびタンクネコ".as_bytes(), b','), cells_of(&["1", "2", "3"]));
    assert_eq!(split_row(b"1,,3,,", b','), cells_of(&["1", "", "3"]));
}

#[test]
fn column_tables_cover_every_index_once() {
    let table = t_unit::columns();
    let mut indices: Vec<usize> = table.iter().map(|column| column.index).collect();
    indices.sort_unstable();
    indices.dedup();
    assert_eq!(indices.len(), table.len());
    assert_eq!(indices.last().copied(), Some(table.len() - 1));

    let mut fields: Vec<&str> = table.iter().map(|column| column.field).collect();
    fields.sort_unstable();
    fields.dedup();
    assert_eq!(fields.len(), table.len());
}

#[test]
fn lines_carry_the_blank_ones_and_stop_at_the_end() {
    let mut reader = Reader::new("first\r\n\nlast");

    assert_eq!(reader.line().as_deref(), Some("first"));
    assert_eq!(reader.line().as_deref(), Some(""));
    assert_eq!(reader.line().as_deref(), Some("last"));
    assert_eq!(reader.line(), None);

    assert_eq!(Reader::new("").line(), None);
    assert_eq!(Reader::new("\n").line().as_deref(), Some(""));
    assert_eq!(Reader::new("\r").line().as_deref(), Some("\r"));
}

#[test]
fn a_trailing_delimiter_adds_no_cell() {
    let mut reader = Reader::new("1,2,\n1,2\n,\n\n");

    reader.row();
    assert_eq!(reader.cells(), ["1", "2"]);

    reader.row();
    assert_eq!(reader.cells(), ["1", "2"]);

    reader.row();
    assert_eq!(reader.cells(), [""]);

    reader.row();
    assert_eq!(reader.cells(), [] as [&str; 0]);
}

#[test]
fn a_row_past_the_end_leaves_the_last_one_in_place() {
    let mut reader = Reader::new("7,8");

    reader.row();
    assert_eq!(reader.value(0), 7);

    reader.row();
    assert_eq!(reader.value(0), 7);
    assert_eq!(reader.value(1), 8);
    assert_eq!(reader.value(2), 0);
}

#[test]
fn a_cell_contributes_the_number_in_front_of_its_text() {
    let mut reader = Reader::new(" -12abc,x,3.75,+4,,99999999999");

    reader.row();

    assert_eq!(reader.value(0), -12);
    assert_eq!(reader.value(1), 0);
    assert_eq!(reader.value(2), 3);
    assert_eq!(reader.value(3), 4);
    assert_eq!(reader.value(4), 0);
    assert_eq!(reader.value(5), 99_999_999_999_i64 as i32);

    assert_eq!(cell_value(" 42 tail"), 42);
    assert_eq!(cell_value("tail"), 0);
}

#[test]
fn a_count_the_engine_aborts_on_is_refused() {
    assert_eq!(declared_rows(0), Some(0));
    assert_eq!(declared_rows(12), Some(12));
    assert_eq!(declared_rows(-1), None);
    assert_eq!(declared_rows(i32::MAX), None);
}

#[test]
fn a_bar_anywhere_outranks_an_earlier_comma() {
    assert_eq!(Separator::detect("Soracte, mentor mental|text"), Some(Separator::Pipe));
    assert_eq!(Separator::detect("a\tb,c"), Some(Separator::Tab));
    assert_eq!(Separator::detect("a,b\tc"), Some(Separator::Comma));
    assert_eq!(Separator::detect("one whole name"), None);
}

#[test]
fn a_stated_delimiter_overrides_the_content() {
    let shredded = "Soracte, mentor mental|Un mentor.";
    assert_eq!(Separator::Pipe.split(shredded).len(), 2);
    assert_eq!(Separator::detect(shredded).map(Separator::char), Some('|'));
    assert_eq!(resolve(Some(Separator::Comma), shredded), ',');
    assert_eq!(resolve(None, shredded), '|');
}

#[test]
fn detection_falls_back_to_a_comma() {
    assert_eq!(resolve(None, "one whole name"), ',');
    assert_eq!(Separator::ALL.map(Separator::char), ['|', '\t', ',']);
}

#[test]
fn lookup_reads_the_column_of_the_stated_delimiter() {
    let table = b"1|Soracte, mentor mental|Un mentor.";
    assert_eq!(
        lookup(table, "1", 0, 1, Some(Separator::Pipe)).as_deref(),
        Some("Soracte, mentor mental"),
    );
}

const NARROW_ROW: &str = "100,1,10,50,20,300,75,60,0,120";

#[test]
fn comments_never_reach_the_enemy_columns() {
    let expected = t_unit::parse(format!("h1\nh2\n{NARROW_ROW}").as_bytes(), None).unwrap();
    for shape in [
        format!("{NARROW_ROW}, // ねこ占い師"),
        format!("{NARROW_ROW}\t//ネコ杏子"),
        format!("{NARROW_ROW} // ちびタンクネコ"),
    ] {
        assert_eq!(t_unit::parse(format!("h1\nh2\n{shape}").as_bytes(), None).unwrap(), expected);
    }
}

#[test]
fn an_enemy_value_glued_to_a_comment_survives() {
    let enemies = t_unit::parse(format!("h1\nh2\n{NARROW_ROW},5 // my note").as_bytes(), None).unwrap();
    assert_eq!(enemies[0].trait_red, 5);
}

#[test]
fn a_region_code_resolves_in_any_case() {
    for r in [Region::Ja, Region::En, Region::Tw, Region::Ko] {
        let code = r.metadata().internal_code;
        assert_eq!(Region::from_str(code), Ok(r));
        assert_eq!(Region::from_str(&code.to_uppercase()), Ok(r));
    }
    for r in [LegacyRegion::Ja, LegacyRegion::En, LegacyRegion::Tw, LegacyRegion::Ko] {
        let code = r.metadata().internal_code;
        assert_eq!(LegacyRegion::from_str(code), Some(r));
        assert_eq!(LegacyRegion::from_str(&code.to_uppercase()), Some(r));
    }
    assert_eq!(LegacyRegion::from_str("battlecats"), Some(LegacyRegion::Ja));
    assert_eq!(LegacyRegion::from_str("KR"), Some(LegacyRegion::Ko));
    assert_eq!(LegacyRegion::from_str("us"), None);
    assert!(Region::from_str("us").is_err());
}

#[test]
fn the_csv_scrubber_strips_invalid_bytes() {
    let scrub = catdata::common::utils::csv::scrub;
    assert_eq!(scrub(b"\xEF\xBB\xBFa\r\nb\rc\0d"), "a\nb\ncd");
    assert_eq!(scrub(b"x\xFFy"), "xy");
    assert_eq!(scrub(b"a\xE2\x82b"), "ab");
    assert_eq!(scrub("caf\u{e9}\u{fffd}".as_bytes()), "caf\u{e9}\u{fffd}");
}

#[test]
fn the_file_scrubber_replaces_invalid_bytes() {
    let scrub = catdata::common::file::scrub;
    assert_eq!(scrub(b"\xEF\xBB\xBFa\r\nb\rc\0d"), "a\nb\ncd");
    assert_eq!(scrub(b"x\xFFy"), "x\u{FFFD}y");
}

#[test]
fn scrubbing_twice_changes_nothing() {
    let file_scrub = catdata::common::file::scrub;
    let csv_scrub = catdata::common::utils::csv::scrub;
    for input in [&b"\r\r\n\0a\xEF\xBB\xBF\r"[..], b"x\xFFy\r\n", b"plain text", b""] {
        let once = file_scrub(input);
        assert!(!once.contains('\u{feff}') && !once.contains('\0') && !once.contains('\r'));
        assert_eq!(file_scrub(once.as_bytes()), once);
        let once = csv_scrub(input);
        assert!(!once.contains('\u{feff}') && !once.contains('\0') && !once.contains('\r'));
        assert_eq!(csv_scrub(once.as_bytes()), once);
    }
    assert_eq!(file_scrub("plain\ntext".as_bytes()), "plain\ntext");
    assert_eq!(csv_scrub("plain\ntext".as_bytes()), "plain\ntext");
}

#[test]
fn a_lookup_reads_past_invalid_bytes() {
    assert_eq!(catdata::common::utils::csv::lookup(b"a\xFF,1\nb,2\n", "a", 0, 1), Some("1".to_string()));
}

#[test]
fn tag_stripping_never_lengthens_and_keeps_untagged_text() {
    assert_eq!(strip_html_tags("1 < 2", BreakHandling::Delete), "1 < 2");
    assert_eq!(strip_html_tags("a<b>c", BreakHandling::Delete), "ac");
    assert_eq!(strip_html_tags("x<br>y", BreakHandling::Newline), "x\ny");
    assert_eq!(strip_html_tags("x<br>y", BreakHandling::Space), "x y");
    assert_eq!(strip_html_tags("no tags at all", BreakHandling::Space), "no tags at all");
    assert_eq!(catdata::common::utils::csv::strip_html_tags("<i>Doge</i> < 3", catdata::common::utils::csv::BreakHandling::Delete), "Doge < 3");
    for input in ["a<br>b", "<br><BR>", "plain", "x < y > z", "<b>bold</b>"] {
        for h in [BreakHandling::Space, BreakHandling::Newline, BreakHandling::Delete] {
            assert!(strip_html_tags(input, h).len() <= input.len());
        }
    }
}

#[test]
fn an_atlas_decodes_with_transparent_colour_cleared() {
    let mut img = image::RgbaImage::new(2, 1);
    img.put_pixel(0, 0, image::Rgba([10, 20, 30, 0]));
    img.put_pixel(1, 0, image::Rgba([40, 50, 60, 255]));
    let mut png: Vec<u8> = Vec::new();
    img.write_to(&mut std::io::Cursor::new(&mut png), image::ImageFormat::Png).unwrap();
    let atlas = catdata::common::data::imgcut::decode_atlas(&png).unwrap();
    assert_eq!((atlas.width, atlas.height), (2, 1));
    assert_eq!(atlas.pixels, vec![0, 0, 0, 0, 40, 50, 60, 255]);
    assert!(catdata::common::data::imgcut::decode_atlas(b"not a png").is_none());
}

#[test]
fn a_cut_table_is_read_with_invalid_bytes_stripped() {
    let clean = catdata::common::data::imgcut::sprite_rows(b"2\n0,0,1,1\n1,1,2,2\n");
    let dirty = catdata::common::data::imgcut::sprite_rows(b"2\n0,0,1,1\xFF\n1,1,2,2\n");
    assert_eq!(dirty, clean);
    assert_eq!(clean.len(), 2);
}

#[test]
fn a_dictionary_is_read_with_invalid_bytes_stripped() {
    let dictionary = catdata::common::data::localizable::Localizable::parse(b"greeting\tHel\xFFlo\n").unwrap();
    assert_eq!(dictionary.lookup("greeting"), Some("Hello"));
}
