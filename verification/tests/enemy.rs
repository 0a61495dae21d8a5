use catdata::enemy::unit::enemyname::EnemyName;
use catdata::enemy::unit::enemypicturebook::EnemyPictureBook;
use catdata::enemy::unit::t_unit;
use catdata::enemy::unit::{Tables, Unit};

const TWO_ENEMIES: &str = "header one\nheader two\n100,1,10,50,20,300,75,60,0,120\n400,3,20,90,20,300,75,60,0,120\n";

#[test]
fn assemble_indexes_every_table_by_id() {
    let combat = t_unit::parse(TWO_ENEMIES.as_bytes(), None).unwrap();
    let names = EnemyName::parse(b"Doge\nSnache").unwrap();
    let book = EnemyPictureBook::parse(b"0,A small dog\n1,A red snake").unwrap();

    let tables = Tables { combat: &combat, names: &names, picture_book: &book };

    let doge = Unit::assemble(0, Some(30), &tables);
    assert_eq!(doge.id, 0);
    assert_eq!(doge.name.as_deref(), Some("Doge"));
    assert_eq!(doge.description.as_ref().unwrap()[0], "A small dog");
    assert_eq!(doge.combat.as_ref().unwrap().hitpoints, 100);
    assert_eq!(doge.attack_frames, Some(30));

    let snache = Unit::assemble(1, None, &tables);
    assert_eq!(snache.name.as_deref(), Some("Snache"));
    assert_eq!(snache.combat.as_ref().unwrap().hitpoints, 400);
}

#[test]
fn assemble_leaves_absent_rows_empty() {
    let combat = Vec::new();
    let names = Vec::new();
    let book = Vec::new();
    let tables = Tables { combat: &combat, names: &names, picture_book: &book };

    let unit = Unit::assemble(999, None, &tables);

    assert_eq!(unit.id, 999);
    assert!(unit.name.is_none());
    assert!(unit.description.is_none());
    assert!(unit.combat.is_none());
}

#[test]
fn parse_row_agrees_with_the_whole_table() {
    let raw = TWO_ENEMIES.as_bytes();

    let all = t_unit::parse(raw, None).unwrap();
    assert_eq!(t_unit::parse_row(raw, 1, None).as_ref(), all.get(1));
    assert!(t_unit::parse_row(raw, 99, None).is_none());

    let names = EnemyName::parse(b"Doge\nSnache").unwrap();
    assert_eq!(EnemyName::parse_row(b"Doge\nSnache", 1).as_ref(), names.get(1));
    assert!(EnemyName::parse_row(b"Doge\nSnache", 99).is_none());
}

#[test]
fn placeholder_names_resolve_to_none() {
    let names = EnemyName::parse("Doge\nダミー\n".as_bytes()).unwrap();
    assert_eq!(names[0].name.as_deref(), Some("Doge"));
    assert!(names[1].name.is_none());
}

#[test]
fn a_name_carrying_a_comma_survives_whole() {
    let Ok(names) = EnemyName::parse(b"Chef Bun Bun\nWinged Pigge, le Terrible\n") else {
        panic!("the terminology file parsed to no entries");
    };

    assert_eq!(names[1].name.as_deref(), Some("Winged Pigge, le Terrible"));
    assert_eq!(EnemyName::parse_row(b"a\nWinged Pigge, le Terrible", 1), Some(names[1].clone()));
}

#[test]
fn a_narrow_row_keeps_the_position_of_every_later_enemy() {
    let raw = "h1\nh2\n1,2,3\n400,3,20,90,20,300,75,60,0,120\n\n500,3,20,90,20,300,75,60,0,120\n".as_bytes();
    let all = t_unit::parse(raw, None).unwrap();
    assert_eq!(all.len(), 4);
    assert_eq!(all[0].hitpoints, 1);
    assert_eq!(all[1].hitpoints, 400);
    assert_eq!(all[3].hitpoints, 500);
    assert!(t_unit::parse_row(raw, 0, None).is_none());
    assert!(t_unit::parse_row(raw, 2, None).is_none());
    for id in [1, 3, 4, 99] {
        assert_eq!(t_unit::parse_row(raw, id, None).as_ref(), all.get(id));
    }
}

#[test]
fn a_table_without_a_wide_row_is_empty() {
    assert!(t_unit::parse(b"h1\nh2\n1,2,3\n\n".as_slice(), None).is_err());
    assert!(t_unit::parse(b"h1\nh2\n".as_slice(), None).is_err());
}
