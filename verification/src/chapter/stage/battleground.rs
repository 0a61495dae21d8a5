//! A stage's battlefield: its base, its spawn configuration, and the enemy
//! lines that populate it.

use vstd::prelude::*;

use crate::common::columns::{column_value, lemma_default_texts, Column, FromColumn, Scale};
use vstd::string::StringSliceAdditionalSpecFns;
use crate::text::{spec_u32, to_u32};

use crate::common::file::{open_table, resolve_spec, table_lines, Separator};
use crate::text::{cell_u32, clean_line, content_of, flag_of, get_flag, get_i32_or, get_u32, get_u32_or, has_content,
    i32_or, scrubbed, split_bytes, split_on, trim, trimmed, u32_or, views};

verus! {

/// Represents errors that can occur while parsing a battlefield.
#[derive(Debug, Clone, PartialEq, Eq)]
#[non_exhaustive]
pub enum BattlegroundError {
    /// The file has no line with content.
    EmptyFile,
    /// The file has a header but is missing the required config line.
    MissingConfigLine,
}

impl BattlegroundError {
    /// A human-readable description of the error.
    #[verifier::allow_in_spec]
    pub fn message(&self) -> &'static str
        returns
            (match self {
                BattlegroundError::EmptyFile => "The provided byte slice contained no valid battleground data.",
                BattlegroundError::MissingConfigLine => "The file has a header but is missing the required config line.",
            }),
    {
        match self {
            BattlegroundError::EmptyFile => "The provided byte slice contained no valid battleground data.",
            BattlegroundError::MissingConfigLine => "The file has a header but is missing the required config line.",
        }
    }
}

/// How an enemy's arrival is staged.
#[derive(Debug, Clone, Copy, PartialEq, Eq, Default)]
pub enum BossType {
    /// An ordinary enemy.
    #[default]
    NoBoss,
    /// A boss, announced on arrival.
    Boss,
    /// A boss whose arrival shakes the screen.
    ScreenShake,
    /// A code this parser does not recognize, carrying its raw value.
    Unknown(u32),
}

/// The staging a code names.
pub open spec fn boss_type_of(value: u32) -> BossType {
    if value == 0 {
        BossType::NoBoss
    } else if value == 1 {
        BossType::Boss
    } else if value == 2 {
        BossType::ScreenShake
    } else {
        BossType::Unknown(value)
    }
}

impl From<u32> for BossType {
    fn from(value: u32) -> (r: Self) {
        match value {
            0 => BossType::NoBoss,
            1 => BossType::Boss,
            2 => BossType::ScreenShake,
            _ => BossType::Unknown(value),
        }
    }
}

impl vstd::std_specs::convert::FromSpecImpl<u32> for BossType {
    open spec fn obeys_from_spec() -> bool {
        true
    }

    open spec fn from_spec(value: u32) -> Self {
        boss_type_of(value)
    }
}

impl FromColumn for BossType {
    /// A boss column names the kind its text reads as, as a `u32`.
    open spec fn column_spec(text: Seq<u8>) -> Option<BossType> {
        match spec_u32(text) {
            Some(v) => Some(boss_type_of(v)),
            None => None,
        }
    }

    open spec fn scaled_spec(self, scale: Scale) -> BossType {
        self
    }

    fn from_column(text: &[u8]) -> (r: Option<BossType>) {
        match to_u32(text) {
            Some(v) => Some(BossType::from(v)),
            None => None,
        }
    }

    fn scaled(self, scale: Scale) -> (r: BossType) {
        self
    }
}

/// How many of an enemy a line spawns.
#[derive(Debug, Clone, Copy, PartialEq, Eq, Default)]
pub enum EnemyAmount {
    /// The enemy keeps spawning.
    #[default]
    Infinite,
    /// The enemy spawns this many times.
    Limit(u32),
}

/// One enemy line of a battlefield.
#[derive(Default, Debug, Clone, Copy, PartialEq, Eq)]
pub struct BattlegroundEntry {
    /// The enemy's identifier.
    pub enemy_id: u32,
    /// How many of the enemy spawn.
    pub amount: EnemyAmount,
    /// The frame of the first spawn.
    pub start_frame: u32,
    /// The shortest delay in frames between spawns.
    pub respawn_min: u32,
    /// The longest delay in frames between spawns.
    pub respawn_max: u32,
    /// The base health percentage at which the enemy starts spawning.
    pub base_hp_perc: u32,
    /// The lowest layer the enemy is drawn on.
    pub layer_min: i32,
    /// The highest layer the enemy is drawn on.
    pub layer_max: i32,
    /// How the enemy's arrival is staged.
    pub boss_type: BossType,
    /// The enemy's health percentage.
    pub magnification: u32,
    /// The score the enemy is worth.
    pub score: u32,
    /// The enemy's attack percentage.
    pub atk_magnification: u32,
    /// Whether the start frame counts from the stage's start rather than from the previous spawn.
    pub time_flag: u32,
    /// The number of kills that must precede the first spawn.
    pub kill_count: u32,
    /// Whether the enemy is the base itself.
    pub is_base: bool,
}

/// The parsed contents of a battlefield file.
#[derive(Default, Debug, Clone, PartialEq, Eq)]
pub struct Battleground {
    /// The base's enemy identifier.
    pub base_id: i32,
    /// Whether the stage refuses continues.
    pub is_no_continues: bool,
    /// The stage's width.
    pub width: u32,
    /// The base's health.
    pub base_hp: u32,
    /// The shortest delay in frames between spawns.
    pub min_spawn: u32,
    /// The longest delay in frames between spawns.
    pub max_spawn: u32,
    /// The background the stage is drawn on.
    pub background_id: u32,
    /// The most enemies on the field at once.
    pub max_enemies: u32,
    /// The enemy line that is the base itself.
    pub anim_base_id: u32,
    /// The stage's time limit.
    pub time_limit: u32,
    /// Whether the base cannot be destroyed.
    pub is_base_indestructible: bool,
    /// A column whose effect on the engine is not established.
    pub unknown_value: u32,
    /// The enemy lines, in order.
    pub entries: Vec<BattlegroundEntry>,
}

/// The abstract value of a battlefield.
pub struct GroundView {
    pub base_id: i32,
    pub is_no_continues: bool,
    pub width: u32,
    pub base_hp: u32,
    pub min_spawn: u32,
    pub max_spawn: u32,
    pub background_id: u32,
    pub max_enemies: u32,
    pub anim_base_id: u32,
    pub time_limit: u32,
    pub is_base_indestructible: bool,
    pub unknown_value: u32,
    pub entries: Seq<BattlegroundEntry>,
}

impl View for Battleground {
    type V = GroundView;

    open spec fn view(&self) -> GroundView {
        GroundView {
            base_id: self.base_id,
            is_no_continues: self.is_no_continues,
            width: self.width,
            base_hp: self.base_hp,
            min_spawn: self.min_spawn,
            max_spawn: self.max_spawn,
            background_id: self.background_id,
            max_enemies: self.max_enemies,
            anim_base_id: self.anim_base_id,
            time_limit: self.time_limit,
            is_base_indestructible: self.is_base_indestructible,
            unknown_value: self.unknown_value,
            entries: self.entries@,
        }
    }
}

/// A `u32` doubled, saturating at its upper bound.
pub open spec fn double_u32(v: u32) -> u32 {
    if v > 0x7fff_ffff { u32::MAX } else { (2 * v) as u32 }
}

fn double(v: u32) -> (r: u32)
    ensures
        r == double_u32(v),
{
    if v > 0x7fff_ffff { u32::MAX } else { 2 * v }
}

/// The content of each line that has any, in order.
pub open spec fn clean_lines(lines: Seq<Seq<u8>>) -> Seq<Seq<u8>>
    decreases lines.len(),
{
    if lines.len() == 0 {
        Seq::empty()
    } else if content_of(lines.last()).len() > 0 {
        clean_lines(lines.drop_last()).push(content_of(lines.last()))
    } else {
        clean_lines(lines.drop_last())
    }
}

/// Whether the first line is a header: it has at most seven columns, or its
/// seventh is blank.
pub open spec fn is_header(parts: Seq<Seq<u8>>) -> bool {
    parts.len() <= 7 || trim(parts[6]).len() == 0
}

/// The enemy line a row's columns declare, given the line the base takes.
pub open spec fn entry_of(p: Seq<Seq<u8>>, anim_base_id: u32) -> BattlegroundEntry {
    let raw = u32_or(p, 0, 0);
    let respawn_min = double_u32(u32_or(p, 3, 0));
    let declared = u32_or(p, 1, 0);
    let magnification = u32_or(p, 9, 100);
    let atk = u32_or(p, 11, 0);
    BattlegroundEntry {
        enemy_id: if raw >= 2 { (raw - 2) as u32 } else { 0 },
        amount: if declared == 0 || respawn_min == 0 { EnemyAmount::Infinite } else { EnemyAmount::Limit(declared) },
        start_frame: double_u32(u32_or(p, 2, 0)),
        respawn_min,
        respawn_max: double_u32(u32_or(p, 4, 0)),
        base_hp_perc: u32_or(p, 5, 0),
        layer_min: i32_or(p, 6, 0),
        layer_max: i32_or(p, 7, 0),
        boss_type: boss_type_of(u32_or(p, 8, 0)),
        magnification,
        score: u32_or(p, 10, 0),
        atk_magnification: if atk != 0 { atk } else { magnification },
        time_flag: u32_or(p, 12, 0),
        kill_count: u32_or(p, 13, 0),
        is_base: raw == anim_base_id,
    }
}

/// The enemy lines of a battlefield: each line in turn until one whose enemy
/// column reads as zero, without the placeholder enemy twenty-one spawning
/// at frame twenty-seven thousand.
pub open spec fn enemies_of(rows: Seq<Seq<u8>>, d: u8, anim_base_id: u32) -> Seq<BattlegroundEntry>
    decreases rows.len(),
{
    if rows.len() == 0 {
        Seq::empty()
    } else {
        let p = split_on(rows[0], d);
        if u32_or(p, 0, 0) == 0 {
            Seq::empty()
        } else {
            let e = entry_of(p, anim_base_id);
            if e.enemy_id == 21 && e.start_frame == 27000 {
                enemies_of(rows.skip(1), d, anim_base_id)
            } else {
                seq![e] + enemies_of(rows.skip(1), d, anim_base_id)
            }
        }
    }
}

/// The battlefield a file's lines with content declare.
pub open spec fn ground_of(cl: Seq<Seq<u8>>, d: u8) -> Result<GroundView, BattlegroundError> {
    if cl.len() == 0 {
        Err(BattlegroundError::EmptyFile)
    } else {
        let p0 = split_on(cl[0], d);
        let header = is_header(p0);
        if header && cl.len() < 2 {
            Err(BattlegroundError::MissingConfigLine)
        } else {
            let ci: int = if header { 1 } else { 0 };
            let cp = split_on(cl[ci], d);
            let min_spawn = u32_or(cp, 2, 0);
            let anim_base_id = u32_or(cp, 6, 0);
            Ok(GroundView {
                base_id: if header { i32_or(p0, 0, 0) } else { 0 },
                is_no_continues: if header { flag_of(p0, 1) } else { false },
                width: u32_or(cp, 0, 0),
                base_hp: u32_or(cp, 1, 0),
                min_spawn,
                max_spawn: match cell_u32(cp, 3) { Some(v) => v, None => min_spawn },
                background_id: u32_or(cp, 4, 0),
                max_enemies: u32_or(cp, 5, 0),
                anim_base_id,
                time_limit: u32_or(cp, 7, 0),
                is_base_indestructible: flag_of(cp, 8),
                unknown_value: u32_or(cp, 9, 0),
                entries: enemies_of(cl.skip(ci + 1), d, anim_base_id),
            })
        }
    }
}

fn read_entry(p: &Vec<Vec<u8>>, anim_base_id: u32) -> (r: BattlegroundEntry)
    ensures
        r == entry_of(views(p@), anim_base_id),
{
    let raw = get_u32_or(p, 0, 0);
    let respawn_min = double(get_u32_or(p, 3, 0));
    let declared = get_u32_or(p, 1, 0);
    let magnification = get_u32_or(p, 9, 100);
    let atk = get_u32_or(p, 11, 0);
    BattlegroundEntry {
        enemy_id: if raw >= 2 { raw - 2 } else { 0 },
        amount: if declared == 0 || respawn_min == 0 { EnemyAmount::Infinite } else { EnemyAmount::Limit(declared) },
        start_frame: double(get_u32_or(p, 2, 0)),
        respawn_min,
        respawn_max: double(get_u32_or(p, 4, 0)),
        base_hp_perc: get_u32_or(p, 5, 0),
        layer_min: get_i32_or(p, 6, 0),
        layer_max: get_i32_or(p, 7, 0),
        boss_type: BossType::from(get_u32_or(p, 8, 0)),
        magnification,
        score: get_u32_or(p, 10, 0),
        atk_magnification: if atk != 0 { atk } else { magnification },
        time_flag: get_u32_or(p, 12, 0),
        kill_count: get_u32_or(p, 13, 0),
        is_base: raw == anim_base_id,
    }
}

impl Battleground {
    /// Parses a battlefield file.
    ///
    /// Lines are read without their `//` comments, and lines with no content
    /// are passed over. The first line is a header carrying the base and the
    /// continue rule where it has at most seven columns or a blank seventh,
    /// and the configuration line follows it; otherwise the first line is the
    /// configuration line. Each later line is an enemy line, until one whose
    /// enemy column reads as zero.
    ///
    /// # Returns
    /// The battlefield; `BattlegroundError::EmptyFile` exactly when no line
    /// has content, and `BattlegroundError::MissingConfigLine` exactly when a
    /// header is the only line.
    pub fn parse(bytes: &[u8], separator: Option<Separator>) -> (r: Result<Self, BattlegroundError>)
        ensures
            ({
                let cl = clean_lines(table_lines(bytes@));
                let d = resolve_spec(separator, scrubbed(bytes@));
                match r {
                    Ok(g) => ground_of(cl, d) == Ok::<GroundView, BattlegroundError>(g@),
                    Err(e) => ground_of(cl, d) == Err::<GroundView, BattlegroundError>(e),
                }
            }),
    {
        let (lines, d) = open_table(bytes, separator);
        let ghost ls = views(lines@);
        let mut cl: Vec<Vec<u8>> = Vec::new();
        let mut i: usize = 0;
        while i < lines.len()
            invariant
                i <= lines@.len(),
                ls == views(lines@),
                views(cl@) == clean_lines(ls.take(i as int)),
            decreases lines@.len() - i,
        {
            proof {
                assert(ls.take(i + 1).drop_last() =~= ls.take(i as int));
                assert(ls.take(i + 1).last() == lines@[i as int]@);
            }
            let line = lines[i].as_slice();
            if has_content(line) {
                let c = clean_line(line);
                proof {
                    crate::text::lemma_views_push(cl@, c);
                }
                cl.push(c);
            }
            i += 1;
        }
        proof {
            assert(ls.take(i as int) =~= ls);
        }
        let ghost cs = views(cl@);
        if cl.len() == 0 {
            return Err(BattlegroundError::EmptyFile);
        }
        let p0 = split_bytes(cl[0].as_slice(), d);
        let header = if p0.len() <= 7 {
            true
        } else {
            let t = trimmed(p0[6].as_slice());
            t.len() == 0
        };
        if header && cl.len() < 2 {
            return Err(BattlegroundError::MissingConfigLine);
        }
        let ci: usize = if header { 1 } else { 0 };
        let cp = split_bytes(cl[ci].as_slice(), d);
        let min_spawn = get_u32_or(&cp, 2, 0);
        let anim_base_id = get_u32_or(&cp, 6, 0);
        let mut entries: Vec<BattlegroundEntry> = Vec::new();
        let mut k: usize = ci + 1;
        assert(cs.skip(ci + 1).skip(0) =~= cs.skip(ci + 1));
        loop
            invariant
                ci + 1 <= k <= cl@.len(),
                cs == views(cl@),
                entries@ + enemies_of(cs.skip(k as int), d, anim_base_id) == enemies_of(cs.skip(ci + 1), d, anim_base_id),
            ensures
                entries@ == enemies_of(cs.skip(ci + 1), d, anim_base_id),
            decreases cl@.len() - k,
        {
            if k >= cl.len() {
                assert(cs.skip(k as int) =~= Seq::<Seq<u8>>::empty());
                assert(entries@ + Seq::<BattlegroundEntry>::empty() =~= entries@);
                break;
            }
            let p = split_bytes(cl[k].as_slice(), d);
            proof {
                assert(cs.skip(k as int)[0] == cl@[k as int]@);
                assert(cs.skip(k as int).skip(1) =~= cs.skip(k + 1));
            }
            if get_u32_or(&p, 0, 0) == 0 {
                assert(entries@ + Seq::<BattlegroundEntry>::empty() =~= entries@);
                break;
            }
            let e = read_entry(&p, anim_base_id);
            if !(e.enemy_id == 21 && e.start_frame == 27000) {
                let ghost before = entries@;
                entries.push(e);
                proof {
                    assert(entries@ + enemies_of(cs.skip(k + 1), d, anim_base_id) =~= before + (seq![e] + enemies_of(cs.skip(k + 1), d, anim_base_id)));
                }
            }
            k += 1;
        }
        Ok(Battleground {
            base_id: if header { get_i32_or(&p0, 0, 0) } else { 0 },
            is_no_continues: if header { get_flag(&p0, 1) } else { false },
            width: get_u32_or(&cp, 0, 0),
            base_hp: get_u32_or(&cp, 1, 0),
            min_spawn,
            max_spawn: match get_u32(&cp, 3) { Some(v) => v, None => min_spawn },
            background_id: get_u32_or(&cp, 4, 0),
            max_enemies: get_u32_or(&cp, 5, 0),
            anim_base_id,
            time_limit: get_u32_or(&cp, 7, 0),
            is_base_indestructible: get_flag(&cp, 8),
            unknown_value: get_u32_or(&cp, 9, 0),
            entries,
        })
    }
}


/// The column mapping an enemy line is read with, for the columns that depend on nothing but their own cell.
pub open spec fn entry_layout() -> Seq<Column> {
    seq![
        Column { field: "start_frame", index: 2, scale: Scale::Double, default: "0" },
        Column { field: "respawn_min", index: 3, scale: Scale::Double, default: "0" },
        Column { field: "respawn_max", index: 4, scale: Scale::Double, default: "0" },
        Column { field: "base_hp_perc", index: 5, scale: Scale::Raw, default: "0" },
        Column { field: "layer_min", index: 6, scale: Scale::Raw, default: "0" },
        Column { field: "layer_max", index: 7, scale: Scale::Raw, default: "0" },
        Column { field: "boss_type", index: 8, scale: Scale::Raw, default: "0" },
        Column { field: "magnification", index: 9, scale: Scale::Raw, default: "100" },
        Column { field: "score", index: 10, scale: Scale::Raw, default: "0" },
        Column { field: "time_flag", index: 12, scale: Scale::Raw, default: "0" },
        Column { field: "kill_count", index: 13, scale: Scale::Raw, default: "0" },
    ]
}

/// The column mapping of the optional leading line.
pub open spec fn header_layout() -> Seq<Column> {
    seq![
        Column { field: "base_id", index: 0, scale: Scale::Raw, default: "0" },
        Column { field: "is_no_continues", index: 1, scale: Scale::Raw, default: "0" },
    ]
}

/// The column mapping of the battlefield configuration line; the maximum spawn delay has no default, and falls back to the minimum.
pub open spec fn config_layout() -> Seq<Column> {
    seq![
        Column { field: "width", index: 0, scale: Scale::Raw, default: "0" },
        Column { field: "base_hp", index: 1, scale: Scale::Raw, default: "0" },
        Column { field: "min_spawn", index: 2, scale: Scale::Raw, default: "0" },
        Column { field: "max_spawn", index: 3, scale: Scale::Raw, default: "" },
        Column { field: "background_id", index: 4, scale: Scale::Raw, default: "0" },
        Column { field: "max_enemies", index: 5, scale: Scale::Raw, default: "0" },
        Column { field: "anim_base_id", index: 6, scale: Scale::Raw, default: "0" },
        Column { field: "time_limit", index: 7, scale: Scale::Raw, default: "0" },
        Column { field: "is_base_indestructible", index: 8, scale: Scale::Raw, default: "0" },
        Column { field: "unknown_value", index: 9, scale: Scale::Raw, default: "0" },
    ]
}

impl BattlegroundEntry {
    /// The column mapping this parser applies to an enemy line, for the columns that depend on nothing but their own cell.
    ///
    /// Published so a consumer can read the layout from the parser's own
    /// table instead of restating it.
    pub fn columns() -> (r: Vec<Column>)
        ensures
            r@ == entry_layout(),
    {
        let r = vec![
            Column { field: "start_frame", index: 2, scale: Scale::Double, default: "0" },
            Column { field: "respawn_min", index: 3, scale: Scale::Double, default: "0" },
            Column { field: "respawn_max", index: 4, scale: Scale::Double, default: "0" },
            Column { field: "base_hp_perc", index: 5, scale: Scale::Raw, default: "0" },
            Column { field: "layer_min", index: 6, scale: Scale::Raw, default: "0" },
            Column { field: "layer_max", index: 7, scale: Scale::Raw, default: "0" },
            Column { field: "boss_type", index: 8, scale: Scale::Raw, default: "0" },
            Column { field: "magnification", index: 9, scale: Scale::Raw, default: "100" },
            Column { field: "score", index: 10, scale: Scale::Raw, default: "0" },
            Column { field: "time_flag", index: 12, scale: Scale::Raw, default: "0" },
            Column { field: "kill_count", index: 13, scale: Scale::Raw, default: "0" },
        ];
        assert(r@ =~= entry_layout());
        r
    }
}

impl Battleground {
    /// The column mapping this parser applies to the optional leading line.
    ///
    /// Published so a consumer can read the layout from the parser's own
    /// table instead of restating it.
    pub fn header_columns() -> (r: Vec<Column>)
        ensures
            r@ == header_layout(),
    {
        let r = vec![
            Column { field: "base_id", index: 0, scale: Scale::Raw, default: "0" },
            Column { field: "is_no_continues", index: 1, scale: Scale::Raw, default: "0" },
        ];
        assert(r@ =~= header_layout());
        r
    }

    /// The column mapping this parser applies to the battlefield configuration line.
    ///
    /// Published so a consumer can read the layout from the parser's own
    /// table instead of restating it.
    pub fn config_columns() -> (r: Vec<Column>)
        ensures
            r@ == config_layout(),
    {
        let r = vec![
            Column { field: "width", index: 0, scale: Scale::Raw, default: "0" },
            Column { field: "base_hp", index: 1, scale: Scale::Raw, default: "0" },
            Column { field: "min_spawn", index: 2, scale: Scale::Raw, default: "0" },
            Column { field: "max_spawn", index: 3, scale: Scale::Raw, default: "" },
            Column { field: "background_id", index: 4, scale: Scale::Raw, default: "0" },
            Column { field: "max_enemies", index: 5, scale: Scale::Raw, default: "0" },
            Column { field: "anim_base_id", index: 6, scale: Scale::Raw, default: "0" },
            Column { field: "time_limit", index: 7, scale: Scale::Raw, default: "0" },
            Column { field: "is_base_indestructible", index: 8, scale: Scale::Raw, default: "0" },
            Column { field: "unknown_value", index: 9, scale: Scale::Raw, default: "0" },
        ];
        assert(r@ =~= config_layout());
        r
    }
}

/// Every column of the enemy line layout reaches the field it names: in the
/// entry a line's columns read as, the field each column names holds the value
/// that column reads.
pub proof fn lemma_entry_columns_reach_their_fields(p: Seq<Seq<u8>>, anim_base_id: u32)
    ensures
        entry_layout()[0].field == "start_frame" && Some(entry_of(p, anim_base_id).start_frame) == column_value::<u32>(entry_layout()[0], p),
        entry_layout()[1].field == "respawn_min" && Some(entry_of(p, anim_base_id).respawn_min) == column_value::<u32>(entry_layout()[1], p),
        entry_layout()[2].field == "respawn_max" && Some(entry_of(p, anim_base_id).respawn_max) == column_value::<u32>(entry_layout()[2], p),
        entry_layout()[3].field == "base_hp_perc" && Some(entry_of(p, anim_base_id).base_hp_perc) == column_value::<u32>(entry_layout()[3], p),
        entry_layout()[4].field == "layer_min" && Some(entry_of(p, anim_base_id).layer_min) == column_value::<i32>(entry_layout()[4], p),
        entry_layout()[5].field == "layer_max" && Some(entry_of(p, anim_base_id).layer_max) == column_value::<i32>(entry_layout()[5], p),
        entry_layout()[6].field == "boss_type" && Some(entry_of(p, anim_base_id).boss_type) == column_value::<BossType>(entry_layout()[6], p),
        entry_layout()[7].field == "magnification" && Some(entry_of(p, anim_base_id).magnification) == column_value::<u32>(entry_layout()[7], p),
        entry_layout()[8].field == "score" && Some(entry_of(p, anim_base_id).score) == column_value::<u32>(entry_layout()[8], p),
        entry_layout()[9].field == "time_flag" && Some(entry_of(p, anim_base_id).time_flag) == column_value::<u32>(entry_layout()[9], p),
        entry_layout()[10].field == "kill_count" && Some(entry_of(p, anim_base_id).kill_count) == column_value::<u32>(entry_layout()[10], p),
{
    lemma_default_texts();
}

/// Every column of the leading and configuration line layouts reaches the
/// field it names: in the battlefield a file reads as, the field each column
/// names holds the value that column reads from its line, and the maximum
/// spawn delay is the minimum where its column reads as none.
pub proof fn lemma_ground_columns_reach_their_fields(cl: Seq<Seq<u8>>, d: u8)
    ensures
        ground_of(cl, d) matches Ok(g) ==> ({
            let p0 = split_on(cl[0], d);
            let cp = split_on(cl[if is_header(p0) { 1int } else { 0int }], d);
            &&& header_layout()[0].field == "base_id"
            &&& is_header(p0) ==> Some(g.base_id) == column_value::<i32>(header_layout()[0], p0)
            &&& header_layout()[1].field == "is_no_continues"
            &&& is_header(p0) ==> Some(g.is_no_continues) == column_value::<bool>(header_layout()[1], p0)
            &&& config_layout()[0].field == "width"
            &&& Some(g.width) == column_value::<u32>(config_layout()[0], cp)
            &&& config_layout()[1].field == "base_hp"
            &&& Some(g.base_hp) == column_value::<u32>(config_layout()[1], cp)
            &&& config_layout()[2].field == "min_spawn"
            &&& Some(g.min_spawn) == column_value::<u32>(config_layout()[2], cp)
            &&& config_layout()[3].field == "max_spawn"
            &&& g.max_spawn == match column_value::<u32>(config_layout()[3], cp) { Some(v) => v, None => g.min_spawn }
            &&& config_layout()[4].field == "background_id"
            &&& Some(g.background_id) == column_value::<u32>(config_layout()[4], cp)
            &&& config_layout()[5].field == "max_enemies"
            &&& Some(g.max_enemies) == column_value::<u32>(config_layout()[5], cp)
            &&& config_layout()[6].field == "anim_base_id"
            &&& Some(g.anim_base_id) == column_value::<u32>(config_layout()[6], cp)
            &&& config_layout()[7].field == "time_limit"
            &&& Some(g.time_limit) == column_value::<u32>(config_layout()[7], cp)
            &&& config_layout()[8].field == "is_base_indestructible"
            &&& Some(g.is_base_indestructible) == column_value::<bool>(config_layout()[8], cp)
            &&& config_layout()[9].field == "unknown_value"
            &&& Some(g.unknown_value) == column_value::<u32>(config_layout()[9], cp)
        }),
{
    lemma_default_texts();
    reveal_strlit("");
    assert("".spec_bytes() =~= Seq::<u8>::empty());
}

} // verus!
