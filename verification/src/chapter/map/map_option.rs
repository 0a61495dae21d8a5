//! Per-map behavioral configuration such as crown tiers and repeat timers.
use std::collections::HashMap;

use vstd::prelude::*;

use crate::common::columns::{column_value, lemma_default_texts, Column, FromColumn, Scale};
use crate::text::{spec_u8, to_u8};

use crate::common::file::{open_table, resolve_spec, table_lines};
use crate::text::{after_comment, any_content, cell_u32, cells_of, comment_text, decode_lossy, drop_n, flag_of,
    get_flag, get_u32, get_u32_or, get_u8_or, has_content, line_cells, lossy_decode, scrubbed, skip_lines, trim,
    u32_or, u8_or, views};

verus! {

broadcast use vstd::std_specs::hash::group_hash_axioms;

/// The number of columns a current row carries.
pub const EXPECTED_COLUMNS: usize = 19;

/// Represents errors that can occur during the parsing of map options.
#[derive(Debug, Clone, PartialEq, Eq)]
#[non_exhaustive]
pub enum MapOptionError {
    /// The supplied bytes yielded no parseable rows beyond the header.
    EmptyFile,
    /// The supplied bytes did not begin with the required header row.
    MissingHeaders,
}

impl MapOptionError {
    /// A human-readable description of the error.
    #[verifier::allow_in_spec]
    pub fn message(&self) -> &'static str
        returns
            (match self {
                MapOptionError::EmptyFile => "The provided byte slice contained no valid map option data.",
                MapOptionError::MissingHeaders => "The file is missing the required header row.",
            }),
    {
        match self {
            MapOptionError::EmptyFile => "The provided byte slice contained no valid map option data.",
            MapOptionError::MissingHeaders => "The file is missing the required header row.",
        }
    }
}

/// Selects what a map discards when its repeat timer elapses.
#[derive(Debug, Clone, Copy, PartialEq, Eq, Default)]
pub enum ResetType {
    /// Nothing is reset, so the map's rewards are claimable once only.
    #[default]
    NoReset,
    /// The map's reward flags are cleared, making its drops claimable again.
    ResetRewards,
    /// The reward flags and the cleared marker are both cleared.
    ResetRewardsAndClear,
    /// The accumulated clear count is cleared.
    ResetMaxClears,
    /// A reset code this parser does not recognize, carrying its raw value.
    Unknown(u8),
}

/// The reset a code names.
pub open spec fn reset_type_of(value: u8) -> ResetType {
    if value == 0 {
        ResetType::NoReset
    } else if value == 1 {
        ResetType::ResetRewards
    } else if value == 2 {
        ResetType::ResetRewardsAndClear
    } else if value == 3 {
        ResetType::ResetMaxClears
    } else {
        ResetType::Unknown(value)
    }
}

impl From<u8> for ResetType {
    fn from(value: u8) -> (r: Self) {
        match value {
            0 => ResetType::NoReset,
            1 => ResetType::ResetRewards,
            2 => ResetType::ResetRewardsAndClear,
            3 => ResetType::ResetMaxClears,
            _ => ResetType::Unknown(value),
        }
    }
}

impl vstd::std_specs::convert::FromSpecImpl<u8> for ResetType {
    open spec fn obeys_from_spec() -> bool {
        true
    }

    open spec fn from_spec(value: u8) -> Self {
        reset_type_of(value)
    }
}

impl FromColumn for ResetType {
    /// A reset column names the behaviour its text reads as, as a `u8`.
    open spec fn column_spec(text: Seq<u8>) -> Option<ResetType> {
        match spec_u8(text) {
            Some(v) => Some(reset_type_of(v)),
            None => None,
        }
    }

    open spec fn scaled_spec(self, scale: Scale) -> ResetType {
        self
    }

    fn from_column(text: &[u8]) -> (r: Option<ResetType>) {
        match to_u8(text) {
            Some(v) => Some(ResetType::from(v)),
            None => None,
        }
    }

    fn scaled(self, scale: Scale) -> (r: ResetType) {
        self
    }
}

/// The behavioral configuration of a single map.
#[derive(Default, Debug, Clone, PartialEq, Eq)]
pub struct MapOptionEntry {
    /// The identifier of the map this configuration applies to.
    pub map_id: u32,
    /// The highest crown difficulty the map can be attempted at.
    pub max_crowns: u8,
    /// Whether the map exposes the additional Abyss difficulty tier.
    pub has_abyss: bool,
    /// The enemy strength percentage applied at one crown, if declared.
    pub crown_1_mag: Option<u32>,
    /// The enemy strength percentage applied at two crowns, if declared.
    pub crown_2_mag: Option<u32>,
    /// The enemy strength percentage applied at three crowns, if declared.
    pub crown_3_mag: Option<u32>,
    /// The enemy strength percentage applied at four crowns, if declared.
    pub crown_4_mag: Option<u32>,
    /// What the map discards when its repeat timer elapses.
    pub reset_type: ResetType,
    /// The number of times the map may be cleared for rewards.
    pub max_clears: u32,
    /// The delay in minutes before the map becomes available again.
    pub cooldown_minutes: u32,
    /// Whether the map is removed from the selection list once cleared.
    pub hidden_upon_clear: bool,
    /// The trailing comment text accompanying the row in the source file.
    pub comment: String,
}

/// The abstract value of a map's configuration.
pub struct MapOptionView {
    pub map_id: u32,
    pub max_crowns: u8,
    pub has_abyss: bool,
    pub crown_1_mag: Option<u32>,
    pub crown_2_mag: Option<u32>,
    pub crown_3_mag: Option<u32>,
    pub crown_4_mag: Option<u32>,
    pub reset_type: ResetType,
    pub max_clears: u32,
    pub cooldown_minutes: u32,
    pub hidden_upon_clear: bool,
    pub comment: Seq<char>,
}

impl View for MapOptionEntry {
    type V = MapOptionView;

    open spec fn view(&self) -> MapOptionView {
        MapOptionView {
            map_id: self.map_id,
            max_crowns: self.max_crowns,
            has_abyss: self.has_abyss,
            crown_1_mag: self.crown_1_mag,
            crown_2_mag: self.crown_2_mag,
            crown_3_mag: self.crown_3_mag,
            crown_4_mag: self.crown_4_mag,
            reset_type: self.reset_type,
            max_clears: self.max_clears,
            cooldown_minutes: self.cooldown_minutes,
            hidden_upon_clear: self.hidden_upon_clear,
            comment: self.comment@,
        }
    }
}

/// The parsed contents of the map option table.
#[derive(Clone, Debug, Default, PartialEq, Eq)]
pub struct MapOption {
    /// The map configurations, keyed by map identifier.
    pub entries: HashMap<u32, MapOptionEntry>,
}

/// The columns of a row once an older row's missing Abyss column is restored:
/// a row short of the current width, but at least two columns wide, gets a
/// `0` at index two.
pub open spec fn with_abyss_column(cells: Seq<Seq<u8>>) -> Seq<Seq<u8>> {
    if cells.len() < EXPECTED_COLUMNS && 2 <= cells.len() {
        cells.insert(2, seq![48u8])
    } else {
        cells
    }
}

/// The configuration a line declares, if its first column is a map identifier.
pub open spec fn option_row(line: Seq<u8>, d: u8) -> Option<MapOptionView> {
    let parts = with_abyss_column(cells_of(line, d));
    match cell_u32(parts, 0) {
        Some(map_id) => Some(MapOptionView {
            map_id,
            max_crowns: u8_or(parts, 1, 1),
            has_abyss: flag_of(parts, 2),
            crown_1_mag: cell_u32(parts, 3),
            crown_2_mag: cell_u32(parts, 4),
            crown_3_mag: cell_u32(parts, 5),
            crown_4_mag: cell_u32(parts, 6),
            reset_type: reset_type_of(u8_or(parts, 8, 0)),
            max_clears: u32_or(parts, 9, 0),
            cooldown_minutes: u32_or(parts, 11, 0),
            hidden_upon_clear: flag_of(parts, 14),
            comment: lossy_decode(trim(after_comment(line))),
        }),
        None => None,
    }
}

/// How a row of the map option table reads, once a row short of the current
/// width (but at least two columns wide) has a `0` put in at column two: the
/// map from column zero, the crown count from column one (one by default),
/// the Abyss flag from column two, the four crown magnifications from
/// columns three to six, the reset type from column eight, the clear limit
/// from column nine, the interval from column eleven and the hidden flag from
/// column fourteen; the comment is the trimmed text after `//`.
pub proof fn lemma_option_row_reads_its_columns(line: Seq<u8>, d: u8)
    ensures
        ({
            let raw = cells_of(line, d);
            let parts = if raw.len() < 19 && 2 <= raw.len() { raw.insert(2, seq![0x30u8]) } else { raw };
            let opt_u32 = |k: int| if 0 <= k < parts.len() { crate::text::spec_u32(trim(parts[k])) } else { None };
            let is_one = |k: int| 0 <= k < parts.len() && crate::text::spec_i64(trim(parts[k])) == Some(1i64);
            option_row(line, d) == match opt_u32(0) {
                Some(map_id) => Some(MapOptionView {
                    map_id,
                    max_crowns: crate::text::read_u8_at(parts, 1, 1u8),
                    has_abyss: is_one(2),
                    crown_1_mag: opt_u32(3),
                    crown_2_mag: opt_u32(4),
                    crown_3_mag: opt_u32(5),
                    crown_4_mag: opt_u32(6),
                    reset_type: reset_type_of(crate::text::read_u8_at(parts, 8, 0u8)),
                    max_clears: crate::text::read_u32_at(parts, 9, 0u32),
                    cooldown_minutes: crate::text::read_u32_at(parts, 11, 0u32),
                    hidden_upon_clear: is_one(14),
                    comment: lossy_decode(trim(after_comment(line))),
                }),
                None => None,
            }
        }),
{
}

/// The configurations a table's rows declare, a later row for a map
/// replacing an earlier one.
pub open spec fn options_of(rows: Seq<Seq<u8>>, d: u8) -> Map<u32, MapOptionView>
    decreases rows.len(),
{
    if rows.len() == 0 {
        Map::empty()
    } else {
        let m = options_of(rows.drop_last(), d);
        match option_row(rows.last(), d) {
            Some(e) => m.insert(e.map_id, e),
            None => m,
        }
    }
}

/// The views of a map of configurations.
pub open spec fn options_view(m: Map<u32, MapOptionEntry>) -> Map<u32, MapOptionView> {
    m.map_values(|e: MapOptionEntry| e@)
}

/// Reads one line into its configuration.
fn read_row(line: &[u8], d: u8) -> (r: Option<MapOptionEntry>)
    ensures
        match r {
            Some(e) => option_row(line@, d) == Some(e@),
            None => option_row(line@, d) is None,
        },
{
    let mut parts = line_cells(line, d);
    if parts.len() < EXPECTED_COLUMNS && 2 <= parts.len() {
        let ghost before = parts@;
        let zero: Vec<u8> = vec![48u8];
        assert(zero@ =~= seq![48u8]);
        parts.insert(2, zero);
        proof {
            assert(views(parts@) =~= views(before).insert(2, seq![48u8]));
        }
    }
    let map_id = match get_u32(&parts, 0) {
        Some(v) => v,
        None => return None,
    };
    let comment = comment_text(line);
    Some(MapOptionEntry {
        map_id,
        max_crowns: get_u8_or(&parts, 1, 1),
        has_abyss: get_flag(&parts, 2),
        crown_1_mag: get_u32(&parts, 3),
        crown_2_mag: get_u32(&parts, 4),
        crown_3_mag: get_u32(&parts, 5),
        crown_4_mag: get_u32(&parts, 6),
        reset_type: ResetType::from(get_u8_or(&parts, 8, 0)),
        max_clears: get_u32_or(&parts, 9, 0),
        cooldown_minutes: get_u32_or(&parts, 11, 0),
        hidden_upon_clear: get_flag(&parts, 14),
        comment: decode_lossy(comment.as_slice()),
    })
}

impl MapOption {
    /// Parses the map option table into per-map behavioral configurations.
    ///
    /// The leading header row is skipped. A row short of the current width has
    /// its missing Abyss column restored, which keeps older regional files
    /// readable against the current layout. Trailing comment text is retained
    /// on the resulting entry.
    ///
    /// # Returns
    /// The configurations keyed by map identifier;
    /// `MapOptionError::MissingHeaders` exactly when the file has no lines, and
    /// `MapOptionError::EmptyFile` exactly when no line past the header has
    /// content.
    pub fn parse(bytes: &[u8]) -> (r: Result<Self, MapOptionError>)
        ensures
            ({
                let lines = table_lines(bytes@);
                let rows = drop_n(lines, 1);
                let d = resolve_spec(None, scrubbed(bytes@));
                match r {
                    Ok(v) => lines.len() > 0 && any_content(rows) && options_view(v.entries@) == options_of(rows, d),
                    Err(MapOptionError::MissingHeaders) => lines.len() == 0,
                    Err(MapOptionError::EmptyFile) => lines.len() > 0 && !any_content(rows),
                }
            }),
    {
        let (all_lines, d) = open_table(bytes, None);
        if all_lines.len() == 0 {
            return Err(MapOptionError::MissingHeaders);
        }
        let lines = skip_lines(&all_lines, 1);
        let ghost ls = views(lines@);
        let mut entries: HashMap<u32, MapOptionEntry> = HashMap::new();
        let mut found = false;
        let mut i: usize = 0;
        proof {
            assert(options_view(entries@) =~= options_of(ls.take(0), d));
        }
        while i < lines.len()
            invariant
                i <= lines@.len(),
                ls == views(lines@),
                found == any_content(ls.take(i as int)),
                options_view(entries@) == options_of(ls.take(i as int), d),
            decreases lines@.len() - i,
        {
            let line = lines[i].as_slice();
            proof {
                assert(ls.take(i + 1).drop_last() =~= ls.take(i as int));
                assert(ls.take(i + 1).last() == line@);
            }
            if has_content(line) {
                found = true;
                match read_row(line, d) {
                    Some(entry) => {
                        let ghost old_entries = entries@;
                        let key = entry.map_id;
                        entries.insert(key, entry);
                        proof {
                            assert(options_view(entries@) =~= options_view(old_entries).insert(key, entry@));
                        }
                    },
                    None => {},
                }
            } else {
                proof {
                    assert(crate::text::cells_of(line@, d) =~= crate::text::split_on(Seq::<u8>::empty(), d));
                }
            }
            i += 1;
        }
        proof {
            assert(ls.take(i as int) =~= ls);
        }
        if !found {
            return Err(MapOptionError::EmptyFile);
        }
        Ok(MapOption { entries })
    }
}


/// The column mapping a map's row is read with, once its missing Abyss column
/// is restored. The indices it skips carry nothing the parser reads, and the
/// comment is the row's trailing comment text rather than a column.
pub open spec fn option_layout() -> Seq<Column> {
    seq![
        Column { field: "map_id", index: 0, scale: Scale::Raw, default: "0" },
        Column { field: "max_crowns", index: 1, scale: Scale::Raw, default: "1" },
        Column { field: "has_abyss", index: 2, scale: Scale::Raw, default: "0" },
        Column { field: "crown_1_mag", index: 3, scale: Scale::Raw, default: "-1" },
        Column { field: "crown_2_mag", index: 4, scale: Scale::Raw, default: "-1" },
        Column { field: "crown_3_mag", index: 5, scale: Scale::Raw, default: "-1" },
        Column { field: "crown_4_mag", index: 6, scale: Scale::Raw, default: "-1" },
        Column { field: "reset_type", index: 8, scale: Scale::Raw, default: "0" },
        Column { field: "max_clears", index: 9, scale: Scale::Raw, default: "0" },
        Column { field: "cooldown_minutes", index: 11, scale: Scale::Raw, default: "0" },
        Column { field: "hidden_upon_clear", index: 14, scale: Scale::Raw, default: "0" },
    ]
}

impl MapOptionEntry {
    /// The column mapping this parser applies, in the order it applies it.
    ///
    /// Published so a consumer can read the layout of a row from the parser's
    /// own table instead of restating it.
    pub fn columns() -> (r: Vec<Column>)
        ensures
            r@ == option_layout(),
    {
        let r = vec![
            Column { field: "map_id", index: 0, scale: Scale::Raw, default: "0" },
            Column { field: "max_crowns", index: 1, scale: Scale::Raw, default: "1" },
            Column { field: "has_abyss", index: 2, scale: Scale::Raw, default: "0" },
            Column { field: "crown_1_mag", index: 3, scale: Scale::Raw, default: "-1" },
            Column { field: "crown_2_mag", index: 4, scale: Scale::Raw, default: "-1" },
            Column { field: "crown_3_mag", index: 5, scale: Scale::Raw, default: "-1" },
            Column { field: "crown_4_mag", index: 6, scale: Scale::Raw, default: "-1" },
            Column { field: "reset_type", index: 8, scale: Scale::Raw, default: "0" },
            Column { field: "max_clears", index: 9, scale: Scale::Raw, default: "0" },
            Column { field: "cooldown_minutes", index: 11, scale: Scale::Raw, default: "0" },
            Column { field: "hidden_upon_clear", index: 14, scale: Scale::Raw, default: "0" },
        ];
        assert(r@ =~= option_layout());
        r
    }
}

/// Every column of the map option layout reaches the field it names: in the
/// configuration a line reads as, the field each column names holds the value
/// that column reads from the line's restored columns.
pub proof fn lemma_columns_reach_their_fields(line: Seq<u8>, d: u8)
    ensures
        option_row(line, d) matches Some(e) ==> ({
            let parts = with_abyss_column(cells_of(line, d));
            &&& option_layout()[0].field == "map_id"
            &&& Some(e.map_id) == column_value::<u32>(option_layout()[0], parts)
            &&& option_layout()[1].field == "max_crowns"
            &&& Some(e.max_crowns) == column_value::<u8>(option_layout()[1], parts)
            &&& option_layout()[2].field == "has_abyss"
            &&& Some(e.has_abyss) == column_value::<bool>(option_layout()[2], parts)
            &&& option_layout()[3].field == "crown_1_mag"
            &&& Some(e.crown_1_mag) == column_value::<Option<u32>>(option_layout()[3], parts)
            &&& option_layout()[4].field == "crown_2_mag"
            &&& Some(e.crown_2_mag) == column_value::<Option<u32>>(option_layout()[4], parts)
            &&& option_layout()[5].field == "crown_3_mag"
            &&& Some(e.crown_3_mag) == column_value::<Option<u32>>(option_layout()[5], parts)
            &&& option_layout()[6].field == "crown_4_mag"
            &&& Some(e.crown_4_mag) == column_value::<Option<u32>>(option_layout()[6], parts)
            &&& option_layout()[7].field == "reset_type"
            &&& Some(e.reset_type) == column_value::<ResetType>(option_layout()[7], parts)
            &&& option_layout()[8].field == "max_clears"
            &&& Some(e.max_clears) == column_value::<u32>(option_layout()[8], parts)
            &&& option_layout()[9].field == "cooldown_minutes"
            &&& Some(e.cooldown_minutes) == column_value::<u32>(option_layout()[9], parts)
            &&& option_layout()[10].field == "hidden_upon_clear"
            &&& Some(e.hidden_upon_clear) == column_value::<bool>(option_layout()[10], parts)
        }),
{
    lemma_default_texts();
}

} // verus!
