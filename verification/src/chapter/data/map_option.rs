//! The map option table read by its header row.
//!
//! Each column is found by its header's name, and falls back to its usual
//! position when the header row does not name it or the row stops short of
//! the named column.
use std::collections::HashMap;

use vstd::prelude::*;

use crate::common::file::{open_table, resolve_spec, table_lines};
use crate::common::header::{header_index, named_value, value_of};
use crate::text::{after_comment, any_content, cells_of, comment_text, decode_lossy, drop_n, has_content, line_cells,
    lossy_decode, same_bytes, scrubbed, skip_lines, spec_u32, spec_u8, split_bytes, split_on, to_u32, to_u8, trim,
    trimmed, views};

use crate::text::{strip_invalid, valid_part};

verus! {

broadcast use vstd::std_specs::hash::group_hash_axioms;

/// Represents errors that can occur during the parsing of map options.
#[derive(Debug, Clone, PartialEq, Eq)]
pub enum MapOptionError {
    /// The supplied bytes yielded no parseable rows beyond the header.
    EmptyFile,
    /// The supplied bytes did not begin with the required header row.
    MissingHeaders,
}

impl MapOptionError {
    /// A human-readable description of the error.
    #[verifier::allow_in_spec]
    pub fn message(&self) -> &'static str
        returns
            (match self {
                MapOptionError::EmptyFile => "The provided byte slice contained no valid map option data.",
                MapOptionError::MissingHeaders => "The file is missing the required header row.",
            }),
    {
        match self {
            MapOptionError::EmptyFile => "The provided byte slice contained no valid map option data.",
            MapOptionError::MissingHeaders => "The file is missing the required header row.",
        }
    }
}

/// Selects what a map discards when its repeat timer elapses.
#[derive(Debug, Clone, Copy, PartialEq, Eq, Default)]
pub enum ResetType {
    /// Nothing is reset, so the map's rewards are claimable once only.
    #[default]
    NoReset,
    /// The map's reward flags are cleared.
    ResetRewards,
    /// The reward flags and the cleared marker are both cleared.
    ResetRewardsAndClear,
    /// The accumulated clear count is cleared.
    ResetMaxClears,
    /// A reset code this parser does not recognize, carrying its raw value.
    Unknown(u8),
}

/// The reset a code names.
pub open spec fn reset_type_of(value: u8) -> ResetType {
    if value == 0 {
        ResetType::NoReset
    } else if value == 1 {
        ResetType::ResetRewards
    } else if value == 2 {
        ResetType::ResetRewardsAndClear
    } else if value == 3 {
        ResetType::ResetMaxClears
    } else {
        ResetType::Unknown(value)
    }
}

impl From<u8> for ResetType {
    fn from(value: u8) -> (r: Self) {
        match value {
            0 => ResetType::NoReset,
            1 => ResetType::ResetRewards,
            2 => ResetType::ResetRewardsAndClear,
            3 => ResetType::ResetMaxClears,
            _ => ResetType::Unknown(value),
        }
    }
}

impl vstd::std_specs::convert::FromSpecImpl<u8> for ResetType {
    open spec fn obeys_from_spec() -> bool {
        true
    }

    open spec fn from_spec(value: u8) -> Self {
        reset_type_of(value)
    }
}

/// The behavioral configuration of a single map.
#[derive(Default, Debug, Clone, PartialEq, Eq)]
pub struct MapOptionEntry {
    /// The identifier of the map this configuration applies to.
    pub map_id: u32,
    /// The highest crown difficulty the map can be attempted at.
    pub max_crowns: u8,
    /// Whether the map exposes the additional Abyss difficulty tier.
    pub has_abyss: bool,
    /// The enemy strength percentage applied at one crown, if declared.
    pub crown_1_mag: Option<u32>,
    /// The enemy strength percentage applied at two crowns, if declared.
    pub crown_2_mag: Option<u32>,
    /// The enemy strength percentage applied at three crowns, if declared.
    pub crown_3_mag: Option<u32>,
    /// The enemy strength percentage applied at four crowns, if declared.
    pub crown_4_mag: Option<u32>,
    /// What the map discards when its repeat timer elapses.
    pub reset_type: ResetType,
    /// The number of times the map may be cleared for rewards.
    pub max_clears: u32,
    /// The delay in minutes before the map becomes available again.
    pub cooldown_minutes: u32,
    /// Whether the map is removed from the selection list once cleared.
    pub hidden_upon_clear: bool,
    /// The trailing comment text accompanying the row in the source file.
    pub comment: String,
}

/// The abstract value of a map's configuration.
pub struct MapOptionView {
    pub map_id: u32,
    pub max_crowns: u8,
    pub has_abyss: bool,
    pub crown_1_mag: Option<u32>,
    pub crown_2_mag: Option<u32>,
    pub crown_3_mag: Option<u32>,
    pub crown_4_mag: Option<u32>,
    pub reset_type: ResetType,
    pub max_clears: u32,
    pub cooldown_minutes: u32,
    pub hidden_upon_clear: bool,
    pub comment: Seq<char>,
}

impl View for MapOptionEntry {
    type V = MapOptionView;

    open spec fn view(&self) -> MapOptionView {
        MapOptionView {
            map_id: self.map_id,
            max_crowns: self.max_crowns,
            has_abyss: self.has_abyss,
            crown_1_mag: self.crown_1_mag,
            crown_2_mag: self.crown_2_mag,
            crown_3_mag: self.crown_3_mag,
            crown_4_mag: self.crown_4_mag,
            reset_type: self.reset_type,
            max_clears: self.max_clears,
            cooldown_minutes: self.cooldown_minutes,
            hidden_upon_clear: self.hidden_upon_clear,
            comment: self.comment@,
        }
    }
}

/// The parsed contents of the map option table.
#[derive(Clone, Debug, Default, PartialEq, Eq)]
pub struct MapOption {
    /// The map configurations, keyed by map identifier.
    pub entries: HashMap<u32, MapOptionEntry>,
}

/// The header naming the stage id column, `stageID`.
pub open spec fn header_stage_id() -> Seq<u8> {
    seq![0x73u8, 0x74, 0x61, 0x67, 0x65, 0x49, 0x44]
}

/// The header naming the crowns column, `星解放`.
pub open spec fn header_crowns() -> Seq<u8> {
    seq![0xe6u8, 0x98, 0x9f, 0xe8, 0xa7, 0xa3, 0xe6, 0x94, 0xbe]
}

/// The header naming the abyss column, `裏星解放`.
pub open spec fn header_abyss() -> Seq<u8> {
    seq![0xe8u8, 0xa3, 0x8f, 0xe6, 0x98, 0x9f, 0xe8, 0xa7, 0xa3, 0xe6, 0x94, 0xbe]
}

/// The header naming the reset column, `報酬リセットType`.
pub open spec fn header_reset() -> Seq<u8> {
    seq![0xe5u8, 0xa0, 0xb1, 0xe9, 0x85, 0xac, 0xe3, 0x83, 0xaa, 0xe3, 0x82, 0xbb, 0xe3, 0x83, 0x83, 0xe3, 0x83, 0x88, 0x54, 0x79, 0x70, 0x65]
}

/// The header naming the clears column, `1度きり表示`.
pub open spec fn header_clears() -> Seq<u8> {
    seq![0x31u8, 0xe5, 0xba, 0xa6, 0xe3, 0x81, 0x8d, 0xe3, 0x82, 0x8a, 0xe8, 0xa1, 0xa8, 0xe7, 0xa4, 0xba]
}

/// The header naming the interval column, `インターバル`.
pub open spec fn header_interval() -> Seq<u8> {
    seq![0xe3u8, 0x82, 0xa4, 0xe3, 0x83, 0xb3, 0xe3, 0x82, 0xbf, 0xe3, 0x83, 0xbc, 0xe3, 0x83, 0x90, 0xe3, 0x83, 0xab]
}

/// The header naming the hidden column, `クリア後非表示`.
pub open spec fn header_hidden() -> Seq<u8> {
    seq![0xe3u8, 0x82, 0xaf, 0xe3, 0x83, 0xaa, 0xe3, 0x82, 0xa2, 0xe5, 0xbe, 0x8c, 0xe9, 0x9d, 0x9e, 0xe8, 0xa1, 0xa8, 0xe7, 0xa4, 0xba]
}

/// The header naming the crown 1 column, `星1倍率`.
pub open spec fn header_crown_1() -> Seq<u8> {
    seq![0xe6u8, 0x98, 0x9f, 0x31, 0xe5, 0x80, 0x8d, 0xe7, 0x8e, 0x87]
}

/// The header naming the crown 2 column, `星2倍率`.
pub open spec fn header_crown_2() -> Seq<u8> {
    seq![0xe6u8, 0x98, 0x9f, 0x32, 0xe5, 0x80, 0x8d, 0xe7, 0x8e, 0x87]
}

/// The header naming the crown 3 column, `星3倍率`.
pub open spec fn header_crown_3() -> Seq<u8> {
    seq![0xe6u8, 0x98, 0x9f, 0x33, 0xe5, 0x80, 0x8d, 0xe7, 0x8e, 0x87]
}

/// The header naming the crown 4 column, `星4倍率`.
pub open spec fn header_crown_4() -> Seq<u8> {
    seq![0xe6u8, 0x98, 0x9f, 0x34, 0xe5, 0x80, 0x8d, 0xe7, 0x8e, 0x87]
}

/// The `u32` a column holds, if it reads as one.
pub open spec fn named_u32(header: Seq<Seq<u8>>, parts: Seq<Seq<u8>>, name: Seq<u8>, fallback: int) -> Option<u32> {
    match named_value(header, parts, name, fallback) { Some(t) => spec_u32(t), None => None }
}

/// The `u8` a column holds, if it reads as one.
pub open spec fn named_u8(header: Seq<Seq<u8>>, parts: Seq<Seq<u8>>, name: Seq<u8>, fallback: int) -> Option<u8> {
    match named_value(header, parts, name, fallback) { Some(t) => spec_u8(t), None => None }
}

/// The shift of the columns past the Abyss column: one where the row's third
/// column is not a `u32`, as in older files that lack the column.
pub open spec fn column_offset(parts: Seq<Seq<u8>>) -> int {
    if 2 < parts.len() && spec_u32(trim(parts[2])) is Some { 0 } else { 1 }
}

/// The configuration a line declares under a header row.
pub open spec fn option_row(header: Seq<Seq<u8>>, line: Seq<u8>, d: u8) -> Option<MapOptionView> {
    let parts = cells_of(line, d);
    let off = column_offset(parts);
    match named_u32(header, parts, header_stage_id(), 0) {
        Some(map_id) => Some(MapOptionView {
            map_id,
            max_crowns: match named_u8(header, parts, header_crowns(), 1) { Some(v) => v, None => 1 },
            has_abyss: named_u8(header, parts, header_abyss(), 2) == Some(1u8),
            crown_1_mag: named_u32(header, parts, header_crown_1(), 3 + off),
            crown_2_mag: named_u32(header, parts, header_crown_2(), 4 + off),
            crown_3_mag: named_u32(header, parts, header_crown_3(), 5 + off),
            crown_4_mag: named_u32(header, parts, header_crown_4(), 6 + off),
            reset_type: reset_type_of(match named_u8(header, parts, header_reset(), 8 + off) { Some(v) => v, None => 0 }),
            max_clears: match named_u32(header, parts, header_clears(), 9 + off) { Some(v) => v, None => 0 },
            cooldown_minutes: match named_u32(header, parts, header_interval(), 11 + off) { Some(v) => v, None => 0 },
            hidden_upon_clear: named_u8(header, parts, header_hidden(), 14 + off) == Some(1u8),
            comment: lossy_decode(trim(after_comment(line))),
        }),
        None => None,
    }
}

/// How a row of the map option table reads: each value is taken from the
/// column its Japanese header names, else from its fixed position, the
/// positions past the Abyss column shifting by one where the row's third
/// column is not a `u32`. The map identifier comes from `stageID` or column
/// zero, the crown count from `星解放` or column one (one by default), the
/// Abyss flag from `裏星解放` or column two, the four crown magnifications from
/// `星1倍率` to `星4倍率` or columns three to six, the reset type from
/// `報酬リセットType` or column eight, the clear limit from `1度きり表示` or
/// column nine, the interval from `インターバル` or column eleven, and the
/// hidden flag from `クリア後非表示` or column fourteen.
pub proof fn lemma_option_row_reads_its_columns(header: Seq<Seq<u8>>, line: Seq<u8>, d: u8)
    ensures
        ({
            let parts = cells_of(line, d);
            let off: int = if 2 < parts.len() && spec_u32(trim(parts[2])) is Some { 0 } else { 1 };
            option_row(header, line, d) == match named_u32(header, parts, seq![115u8, 116u8, 97u8, 103u8, 101u8, 73u8, 68u8], 0) {
                Some(map_id) => Some(MapOptionView {
                    map_id,
                    max_crowns: match named_u8(header, parts, seq![230u8, 152u8, 159u8, 232u8, 167u8, 163u8, 230u8, 148u8, 190u8], 1) { Some(v) => v, None => 1 },
                    has_abyss: named_u8(header, parts, seq![232u8, 163u8, 143u8, 230u8, 152u8, 159u8, 232u8, 167u8, 163u8, 230u8, 148u8, 190u8], 2) == Some(1u8),
                    crown_1_mag: named_u32(header, parts, seq![230u8, 152u8, 159u8, 49u8, 229u8, 128u8, 141u8, 231u8, 142u8, 135u8], 3 + off),
                    crown_2_mag: named_u32(header, parts, seq![230u8, 152u8, 159u8, 50u8, 229u8, 128u8, 141u8, 231u8, 142u8, 135u8], 4 + off),
                    crown_3_mag: named_u32(header, parts, seq![230u8, 152u8, 159u8, 51u8, 229u8, 128u8, 141u8, 231u8, 142u8, 135u8], 5 + off),
                    crown_4_mag: named_u32(header, parts, seq![230u8, 152u8, 159u8, 52u8, 229u8, 128u8, 141u8, 231u8, 142u8, 135u8], 6 + off),
                    reset_type: reset_type_of(match named_u8(header, parts, seq![229u8, 160u8, 177u8, 233u8, 133u8, 172u8, 227u8, 131u8, 170u8, 227u8, 130u8, 187u8, 227u8, 131u8, 131u8, 227u8, 131u8, 136u8, 84u8, 121u8, 112u8, 101u8], 8 + off) { Some(v) => v, None => 0 }),
                    max_clears: match named_u32(header, parts, seq![49u8, 229u8, 186u8, 166u8, 227u8, 129u8, 141u8, 227u8, 130u8, 138u8, 232u8, 161u8, 168u8, 231u8, 164u8, 186u8], 9 + off) { Some(v) => v, None => 0 },
                    cooldown_minutes: match named_u32(header, parts, seq![227u8, 130u8, 164u8, 227u8, 131u8, 179u8, 227u8, 130u8, 191u8, 227u8, 131u8, 188u8, 227u8, 131u8, 144u8, 227u8, 131u8, 171u8], 11 + off) { Some(v) => v, None => 0 },
                    hidden_upon_clear: named_u8(header, parts, seq![227u8, 130u8, 175u8, 227u8, 131u8, 170u8, 227u8, 130u8, 162u8, 229u8, 190u8, 140u8, 233u8, 157u8, 158u8, 232u8, 161u8, 168u8, 231u8, 164u8, 186u8], 14 + off) == Some(1u8),
                    comment: lossy_decode(trim(after_comment(line))),
                }),
                None => None,
            }
        }),
{
    assert(header_stage_id() =~= seq![115u8, 116u8, 97u8, 103u8, 101u8, 73u8, 68u8]);
    assert(header_crowns() =~= seq![230u8, 152u8, 159u8, 232u8, 167u8, 163u8, 230u8, 148u8, 190u8]);
    assert(header_abyss() =~= seq![232u8, 163u8, 143u8, 230u8, 152u8, 159u8, 232u8, 167u8, 163u8, 230u8, 148u8, 190u8]);
    assert(header_crown_1() =~= seq![230u8, 152u8, 159u8, 49u8, 229u8, 128u8, 141u8, 231u8, 142u8, 135u8]);
    assert(header_crown_2() =~= seq![230u8, 152u8, 159u8, 50u8, 229u8, 128u8, 141u8, 231u8, 142u8, 135u8]);
    assert(header_crown_3() =~= seq![230u8, 152u8, 159u8, 51u8, 229u8, 128u8, 141u8, 231u8, 142u8, 135u8]);
    assert(header_crown_4() =~= seq![230u8, 152u8, 159u8, 52u8, 229u8, 128u8, 141u8, 231u8, 142u8, 135u8]);
    assert(header_reset() =~= seq![229u8, 160u8, 177u8, 233u8, 133u8, 172u8, 227u8, 131u8, 170u8, 227u8, 130u8, 187u8, 227u8, 131u8, 131u8, 227u8, 131u8, 136u8, 84u8, 121u8, 112u8, 101u8]);
    assert(header_clears() =~= seq![49u8, 229u8, 186u8, 166u8, 227u8, 129u8, 141u8, 227u8, 130u8, 138u8, 232u8, 161u8, 168u8, 231u8, 164u8, 186u8]);
    assert(header_interval() =~= seq![227u8, 130u8, 164u8, 227u8, 131u8, 179u8, 227u8, 130u8, 191u8, 227u8, 131u8, 188u8, 227u8, 131u8, 144u8, 227u8, 131u8, 171u8]);
    assert(header_hidden() =~= seq![227u8, 130u8, 175u8, 227u8, 131u8, 170u8, 227u8, 130u8, 162u8, 229u8, 190u8, 140u8, 233u8, 157u8, 158u8, 232u8, 161u8, 168u8, 231u8, 164u8, 186u8]);
}

/// Reset codes count from no reset: one resets the rewards, two the rewards
/// and the clear, three the clear limit, and any other code is unknown.
pub proof fn lemma_reset_codes(code: u8)
    ensures
        reset_type_of(code) == (if code == 0 { ResetType::NoReset } else if code == 1 { ResetType::ResetRewards }
            else if code == 2 { ResetType::ResetRewardsAndClear } else if code == 3 { ResetType::ResetMaxClears }
            else { ResetType::Unknown(code) }),
{
}

/// The configurations a table's rows declare, a later row for a map
/// replacing an earlier one.
pub open spec fn options_of(header: Seq<Seq<u8>>, rows: Seq<Seq<u8>>, d: u8) -> Map<u32, MapOptionView>
    decreases rows.len(),
{
    if rows.len() == 0 {
        Map::empty()
    } else {
        let m = options_of(header, rows.drop_last(), d);
        match option_row(header, rows.last(), d) {
            Some(e) => m.insert(e.map_id, e),
            None => m,
        }
    }
}

/// The views of a map of configurations.
pub open spec fn options_view(m: Map<u32, MapOptionEntry>) -> Map<u32, MapOptionView> {
    m.map_values(|e: MapOptionEntry| e@)
}

fn value_u32(header: &Vec<Vec<u8>>, parts: &Vec<Vec<u8>>, name: &[u8], fallback: usize) -> (r: Option<u32>)
    ensures
        r == named_u32(views(header@), views(parts@), name@, fallback as int),
{
    match value_of(header, parts, name, fallback) { Some(t) => to_u32(t.as_slice()), None => None }
}

fn value_u8(header: &Vec<Vec<u8>>, parts: &Vec<Vec<u8>>, name: &[u8], fallback: usize) -> (r: Option<u8>)
    ensures
        r == named_u8(views(header@), views(parts@), name@, fallback as int),
{
    match value_of(header, parts, name, fallback) { Some(t) => to_u8(t.as_slice()), None => None }
}

/// Reads one line into its configuration under a header row.
fn read_row(header: &Vec<Vec<u8>>, line: &[u8], d: u8) -> (r: Option<MapOptionEntry>)
    ensures
        match r {
            Some(e) => option_row(views(header@), line@, d) == Some(e@),
            None => option_row(views(header@), line@, d) is None,
        },
{
        let h_stage_id: [u8; 7] = [0x73, 0x74, 0x61, 0x67, 0x65, 0x49, 0x44];
        assert(h_stage_id@ =~= header_stage_id());
        let h_crowns: [u8; 9] = [0xe6, 0x98, 0x9f, 0xe8, 0xa7, 0xa3, 0xe6, 0x94, 0xbe];
        assert(h_crowns@ =~= header_crowns());
        let h_abyss: [u8; 12] = [0xe8, 0xa3, 0x8f, 0xe6, 0x98, 0x9f, 0xe8, 0xa7, 0xa3, 0xe6, 0x94, 0xbe];
        assert(h_abyss@ =~= header_abyss());
        let h_reset: [u8; 22] = [0xe5, 0xa0, 0xb1, 0xe9, 0x85, 0xac, 0xe3, 0x83, 0xaa, 0xe3, 0x82, 0xbb, 0xe3, 0x83, 0x83, 0xe3, 0x83, 0x88, 0x54, 0x79, 0x70, 0x65];
        assert(h_reset@ =~= header_reset());
        let h_clears: [u8; 16] = [0x31, 0xe5, 0xba, 0xa6, 0xe3, 0x81, 0x8d, 0xe3, 0x82, 0x8a, 0xe8, 0xa1, 0xa8, 0xe7, 0xa4, 0xba];
        assert(h_clears@ =~= header_clears());
        let h_interval: [u8; 18] = [0xe3, 0x82, 0xa4, 0xe3, 0x83, 0xb3, 0xe3, 0x82, 0xbf, 0xe3, 0x83, 0xbc, 0xe3, 0x83, 0x90, 0xe3, 0x83, 0xab];
        assert(h_interval@ =~= header_interval());
        let h_hidden: [u8; 21] = [0xe3, 0x82, 0xaf, 0xe3, 0x83, 0xaa, 0xe3, 0x82, 0xa2, 0xe5, 0xbe, 0x8c, 0xe9, 0x9d, 0x9e, 0xe8, 0xa1, 0xa8, 0xe7, 0xa4, 0xba];
        assert(h_hidden@ =~= header_hidden());
        let h_crown_1: [u8; 10] = [0xe6, 0x98, 0x9f, 0x31, 0xe5, 0x80, 0x8d, 0xe7, 0x8e, 0x87];
        assert(h_crown_1@ =~= header_crown_1());
        let h_crown_2: [u8; 10] = [0xe6, 0x98, 0x9f, 0x32, 0xe5, 0x80, 0x8d, 0xe7, 0x8e, 0x87];
        assert(h_crown_2@ =~= header_crown_2());
        let h_crown_3: [u8; 10] = [0xe6, 0x98, 0x9f, 0x33, 0xe5, 0x80, 0x8d, 0xe7, 0x8e, 0x87];
        assert(h_crown_3@ =~= header_crown_3());
        let h_crown_4: [u8; 10] = [0xe6, 0x98, 0x9f, 0x34, 0xe5, 0x80, 0x8d, 0xe7, 0x8e, 0x87];
        assert(h_crown_4@ =~= header_crown_4());
    let parts = line_cells(line, d);
    let off: usize = if parts.len() > 2 {
        let t = trimmed(parts[2].as_slice());
        match to_u32(t.as_slice()) { Some(_) => 0, None => 1 }
    } else {
        1
    };
    let map_id = match value_u32(header, &parts, &h_stage_id, 0) {
        Some(v) => v,
        None => return None,
    };
    let comment = comment_text(line);
    Some(MapOptionEntry {
        map_id,
        max_crowns: match value_u8(header, &parts, &h_crowns, 1) { Some(v) => v, None => 1 },
        has_abyss: value_u8(header, &parts, &h_abyss, 2) == Some(1u8),
        crown_1_mag: value_u32(header, &parts, &h_crown_1, 3 + off),
        crown_2_mag: value_u32(header, &parts, &h_crown_2, 4 + off),
        crown_3_mag: value_u32(header, &parts, &h_crown_3, 5 + off),
        crown_4_mag: value_u32(header, &parts, &h_crown_4, 6 + off),
        reset_type: ResetType::from(match value_u8(header, &parts, &h_reset, 8 + off) { Some(v) => v, None => 0 }),
        max_clears: match value_u32(header, &parts, &h_clears, 9 + off) { Some(v) => v, None => 0 },
        cooldown_minutes: match value_u32(header, &parts, &h_interval, 11 + off) { Some(v) => v, None => 0 },
        hidden_upon_clear: value_u8(header, &parts, &h_hidden, 14 + off) == Some(1u8),
        comment: decode_lossy(comment.as_slice()),
    })
}

impl MapOption {
    /// Parses the map option table into per-map behavioral configurations,
    /// finding each column by the header row's names.
    ///
    /// Where the third column of a row is not a number, the row is taken to
    /// lack the Abyss column and the later fallback positions shift by one.
    ///
    /// Every byte that is not part of a valid UTF-8 character is stripped first.
    ///
    /// # Returns
    /// The configurations keyed by map identifier;
    /// `MapOptionError::MissingHeaders` exactly when the file has no lines, and
    /// `MapOptionError::EmptyFile` exactly when no line past the header has
    /// content.
    pub fn parse(bytes: &[u8]) -> (r: Result<Self, MapOptionError>)
        ensures
            ({
                let lines = table_lines(valid_part(bytes@));
                let rows = drop_n(lines, 1);
                let d = resolve_spec(None, scrubbed(valid_part(bytes@)));
                match r {
                    Ok(v) => lines.len() > 0 && any_content(rows)
                        && options_view(v.entries@) == options_of(split_on(lines[0], d), rows, d),
                    Err(MapOptionError::MissingHeaders) => lines.len() == 0,
                    Err(MapOptionError::EmptyFile) => lines.len() > 0 && !any_content(rows),
                }
            }),
    {
        let valid = strip_invalid(bytes);
        let bytes: &[u8] = valid.as_slice();
        let (all_lines, d) = open_table(bytes, None);
        if all_lines.len() == 0 {
            return Err(MapOptionError::MissingHeaders);
        }
        let header = split_bytes(all_lines[0].as_slice(), d);
        let ghost hs = views(header@);
        let lines = skip_lines(&all_lines, 1);
        let ghost ls = views(lines@);
        let mut entries: HashMap<u32, MapOptionEntry> = HashMap::new();
        let mut found = false;
        let mut i: usize = 0;
        proof {
            assert(options_view(entries@) =~= options_of(hs, ls.take(0), d));
        }
        while i < lines.len()
            invariant
                i <= lines@.len(),
                ls == views(lines@),
                hs == views(header@),
                found == any_content(ls.take(i as int)),
                options_view(entries@) == options_of(hs, ls.take(i as int), d),
            decreases lines@.len() - i,
        {
            let line = lines[i].as_slice();
            proof {
                assert(ls.take(i + 1).drop_last() =~= ls.take(i as int));
                assert(ls.take(i + 1).last() == line@);
            }
            if has_content(line) {
                found = true;
                match read_row(&header, line, d) {
                    Some(entry) => {
                        let ghost old_entries = entries@;
                        let key = entry.map_id;
                        entries.insert(key, entry);
                        proof {
                            assert(options_view(entries@) =~= options_view(old_entries).insert(key, entry@));
                        }
                    },
                    None => {},
                }
            } else {
                proof {
                    let parts = cells_of(line@, d);
                    assert(parts =~= split_on(Seq::<u8>::empty(), d));
                    assert(trim(Seq::<u8>::empty()) =~= Seq::<u8>::empty()) by {
                        reveal_with_fuel(crate::text::trim_start, 1);
                        reveal_with_fuel(crate::text::trim_end, 1);
                    }
                    assert(parts.len() == 1 && parts[0] =~= Seq::<u8>::empty());
                    assert(spec_u32(Seq::<u8>::empty()) is None);
                    assert(named_value(hs, parts, header_stage_id(), 0) == Some(Seq::<u8>::empty()));
                    assert(named_u32(hs, parts, header_stage_id(), 0) is None);
                }
            }
            i += 1;
        }
        proof {
            assert(ls.take(i as int) =~= ls);
        }
        if !found {
            return Err(MapOptionError::EmptyFile);
        }
        Ok(MapOption { entries })
    }
}

} // verus!
