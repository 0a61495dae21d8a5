//! Map-wide and per-stage cost, music, and reward metadata.

use vstd::prelude::*;

use crate::chapter::stage::cost::CostType;
use crate::common::file::{open_table, resolve_spec, table_lines, Separator};
use crate::text::{all_ints, any_content, cell_i32, cells_of, drop_n, get_i16_or, get_i32, get_i32_or, get_u32_or,
    has_content, i16_or, i32_or, line_cells, line_raw_cells, raw_cells, scrubbed, skip_lines, split_on,
    trailing_all_ints, trim, trimmed, u32_or, views};

verus! {

/// The number of metadata rows above a map's stage table.
pub const HEADER_LINES: usize = 2;

/// Represents errors that can occur during the parsing of stage metadata.
#[derive(Debug, Clone, PartialEq, Eq)]
#[non_exhaustive]
pub enum MapStageDataError {
    /// The supplied bytes yielded no parseable rows.
    EmptyFile,
}

impl MapStageDataError {
    /// A human-readable description of the error.
    #[verifier::allow_in_spec]
    pub fn message(&self) -> &'static str
        returns
            (match self {
                MapStageDataError::EmptyFile => "The provided byte slice contained no valid map stage data.",
            }),
    {
        match self {
            MapStageDataError::EmptyFile => "The provided byte slice contained no valid map stage data.",
        }
    }
}

/// The map-wide metadata carried by the two rows above a map's stage table.
///
/// The rows gained columns over the game's lifetime, so a file may stop short
/// of the full layout. A column the file omits keeps the value the engine
/// assumes in its absence.
#[derive(Debug, Clone, PartialEq, Eq)]
pub struct MapStageDataHeader {
    /// The map number the engine files this map under.
    pub map_number: i32,
    /// A column present in the raw data whose effect on the engine is not established.
    pub unknown_1: i32,
    /// A column present in the raw data whose effect on the engine is not established.
    pub unknown_2: i32,
    /// The identifier of the map-wide clear condition, or negative one when there is none.
    pub map_condition: i32,
    /// The identifier of the per-stage clear condition, or negative one when there is none.
    pub stage_condition: i32,
    /// The user rank that must be reached before the map appears.
    pub user_rank_threshold: i32,
    /// How the stages of this map charge their entry cost.
    pub cost_type: CostType,
    /// Any trailing columns beyond the known layout, retained for forward compatibility.
    ///
    /// A column that does not read as an integer is held as `None` rather than
    /// discarded, so an element's index is always its offset past the known layout.
    pub rest: Vec<Option<i32>>,
    /// The map pattern declared by the second metadata row.
    pub map_pattern: i32,
}

/// The abstract value of a map's metadata.
pub struct HeaderView {
    pub map_number: i32,
    pub unknown_1: i32,
    pub unknown_2: i32,
    pub map_condition: i32,
    pub stage_condition: i32,
    pub user_rank_threshold: i32,
    pub cost_type: CostType,
    pub rest: Seq<Option<i32>>,
    pub map_pattern: i32,
}

impl View for MapStageDataHeader {
    type V = HeaderView;

    open spec fn view(&self) -> HeaderView {
        HeaderView {
            map_number: self.map_number,
            unknown_1: self.unknown_1,
            unknown_2: self.unknown_2,
            map_condition: self.map_condition,
            stage_condition: self.stage_condition,
            user_rank_threshold: self.user_rank_threshold,
            cost_type: self.cost_type,
            rest: self.rest@,
            map_pattern: self.map_pattern,
        }
    }
}

/// The metadata the engine assumes when a file declares none: the identifier
/// fields hold negative one, matching the sentinel the raw columns use.
pub open spec fn default_header() -> HeaderView {
    HeaderView {
        map_number: -1i32,
        unknown_1: -1i32,
        unknown_2: -1i32,
        map_condition: -1i32,
        stage_condition: -1i32,
        user_rank_threshold: 0,
        cost_type: CostType::Energy,
        rest: Seq::empty(),
        map_pattern: 0,
    }
}

impl Default for MapStageDataHeader {
    /// Produces the metadata the engine assumes when a file declares none.
    fn default() -> (r: Self)
        ensures
            r@ == default_header(),
    {
        MapStageDataHeader {
            map_number: -1,
            unknown_1: -1,
            unknown_2: -1,
            map_condition: -1,
            stage_condition: -1,
            user_rank_threshold: 0,
            cost_type: CostType::Energy,
            rest: Vec::new(),
            map_pattern: 0,
        }
    }
}

/// One possible item reward from clearing a stage.
#[derive(Debug, Clone, Copy, PartialEq, Eq)]
pub struct DropReward {
    /// The weighting or percentage governing how often this reward is selected.
    pub chance: u32,
    /// The identifier of the item awarded.
    pub item_id: u32,
    /// The quantity of the item awarded.
    pub amount: u32,
}

/// A reward granted for completing a stage within a score threshold.
#[derive(Debug, Clone, Copy, PartialEq, Eq)]
pub struct TimedScore {
    /// The score that must be reached to earn this reward.
    pub score: u32,
    /// The identifier of the item awarded.
    pub item_id: u32,
    /// The quantity of the item awarded.
    pub amount: u32,
}

/// The reward scheme a stage uses on completion.
///
/// The two schemes are mutually exclusive and select on different criteria,
/// so a variant each keeps the inapplicable fields unrepresentable.
#[derive(Debug, Clone, PartialEq, Eq, Default)]
pub enum RewardStructure {
    /// The stage grants no completion reward.
    #[default]
    NoReward,
    /// The stage draws from a treasure pool.
    Treasure {
        /// The rule governing how many entries of the pool may be drawn and whether draws repeat.
        drop_rule: i32,
        /// The candidate rewards in the pool.
        drops: Vec<DropReward>,
    },
    /// The stage grants rewards according to the score achieved.
    Timed(Vec<TimedScore>),
}

/// The abstract value of a reward scheme.
pub enum RewardView {
    NoReward,
    Treasure { drop_rule: i32, drops: Seq<DropReward> },
    Timed(Seq<TimedScore>),
}

impl View for RewardStructure {
    type V = RewardView;

    open spec fn view(&self) -> RewardView {
        match self {
            RewardStructure::NoReward => RewardView::NoReward,
            RewardStructure::Treasure { drop_rule, drops } => RewardView::Treasure { drop_rule: *drop_rule, drops: drops@ },
            RewardStructure::Timed(scores) => RewardView::Timed(scores@),
        }
    }
}

/// The cost, music and reward metadata of a single stage.
#[derive(Debug, Clone, PartialEq, Eq)]
pub struct MapStageDataEntry {
    /// The entry cost, read under the map's [`CostType`].
    pub cost: u32,
    /// The experience awarded on clear.
    pub xp: u32,
    /// The music track the stage opens with.
    pub init_track: u32,
    /// The base health percentage at which the music changes.
    pub bgm_change_percent: u32,
    /// The music track that replaces the opening one.
    pub boss_track: i16,
    /// The reward scheme the stage uses on completion.
    pub rewards: RewardStructure,
}

/// The abstract value of a stage's metadata.
pub struct EntryView {
    pub cost: u32,
    pub xp: u32,
    pub init_track: u32,
    pub bgm_change_percent: u32,
    pub boss_track: i16,
    pub rewards: RewardView,
}

impl View for MapStageDataEntry {
    type V = EntryView;

    open spec fn view(&self) -> EntryView {
        EntryView {
            cost: self.cost,
            xp: self.xp,
            init_track: self.init_track,
            bgm_change_percent: self.bgm_change_percent,
            boss_track: self.boss_track,
            rewards: self.rewards@,
        }
    }
}

/// The metadata of a stage the file declares nothing for.
pub open spec fn default_entry() -> EntryView {
    EntryView { cost: 0, xp: 0, init_track: 0, bgm_change_percent: 0, boss_track: 0, rewards: RewardView::NoReward }
}

impl Default for MapStageDataEntry {
    fn default() -> (r: Self)
        ensures
            r@ == default_entry(),
    {
        MapStageDataEntry { cost: 0, xp: 0, init_track: 0, bgm_change_percent: 0, boss_track: 0, rewards: RewardStructure::NoReward }
    }
}

/// The parsed contents of a map's stage metadata file.
#[derive(Clone, Debug, Default, PartialEq, Eq)]
pub struct MapStageData {
    /// The map-wide metadata from the two rows above the stage table.
    pub header: MapStageDataHeader,
    /// The stages, indexed by their position in the table.
    pub entries: Vec<MapStageDataEntry>,
}

/// The entries of a list of stages.
pub open spec fn entry_views(v: Seq<MapStageDataEntry>) -> Seq<EntryView> {
    v.map_values(|e: MapStageDataEntry| e@)
}

// ---------------------------------------------------------------------------
// Header
// ---------------------------------------------------------------------------

/// The metadata the first two lines of a file declare; an absent line keeps
/// the defaults it would set.
pub open spec fn header_of(first: Option<Seq<u8>>, second: Option<Seq<u8>>, d: u8) -> HeaderView {
    let h = match first {
        Some(line) => {
            let hc = raw_cells(line, d);
            HeaderView {
                map_number: i32_or(hc, 0, -1i32),
                unknown_1: i32_or(hc, 1, -1i32),
                unknown_2: i32_or(hc, 2, -1i32),
                map_condition: i32_or(hc, 3, -1i32),
                stage_condition: i32_or(hc, 4, -1i32),
                user_rank_threshold: i32_or(hc, 5, 0),
                cost_type: if cell_i32(hc, 6) == Some(1i32) { CostType::Item } else { CostType::Energy },
                rest: all_ints(drop_n(hc, 7)),
                map_pattern: 0,
            }
        },
        None => default_header(),
    };
    match second {
        Some(line) => HeaderView { map_pattern: i32_or(raw_cells(line, d), 0, h.map_pattern), ..h },
        None => h,
    }
}

/// The `i32` a header line's column `k` reads as once trimmed, or `default`
/// where the line stops short of it or the text names no `i32`.
pub open spec fn header_column(cells: Seq<Seq<u8>>, k: int, default: i32) -> i32 {
    if 0 <= k < cells.len() {
        match crate::text::spec_i32(trim(cells[k])) {
            Some(v) => v,
            None => default,
        }
    } else {
        default
    }
}

/// The header reads the map number, the two unknown values, the map and
/// stage conditions and the rank threshold from columns zero to five of its
/// first line, pays in items exactly when column six reads one, keeps every
/// later column, and takes the map pattern from column zero of the second
/// line; what a line does not give keeps its default.
pub proof fn lemma_header_reads_its_columns(first: Seq<u8>, second: Option<Seq<u8>>, d: u8)
    ensures
        ({
            let hc = raw_cells(first, d);
            let h = header_of(Some(first), second, d);
            &&& h.map_number == header_column(hc, 0, -1i32)
            &&& h.unknown_1 == header_column(hc, 1, -1i32)
            &&& h.unknown_2 == header_column(hc, 2, -1i32)
            &&& h.map_condition == header_column(hc, 3, -1i32)
            &&& h.stage_condition == header_column(hc, 4, -1i32)
            &&& h.user_rank_threshold == header_column(hc, 5, 0i32)
            &&& (h.cost_type == CostType::Item) == (hc.len() > 6 && crate::text::spec_i32(trim(hc[6])) == Some(1i32))
            &&& h.rest == all_ints(drop_n(hc, 7))
            &&& h.map_pattern == match second {
                Some(l) => header_column(raw_cells(l, d), 0, 0i32),
                None => 0,
            }
        }),
{
}

/// Reads the map-wide metadata from the first two lines of a file.
fn extract_header(first: Option<&[u8]>, second: Option<&[u8]>, d: u8) -> (r: MapStageDataHeader)
    ensures
        r@ == header_of(
            match first { Some(l) => Some(l@), None => None },
            match second { Some(l) => Some(l@), None => None },
            d,
        ),
{
    let mut header = MapStageDataHeader::default();
    match first {
        Some(line) => {
            let hc = line_raw_cells(line, d);
            header = MapStageDataHeader {
                map_number: get_i32_or(&hc, 0, -1),
                unknown_1: get_i32_or(&hc, 1, -1),
                unknown_2: get_i32_or(&hc, 2, -1),
                map_condition: get_i32_or(&hc, 3, -1),
                stage_condition: get_i32_or(&hc, 4, -1),
                user_rank_threshold: get_i32_or(&hc, 5, 0),
                cost_type: if get_i32(&hc, 6) == Some(1i32) { CostType::Item } else { CostType::Energy },
                rest: trailing_all_ints(&hc, 7),
                map_pattern: 0,
            };
        },
        None => {},
    }
    match second {
        Some(line) => {
            let sc = line_raw_cells(line, d);
            header.map_pattern = get_i32_or(&sc, 0, header.map_pattern);
        },
        None => {},
    }
    header
}

// ---------------------------------------------------------------------------
// Rewards
// ---------------------------------------------------------------------------

/// Whether a row's rewards are timed: it is wider than fifteen columns and
/// its columns eight through fourteen all read `-2`.
pub open spec fn is_timed(parts: Seq<Seq<u8>>) -> bool {
    parts.len() > 15 && forall|k: int| 8 <= k < 15 ==> #[trigger] trim(parts[k]) == seq![45u8, 50u8]
}

/// The score rewards of a timed row: one block of score, item and amount per
/// three columns from column sixteen, the last partial or closing block left out.
pub open spec fn timed_scores(parts: Seq<Seq<u8>>) -> Seq<TimedScore> {
    let count = if parts.len() >= 17 { (parts.len() - 17) / 3 } else { 0 };
    Seq::new(count as nat, |b: int| TimedScore {
        score: u32_or(parts, 16 + 3 * b, 0),
        item_id: u32_or(parts, 17 + 3 * b, 0),
        amount: u32_or(parts, 18 + 3 * b, 0),
    })
}

/// The reward pool entry `b` of a treasure row: the first at columns five to
/// seven, and each later one three columns on from column nine.
pub open spec fn drop_at(parts: Seq<Seq<u8>>, b: int) -> DropReward {
    if b == 0 {
        DropReward { chance: u32_or(parts, 5, 0), item_id: u32_or(parts, 6, 0), amount: u32_or(parts, 7, 0) }
    } else {
        DropReward {
            chance: u32_or(parts, 6 + 3 * b, 0),
            item_id: u32_or(parts, 7 + 3 * b, 0),
            amount: u32_or(parts, 8 + 3 * b, 0),
        }
    }
}

/// The number of pool entries a treasure row carries: one for a row of at
/// most nine columns, and one per three columns past the seventh otherwise.
pub open spec fn drop_count(parts: Seq<Seq<u8>>) -> int {
    if parts.len() > 9 { (parts.len() - 7) / 3 } else { 1 }
}

/// The treasure rewards of a row: none for a row of fewer than eight columns.
pub open spec fn treasure_of(parts: Seq<Seq<u8>>) -> RewardView {
    if parts.len() < 8 {
        RewardView::NoReward
    } else {
        RewardView::Treasure {
            drop_rule: if parts.len() > 9 { i32_or(parts, 8, 0) } else { 0 },
            drops: Seq::new(drop_count(parts) as nat, |b: int| drop_at(parts, b)),
        }
    }
}

/// Whether column `k` trims to `-2`.
fn is_minus_two(parts: &Vec<Vec<u8>>, k: usize) -> (r: bool)
    requires
        k < parts@.len(),
    ensures
        r == (trim(views(parts@)[k as int]) == seq![45u8, 50u8]),
{
    let t = trimmed(parts[k].as_slice());
    let m: [u8; 2] = [45, 50];
    assert(m@ =~= seq![45u8, 50u8]);
    crate::text::same_bytes(t.as_slice(), &m)
}

/// Whether a row's rewards are timed.
fn timed_row(parts: &Vec<Vec<u8>>) -> (r: bool)
    ensures
        r == is_timed(views(parts@)),
{
    if parts.len() <= 15 {
        return false;
    }
    let mut k: usize = 8;
    while k < 15
        invariant
            8 <= k <= 15,
            parts@.len() > 15,
            forall|j: int| 8 <= j < k ==> #[trigger] trim(views(parts@)[j]) == seq![45u8, 50u8],
        decreases 15 - k,
    {
        if !is_minus_two(parts, k) {
            return false;
        }
        k += 1;
    }
    true
}

/// Reads the score rewards of a timed row.
fn extract_timed_scores(parts: &Vec<Vec<u8>>) -> (r: RewardStructure)
    ensures
        r@ == RewardView::Timed(timed_scores(views(parts@))),
{
    let count: usize = if parts.len() >= 17 { (parts.len() - 17) / 3 } else { 0 };
    let mut scores: Vec<TimedScore> = Vec::new();
    let mut b: usize = 0;
    assert(count == 0 || 3 * count + 17 <= parts@.len()) by (nonlinear_arith)
        requires count == (if parts@.len() >= 17 { (parts@.len() - 17) / 3 } else { 0int });
    while b < count
        invariant
            b <= count,
            count == 0 || 3 * count + 17 <= parts@.len(),
            parts@.len() <= usize::MAX,
            count == (if parts@.len() >= 17 { (parts@.len() - 17) / 3 } else { 0int }),
            scores@ =~= timed_scores(views(parts@)).take(b as int),
        decreases count - b,
    {
        let score = TimedScore {
            score: get_u32_or(parts, 16 + 3 * b, 0),
            item_id: get_u32_or(parts, 17 + 3 * b, 0),
            amount: get_u32_or(parts, 18 + 3 * b, 0),
        };
        scores.push(score);
        b += 1;
    }
    assert(timed_scores(views(parts@)).take(count as int) =~= timed_scores(views(parts@)));
    RewardStructure::Timed(scores)
}

/// Reads the treasure rewards of a row.
fn extract_treasure_drops(parts: &Vec<Vec<u8>>) -> (r: RewardStructure)
    ensures
        r@ == treasure_of(views(parts@)),
{
    if parts.len() < 8 {
        return RewardStructure::NoReward;
    }
    let mut drops: Vec<DropReward> = Vec::new();
    drops.push(DropReward {
        chance: get_u32_or(parts, 5, 0),
        item_id: get_u32_or(parts, 6, 0),
        amount: get_u32_or(parts, 7, 0),
    });
    let ghost all = Seq::new(drop_count(views(parts@)) as nat, |b: int| drop_at(views(parts@), b));
    let mut drop_rule: i32 = 0;
    if parts.len() > 9 {
        drop_rule = get_i32_or(parts, 8, 0);
        let count: usize = (parts.len() - 7) / 3;
        let mut b: usize = 1;
        assert(drops@ =~= all.take(1));
        assert(3 * count + 7 <= parts@.len()) by (nonlinear_arith)
            requires count == (parts@.len() - 7) / 3, parts@.len() > 9;
        while b < count
            invariant
                1 <= b <= count,
                3 * count + 7 <= parts@.len(),
                parts@.len() <= usize::MAX,
                count == drop_count(views(parts@)),
                all == Seq::new(drop_count(views(parts@)) as nat, |b: int| drop_at(views(parts@), b)),
                drops@ =~= all.take(b as int),
            decreases count - b,
        {
            drops.push(DropReward {
                chance: get_u32_or(parts, 6 + 3 * b, 0),
                item_id: get_u32_or(parts, 7 + 3 * b, 0),
                amount: get_u32_or(parts, 8 + 3 * b, 0),
            });
            b += 1;
        }
        assert(all.take(count as int) =~= all);
    } else {
        assert(drops@ =~= all);
    }
    RewardStructure::Treasure { drop_rule, drops }
}

// ---------------------------------------------------------------------------
// Stages
// ---------------------------------------------------------------------------

/// The metadata a stage row declares, if it has content and at least two columns.
pub open spec fn stage_entry(line: Seq<u8>, d: u8) -> Option<EntryView> {
    let parts = cells_of(line, d);
    if parts.len() < 2 || crate::text::content_of(line).len() == 0 {
        None
    } else {
        Some(EntryView {
            cost: u32_or(parts, 0, 0),
            xp: u32_or(parts, 1, 0),
            init_track: u32_or(parts, 2, 0),
            bgm_change_percent: u32_or(parts, 3, 0),
            boss_track: i16_or(parts, 4, 0),
            rewards: if is_timed(parts) { RewardView::Timed(timed_scores(parts)) } else { treasure_of(parts) },
        })
    }
}

/// The `u32` a row's column `k` reads as once trimmed, or zero where the row
/// stops short of it or the text names no `u32`.
pub open spec fn column_u32(parts: Seq<Seq<u8>>, k: int) -> u32 {
    if 0 <= k < parts.len() {
        match crate::text::spec_u32(trim(parts[k])) {
            Some(v) => v,
            None => 0,
        }
    } else {
        0
    }
}

/// A stage row that is not timed carries treasure exactly when it has at
/// least eight columns. Its first drop takes its chance, item and amount from
/// columns five, six and seven; each later drop `b` from the three columns
/// starting at `6 + 3 * b`; a row wider than nine columns has one drop per
/// three columns past the seventh and its drop rule in column eight, and a
/// narrower one a single drop under rule zero.
pub proof fn lemma_treasure_reads_its_columns(line: Seq<u8>, d: u8)
    requires
        stage_entry(line, d) is Some,
    ensures
        ({
            let parts = cells_of(line, d);
            let rewards = stage_entry(line, d)->0.rewards;
            &&& !is_timed(parts) && parts.len() < 8 ==> rewards == RewardView::NoReward
            &&& !is_timed(parts) && parts.len() >= 8 ==> (rewards matches RewardView::Treasure { drop_rule, drops }
                && drop_rule == (if parts.len() > 9 { i32_or(parts, 8, 0) } else { 0i32 })
                && drops.len() == (if parts.len() > 9 { (parts.len() - 7) / 3 } else { 1 })
                && drops[0] == DropReward {
                    chance: column_u32(parts, 5),
                    item_id: column_u32(parts, 6),
                    amount: column_u32(parts, 7),
                }
                && forall|b: int| 1 <= b < drops.len() ==> #[trigger] drops[b] == DropReward {
                    chance: column_u32(parts, 6 + 3 * b),
                    item_id: column_u32(parts, 7 + 3 * b),
                    amount: column_u32(parts, 8 + 3 * b),
                })
        }),
{
}

/// A stage row reads its cost, experience, opening track, music change point
/// and boss track from columns zero to four; a timed row has one score reward
/// per three columns from column sixteen, each reading its score, item and
/// amount in that order, the last partial or closing block left out.
pub proof fn lemma_stage_row_reads_its_columns(line: Seq<u8>, d: u8)
    requires
        stage_entry(line, d) is Some,
    ensures
        ({
            let parts = cells_of(line, d);
            let e = stage_entry(line, d)->0;
            &&& e.cost == column_u32(parts, 0)
            &&& e.xp == column_u32(parts, 1)
            &&& e.init_track == column_u32(parts, 2)
            &&& e.bgm_change_percent == column_u32(parts, 3)
            &&& e.boss_track == i16_or(parts, 4, 0)
            &&& is_timed(parts) ==> (e.rewards matches RewardView::Timed(scores)
                && scores.len() == (if parts.len() >= 17 { (parts.len() - 17) / 3 } else { 0 })
                && forall|b: int| 0 <= b < scores.len() ==> #[trigger] scores[b] == TimedScore {
                    score: column_u32(parts, 16 + 3 * b),
                    item_id: column_u32(parts, 17 + 3 * b),
                    amount: column_u32(parts, 18 + 3 * b),
                })
        }),
{
}

/// The stages a table's rows declare, each at its row's position: rows that
/// declare none leave a default stage in their place, except after the last
/// row that does.
pub open spec fn stage_entries(rows: Seq<Seq<u8>>, d: u8) -> Seq<EntryView>
    decreases rows.len(),
{
    if rows.len() == 0 {
        Seq::empty()
    } else {
        let prev = stage_entries(rows.drop_last(), d);
        match stage_entry(rows.last(), d) {
            Some(e) => prev + Seq::new((rows.len() - 1 - prev.len()) as nat, |k: int| default_entry()) + seq![e],
            None => prev,
        }
    }
}

/// The stages never outnumber the rows.
pub proof fn lemma_stage_entries_len(rows: Seq<Seq<u8>>, d: u8)
    ensures
        stage_entries(rows, d).len() <= rows.len(),
    decreases rows.len(),
{
    if rows.len() > 0 {
        lemma_stage_entries_len(rows.drop_last(), d);
    }
}

/// Every row past the last stage declares none.
pub proof fn lemma_rows_past_the_stages(rows: Seq<Seq<u8>>, d: u8)
    ensures
        stage_entries(rows, d).len() <= rows.len(),
        forall|j: int| stage_entries(rows, d).len() <= j < rows.len() ==> #[trigger] stage_entry(rows[j], d) is None,
    decreases rows.len(),
{
    if rows.len() > 0 {
        lemma_rows_past_the_stages(rows.drop_last(), d);
        assert forall|j: int| stage_entries(rows, d).len() <= j < rows.len() implies #[trigger] stage_entry(rows[j], d) is None by {
            if j < rows.len() - 1 {
                assert(rows.drop_last()[j] == rows[j]);
            }
        }
    }
}

/// A blank row never shifts the stages after it: the stage at each position
/// is the one its own row declares, or the default where that row declares
/// none.
pub proof fn lemma_stages_keep_their_rows(rows: Seq<Seq<u8>>, d: u8)
    ensures
        forall|j: int| 0 <= j < stage_entries(rows, d).len() ==> #[trigger] stage_entries(rows, d)[j] == match stage_entry(rows[j], d) {
            Some(e) => e,
            None => default_entry(),
        },
    decreases rows.len(),
{
    if rows.len() > 0 {
        let prev = stage_entries(rows.drop_last(), d);
        lemma_stages_keep_their_rows(rows.drop_last(), d);
        lemma_rows_past_the_stages(rows.drop_last(), d);
        assert forall|j: int| 0 <= j < stage_entries(rows, d).len() implies #[trigger] stage_entries(rows, d)[j] == match stage_entry(rows[j], d) {
            Some(e) => e,
            None => default_entry(),
        } by {
            if j < rows.len() - 1 {
                assert(rows.drop_last()[j] == rows[j]);
            }
        }
    }
}

/// A stage a file leaves out costs and rewards nothing and plays the default
/// tracks; a missing header holds negative one in each identifier, a zero rank
/// threshold, energy as its cost, no further columns and map pattern zero.
pub proof fn lemma_defaults()
    ensures
        default_entry() == (EntryView { cost: 0, xp: 0, init_track: 0, bgm_change_percent: 0, boss_track: 0, rewards: RewardView::NoReward }),
        default_header() == (HeaderView {
            map_number: -1i32,
            unknown_1: -1i32,
            unknown_2: -1i32,
            map_condition: -1i32,
            stage_condition: -1i32,
            user_rank_threshold: 0,
            cost_type: CostType::Energy,
            rest: Seq::empty(),
            map_pattern: 0,
        }),
{
}

/// A row's rewards are timed exactly when it is wider than fifteen columns
/// and each of its columns eight through fourteen trims to `-2`.
pub proof fn lemma_timed_rows(parts: Seq<Seq<u8>>)
    ensures
        is_timed(parts) == (parts.len() > 15
            && forall|k: int| 8 <= k < 15 ==> #[trigger] trim(parts[k]) == seq![0x2du8, 0x32u8]),
{
}

/// Reads one stage row.
fn read_stage(line: &[u8], d: u8) -> (r: Option<MapStageDataEntry>)
    ensures
        match r {
            Some(e) => stage_entry(line@, d) == Some(e@),
            None => stage_entry(line@, d) is None,
        },
{
    if !has_content(line) {
        return None;
    }
    let parts = line_cells(line, d);
    if parts.len() < 2 {
        return None;
    }
    let rewards = if timed_row(&parts) { extract_timed_scores(&parts) } else { extract_treasure_drops(&parts) };
    Some(MapStageDataEntry {
        cost: get_u32_or(&parts, 0, 0),
        xp: get_u32_or(&parts, 1, 0),
        init_track: get_u32_or(&parts, 2, 0),
        bgm_change_percent: get_u32_or(&parts, 3, 0),
        boss_track: get_i16_or(&parts, 4, 0),
        rewards,
    })
}

impl MapStageData {
    /// Parses a map's stage metadata file.
    ///
    /// The first two lines carry the map-wide metadata. Each later line is one
    /// stage, in order: a blank line keeps its position with a default stage
    /// in it, so the index of a stage is its line's position, and blank lines
    /// after the last stage add none.
    ///
    /// # Returns
    /// The metadata, or `MapStageDataError::EmptyFile` exactly when no line
    /// past the metadata has content.
    pub fn parse(bytes: &[u8]) -> (r: Result<Self, MapStageDataError>)
        ensures
            ({
                let lines = table_lines(bytes@);
                let rows = drop_n(lines, HEADER_LINES as int);
                let d = resolve_spec(None, scrubbed(bytes@));
                match r {
                    Ok(v) => any_content(rows)
                        && v.header@ == header_of(
                            if lines.len() > 0 { Some(lines[0]) } else { None },
                            if lines.len() > 1 { Some(lines[1]) } else { None },
                            d,
                        )
                        && entry_views(v.entries@) == stage_entries(rows, d),
                    Err(e) => !any_content(rows) && e == MapStageDataError::EmptyFile,
                }
            }),
    {
        let (all_lines, d) = open_table(bytes, None);
        let first: Option<&[u8]> = if all_lines.len() > 0 { Some(all_lines[0].as_slice()) } else { None };
        let second: Option<&[u8]> = if all_lines.len() > 1 { Some(all_lines[1].as_slice()) } else { None };
        let header = extract_header(first, second, d);
        let lines = skip_lines(&all_lines, HEADER_LINES);
        let ghost ls = views(lines@);
        let mut entries: Vec<MapStageDataEntry> = Vec::new();
        let mut found = false;
        let mut i: usize = 0;
        while i < lines.len()
            invariant
                i <= lines@.len(),
                ls == views(lines@),
                found == any_content(ls.take(i as int)),
                entry_views(entries@) == stage_entries(ls.take(i as int), d),
                entries@.len() <= i,
            decreases lines@.len() - i,
        {
            let line = lines[i].as_slice();
            proof {
                assert(ls.take(i + 1).drop_last() =~= ls.take(i as int));
                assert(ls.take(i + 1).last() == line@);
                lemma_stage_entries_len(ls.take(i as int), d);
            }
            if has_content(line) {
                found = true;
            }
            match read_stage(line, d) {
                Some(entry) => {
                    let ghost before = entry_views(entries@);
                    while entries.len() < i
                        invariant
                            entries@.len() <= i,
                            before.len() <= entries@.len(),
                            entry_views(entries@) =~= before + Seq::new((entries@.len() - before.len()) as nat, |k: int| default_entry()),
                        decreases i - entries@.len(),
                    {
                        let ghost prior = entries@;
                        entries.push(MapStageDataEntry::default());
                        proof {
                            assert(entry_views(entries@) =~= entry_views(prior).push(default_entry()));
                        }
                    }
                    entries.push(entry);
                    proof {
                        assert(entry_views(entries@) =~= before + Seq::new((i - before.len()) as nat, |k: int| default_entry()) + seq![entry@]);
                    }
                },
                None => {},
            }
            i += 1;
        }
        proof {
            assert(ls.take(i as int) =~= ls);
        }
        if !found {
            return Err(MapStageDataError::EmptyFile);
        }
        Ok(MapStageData { header, entries })
    }
}

} // verus!
