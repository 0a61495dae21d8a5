//! The whole-roster enemy statistic table, read into [`Battle`] rows.
//!
//! The table carries two header lines and one row per enemy in identifier
//! order. A row narrower than ten columns is not combat data.

use vstd::prelude::*;

use crate::combat::entity::{effective_foreswing, less_one};
use crate::common::file::{open_table, resolve_spec, table_lines};
use crate::text::{div_trunc, drop_n, get_i32_or, i32_or, scrubbed, skip_lines, split_bytes, split_on, views};

verus! {

/// The number of header lines the table opens with.
pub const HEADER_LINES: usize = 2;

/// The fewest columns a row needs to be read as combat data.
pub const MIN_COLUMNS: usize = 10;

/// The first column past the layout this parser understands.
pub const KNOWN_COLUMNS: usize = 113;

/// Represents errors that can occur while parsing the statistic table.
#[derive(Debug, Clone, PartialEq, Eq)]
pub enum BattleError {
    /// The table held no row wide enough to be combat data.
    EmptyData,
}

impl BattleError {
    /// A human-readable description of the error.
    #[verifier::allow_in_spec]
    pub fn message(&self) -> &'static str
        returns
            (match self {
                BattleError::EmptyData => "The provided battle data file contained no valid entries.",
            }),
    {
        match self {
            BattleError::EmptyData => "The provided battle data file contained no valid entries.",
        }
    }
}

/// One enemy's combat statistics in the record layout.
///
/// Each field holds its column read as an integer, zero where the row stops
/// short of it or its text is not an integer; the attack cooldown is doubled
/// into frames and the spawn and warp distances are divided by four.
#[derive(Debug, Clone, Default, PartialEq, Eq)]
pub struct Battle {
    pub hitpoints: i32,
    pub knockbacks: i32,
    pub speed: i32,
    pub attack_1: i32,
    pub time_between_attacks: i32,
    pub standing_range: i32,
    pub cash_drop: i32,
    pub hitbox_position: i32,
    pub hitbox_width: i32,
    pub unused: i32,
    pub type_red: i32,
    pub area_attack: i32,
    pub time_until_attack_1: i32,
    pub type_floating: i32,
    pub type_dark: i32,
    pub type_metal: i32,
    pub type_traitless: i32,
    pub type_angel: i32,
    pub type_alien: i32,
    pub type_zombie: i32,
    pub knockback_chance: i32,
    pub freeze_chance: i32,
    pub freeze_duration: i32,
    pub slow_chance: i32,
    pub slow_duration: i32,
    pub critical_chance: i32,
    pub base_destroyer: i32,
    pub wave_chance: i32,
    pub wave_level: i32,
    pub weaken_chance: i32,
    pub weaken_duration: i32,
    pub weaken_percent: i32,
    pub strengthen_threshold: i32,
    pub strengthen_boost: i32,
    pub survive_chance: i32,
    pub long_distance_anchor_1: i32,
    pub long_distance_span_1: i32,
    pub wave_immune: i32,
    pub wave_blocker: i32,
    pub knockback_immune: i32,
    pub freeze_immune: i32,
    pub slow_immune: i32,
    pub weaken_immune: i32,
    pub burrow_amount: i32,
    pub burrow_distance: i32,
    pub revive_count: i32,
    pub revive_time: i32,
    pub revive_hp: i32,
    pub type_witch: i32,
    pub type_dojo: i32,
    pub attack_count_total: i32,
    pub time_before_death: i32,
    pub attack_count_state: i32,
    pub spawn_animation: i32,
    pub soul_animation: i32,
    pub attack_2: i32,
    pub attack_3: i32,
    pub time_until_attack_2: i32,
    pub time_until_attack_3: i32,
    pub attack_1_abilities: i32,
    pub attack_2_abilities: i32,
    pub attack_3_abilities: i32,
    pub spawn_animation_flag: i32,
    pub soul_animation_flag: i32,
    pub barrier_hitpoints: i32,
    pub warp_chance: i32,
    pub warp_duration: i32,
    pub warp_distance_minimum: i32,
    pub warp_distance_maximum: i32,
    pub type_starred_alien: i32,
    pub warp_immune: i32,
    pub type_eva: i32,
    pub type_relic: i32,
    pub curse_chance: i32,
    pub curse_duration: i32,
    pub savage_blow_chance: i32,
    pub savage_blow_boost: i32,
    pub dodge_chance: i32,
    pub dodge_duration: i32,
    pub toxic_chance: i32,
    pub toxic_damage: i32,
    pub surge_chance: i32,
    pub surge_spawn_min: i32,
    pub surge_spawn_max: i32,
    pub surge_level: i32,
    pub surge_immune: i32,
    pub mini_wave: i32,
    pub shield_hitpoints: i32,
    pub shield_regen: i32,
    pub death_surge_chance: i32,
    pub death_surge_spawn_min: i32,
    pub death_surge_spawn_max: i32,
    pub death_surge_level: i32,
    pub type_aku: i32,
    pub type_colossus: i32,
    pub long_distance_2_flag: i32,
    pub long_distance_2_anchor: i32,
    pub long_distance_2_span: i32,
    pub long_distance_3_flag: i32,
    pub long_distance_3_anchor: i32,
    pub long_distance_3_span: i32,
    pub type_behemoth: i32,
    pub mini_surge: i32,
    pub counter_surge: i32,
    pub type_sage: i32,
    pub curse_immune: i32,
    pub explosion_chance: i32,
    pub explosion_anchor: i32,
    pub explosion_span: i32,
    pub explosion_immune: i32,
    pub type_supervillain: i32,
    pub drain_chance: i32,
    pub drain_percent: i32,
    pub has_unknown_abilities: i32,
}

/// An integer divided by four, truncating toward zero.
pub open spec fn quarter(v: i32) -> i32 {
    div_trunc(v as int, 4) as i32
}

/// Divides by four, truncating toward zero.
pub fn quarter_of(v: i32) -> (r: i32)
    ensures
        r == quarter(v),
{
    v / 4
}

/// Whether a row's attack cooldown still fits an `i32` once doubled.
pub open spec fn cooldown_fits(cells: Seq<Seq<u8>>) -> bool {
    -0x4000_0000 <= i32_or(cells, 4, 0) <= 0x3fff_ffff
}

/// Whether a row carries a non-zero integer past the known layout.
pub open spec fn unknown_tail(cells: Seq<Seq<u8>>) -> bool {
    exists|i: int| KNOWN_COLUMNS <= i < cells.len() && #[trigger] i32_or(cells, i, 0) != 0
}

/// The statistics a row's cells read as.
pub open spec fn battle_of(cells: Seq<Seq<u8>>) -> Battle {
    Battle {
        hitpoints: i32_or(cells, 0, 0),
        knockbacks: i32_or(cells, 1, 0),
        speed: i32_or(cells, 2, 0),
        attack_1: i32_or(cells, 3, 0),
        time_between_attacks: (i32_or(cells, 4, 0) * 2) as i32,
        standing_range: i32_or(cells, 5, 0),
        cash_drop: i32_or(cells, 6, 0),
        hitbox_position: i32_or(cells, 7, 0),
        hitbox_width: i32_or(cells, 8, 0),
        unused: i32_or(cells, 9, 0),
        type_red: i32_or(cells, 10, 0),
        area_attack: i32_or(cells, 11, 0),
        time_until_attack_1: i32_or(cells, 12, 0),
        type_floating: i32_or(cells, 13, 0),
        type_dark: i32_or(cells, 14, 0),
        type_metal: i32_or(cells, 15, 0),
        type_traitless: i32_or(cells, 16, 0),
        type_angel: i32_or(cells, 17, 0),
        type_alien: i32_or(cells, 18, 0),
        type_zombie: i32_or(cells, 19, 0),
        knockback_chance: i32_or(cells, 20, 0),
        freeze_chance: i32_or(cells, 21, 0),
        freeze_duration: i32_or(cells, 22, 0),
        slow_chance: i32_or(cells, 23, 0),
        slow_duration: i32_or(cells, 24, 0),
        critical_chance: i32_or(cells, 25, 0),
        base_destroyer: i32_or(cells, 26, 0),
        wave_chance: i32_or(cells, 27, 0),
        wave_level: i32_or(cells, 28, 0),
        weaken_chance: i32_or(cells, 29, 0),
        weaken_duration: i32_or(cells, 30, 0),
        weaken_percent: i32_or(cells, 31, 0),
        strengthen_threshold: i32_or(cells, 32, 0),
        strengthen_boost: i32_or(cells, 33, 0),
        survive_chance: i32_or(cells, 34, 0),
        long_distance_anchor_1: i32_or(cells, 35, 0),
        long_distance_span_1: i32_or(cells, 36, 0),
        wave_immune: i32_or(cells, 37, 0),
        wave_blocker: i32_or(cells, 38, 0),
        knockback_immune: i32_or(cells, 39, 0),
        freeze_immune: i32_or(cells, 40, 0),
        slow_immune: i32_or(cells, 41, 0),
        weaken_immune: i32_or(cells, 42, 0),
        burrow_amount: i32_or(cells, 43, 0),
        burrow_distance: quarter(i32_or(cells, 44, 0)),
        revive_count: i32_or(cells, 45, 0),
        revive_time: i32_or(cells, 46, 0),
        revive_hp: i32_or(cells, 47, 0),
        type_witch: i32_or(cells, 48, 0),
        type_dojo: i32_or(cells, 49, 0),
        attack_count_total: i32_or(cells, 50, -1i32),
        time_before_death: i32_or(cells, 51, -1i32),
        attack_count_state: i32_or(cells, 52, 0),
        spawn_animation: i32_or(cells, 53, 0),
        soul_animation: i32_or(cells, 54, 0),
        attack_2: i32_or(cells, 55, 0),
        attack_3: i32_or(cells, 56, 0),
        time_until_attack_2: i32_or(cells, 57, 0),
        time_until_attack_3: i32_or(cells, 58, 0),
        attack_1_abilities: i32_or(cells, 59, 0),
        attack_2_abilities: i32_or(cells, 60, 0),
        attack_3_abilities: i32_or(cells, 61, 0),
        spawn_animation_flag: i32_or(cells, 62, 0),
        soul_animation_flag: i32_or(cells, 63, 0),
        barrier_hitpoints: i32_or(cells, 64, 0),
        warp_chance: i32_or(cells, 65, 0),
        warp_duration: i32_or(cells, 66, 0),
        warp_distance_minimum: quarter(i32_or(cells, 67, 0)),
        warp_distance_maximum: quarter(i32_or(cells, 68, 0)),
        type_starred_alien: i32_or(cells, 69, 0),
        warp_immune: i32_or(cells, 70, 0),
        type_eva: i32_or(cells, 71, 0),
        type_relic: i32_or(cells, 72, 0),
        curse_chance: i32_or(cells, 73, 0),
        curse_duration: i32_or(cells, 74, 0),
        savage_blow_chance: i32_or(cells, 75, 0),
        savage_blow_boost: i32_or(cells, 76, 0),
        dodge_chance: i32_or(cells, 77, 0),
        dodge_duration: i32_or(cells, 78, 0),
        toxic_chance: i32_or(cells, 79, 0),
        toxic_damage: i32_or(cells, 80, 0),
        surge_chance: i32_or(cells, 81, 0),
        surge_spawn_min: quarter(i32_or(cells, 82, 0)),
        surge_spawn_max: quarter(i32_or(cells, 83, 0)),
        surge_level: i32_or(cells, 84, 0),
        surge_immune: i32_or(cells, 85, 0),
        mini_wave: i32_or(cells, 86, 0),
        shield_hitpoints: i32_or(cells, 87, 0),
        shield_regen: i32_or(cells, 88, 0),
        death_surge_chance: i32_or(cells, 89, 0),
        death_surge_spawn_min: quarter(i32_or(cells, 90, 0)),
        death_surge_spawn_max: quarter(i32_or(cells, 91, 0)),
        death_surge_level: i32_or(cells, 92, 0),
        type_aku: i32_or(cells, 93, 0),
        type_colossus: i32_or(cells, 94, 0),
        long_distance_2_flag: i32_or(cells, 95, 0),
        long_distance_2_anchor: i32_or(cells, 96, 0),
        long_distance_2_span: i32_or(cells, 97, 0),
        long_distance_3_flag: i32_or(cells, 98, 0),
        long_distance_3_anchor: i32_or(cells, 99, 0),
        long_distance_3_span: i32_or(cells, 100, 0),
        type_behemoth: i32_or(cells, 101, 0),
        mini_surge: i32_or(cells, 102, 0),
        counter_surge: i32_or(cells, 103, 0),
        type_sage: i32_or(cells, 104, 0),
        curse_immune: i32_or(cells, 105, 0),
        explosion_chance: i32_or(cells, 106, 0),
        explosion_anchor: quarter(i32_or(cells, 107, 0)),
        explosion_span: quarter(i32_or(cells, 108, 0)),
        explosion_immune: i32_or(cells, 109, 0),
        type_supervillain: i32_or(cells, 110, 0),
        drain_chance: i32_or(cells, 111, 0),
        drain_percent: i32_or(cells, 112, 0),
        has_unknown_abilities: if unknown_tail(cells) { 1 } else { 0 },
    }
}

/// The rows of the table: its lines past the header.
pub open spec fn battle_lines(bytes: Seq<u8>) -> Seq<Seq<u8>> {
    drop_n(table_lines(bytes), HEADER_LINES as int)
}

/// The delimiter the table is split on.
pub open spec fn battle_delimiter(bytes: Seq<u8>) -> u8 {
    resolve_spec(None, scrubbed(bytes))
}

/// Whether a line is wide enough to be combat data.
pub open spec fn is_battle_row(line: Seq<u8>, d: u8) -> bool {
    split_on(line, d).len() >= MIN_COLUMNS
}

/// The statistics of every line wide enough to be combat data, in order.
pub open spec fn battles_of(lines: Seq<Seq<u8>>, d: u8) -> Seq<Battle>
    decreases lines.len(),
{
    if lines.len() == 0 {
        Seq::empty()
    } else {
        let rest = battles_of(lines.drop_last(), d);
        if is_battle_row(lines.last(), d) {
            rest.push(battle_of(split_on(lines.last(), d)))
        } else {
            rest
        }
    }
}

/// Whether every row wide enough to be combat data has a cooldown that fits
/// once doubled.
pub open spec fn cooldowns_fit(lines: Seq<Seq<u8>>, d: u8) -> bool {
    forall|i: int| 0 <= i < lines.len() && #[trigger] is_battle_row(lines[i], d)
        ==> cooldown_fits(split_on(lines[i], d))
}

/// The frames of one attack cycle, before the animation's length bounds it.
pub open spec fn battle_cycle(b: Battle) -> int {
    effective_foreswing(b.attack_2, b.time_until_attack_2, b.attack_3, b.time_until_attack_3, b.time_until_attack_1)
        + less_one(b.time_between_attacks)
}

impl Battle {
    /// Calculates the total length in frames of one complete attack cycle.
    ///
    /// The wind-up is that of the last attack that both deals damage and
    /// declares a strike frame, and the recovery adds the cooldown less one.
    ///
    /// # Returns
    /// The greater of the computed cycle and `frames`.
    pub fn attack_cycle(&self, frames: i32) -> (r: i32)
        requires
            i32::MIN <= battle_cycle(*self) <= i32::MAX,
        ensures
            r == (if battle_cycle(*self) > frames { battle_cycle(*self) } else { frames as int }),
    {
        let mut effective = self.time_until_attack_1;
        if self.attack_3 > 0 && self.time_until_attack_3 > 0 {
            effective = self.time_until_attack_3;
        } else if self.attack_2 > 0 && self.time_until_attack_2 > 0 {
            effective = self.time_until_attack_2;
        }
        let cooldown = if self.time_between_attacks == i32::MIN {
            i32::MIN
        } else {
            self.time_between_attacks - 1
        };
        let cycle = effective + cooldown;
        if cycle > frames { cycle } else { frames }
    }

    /// Parses the table into one entry per row wide enough to be combat data.
    ///
    /// The two header lines are skipped and the delimiter is detected from the
    /// content.
    ///
    /// # Returns
    /// The rows in file order, or `BattleError::EmptyData` exactly when no row
    /// is wide enough.
    pub fn parse_all(bytes: &[u8]) -> (r: Result<Vec<Self>, BattleError>)
        requires
            cooldowns_fit(battle_lines(bytes@), battle_delimiter(bytes@)),
        ensures
            ({
                let rows = battles_of(battle_lines(bytes@), battle_delimiter(bytes@));
                match r {
                    Ok(v) => rows.len() > 0 && v@ == rows,
                    Err(e) => rows.len() == 0 && e == BattleError::EmptyData,
                }
            }),
    {
        let (all_lines, d) = open_table(bytes, None);
        let lines = skip_lines(&all_lines, HEADER_LINES);
        let ghost ls = views(lines@);
        let mut out: Vec<Battle> = Vec::new();
        let mut i: usize = 0;
        while i < lines.len()
            invariant
                i <= lines@.len(),
                ls == views(lines@),
                ls == battle_lines(bytes@),
                d == battle_delimiter(bytes@),
                cooldowns_fit(ls, d),
                out@ == battles_of(ls.take(i as int), d),
            decreases lines@.len() - i,
        {
            proof {
                assert(ls.take(i + 1).drop_last() =~= ls.take(i as int));
                assert(ls.take(i + 1).last() == lines@[i as int]@);
            }
            let cells = split_bytes(lines[i].as_slice(), d);
            if cells.len() >= MIN_COLUMNS {
                proof {
                    assert(is_battle_row(ls[i as int], d));
                }
                out.push(parse_line_data(&cells));
            }
            i += 1;
        }
        proof {
            assert(ls.take(i as int) =~= ls);
        }
        if out.len() == 0 {
            return Err(BattleError::EmptyData);
        }
        Ok(out)
    }

    /// Parses the row of one enemy, addressed by its identifier past the header.
    ///
    /// # Returns
    /// `Ok(None)` when the identifier lies past the end of the table or its
    /// row is too narrow to be combat data, and the row's statistics
    /// otherwise. The table never fails as a whole.
    pub fn parse(bytes: &[u8], id: usize) -> (r: Result<Option<Self>, BattleError>)
        requires
            ({
                let lines = battle_lines(bytes@);
                let d = battle_delimiter(bytes@);
                id < lines.len() && is_battle_row(lines[id as int], d)
                    ==> cooldown_fits(split_on(lines[id as int], d))
            }),
        ensures
            ({
                let lines = battle_lines(bytes@);
                let d = battle_delimiter(bytes@);
                r == Ok::<Option<Battle>, BattleError>(
                    if id < lines.len() && is_battle_row(lines[id as int], d) {
                        Some(battle_of(split_on(lines[id as int], d)))
                    } else {
                        None
                    },
                )
            }),
    {
        let (all_lines, d) = open_table(bytes, None);
        let lines = skip_lines(&all_lines, HEADER_LINES);
        if id >= lines.len() {
            return Ok(None);
        }
        let cells = split_bytes(lines[id].as_slice(), d);
        if cells.len() < MIN_COLUMNS {
            return Ok(None);
        }
        Ok(Some(parse_line_data(&cells)))
    }
}

/// Whether any cell from the first unknown column on reads as a non-zero integer.
fn has_unknown_tail(cells: &Vec<Vec<u8>>) -> (r: bool)
    ensures
        r == unknown_tail(views(cells@)),
{
    let mut i: usize = KNOWN_COLUMNS;
    while i < cells.len()
        invariant
            KNOWN_COLUMNS <= i,
            forall|j: int| KNOWN_COLUMNS <= j < i && j < cells@.len() ==> #[trigger] i32_or(views(cells@), j, 0) == 0,
        decreases cells@.len() - i,
    {
        if get_i32_or(cells, i, 0) != 0 {
            return true;
        }
        i += 1;
    }
    false
}

/// The `i32` a row's column `k` reads as once trimmed, or `default` where
/// the row stops short of it or the text names no `i32`.
pub open spec fn read_column_i32(cells: Seq<Seq<u8>>, k: int, default: i32) -> i32 {
    if 0 <= k < cells.len() {
        match crate::text::spec_i32(crate::text::trim(cells[k])) {
            Some(v) => v,
            None => default,
        }
    } else {
        default
    }
}

/// A quarter of `v`, truncated toward zero as integer division does.
pub open spec fn toward_zero_quarter(v: i32) -> int {
    if v >= 0 { v / 4 } else { -((-v) / 4) }
}

proof fn lemma_columns_read_alike(cells: Seq<Seq<u8>>)
    ensures
        forall|k: int, d: i32| #[trigger] i32_or(cells, k, d) == read_column_i32(cells, k, d),
        forall|v: i32| #[trigger] quarter(v) == toward_zero_quarter(v),
{
}

/// Each statistic of an enemy row comes from its own column of the table:
/// the column numbers below are the positions the engine's table gives them,
/// the attack interval is stored halved and the distances quadrupled, and the
/// attack count and time before death default to negative one (part 1).
pub proof fn lemma_battle_reads_its_columns_1(cells: Seq<Seq<u8>>)
    ensures
        battle_of(cells).hitpoints == read_column_i32(cells, 0, 0i32),
        battle_of(cells).knockbacks == read_column_i32(cells, 1, 0i32),
        battle_of(cells).speed == read_column_i32(cells, 2, 0i32),
        battle_of(cells).attack_1 == read_column_i32(cells, 3, 0i32),
        cooldown_fits(cells) ==> battle_of(cells).time_between_attacks == read_column_i32(cells, 4, 0i32) * 2,
        battle_of(cells).standing_range == read_column_i32(cells, 5, 0i32),
        battle_of(cells).cash_drop == read_column_i32(cells, 6, 0i32),
        battle_of(cells).hitbox_position == read_column_i32(cells, 7, 0i32),
        battle_of(cells).hitbox_width == read_column_i32(cells, 8, 0i32),
        battle_of(cells).unused == read_column_i32(cells, 9, 0i32),
        battle_of(cells).type_red == read_column_i32(cells, 10, 0i32),
        battle_of(cells).area_attack == read_column_i32(cells, 11, 0i32),
        battle_of(cells).time_until_attack_1 == read_column_i32(cells, 12, 0i32),
        battle_of(cells).type_floating == read_column_i32(cells, 13, 0i32),
        battle_of(cells).type_dark == read_column_i32(cells, 14, 0i32),
        battle_of(cells).type_metal == read_column_i32(cells, 15, 0i32),
        battle_of(cells).type_traitless == read_column_i32(cells, 16, 0i32),
        battle_of(cells).type_angel == read_column_i32(cells, 17, 0i32),
        battle_of(cells).type_alien == read_column_i32(cells, 18, 0i32),
        battle_of(cells).type_zombie == read_column_i32(cells, 19, 0i32),
{
    lemma_columns_read_alike(cells);
}

/// Each statistic of an enemy row comes from its own column of the table:
/// the column numbers below are the positions the engine's table gives them,
/// the attack interval is stored halved and the distances quadrupled, and the
/// attack count and time before death default to negative one (part 2).
pub proof fn lemma_battle_reads_its_columns_2(cells: Seq<Seq<u8>>)
    ensures
        battle_of(cells).knockback_chance == read_column_i32(cells, 20, 0i32),
        battle_of(cells).freeze_chance == read_column_i32(cells, 21, 0i32),
        battle_of(cells).freeze_duration == read_column_i32(cells, 22, 0i32),
        battle_of(cells).slow_chance == read_column_i32(cells, 23, 0i32),
        battle_of(cells).slow_duration == read_column_i32(cells, 24, 0i32),
        battle_of(cells).critical_chance == read_column_i32(cells, 25, 0i32),
        battle_of(cells).base_destroyer == read_column_i32(cells, 26, 0i32),
        battle_of(cells).wave_chance == read_column_i32(cells, 27, 0i32),
        battle_of(cells).wave_level == read_column_i32(cells, 28, 0i32),
        battle_of(cells).weaken_chance == read_column_i32(cells, 29, 0i32),
        battle_of(cells).weaken_duration == read_column_i32(cells, 30, 0i32),
        battle_of(cells).weaken_percent == read_column_i32(cells, 31, 0i32),
        battle_of(cells).strengthen_threshold == read_column_i32(cells, 32, 0i32),
        battle_of(cells).strengthen_boost == read_column_i32(cells, 33, 0i32),
        battle_of(cells).survive_chance == read_column_i32(cells, 34, 0i32),
        battle_of(cells).long_distance_anchor_1 == read_column_i32(cells, 35, 0i32),
        battle_of(cells).long_distance_span_1 == read_column_i32(cells, 36, 0i32),
        battle_of(cells).wave_immune == read_column_i32(cells, 37, 0i32),
        battle_of(cells).wave_blocker == read_column_i32(cells, 38, 0i32),
        battle_of(cells).knockback_immune == read_column_i32(cells, 39, 0i32),
{
    lemma_columns_read_alike(cells);
}

/// Each statistic of an enemy row comes from its own column of the table:
/// the column numbers below are the positions the engine's table gives them,
/// the attack interval is stored halved and the distances quadrupled, and the
/// attack count and time before death default to negative one (part 3).
pub proof fn lemma_battle_reads_its_columns_3(cells: Seq<Seq<u8>>)
    ensures
        battle_of(cells).freeze_immune == read_column_i32(cells, 40, 0i32),
        battle_of(cells).slow_immune == read_column_i32(cells, 41, 0i32),
        battle_of(cells).weaken_immune == read_column_i32(cells, 42, 0i32),
        battle_of(cells).burrow_amount == read_column_i32(cells, 43, 0i32),
        battle_of(cells).burrow_distance == toward_zero_quarter(read_column_i32(cells, 44, 0i32)),
        battle_of(cells).revive_count == read_column_i32(cells, 45, 0i32),
        battle_of(cells).revive_time == read_column_i32(cells, 46, 0i32),
        battle_of(cells).revive_hp == read_column_i32(cells, 47, 0i32),
        battle_of(cells).type_witch == read_column_i32(cells, 48, 0i32),
        battle_of(cells).type_dojo == read_column_i32(cells, 49, 0i32),
        battle_of(cells).attack_count_total == read_column_i32(cells, 50, -1i32),
        battle_of(cells).time_before_death == read_column_i32(cells, 51, -1i32),
        battle_of(cells).attack_count_state == read_column_i32(cells, 52, 0i32),
        battle_of(cells).spawn_animation == read_column_i32(cells, 53, 0i32),
        battle_of(cells).soul_animation == read_column_i32(cells, 54, 0i32),
        battle_of(cells).attack_2 == read_column_i32(cells, 55, 0i32),
        battle_of(cells).attack_3 == read_column_i32(cells, 56, 0i32),
        battle_of(cells).time_until_attack_2 == read_column_i32(cells, 57, 0i32),
        battle_of(cells).time_until_attack_3 == read_column_i32(cells, 58, 0i32),
        battle_of(cells).attack_1_abilities == read_column_i32(cells, 59, 0i32),
{
    lemma_columns_read_alike(cells);
}

/// Each statistic of an enemy row comes from its own column of the table:
/// the column numbers below are the positions the engine's table gives them,
/// the attack interval is stored halved and the distances quadrupled, and the
/// attack count and time before death default to negative one (part 4).
pub proof fn lemma_battle_reads_its_columns_4(cells: Seq<Seq<u8>>)
    ensures
        battle_of(cells).attack_2_abilities == read_column_i32(cells, 60, 0i32),
        battle_of(cells).attack_3_abilities == read_column_i32(cells, 61, 0i32),
        battle_of(cells).spawn_animation_flag == read_column_i32(cells, 62, 0i32),
        battle_of(cells).soul_animation_flag == read_column_i32(cells, 63, 0i32),
        battle_of(cells).barrier_hitpoints == read_column_i32(cells, 64, 0i32),
        battle_of(cells).warp_chance == read_column_i32(cells, 65, 0i32),
        battle_of(cells).warp_duration == read_column_i32(cells, 66, 0i32),
        battle_of(cells).warp_distance_minimum == toward_zero_quarter(read_column_i32(cells, 67, 0i32)),
        battle_of(cells).warp_distance_maximum == toward_zero_quarter(read_column_i32(cells, 68, 0i32)),
        battle_of(cells).type_starred_alien == read_column_i32(cells, 69, 0i32),
        battle_of(cells).warp_immune == read_column_i32(cells, 70, 0i32),
        battle_of(cells).type_eva == read_column_i32(cells, 71, 0i32),
        battle_of(cells).type_relic == read_column_i32(cells, 72, 0i32),
        battle_of(cells).curse_chance == read_column_i32(cells, 73, 0i32),
        battle_of(cells).curse_duration == read_column_i32(cells, 74, 0i32),
        battle_of(cells).savage_blow_chance == read_column_i32(cells, 75, 0i32),
        battle_of(cells).savage_blow_boost == read_column_i32(cells, 76, 0i32),
        battle_of(cells).dodge_chance == read_column_i32(cells, 77, 0i32),
        battle_of(cells).dodge_duration == read_column_i32(cells, 78, 0i32),
        battle_of(cells).toxic_chance == read_column_i32(cells, 79, 0i32),
{
    lemma_columns_read_alike(cells);
}

/// Each statistic of an enemy row comes from its own column of the table:
/// the column numbers below are the positions the engine's table gives them,
/// the attack interval is stored halved and the distances quadrupled, and the
/// attack count and time before death default to negative one (part 5).
pub proof fn lemma_battle_reads_its_columns_5(cells: Seq<Seq<u8>>)
    ensures
        battle_of(cells).toxic_damage == read_column_i32(cells, 80, 0i32),
        battle_of(cells).surge_chance == read_column_i32(cells, 81, 0i32),
        battle_of(cells).surge_spawn_min == toward_zero_quarter(read_column_i32(cells, 82, 0i32)),
        battle_of(cells).surge_spawn_max == toward_zero_quarter(read_column_i32(cells, 83, 0i32)),
        battle_of(cells).surge_level == read_column_i32(cells, 84, 0i32),
        battle_of(cells).surge_immune == read_column_i32(cells, 85, 0i32),
        battle_of(cells).mini_wave == read_column_i32(cells, 86, 0i32),
        battle_of(cells).shield_hitpoints == read_column_i32(cells, 87, 0i32),
        battle_of(cells).shield_regen == read_column_i32(cells, 88, 0i32),
        battle_of(cells).death_surge_chance == read_column_i32(cells, 89, 0i32),
        battle_of(cells).death_surge_spawn_min == toward_zero_quarter(read_column_i32(cells, 90, 0i32)),
        battle_of(cells).death_surge_spawn_max == toward_zero_quarter(read_column_i32(cells, 91, 0i32)),
        battle_of(cells).death_surge_level == read_column_i32(cells, 92, 0i32),
        battle_of(cells).type_aku == read_column_i32(cells, 93, 0i32),
        battle_of(cells).type_colossus == read_column_i32(cells, 94, 0i32),
        battle_of(cells).long_distance_2_flag == read_column_i32(cells, 95, 0i32),
        battle_of(cells).long_distance_2_anchor == read_column_i32(cells, 96, 0i32),
        battle_of(cells).long_distance_2_span == read_column_i32(cells, 97, 0i32),
        battle_of(cells).long_distance_3_flag == read_column_i32(cells, 98, 0i32),
        battle_of(cells).long_distance_3_anchor == read_column_i32(cells, 99, 0i32),
{
    lemma_columns_read_alike(cells);
}

/// Each statistic of an enemy row comes from its own column of the table:
/// the column numbers below are the positions the engine's table gives them,
/// the attack interval is stored halved and the distances quadrupled, and the
/// attack count and time before death default to negative one (part 6).
pub proof fn lemma_battle_reads_its_columns_6(cells: Seq<Seq<u8>>)
    ensures
        battle_of(cells).long_distance_3_span == read_column_i32(cells, 100, 0i32),
        battle_of(cells).type_behemoth == read_column_i32(cells, 101, 0i32),
        battle_of(cells).mini_surge == read_column_i32(cells, 102, 0i32),
        battle_of(cells).counter_surge == read_column_i32(cells, 103, 0i32),
        battle_of(cells).type_sage == read_column_i32(cells, 104, 0i32),
        battle_of(cells).curse_immune == read_column_i32(cells, 105, 0i32),
        battle_of(cells).explosion_chance == read_column_i32(cells, 106, 0i32),
        battle_of(cells).explosion_anchor == toward_zero_quarter(read_column_i32(cells, 107, 0i32)),
        battle_of(cells).explosion_span == toward_zero_quarter(read_column_i32(cells, 108, 0i32)),
        battle_of(cells).explosion_immune == read_column_i32(cells, 109, 0i32),
        battle_of(cells).type_supervillain == read_column_i32(cells, 110, 0i32),
        battle_of(cells).drain_chance == read_column_i32(cells, 111, 0i32),
        battle_of(cells).drain_percent == read_column_i32(cells, 112, 0i32),
{
    lemma_columns_read_alike(cells);
}


/// Reads one row's cells into its statistics.
pub fn parse_line_data(cells: &Vec<Vec<u8>>) -> (r: Battle)
    requires
        cooldown_fits(views(cells@)),
    ensures
        r == battle_of(views(cells@)),
{
    let unknown = has_unknown_tail(cells);
    Battle {
        hitpoints: get_i32_or(cells, 0, 0),
        knockbacks: get_i32_or(cells, 1, 0),
        speed: get_i32_or(cells, 2, 0),
        attack_1: get_i32_or(cells, 3, 0),
        time_between_attacks: get_i32_or(cells, 4, 0) * 2,
        standing_range: get_i32_or(cells, 5, 0),
        cash_drop: get_i32_or(cells, 6, 0),
        hitbox_position: get_i32_or(cells, 7, 0),
        hitbox_width: get_i32_or(cells, 8, 0),
        unused: get_i32_or(cells, 9, 0),
        type_red: get_i32_or(cells, 10, 0),
        area_attack: get_i32_or(cells, 11, 0),
        time_until_attack_1: get_i32_or(cells, 12, 0),
        type_floating: get_i32_or(cells, 13, 0),
        type_dark: get_i32_or(cells, 14, 0),
        type_metal: get_i32_or(cells, 15, 0),
        type_traitless: get_i32_or(cells, 16, 0),
        type_angel: get_i32_or(cells, 17, 0),
        type_alien: get_i32_or(cells, 18, 0),
        type_zombie: get_i32_or(cells, 19, 0),
        knockback_chance: get_i32_or(cells, 20, 0),
        freeze_chance: get_i32_or(cells, 21, 0),
        freeze_duration: get_i32_or(cells, 22, 0),
        slow_chance: get_i32_or(cells, 23, 0),
        slow_duration: get_i32_or(cells, 24, 0),
        critical_chance: get_i32_or(cells, 25, 0),
        base_destroyer: get_i32_or(cells, 26, 0),
        wave_chance: get_i32_or(cells, 27, 0),
        wave_level: get_i32_or(cells, 28, 0),
        weaken_chance: get_i32_or(cells, 29, 0),
        weaken_duration: get_i32_or(cells, 30, 0),
        weaken_percent: get_i32_or(cells, 31, 0),
        strengthen_threshold: get_i32_or(cells, 32, 0),
        strengthen_boost: get_i32_or(cells, 33, 0),
        survive_chance: get_i32_or(cells, 34, 0),
        long_distance_anchor_1: get_i32_or(cells, 35, 0),
        long_distance_span_1: get_i32_or(cells, 36, 0),
        wave_immune: get_i32_or(cells, 37, 0),
        wave_blocker: get_i32_or(cells, 38, 0),
        knockback_immune: get_i32_or(cells, 39, 0),
        freeze_immune: get_i32_or(cells, 40, 0),
        slow_immune: get_i32_or(cells, 41, 0),
        weaken_immune: get_i32_or(cells, 42, 0),
        burrow_amount: get_i32_or(cells, 43, 0),
        burrow_distance: quarter_of(get_i32_or(cells, 44, 0)),
        revive_count: get_i32_or(cells, 45, 0),
        revive_time: get_i32_or(cells, 46, 0),
        revive_hp: get_i32_or(cells, 47, 0),
        type_witch: get_i32_or(cells, 48, 0),
        type_dojo: get_i32_or(cells, 49, 0),
        attack_count_total: get_i32_or(cells, 50, -1),
        time_before_death: get_i32_or(cells, 51, -1),
        attack_count_state: get_i32_or(cells, 52, 0),
        spawn_animation: get_i32_or(cells, 53, 0),
        soul_animation: get_i32_or(cells, 54, 0),
        attack_2: get_i32_or(cells, 55, 0),
        attack_3: get_i32_or(cells, 56, 0),
        time_until_attack_2: get_i32_or(cells, 57, 0),
        time_until_attack_3: get_i32_or(cells, 58, 0),
        attack_1_abilities: get_i32_or(cells, 59, 0),
        attack_2_abilities: get_i32_or(cells, 60, 0),
        attack_3_abilities: get_i32_or(cells, 61, 0),
        spawn_animation_flag: get_i32_or(cells, 62, 0),
        soul_animation_flag: get_i32_or(cells, 63, 0),
        barrier_hitpoints: get_i32_or(cells, 64, 0),
        warp_chance: get_i32_or(cells, 65, 0),
        warp_duration: get_i32_or(cells, 66, 0),
        warp_distance_minimum: quarter_of(get_i32_or(cells, 67, 0)),
        warp_distance_maximum: quarter_of(get_i32_or(cells, 68, 0)),
        type_starred_alien: get_i32_or(cells, 69, 0),
        warp_immune: get_i32_or(cells, 70, 0),
        type_eva: get_i32_or(cells, 71, 0),
        type_relic: get_i32_or(cells, 72, 0),
        curse_chance: get_i32_or(cells, 73, 0),
        curse_duration: get_i32_or(cells, 74, 0),
        savage_blow_chance: get_i32_or(cells, 75, 0),
        savage_blow_boost: get_i32_or(cells, 76, 0),
        dodge_chance: get_i32_or(cells, 77, 0),
        dodge_duration: get_i32_or(cells, 78, 0),
        toxic_chance: get_i32_or(cells, 79, 0),
        toxic_damage: get_i32_or(cells, 80, 0),
        surge_chance: get_i32_or(cells, 81, 0),
        surge_spawn_min: quarter_of(get_i32_or(cells, 82, 0)),
        surge_spawn_max: quarter_of(get_i32_or(cells, 83, 0)),
        surge_level: get_i32_or(cells, 84, 0),
        surge_immune: get_i32_or(cells, 85, 0),
        mini_wave: get_i32_or(cells, 86, 0),
        shield_hitpoints: get_i32_or(cells, 87, 0),
        shield_regen: get_i32_or(cells, 88, 0),
        death_surge_chance: get_i32_or(cells, 89, 0),
        death_surge_spawn_min: quarter_of(get_i32_or(cells, 90, 0)),
        death_surge_spawn_max: quarter_of(get_i32_or(cells, 91, 0)),
        death_surge_level: get_i32_or(cells, 92, 0),
        type_aku: get_i32_or(cells, 93, 0),
        type_colossus: get_i32_or(cells, 94, 0),
        long_distance_2_flag: get_i32_or(cells, 95, 0),
        long_distance_2_anchor: get_i32_or(cells, 96, 0),
        long_distance_2_span: get_i32_or(cells, 97, 0),
        long_distance_3_flag: get_i32_or(cells, 98, 0),
        long_distance_3_anchor: get_i32_or(cells, 99, 0),
        long_distance_3_span: get_i32_or(cells, 100, 0),
        type_behemoth: get_i32_or(cells, 101, 0),
        mini_surge: get_i32_or(cells, 102, 0),
        counter_surge: get_i32_or(cells, 103, 0),
        type_sage: get_i32_or(cells, 104, 0),
        curse_immune: get_i32_or(cells, 105, 0),
        explosion_chance: get_i32_or(cells, 106, 0),
        explosion_anchor: quarter_of(get_i32_or(cells, 107, 0)),
        explosion_span: quarter_of(get_i32_or(cells, 108, 0)),
        explosion_immune: get_i32_or(cells, 109, 0),
        type_supervillain: get_i32_or(cells, 110, 0),
        drain_chance: get_i32_or(cells, 111, 0),
        drain_percent: get_i32_or(cells, 112, 0),
        has_unknown_abilities: if unknown { 1 } else { 0 },
    }
}

} // verus!
