//! Reward drop configuration for map clears.
//!
//! A row's crown multipliers are decimal fractions. The rows are read here
//! with every integer column decoded and the multipliers left as the text of
//! their columns, for a reader with floating point to convert.

use vstd::prelude::*;

use crate::common::file::{open_table, resolve_spec, table_lines, Separator};
use crate::text::{
    any_content, cell, cell_u32, cells_of, content_of, drop_n, get_cell, get_u32, get_u32_or, has_content,
    lemma_views_push, line_cells, skip_lines, u32_or, views,
};

verus! {

/// Represents errors that can occur during the parsing of drop items.
#[derive(Debug, Clone, PartialEq, Eq)]
#[non_exhaustive]
pub enum DropItemError {
    /// The supplied bytes yielded no line with content past the header.
    EmptyFile,
}

impl DropItemError {
    /// A human-readable description of the error.
    #[verifier::allow_in_spec]
    pub fn message(&self) -> &'static str
        returns
            (match self {
                DropItemError::EmptyFile => "The provided byte slice contained no valid drop item data.",
            }),
    {
        match self {
            DropItemError::EmptyFile => "The provided byte slice contained no valid drop item data.",
        }
    }
}

/// The `count` columns from `start` on, each read as a `u32`; none unless
/// every one of them is there and reads as one.
pub open spec fn u32_run(cells: Seq<Seq<u8>>, start: int, count: int) -> Option<Seq<u32>>
    decreases count,
{
    if count <= 0 {
        Some(Seq::empty())
    } else {
        match (u32_run(cells, start, count - 1), cell_u32(cells, start + count - 1)) {
            (Some(s), Some(v)) => Some(s.push(v)),
            _ => None,
        }
    }
}

/// Reads `count` columns from `start` on as `u32`s, all of which must be
/// there and read as one.
pub fn extract_u32_array(cells: &Vec<Vec<u8>>, start: usize, count: usize) -> (r: Option<Vec<u32>>)
    requires
        start + count <= usize::MAX,
    ensures
        match r {
            Some(v) => u32_run(views(cells@), start as int, count as int) == Some(v@),
            None => u32_run(views(cells@), start as int, count as int) is None,
        },
{
    let mut out: Vec<u32> = Vec::new();
    let mut k: usize = 0;
    while k < count
        invariant
            k <= count,
            start + count <= usize::MAX,
            u32_run(views(cells@), start as int, k as int) == Some(out@),
        decreases count - k,
    {
        match get_u32(cells, start + k) {
            Some(v) => out.push(v),
            None => {
                proof {
                    lemma_run_fails(views(cells@), start as int, k as int + 1, count as int);
                }
                return None;
            },
        }
        k += 1;
    }
    Some(out)
}

/// A run that fails at some length fails at every greater one.
proof fn lemma_run_fails(cells: Seq<Seq<u8>>, start: int, k: int, count: int)
    requires
        0 <= k <= count,
        u32_run(cells, start, k) is None,
    ensures
        u32_run(cells, start, count) is None,
    decreases count - k,
{
    if k < count {
        lemma_run_fails(cells, start, k + 1, count);
    }
}

/// The `count` columns from `start` on, each read as a `u32` and zero where
/// it is missing or does not read as one.
pub open spec fn u32_run_or_zero(cells: Seq<Seq<u8>>, start: int, count: int) -> Seq<u32> {
    Seq::new(count as nat, |k: int| u32_or(cells, start + k, 0))
}

/// Reads `count` columns from `start` on as `u32`s, zero where a column is
/// missing or does not read as one.
pub fn extract_u32_array_optional(cells: &Vec<Vec<u8>>, start: usize, count: usize) -> (r: Vec<u32>)
    requires
        start + count <= usize::MAX,
    ensures
        r@ == u32_run_or_zero(views(cells@), start as int, count as int),
{
    let mut out: Vec<u32> = Vec::new();
    let mut k: usize = 0;
    while k < count
        invariant
            k <= count,
            start + count <= usize::MAX,
            out@ =~= u32_run_or_zero(views(cells@), start as int, count as int).take(k as int),
        decreases count - k,
    {
        out.push(get_u32_or(cells, start + k, 0));
        k += 1;
    }
    assert(u32_run_or_zero(views(cells@), start as int, count as int).take(k as int) =~= u32_run_or_zero(views(cells@), start as int, count as int));
    out
}

/// One row of the drop table: its map, the text of its four crown
/// multiplier columns, and its integer columns.
#[derive(Debug, Clone, PartialEq, Eq)]
pub struct DropItemRow {
    /// The identifier of the map the row configures.
    pub map_id: u32,
    /// The trimmed text of the four crown multiplier columns, in crown order.
    pub crown_multipliers: Vec<Vec<u8>>,
    /// The item identifiers awarded for clearing individual stages, eight of them.
    pub stage_drops: Vec<u32>,
    /// The percentage chance that a drop attempt yields nothing.
    pub dud_chance: u32,
    /// The item identifiers of the material reward pool, sixteen of them.
    pub material_drops: Vec<u32>,
}

/// The abstract value of a drop row.
pub struct DropRowView {
    pub map_id: u32,
    pub crown_multipliers: Seq<Seq<u8>>,
    pub stage_drops: Seq<u32>,
    pub dud_chance: u32,
    pub material_drops: Seq<u32>,
}

impl View for DropItemRow {
    type V = DropRowView;

    open spec fn view(&self) -> DropRowView {
        DropRowView {
            map_id: self.map_id,
            crown_multipliers: views(self.crown_multipliers@),
            stage_drops: self.stage_drops@,
            dud_chance: self.dud_chance,
            material_drops: self.material_drops@,
        }
    }
}

/// The number of columns a drop row must have.
pub const DROP_ROW_WIDTH: usize = 22;

/// The row a line declares: none when the line has no content, fewer than
/// twenty-two columns, or a map, stage drop, dud chance or base material
/// column that does not read as a `u32`. The eight later material columns
/// read as zero where they are missing or unreadable.
pub open spec fn drop_row(line: Seq<u8>, d: u8) -> Option<DropRowView> {
    let cells = cells_of(line, d);
    if content_of(line).len() == 0 || cells.len() < DROP_ROW_WIDTH {
        None
    } else {
        match (cell_u32(cells, 0), u32_run(cells, 5, 8), cell_u32(cells, 13), u32_run(cells, 14, 8)) {
            (Some(map_id), Some(stage_drops), Some(dud_chance), Some(base)) => Some(DropRowView {
                map_id,
                crown_multipliers: Seq::new(4, |k: int| cell(cells, 1 + k)->0),
                stage_drops,
                dud_chance,
                material_drops: base + u32_run_or_zero(cells, 22, 8),
            }),
            _ => None,
        }
    }
}

/// The rows a run of lines declares, in order.
pub open spec fn drop_rows(lines: Seq<Seq<u8>>, d: u8) -> Seq<DropRowView>
    decreases lines.len(),
{
    if lines.len() == 0 {
        Seq::empty()
    } else {
        let rows = drop_rows(lines.drop_last(), d);
        match drop_row(lines.last(), d) {
            Some(row) => rows.push(row),
            None => rows,
        }
    }
}

/// Reads the row a line declares.
fn read_row(line: &[u8], d: u8) -> (r: Option<DropItemRow>)
    ensures
        match r {
            Some(row) => drop_row(line@, d) == Some(row@),
            None => drop_row(line@, d) is None,
        },
{
    if !has_content(line) {
        return None;
    }
    let cells = line_cells(line, d);
    if cells.len() < DROP_ROW_WIDTH {
        return None;
    }
    let ghost cs = views(cells@);
    let map_id = match get_u32(&cells, 0) {
        Some(v) => v,
        None => return None,
    };
    let stage_drops = match extract_u32_array(&cells, 5, 8) {
        Some(v) => v,
        None => return None,
    };
    let dud_chance = match get_u32(&cells, 13) {
        Some(v) => v,
        None => return None,
    };
    let mut material_drops = match extract_u32_array(&cells, 14, 8) {
        Some(v) => v,
        None => return None,
    };
    let mut extra = extract_u32_array_optional(&cells, 22, 8);
    material_drops.append(&mut extra);
    let mut crown_multipliers: Vec<Vec<u8>> = Vec::new();
    let mut k: usize = 0;
    while k < 4
        invariant
            k <= 4,
            cs == views(cells@),
            cells@.len() >= DROP_ROW_WIDTH,
            views(crown_multipliers@) =~= Seq::new(k as nat, |j: int| cell(cs, 1 + j)->0),
        decreases 4 - k,
    {
        match get_cell(&cells, 1 + k) {
            Some(c) => {
                proof {
                    lemma_views_push(crown_multipliers@, c);
                }
                crown_multipliers.push(c);
            },
            None => {
                assert(false);
                return None;
            },
        }
        k += 1;
    }
    let row = DropItemRow { map_id, crown_multipliers, stage_drops, dud_chance, material_drops };
    assert(row@.crown_multipliers =~= Seq::new(4, |j: int| cell(cs, 1 + j)->0));
    Some(row)
}

/// Reads the rows of the map drop table, past its header line, in file
/// order; a later row for a map overrides an earlier one.
///
/// Trailing comment text introduced by a double slash is discarded before the
/// columns are read.
///
/// # Returns
/// The rows, or `DropItemError::EmptyFile` exactly when no line past the
/// header carries content.
pub fn read_rows(bytes: &[u8], separator: Option<Separator>) -> (r: Result<Vec<DropItemRow>, DropItemError>)
    ensures
        ({
            let rows = drop_n(table_lines(bytes@), 1);
            let d = resolve_spec(separator, crate::text::scrubbed(bytes@));
            match r {
                Ok(v) => any_content(rows) && v@.map_values(|row: DropItemRow| row@) == drop_rows(rows, d),
                Err(_) => !any_content(rows),
            }
        }),
{
    let (all_lines, d) = open_table(bytes, separator);
    let lines = skip_lines(&all_lines, 1);
    let ghost ls = views(lines@);
    let mut out: Vec<DropItemRow> = Vec::new();
    let mut found = false;
    let mut i: usize = 0;
    proof {
        assert(out@.map_values(|row: DropItemRow| row@) =~= drop_rows(ls.take(0), d));
    }
    while i < lines.len()
        invariant
            i <= lines@.len(),
            ls == views(lines@),
            found == any_content(ls.take(i as int)),
            out@.map_values(|row: DropItemRow| row@) == drop_rows(ls.take(i as int), d),
        decreases lines@.len() - i,
    {
        let line = lines[i].as_slice();
        proof {
            assert(ls.take(i + 1).drop_last() =~= ls.take(i as int));
            assert(ls.take(i + 1).last() == line@);
        }
        if has_content(line) {
            found = true;
        }
        match read_row(line, d) {
            Some(row) => {
                let ghost before = out@;
                out.push(row);
                proof {
                    assert(out@.map_values(|row: DropItemRow| row@) =~= before.map_values(|row: DropItemRow| row@).push(row@));
                }
            },
            None => {},
        }
        i += 1;
    }
    proof {
        assert(ls.take(i as int) =~= ls);
    }
    if !found {
        return Err(DropItemError::EmptyFile);
    }
    Ok(out)
}

} // verus!
