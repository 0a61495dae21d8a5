//! Units unlocked as a reward for clearing particular stages.
use std::collections::HashMap;

use vstd::prelude::*;

use crate::common::file::{open_table, resolve_spec, table_lines, Separator};
use crate::text::{
    any_content, cell_i32, cell_u32, cells_of, drop_n, get_i32, get_u32, has_content,
    line_cells, scrubbed, skip_lines, views,
};

verus! {

broadcast use vstd::std_specs::hash::group_hash_axioms;

/// Represents errors that can occur during the parsing of unit unlock drops.
#[derive(Debug, Clone, PartialEq, Eq)]
pub enum DropCharaError {
    /// The supplied bytes yielded no parseable rows.
    EmptyFile,
}

impl DropCharaError {
    /// A human-readable description of the error.
    #[verifier::allow_in_spec]
    pub fn message(&self) -> &'static str
        returns
            (match self {
                DropCharaError::EmptyFile => "The provided byte slice contained no valid character drop data.",
            }),
    {
        match self {
            DropCharaError::EmptyFile => "The provided byte slice contained no valid character drop data.",
        }
    }
}

/// The parsed contents of the unit unlock drop table.
#[derive(Clone, Debug, Default, PartialEq, Eq)]
pub struct DropChara {
    /// The identifier of the unit each stage unlocks, keyed by stage identifier.
    pub character_drops: HashMap<u32, u32>,
}

/// The unlock a line declares: a non-negative drop identifier in its first
/// cell and the unit its third cell names.
pub open spec fn unlock_row(line: Seq<u8>, d: u8) -> Option<(u32, u32)> {
    let cells = cells_of(line, d);
    if cells.len() >= 3 {
        match (cell_i32(cells, 0), cell_u32(cells, 2)) {
            (Some(x), Some(y)) => if x >= 0 { Some((x as u32, y)) } else { None },
            _ => None,
        }
    } else {
        None
    }
}

/// The unlocks a table's rows declare, a later row overriding an earlier one.
pub open spec fn unlocks(rows: Seq<Seq<u8>>, d: u8) -> Map<u32, u32>
    decreases rows.len(),
{
    if rows.len() == 0 {
        Map::empty()
    } else {
        let m = unlocks(rows.drop_last(), d);
        match unlock_row(rows.last(), d) {
            Some((a, b)) => m.insert(a, b),
            None => m,
        }
    }
}

impl DropChara {
    /// Parses the unit unlock drop table into a mapping from stage to unit.
    ///
    /// The header line is skipped.
    pub fn parse(bytes: &[u8], separator: Option<Separator>) -> (r: Result<Self, DropCharaError>)
        ensures
            ({
                let rows = drop_n(table_lines(bytes@), 1);
                let d = resolve_spec(separator, scrubbed(bytes@));
                match r {
                    Ok(v) => any_content(rows) && v.character_drops@ == unlocks(rows, d),
                    Err(_) => !any_content(rows),
                }
            }),
    {
        parse_inner(bytes, separator)
    }
}

fn parse_inner(bytes: &[u8], separator: Option<Separator>) -> (r: Result<DropChara, DropCharaError>)
    ensures
        ({
            let rows = drop_n(table_lines(bytes@), 1);
            let d = resolve_spec(separator, scrubbed(bytes@));
            match r {
                Ok(v) => any_content(rows) && v.character_drops@ == unlocks(rows, d),
                Err(_) => !any_content(rows),
            }
        }),
{
    let (all_lines, d) = open_table(bytes, separator);
    let lines = skip_lines(&all_lines, 1);
    let ghost ls = views(lines@);
    let mut character_drops: HashMap<u32, u32> = HashMap::new();
    let mut found = false;
    let mut i: usize = 0;
    while i < lines.len()
        invariant
            i <= lines@.len(),
            ls == views(lines@),
            found == any_content(ls.take(i as int)),
            character_drops@ == unlocks(ls.take(i as int), d),
        decreases lines@.len() - i,
    {
        let line = lines[i].as_slice();
        proof {
            assert(ls.take(i + 1).drop_last() =~= ls.take(i as int));
            assert(ls.take(i + 1).last() == line@);
        }
        if has_content(line) {
            found = true;
        }
        let cells = line_cells(line, d);
        if cells.len() >= 3 {
            match (get_i32(&cells, 0), get_u32(&cells, 2)) {
                (Some(x), Some(y)) => {
                    if x >= 0 {
                        character_drops.insert(x as u32, y);
                    }
                },
                _ => {},
            }
        }
        i += 1;
    }
    proof {
        assert(ls.take(i as int) =~= ls);
    }
    if !found {
        return Err(DropCharaError::EmptyFile);
    }
    Ok(DropChara { character_drops })
}

} // verus!
