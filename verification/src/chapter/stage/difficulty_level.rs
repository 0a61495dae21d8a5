//! Per-stage difficulty ratings shown in the stage selection interface.
use std::collections::HashMap;

use vstd::prelude::*;

use crate::common::file::{open_table, resolve_spec, table_lines, Separator};
use crate::text::{
    any_content, cell_u32, cells_of, get_u32, has_content, line_cells, scrubbed, spec_u16,
    take_until, to_u16, trim, trimmed, until_byte, views, DOT,
};

verus! {

broadcast use vstd::std_specs::hash::group_hash_axioms;

/// Represents errors that can occur during the parsing of stage difficulty ratings.
#[derive(Debug, Clone, PartialEq, Eq)]
pub enum DifficultyLevelError {
    /// The supplied bytes yielded no parseable rows.
    EmptyFile,
}

impl DifficultyLevelError {
    /// A human-readable description of the error.
    #[verifier::allow_in_spec]
    pub fn message(&self) -> &'static str
        returns
            (match self {
                DifficultyLevelError::EmptyFile => "The provided byte slice contained no valid difficulty level data.",
            }),
    {
        match self {
            DifficultyLevelError::EmptyFile => "The provided byte slice contained no valid difficulty level data.",
        }
    }
}

/// The parsed contents of the stage difficulty rating table.
#[derive(Clone, Debug, Default, PartialEq, Eq)]
pub struct DifficultyLevel {
    /// The per-stage difficulty ratings in stage order, keyed by map identifier.
    pub map_difficulties: HashMap<u32, Vec<u16>>,
}

/// The rating a cell reads as: the integer part before any dot, or zero.
pub open spec fn rating_of(c: Seq<u8>) -> u16 {
    match spec_u16(take_until(trim(c), DOT)) {
        Some(v) => v,
        None => 0,
    }
}

/// The ratings a line declares for its map.
pub open spec fn rating_row(line: Seq<u8>, d: u8) -> Option<(u32, Seq<u16>)> {
    let cells = cells_of(line, d);
    if cells.len() >= 2 {
        match cell_u32(cells, 0) {
            Some(id) => Some((id, cells.skip(1).map_values(|c: Seq<u8>| rating_of(c)))),
            None => None,
        }
    } else {
        None
    }
}

/// The ratings a table declares, a later line overriding an earlier one.
pub open spec fn ratings(lines: Seq<Seq<u8>>, d: u8) -> Map<u32, Seq<u16>>
    decreases lines.len(),
{
    if lines.len() == 0 {
        Map::empty()
    } else {
        let m = ratings(lines.drop_last(), d);
        match rating_row(lines.last(), d) {
            Some((id, r)) => m.insert(id, r),
            None => m,
        }
    }
}

/// The view of a map of rating lists.
pub open spec fn ratings_view(m: Map<u32, Vec<u16>>) -> Map<u32, Seq<u16>> {
    m.map_values(|v: Vec<u16>| v@)
}

fn rating(c: &[u8]) -> (r: u16)
    ensures
        r == rating_of(c@),
{
    let t = trimmed(c);
    let k = until_byte(t.as_slice(), DOT);
    match to_u16(&t.as_slice()[0..k]) {
        Some(v) => v,
        None => 0,
    }
}

impl DifficultyLevel {
    /// Parses the stage difficulty rating table into per-map rating lists.
    ///
    /// Each row lists one map's ratings in stage order, so an entry's position
    /// within its list is its stage index. A rating keeps only the integer
    /// part before a dot, and one that does not read as a `u16` is zero.
    pub fn parse(bytes: &[u8], separator: Option<Separator>) -> (r: Result<Self, DifficultyLevelError>)
        ensures
            ({
                let lines = table_lines(bytes@);
                let d = resolve_spec(separator, scrubbed(bytes@));
                match r {
                    Ok(v) => any_content(lines) && ratings_view(v.map_difficulties@) == ratings(lines, d),
                    Err(_) => !any_content(lines),
                }
            }),
    {
        parse_inner(bytes, separator)
    }
}

fn parse_inner(bytes: &[u8], separator: Option<Separator>) -> (r: Result<DifficultyLevel, DifficultyLevelError>)
    ensures
        ({
            let lines = table_lines(bytes@);
            let d = resolve_spec(separator, scrubbed(bytes@));
            match r {
                Ok(v) => any_content(lines) && ratings_view(v.map_difficulties@) == ratings(lines, d),
                Err(_) => !any_content(lines),
            }
        }),
{
    let (lines, d) = open_table(bytes, separator);
    let ghost ls = views(lines@);
    let mut map_difficulties: HashMap<u32, Vec<u16>> = HashMap::new();
    let mut found = false;
    let mut i: usize = 0;
    proof {
        assert(ratings_view(map_difficulties@) =~= ratings(ls.take(0), d));
    }
    while i < lines.len()
        invariant
            i <= lines@.len(),
            ls == views(lines@),
            found == any_content(ls.take(i as int)),
            ratings_view(map_difficulties@) == ratings(ls.take(i as int), d),
        decreases lines@.len() - i,
    {
        let line = lines[i].as_slice();
        proof {
            assert(ls.take(i + 1).drop_last() =~= ls.take(i as int));
            assert(ls.take(i + 1).last() == line@);
        }
        if has_content(line) {
            found = true;
        }
        let cells = line_cells(line, d);
        if cells.len() >= 2 {
            match get_u32(&cells, 0) {
                Some(id) => {
                    let ghost cs = views(cells@);
                    let mut list: Vec<u16> = Vec::new();
                    let mut k: usize = 1;
                    while k < cells.len()
                        invariant
                            1 <= k <= cells@.len(),
                            cs == views(cells@),
                            list@ == cs.skip(1).map_values(|c: Seq<u8>| rating_of(c)).take(k - 1),
                        decreases cells@.len() - k,
                    {
                        list.push(rating(cells[k].as_slice()));
                        proof {
                            assert(list@ =~= cs.skip(1).map_values(|c: Seq<u8>| rating_of(c)).take(k as int));
                        }
                        k += 1;
                    }
                    proof {
                        assert(list@ =~= cs.skip(1).map_values(|c: Seq<u8>| rating_of(c)));
                    }
                    let ghost old_map = map_difficulties@;
                    map_difficulties.insert(id, list);
                    proof {
                        assert(ratings_view(map_difficulties@) =~= ratings_view(old_map).insert(id, list@));
                    }
                },
                None => {},
            }
        }
        i += 1;
    }
    proof {
        assert(ls.take(i as int) =~= ls);
    }
    if !found {
        return Err(DifficultyLevelError::EmptyFile);
    }
    Ok(DifficultyLevel { map_difficulties })
}

} // verus!
