//! Localized display names for maps.
use std::collections::HashMap;

use vstd::prelude::*;

use crate::common::file::{open_table, resolve_spec, table_lines, Separator};
use crate::text::{
    any_content, cell, cell_u32, cells_of, decode_lossy, get_cell, get_u32, has_content,
    line_cells, lossy_decode, scrubbed, views,
};

verus! {

broadcast use vstd::std_specs::hash::group_hash_axioms;

/// Represents errors that can occur during the parsing of localized map names.
#[derive(Debug, Clone, PartialEq, Eq)]
pub enum MapNameError {
    /// The supplied bytes yielded no parseable rows.
    EmptyFile,
}

impl MapNameError {
    /// A human-readable description of the error.
    #[verifier::allow_in_spec]
    pub fn message(&self) -> &'static str
        returns
            (match self {
                MapNameError::EmptyFile => "The provided byte slice contained no valid map name data.",
            }),
    {
        match self {
            MapNameError::EmptyFile => "The provided byte slice contained no valid map name data.",
        }
    }
}

/// The parsed contents of the localized map name table.
#[derive(Clone, Debug, Default, PartialEq, Eq)]
pub struct MapName {
    /// The display names, keyed by map identifier.
    pub names: HashMap<u32, String>,
}

/// The name a line declares: the map its first cell names and the text of
/// its second cell, when the line has two cells, the first reads as a `u32`
/// and the second is not blank.
pub open spec fn map_name_row(line: Seq<u8>, d: u8) -> Option<(u32, Seq<char>)> {
    let cells = cells_of(line, d);
    if cells.len() >= 2 {
        match (cell_u32(cells, 0), cell(cells, 1)) {
            (Some(id), Some(name)) => if name.len() > 0 { Some((id, lossy_decode(name))) } else { None },
            _ => None,
        }
    } else {
        None
    }
}

/// The names a table declares, a later line overriding an earlier one.
pub open spec fn map_names(lines: Seq<Seq<u8>>, d: u8) -> Map<u32, Seq<char>>
    decreases lines.len(),
{
    if lines.len() == 0 {
        Map::empty()
    } else {
        let m = map_names(lines.drop_last(), d);
        match map_name_row(lines.last(), d) {
            Some((id, name)) => m.insert(id, name),
            None => m,
        }
    }
}

/// The texts of a map of strings.
pub open spec fn texts(m: Map<u32, String>) -> Map<u32, Seq<char>> {
    m.map_values(|s: String| s@)
}

impl MapName {
    /// Parses the localized map name table into names keyed by map identifier.
    ///
    /// Trailing comment text introduced by a double slash is discarded before
    /// the columns are read.
    ///
    /// # Returns
    /// The names on success, or `MapNameError::EmptyFile` exactly when no line
    /// carries content.
    pub fn parse(bytes: &[u8], separator: Option<Separator>) -> (r: Result<Self, MapNameError>)
        ensures
            ({
                let lines = table_lines(bytes@);
                let d = resolve_spec(separator, scrubbed(bytes@));
                match r {
                    Ok(v) => any_content(lines) && texts(v.names@) == map_names(lines, d),
                    Err(_) => !any_content(lines),
                }
            }),
    {
        parse_inner(bytes, separator)
    }
}

fn parse_inner(bytes: &[u8], separator: Option<Separator>) -> (r: Result<MapName, MapNameError>)
    ensures
        ({
            let lines = table_lines(bytes@);
            let d = resolve_spec(separator, scrubbed(bytes@));
            match r {
                Ok(v) => any_content(lines) && texts(v.names@) == map_names(lines, d),
                Err(_) => !any_content(lines),
            }
        }),
{
    let (lines, d) = open_table(bytes, separator);
    let ghost ls = views(lines@);
    let mut names: HashMap<u32, String> = HashMap::new();
    let mut found = false;
    let mut i: usize = 0;
    proof {
        assert(texts(names@) =~= map_names(ls.take(0), d));
    }
    while i < lines.len()
        invariant
            i <= lines@.len(),
            ls == views(lines@),
            found == any_content(ls.take(i as int)),
            texts(names@) == map_names(ls.take(i as int), d),
        decreases lines@.len() - i,
    {
        let line = lines[i].as_slice();
        proof {
            assert(ls.take(i + 1).drop_last() =~= ls.take(i as int));
            assert(ls.take(i + 1).last() == line@);
        }
        if has_content(line) {
            found = true;
        }
        let cells = line_cells(line, d);
        if cells.len() >= 2 {
            match (get_u32(&cells, 0), get_cell(&cells, 1)) {
                (Some(id), Some(name)) => {
                    if name.len() > 0 {
                        let text = decode_lossy(name.as_slice());
                        let ghost old_names = names@;
                        names.insert(id, text);
                        proof {
                            assert(texts(names@) =~= texts(old_names).insert(id, text@));
                        }
                    }
                },
                _ => {},
            }
        }
        i += 1;
    }
    proof {
        assert(ls.take(i as int) =~= ls);
    }
    if !found {
        return Err(MapNameError::EmptyFile);
    }
    Ok(MapName { names })
}

} // verus!
