//! Links from ordinary maps to the EX maps they can divert into.
use std::collections::HashMap;

use vstd::prelude::*;

use crate::common::file::{open_table, resolve_spec, table_lines, Separator};
use crate::text::{
    any_content, cell_u32, cells_of, get_u32, has_content, line_cells, scrubbed, views,
};

verus! {

broadcast use vstd::std_specs::hash::group_hash_axioms;

/// Represents errors that can occur during the parsing of EX map links.
#[derive(Debug, Clone, PartialEq, Eq)]
pub enum ExOptionError {
    /// The supplied bytes yielded no parseable rows.
    EmptyFile,
}

impl ExOptionError {
    /// A human-readable description of the error.
    #[verifier::allow_in_spec]
    pub fn message(&self) -> &'static str
        returns
            (match self {
                ExOptionError::EmptyFile => "The provided byte slice contained no valid EX option data.",
            }),
    {
        match self {
            ExOptionError::EmptyFile => "The provided byte slice contained no valid EX option data.",
        }
    }
}

/// The parsed contents of the EX map link table.
#[derive(Clone, Debug)]
pub struct ExOption {
    /// The identifier of the EX map each ordinary map can divert into, keyed by the ordinary map.
    pub map_to_ex_map: HashMap<u32, u32>,
}

/// The link a line declares: its first two cells as map identifiers, when the
/// line has at least two cells and both read as `u32`.
pub open spec fn ex_link(line: Seq<u8>, d: u8) -> Option<(u32, u32)> {
    let cells = cells_of(line, d);
    if cells.len() >= 2 {
        match (cell_u32(cells, 0), cell_u32(cells, 1)) {
            (Some(a), Some(b)) => Some((a, b)),
            _ => None,
        }
    } else {
        None
    }
}

/// The links a table declares, a later line overriding an earlier one.
pub open spec fn ex_links(lines: Seq<Seq<u8>>, d: u8) -> Map<u32, u32>
    decreases lines.len(),
{
    if lines.len() == 0 {
        Map::empty()
    } else {
        let m = ex_links(lines.drop_last(), d);
        match ex_link(lines.last(), d) {
            Some((a, b)) => m.insert(a, b),
            None => m,
        }
    }
}

impl ExOption {
    /// Parses the EX map link table into a mapping between map identifiers.
    ///
    /// Trailing comment text introduced by a double slash is discarded before
    /// the columns are read.
    ///
    /// # Returns
    /// The links on success, or `ExOptionError::EmptyFile` exactly when no line
    /// carries content.
    pub fn parse(bytes: &[u8], separator: Option<Separator>) -> (r: Result<Self, ExOptionError>)
        ensures
            ({
                let lines = table_lines(bytes@);
                let d = resolve_spec(separator, scrubbed(bytes@));
                match r {
                    Ok(v) => any_content(lines) && v.map_to_ex_map@ == ex_links(lines, d),
                    Err(_) => !any_content(lines),
                }
            }),
    {
        parse_inner(bytes, separator)
    }
}

fn parse_inner(bytes: &[u8], separator: Option<Separator>) -> (r: Result<ExOption, ExOptionError>)
    ensures
        ({
            let lines = table_lines(bytes@);
            let d = resolve_spec(separator, scrubbed(bytes@));
            match r {
                Ok(v) => any_content(lines) && v.map_to_ex_map@ == ex_links(lines, d),
                Err(_) => !any_content(lines),
            }
        }),
{
    let (lines, d) = open_table(bytes, separator);
    let ghost ls = views(lines@);
    let mut map_to_ex_map: HashMap<u32, u32> = HashMap::new();
    let mut found = false;
    let mut i: usize = 0;
    while i < lines.len()
        invariant
            i <= lines@.len(),
            ls == views(lines@),
            found == any_content(ls.take(i as int)),
            map_to_ex_map@ == ex_links(ls.take(i as int), d),
        decreases lines@.len() - i,
    {
        let line = lines[i].as_slice();
        proof {
            assert(ls.take(i + 1).drop_last() =~= ls.take(i as int));
            assert(ls.take(i + 1).last() == line@);
        }
        if has_content(line) {
            found = true;
        }
        let cells = line_cells(line, d);
        if cells.len() >= 2 {
            match (get_u32(&cells, 0), get_u32(&cells, 1)) {
                (Some(a), Some(b)) => {
                    map_to_ex_map.insert(a, b);
                },
                _ => {},
            }
        }
        i += 1;
    }
    proof {
        assert(ls.take(i as int) =~= ls);
    }
    if !found {
        return Err(ExOptionError::EmptyFile);
    }
    Ok(ExOption { map_to_ex_map })
}

} // verus!
