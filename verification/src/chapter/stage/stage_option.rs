//! Lineup restrictions that stages impose on the player's deployable units.
use std::collections::HashMap;

use vstd::prelude::*;

use crate::common::file::{open_table, resolve_spec, table_lines};
use crate::text::{
    any_content, cell_i32, cell_i8, cell_u32, cell_u8, cells_of, drop_n, get_i32, get_i8,
    get_u32, get_u8, has_content, line_cells, scrubbed, skip_lines, views,
};

verus! {

broadcast use vstd::std_specs::hash::group_hash_axioms;

/// Represents errors that can occur during the parsing of stage lineup restrictions.
#[derive(Debug, Clone, PartialEq, Eq)]
pub enum StageOptionError {
    /// The supplied bytes yielded no parseable rows.
    EmptyFile,
}

impl StageOptionError {
    /// A human-readable description of the error.
    #[verifier::allow_in_spec]
    pub fn message(&self) -> &'static str
        returns
            (match self {
                StageOptionError::EmptyFile => "The provided byte slice contained no valid stage option data.",
            }),
    {
        match self {
            StageOptionError::EmptyFile => "The provided byte slice contained no valid stage option data.",
        }
    }
}

/// One lineup restriction and the stages it applies to.
#[derive(Default, Debug, Clone, Copy, PartialEq, Eq)]
pub struct StageOptionEntry {
    /// The identifier of the map the restriction applies to.
    pub map_id: u32,
    /// The crown difficulty the restriction applies at, or negative to apply at every difficulty.
    pub target_crowns: i8,
    /// The index of the stage the restriction applies to, or negative to apply to every stage.
    pub target_stage: i32,
    /// A bitmask of the rarity tiers permitted, where each bit selects one tier.
    pub rarity_mask: u8,
    /// The greatest number of units deployable at once.
    pub deploy_limit: u32,
    /// A bitmask of the lineup rows permitted, where each bit selects one row.
    pub allowed_rows: u8,
    /// The lowest deployment cost a unit may have to be eligible.
    pub min_cost: u32,
    /// The highest deployment cost a unit may have to be eligible.
    pub max_cost: u32,
    /// The identifier of the unit restriction group applied, or zero when none is.
    pub charagroup_id: u32,
}

/// The parsed contents of the stage lineup restriction table.
#[derive(Clone, Debug, Default, PartialEq, Eq)]
pub struct StageOption {
    /// The restrictions applying to each map, keyed by map identifier.
    pub entries: HashMap<u32, Vec<StageOptionEntry>>,
}

/// The restriction a row's cells declare for map `map_id`, each column
/// falling back to its engine default where it does not read.
pub open spec fn restriction_of(cells: Seq<Seq<u8>>, map_id: u32) -> StageOptionEntry {
    StageOptionEntry {
        map_id,
        target_crowns: match cell_i8(cells, 1) { Some(v) => v, None => -1i8 },
        target_stage: match cell_i32(cells, 2) { Some(v) => v, None => -1i32 },
        rarity_mask: match cell_u8(cells, 3) { Some(v) => v, None => 0 },
        deploy_limit: match cell_u32(cells, 4) { Some(v) => v, None => 0 },
        allowed_rows: match cell_u8(cells, 5) { Some(v) => v, None => 0 },
        min_cost: match cell_u32(cells, 6) { Some(v) => v, None => 0 },
        max_cost: match cell_u32(cells, 7) { Some(v) => v, None => 0 },
        charagroup_id: match cell_u32(cells, 8) { Some(v) => v, None => 0 },
    }
}

/// The restriction a line declares, when it has nine cells and its first
/// names a map; `redirect` maps the identifier first.
pub open spec fn restriction_row(line: Seq<u8>, d: u8, redirect: spec_fn(u32) -> u32) -> Option<StageOptionEntry> {
    let cells = cells_of(line, d);
    if cells.len() >= 9 {
        match cell_u32(cells, 0) {
            Some(raw) => Some(restriction_of(cells, redirect(raw))),
            None => None,
        }
    } else {
        None
    }
}

/// The restrictions a table's rows declare, collected per map in file order.
pub open spec fn restrictions(rows: Seq<Seq<u8>>, d: u8, redirect: spec_fn(u32) -> u32) -> Map<u32, Seq<StageOptionEntry>>
    decreases rows.len(),
{
    if rows.len() == 0 {
        Map::empty()
    } else {
        let m = restrictions(rows.drop_last(), d, redirect);
        match restriction_row(rows.last(), d, redirect) {
            Some(e) => m.insert(e.map_id, (if m.contains_key(e.map_id) { m[e.map_id] } else { Seq::empty() }).push(e)),
            None => m,
        }
    }
}

/// The view of a map of restriction lists.
pub open spec fn restrictions_view(m: Map<u32, Vec<StageOptionEntry>>) -> Map<u32, Seq<StageOptionEntry>> {
    m.map_values(|v: Vec<StageOptionEntry>| v@)
}

/// The identity on map identifiers.
pub open spec fn same_map(id: u32) -> u32 {
    id
}

impl StageOption {
    /// Parses the stage lineup restriction table into per-map restriction lists.
    ///
    /// The header line is skipped. A map may declare several restrictions, so
    /// each map's restrictions are collected into a list in file order.
    pub fn parse(bytes: &[u8]) -> (r: Result<Self, StageOptionError>)
        ensures
            ({
                let rows = drop_n(table_lines(bytes@), 1);
                let d = resolve_spec(None, scrubbed(bytes@));
                match r {
                    Ok(v) => any_content(rows) && restrictions_view(v.entries@) == restrictions(rows, d, |id: u32| same_map(id)),
                    Err(_) => !any_content(rows),
                }
            }),
    {
        match collect_restrictions(bytes, false) {
            Some(entries) => Ok(StageOption { entries }),
            None => Err(StageOptionError::EmptyFile),
        }
    }
}

/// Collects the restrictions of a stage option table, redirecting each map
/// identifier when `redirect` is set.
pub fn collect_restrictions(bytes: &[u8], redirect: bool) -> (r: Option<HashMap<u32, Vec<StageOptionEntry>>>)
    ensures
        ({
            let rows = drop_n(table_lines(bytes@), 1);
            let d = resolve_spec(None, scrubbed(bytes@));
            let f = if redirect { |id: u32| crate::chapter::map::redirect::redirect_spec(id) } else { |id: u32| same_map(id) };
            match r {
                Some(v) => any_content(rows) && restrictions_view(v@) == restrictions(rows, d, f),
                None => !any_content(rows),
            }
        }),
{
    let (all_lines, d) = open_table(bytes, None);
    let lines = skip_lines(&all_lines, 1);
    let ghost ls = views(lines@);
    let ghost f = if redirect { |id: u32| crate::chapter::map::redirect::redirect_spec(id) } else { |id: u32| same_map(id) };
    let mut entries: HashMap<u32, Vec<StageOptionEntry>> = HashMap::new();
    let mut found = false;
    let mut i: usize = 0;
    proof {
        assert(restrictions_view(entries@) =~= restrictions(ls.take(0), d, f));
    }
    while i < lines.len()
        invariant
            i <= lines@.len(),
            ls == views(lines@),
            f == (if redirect { |id: u32| crate::chapter::map::redirect::redirect_spec(id) } else { |id: u32| same_map(id) }),
            found == any_content(ls.take(i as int)),
            restrictions_view(entries@) == restrictions(ls.take(i as int), d, f),
        decreases lines@.len() - i,
    {
        let line = lines[i].as_slice();
        proof {
            assert(ls.take(i + 1).drop_last() =~= ls.take(i as int));
            assert(ls.take(i + 1).last() == line@);
        }
        if has_content(line) {
            found = true;
        }
        let cells = line_cells(line, d);
        if cells.len() >= 9 {
            match get_u32(&cells, 0) {
                Some(raw) => {
                    let map_id = if redirect { crate::chapter::map::redirect::redirect_map_id(raw) } else { raw };
                    assert(map_id == f(raw));
                    let entry = StageOptionEntry {
                        map_id,
                        target_crowns: match get_i8(&cells, 1) { Some(v) => v, None => -1 },
                        target_stage: match get_i32(&cells, 2) { Some(v) => v, None => -1 },
                        rarity_mask: match get_u8(&cells, 3) { Some(v) => v, None => 0 },
                        deploy_limit: match get_u32(&cells, 4) { Some(v) => v, None => 0 },
                        allowed_rows: match get_u8(&cells, 5) { Some(v) => v, None => 0 },
                        min_cost: match get_u32(&cells, 6) { Some(v) => v, None => 0 },
                        max_cost: match get_u32(&cells, 7) { Some(v) => v, None => 0 },
                        charagroup_id: match get_u32(&cells, 8) { Some(v) => v, None => 0 },
                    };
                    let ghost old_entries = entries@;
                    let mut list = match entries.remove(&map_id) {
                        Some(l) => l,
                        None => Vec::new(),
                    };
                    list.push(entry);
                    entries.insert(map_id, list);
                    proof {
                        assert(restrictions_view(entries@) =~= restrictions_view(old_entries).insert(
                            map_id,
                            (if restrictions_view(old_entries).contains_key(map_id) { restrictions_view(old_entries)[map_id] } else { Seq::empty() }).push(entry),
                        ));
                    }
                },
                None => {},
            }
        }
        i += 1;
    }
    proof {
        assert(ls.take(i as int) =~= ls);
    }
    if !found {
        return None;
    }
    Some(entries)
}

} // verus!
