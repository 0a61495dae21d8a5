//! Unit lineup restrictions applied by particular stages.
use std::collections::HashMap;

use vstd::prelude::*;

use crate::common::file::{open_table, resolve_spec, table_lines, Separator};
use crate::text::{
    any_content, cell_u32, cells_of, drop_n, get_u32, get_u32_or, has_content, line_cells,
    read_u32_cells, scrubbed, skip_lines, u32_cells, u32_or, views,
};

verus! {

broadcast use vstd::std_specs::hash::group_hash_axioms;

/// Represents errors that can occur during the parsing of unit restriction groups.
#[derive(Debug, Clone, PartialEq, Eq)]
pub enum CharaGroupError {
    /// The supplied bytes yielded no parseable rows.
    EmptyFile,
}

impl CharaGroupError {
    /// A human-readable description of the error.
    #[verifier::allow_in_spec]
    pub fn message(&self) -> &'static str
        returns
            (match self {
                CharaGroupError::EmptyFile => "The provided byte slice contained no valid character group data.",
            }),
    {
        match self {
            CharaGroupError::EmptyFile => "The provided byte slice contained no valid character group data.",
        }
    }
}

/// Selects how a unit restriction group constrains the player's lineup.
#[derive(Debug, Clone, Copy, PartialEq, Eq)]
pub enum CharaGroupType {
    /// Only the listed units may be fielded.
    OnlyUse,
    /// The listed units are barred, and all others may be fielded.
    CannotUse,
    /// A restriction code this parser does not recognize, carrying its raw value.
    Unknown(u32),
}

/// The restriction a code names.
pub open spec fn chara_group_type_of(value: u32) -> CharaGroupType {
    if value == 0 {
        CharaGroupType::OnlyUse
    } else if value == 2 {
        CharaGroupType::CannotUse
    } else {
        CharaGroupType::Unknown(value)
    }
}

impl From<u32> for CharaGroupType {
    fn from(value: u32) -> (r: Self) {
        match value {
            0 => CharaGroupType::OnlyUse,
            2 => CharaGroupType::CannotUse,
            _ => CharaGroupType::Unknown(value),
        }
    }
}

impl vstd::std_specs::convert::FromSpecImpl<u32> for CharaGroupType {
    open spec fn obeys_from_spec() -> bool {
        true
    }

    open spec fn from_spec(value: u32) -> Self {
        chara_group_type_of(value)
    }
}

/// A single unit restriction group.
#[derive(Debug, Clone, PartialEq, Eq)]
pub struct CharaGroupEntry {
    /// The group's own identifier, referenced by the stages that apply it.
    pub id: u32,
    /// How the listed units constrain the player's lineup.
    pub kind: CharaGroupType,
    /// The identifiers of the units the restriction lists.
    pub units: Vec<u32>,
}

impl View for CharaGroupEntry {
    type V = (u32, CharaGroupType, Seq<u32>);

    open spec fn view(&self) -> Self::V {
        (self.id, self.kind, self.units@)
    }
}

/// The parsed contents of the unit restriction group table.
#[derive(Clone, Debug, Default, PartialEq, Eq)]
pub struct CharaGroup {
    /// The restriction groups, keyed by group identifier.
    pub groups: HashMap<u32, CharaGroupEntry>,
}

/// The group a line declares: its identifier in the first cell, its
/// restriction code in the third (zero where that does not read as a `u32`),
/// and every later cell that reads as a unit identifier.
pub open spec fn group_row(line: Seq<u8>, d: u8) -> Option<(u32, CharaGroupType, Seq<u32>)> {
    let cells = cells_of(line, d);
    if cells.len() >= 3 {
        match cell_u32(cells, 0) {
            Some(id) => Some((id, chara_group_type_of(u32_or(cells, 2, 0)), u32_cells(drop_n(cells, 3)))),
            None => None,
        }
    } else {
        None
    }
}

/// The groups a table's rows declare, a later row overriding an earlier one.
pub open spec fn groups_of(rows: Seq<Seq<u8>>, d: u8) -> Map<u32, (u32, CharaGroupType, Seq<u32>)>
    decreases rows.len(),
{
    if rows.len() == 0 {
        Map::empty()
    } else {
        let m = groups_of(rows.drop_last(), d);
        match group_row(rows.last(), d) {
            Some(g) => m.insert(g.0, g),
            None => m,
        }
    }
}

/// The view of a map of groups.
pub open spec fn groups_view(m: Map<u32, CharaGroupEntry>) -> Map<u32, (u32, CharaGroupType, Seq<u32>)> {
    m.map_values(|e: CharaGroupEntry| e@)
}

impl CharaGroup {
    /// Parses the unit restriction group table into groups keyed by identifier.
    ///
    /// The header line is skipped.
    pub fn parse(bytes: &[u8], separator: Option<Separator>) -> (r: Result<Self, CharaGroupError>)
        ensures
            ({
                let rows = drop_n(table_lines(bytes@), 1);
                let d = resolve_spec(separator, scrubbed(bytes@));
                match r {
                    Ok(v) => any_content(rows) && groups_view(v.groups@) == groups_of(rows, d),
                    Err(_) => !any_content(rows),
                }
            }),
    {
        parse_inner(bytes, separator)
    }
}

fn parse_inner(bytes: &[u8], separator: Option<Separator>) -> (r: Result<CharaGroup, CharaGroupError>)
    ensures
        ({
            let rows = drop_n(table_lines(bytes@), 1);
            let d = resolve_spec(separator, scrubbed(bytes@));
            match r {
                Ok(v) => any_content(rows) && groups_view(v.groups@) == groups_of(rows, d),
                Err(_) => !any_content(rows),
            }
        }),
{
    let (all_lines, d) = open_table(bytes, separator);
    let lines = skip_lines(&all_lines, 1);
    let ghost ls = views(lines@);
    let mut groups: HashMap<u32, CharaGroupEntry> = HashMap::new();
    let mut found = false;
    let mut i: usize = 0;
    proof {
        assert(groups_view(groups@) =~= groups_of(ls.take(0), d));
    }
    while i < lines.len()
        invariant
            i <= lines@.len(),
            ls == views(lines@),
            found == any_content(ls.take(i as int)),
            groups_view(groups@) == groups_of(ls.take(i as int), d),
        decreases lines@.len() - i,
    {
        let line = lines[i].as_slice();
        proof {
            assert(ls.take(i + 1).drop_last() =~= ls.take(i as int));
            assert(ls.take(i + 1).last() == line@);
        }
        if has_content(line) {
            found = true;
        }
        let cells = line_cells(line, d);
        if cells.len() >= 3 {
            match get_u32(&cells, 0) {
                Some(id) => {
                    let kind = CharaGroupType::from(get_u32_or(&cells, 2, 0));
                    let units = read_u32_cells(&cells, 3);
                    let entry = CharaGroupEntry { id, kind, units };
                    let ghost old_groups = groups@;
                    groups.insert(id, entry);
                    proof {
                        assert(groups_view(groups@) =~= groups_view(old_groups).insert(id, entry@));
                    }
                },
                None => {},
            }
        }
        i += 1;
    }
    proof {
        assert(ls.take(i as int) =~= ls);
    }
    if !found {
        return Err(CharaGroupError::EmptyFile);
    }
    Ok(CharaGroup { groups })
}

} // verus!
