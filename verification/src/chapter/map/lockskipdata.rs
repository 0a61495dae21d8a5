//! Rules barring the stage skip feature from particular maps.
use std::collections::HashMap;

use vstd::prelude::*;

use crate::common::file::{open_table, resolve_spec, table_lines, Separator};
use crate::text::{
    after_comment, any_content, cell_u32, cells_of, comment_text, content_of, decode_lossy,
    get_u32, has_content, line_cells, lossy_decode, scrubbed, trim, views,
};

verus! {

broadcast use vstd::std_specs::hash::group_hash_axioms;

/// Represents errors that can occur during the parsing of stage skip exclusions.
#[derive(Debug, Clone, PartialEq, Eq)]
pub enum LockSkipDataError {
    /// The supplied bytes yielded no parseable rows.
    EmptyFile,
}

impl LockSkipDataError {
    /// A human-readable description of the error.
    #[verifier::allow_in_spec]
    pub fn message(&self) -> &'static str
        returns
            (match self {
                LockSkipDataError::EmptyFile => "The provided byte slice contained no valid lock skip data.",
            }),
    {
        match self {
            LockSkipDataError::EmptyFile => "The provided byte slice contained no valid lock skip data.",
        }
    }
}

/// A single rule barring the stage skip feature from a map.
#[derive(Default, Debug, Clone, PartialEq, Eq)]
pub struct LockSkipDataEntry {
    /// The identifier of the message shown to explain why skipping is barred.
    pub exclusion_message_type: u32,
    /// The identifier of the map the exclusion applies to.
    pub excluded_map_id: u32,
    /// The trailing comment text accompanying the row in the source file.
    pub comment: String,
}

impl View for LockSkipDataEntry {
    type V = (u32, u32, Seq<char>);

    open spec fn view(&self) -> (u32, u32, Seq<char>) {
        (self.exclusion_message_type, self.excluded_map_id, self.comment@)
    }
}

/// The parsed contents of the stage skip exclusion table.
#[derive(Clone, Debug, Default)]
pub struct LockSkipData {
    /// The exclusion rules, keyed by the excluded map identifier.
    pub entries: HashMap<u32, LockSkipDataEntry>,
}

/// The rule a line declares: its message type (zero where the first cell does
/// not read as a `u32`), the map its second cell names, and its trimmed
/// comment. A line without content or without a readable second cell
/// declares none.
pub open spec fn skip_rule(line: Seq<u8>, d: u8) -> Option<(u32, u32, Seq<char>)> {
    let cells = cells_of(line, d);
    if content_of(line).len() == 0 {
        None
    } else {
        match cell_u32(cells, 1) {
            Some(map_id) => Some((
                match cell_u32(cells, 0) { Some(t) => t, None => 0 },
                map_id,
                lossy_decode(trim(after_comment(line))),
            )),
            None => None,
        }
    }
}

/// The rules a table declares, keyed by map, a later line overriding an earlier one.
pub open spec fn skip_rules(lines: Seq<Seq<u8>>, d: u8) -> Map<u32, (u32, u32, Seq<char>)>
    decreases lines.len(),
{
    if lines.len() == 0 {
        Map::empty()
    } else {
        let m = skip_rules(lines.drop_last(), d);
        match skip_rule(lines.last(), d) {
            Some(e) => m.insert(e.1, e),
            None => m,
        }
    }
}

/// The view of a table of rules.
pub open spec fn entries_view(m: Map<u32, LockSkipDataEntry>) -> Map<u32, (u32, u32, Seq<char>)> {
    m.map_values(|e: LockSkipDataEntry| e@)
}

impl LockSkipData {
    /// Parses the stage skip exclusion table into per-map rules.
    ///
    /// Trailing comment text introduced by a double slash is retained on the
    /// resulting entry rather than discarded, because the source file uses it
    /// to record why each exclusion exists.
    ///
    /// # Returns
    /// The rules on success, or `LockSkipDataError::EmptyFile` exactly when no
    /// line carries content.
    pub fn parse(bytes: &[u8], separator: Option<Separator>) -> (r: Result<Self, LockSkipDataError>)
        ensures
            ({
                let lines = table_lines(bytes@);
                let d = resolve_spec(separator, scrubbed(bytes@));
                match r {
                    Ok(v) => any_content(lines) && entries_view(v.entries@) == skip_rules(lines, d),
                    Err(_) => !any_content(lines),
                }
            }),
    {
        parse_inner(bytes, separator)
    }
}

fn parse_inner(bytes: &[u8], separator: Option<Separator>) -> (r: Result<LockSkipData, LockSkipDataError>)
    ensures
        ({
            let lines = table_lines(bytes@);
            let d = resolve_spec(separator, scrubbed(bytes@));
            match r {
                Ok(v) => any_content(lines) && entries_view(v.entries@) == skip_rules(lines, d),
                Err(_) => !any_content(lines),
            }
        }),
{
    let (lines, d) = open_table(bytes, separator);
    let ghost ls = views(lines@);
    let mut entries: HashMap<u32, LockSkipDataEntry> = HashMap::new();
    let mut found = false;
    let mut i: usize = 0;
    proof {
        assert(entries_view(entries@) =~= skip_rules(ls.take(0), d));
    }
    while i < lines.len()
        invariant
            i <= lines@.len(),
            ls == views(lines@),
            found == any_content(ls.take(i as int)),
            entries_view(entries@) == skip_rules(ls.take(i as int), d),
        decreases lines@.len() - i,
    {
        let line = lines[i].as_slice();
        proof {
            assert(ls.take(i + 1).drop_last() =~= ls.take(i as int));
            assert(ls.take(i + 1).last() == line@);
        }
        if has_content(line) {
            found = true;
            let cells = line_cells(line, d);
            match get_u32(&cells, 1) {
                Some(map_id) => {
                    let message_type = match get_u32(&cells, 0) {
                        Some(t) => t,
                        None => 0,
                    };
                    let comment_bytes = comment_text(line);
                    let entry = LockSkipDataEntry {
                        exclusion_message_type: message_type,
                        excluded_map_id: map_id,
                        comment: decode_lossy(comment_bytes.as_slice()),
                    };
                    let ghost old_entries = entries@;
                    entries.insert(map_id, entry);
                    proof {
                        assert(entries_view(entries@) =~= entries_view(old_entries).insert(map_id, entry@));
                    }
                },
                None => {},
            }
        }
        i += 1;
    }
    proof {
        assert(ls.take(i as int) =~= ls);
    }
    if !found {
        return Err(LockSkipDataError::EmptyFile);
    }
    Ok(LockSkipData { entries })
}

} // verus!
