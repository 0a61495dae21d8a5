//! Preset lineups fixed on particular stages, read by the header row's names.

use vstd::prelude::*;

use crate::common::file::{open_table, resolve_spec, table_lines};
use crate::common::header::{named_value, value_of};
use crate::common::pairs::{lemma_without, pairs_map, without};
use crate::text::{any_content, cells_of, decode_lossy, drop_n, has_content, line_cells, lossy_decode, scrubbed,
    spec_u32, spec_u8, split_bytes, split_on, to_u32, to_u8, views};

use crate::text::{strip_invalid, valid_part};

verus! {

/// Represents errors that can occur while parsing the fixed formation table.
#[derive(Debug, Clone, PartialEq, Eq)]
pub enum FixedFormationError {
    /// The supplied bytes held no line with content past the header.
    EmptyFile,
    /// The supplied bytes did not begin with the required header row.
    MissingHeaders,
}

impl FixedFormationError {
    /// A human-readable description of the error.
    #[verifier::allow_in_spec]
    pub fn message(&self) -> &'static str
        returns
            (match self {
                FixedFormationError::EmptyFile => "The provided byte slice contained no valid fixed formation data.",
                FixedFormationError::MissingHeaders => "The file is missing the required header row.",
            }),
    {
        match self {
            FixedFormationError::EmptyFile => "The provided byte slice contained no valid fixed formation data.",
            FixedFormationError::MissingHeaders => "The file is missing the required header row.",
        }
    }
}

/// The lineup fixed on one stage.
#[derive(Default, Debug, Clone, PartialEq, Eq)]
pub struct FixedFormationEntry {
    /// The map the stage belongs to.
    pub map_id: u32,
    /// The crown difficulty the lineup applies at.
    pub level: u8,
    /// The stage's index within its map.
    pub stage_no: u32,
    /// The file the preset lineup is read from.
    pub preset_file_name: String,
    /// The developer memo accompanying the row.
    pub memo: String,
}

impl View for FixedFormationEntry {
    type V = (u32, u8, u32, Seq<char>, Seq<char>);

    open spec fn view(&self) -> Self::V {
        (self.map_id, self.level, self.stage_no, self.preset_file_name@, self.memo@)
    }
}

/// The parsed contents of the fixed formation table.
///
/// Each stage and level is held once, with the lineup of its last row.
#[derive(Clone, Debug, Default, PartialEq, Eq)]
pub struct FixedFormation {
    /// The lineups, each with its map, level and stage.
    pub formations: Vec<((u32, u8, u32), FixedFormationEntry)>,
}

/// The key and view of each lineup.
pub open spec fn formations_view(v: Seq<((u32, u8, u32), FixedFormationEntry)>) -> Seq<((u32, u8, u32), (u32, u8, u32, Seq<char>, Seq<char>))> {
    v.map_values(|p: ((u32, u8, u32), FixedFormationEntry)| (p.0, p.1@))
}

/// The key `MapID`.
pub open spec fn key_map_id() -> Seq<u8> { seq![77u8, 97, 112, 73, 68] }
/// The key `Level`.
pub open spec fn key_level() -> Seq<u8> { seq![76u8, 101, 118, 101, 108] }
/// The key `StageNo`.
pub open spec fn key_stage_no() -> Seq<u8> { seq![83u8, 116, 97, 103, 101, 78, 111] }
/// The key `PresetFileName`.
pub open spec fn key_preset() -> Seq<u8> { seq![80u8, 114, 101, 115, 101, 116, 70, 105, 108, 101, 78, 97, 109, 101] }
/// The key `MEMO`.
pub open spec fn key_memo() -> Seq<u8> { seq![77u8, 69, 77, 79] }

/// The lineup a line declares under a header row: none unless its map,
/// level and stage columns read as numbers and it has a preset column.
pub open spec fn formation_row(header: Seq<Seq<u8>>, line: Seq<u8>, d: u8) -> Option<((u32, u8, u32), (u32, u8, u32, Seq<char>, Seq<char>))> {
    let parts = cells_of(line, d);
    let map_id = match named_value(header, parts, key_map_id(), 0) { Some(t) => spec_u32(t), None => None };
    let level = match named_value(header, parts, key_level(), 1) { Some(t) => spec_u8(t), None => None };
    let stage_no = match named_value(header, parts, key_stage_no(), 2) { Some(t) => spec_u32(t), None => None };
    let preset = named_value(header, parts, key_preset(), 3);
    let memo = match named_value(header, parts, key_memo(), 4) { Some(t) => lossy_decode(t), None => Seq::empty() };
    match (map_id, level, stage_no, preset) {
        (Some(m), Some(l), Some(s), Some(p)) => Some(((m, l, s), (m, l, s, lossy_decode(p), memo))),
        _ => None,
    }
}

/// The lineups of a table's rows, in order.
pub open spec fn formations_of(header: Seq<Seq<u8>>, rows: Seq<Seq<u8>>, d: u8) -> Seq<((u32, u8, u32), (u32, u8, u32, Seq<char>, Seq<char>))>
    decreases rows.len(),
{
    if rows.len() == 0 {
        Seq::empty()
    } else {
        match formation_row(header, rows.last(), d) {
            Some(f) => formations_of(header, rows.drop_last(), d).push(f),
            None => formations_of(header, rows.drop_last(), d),
        }
    }
}

fn read_row(header: &Vec<Vec<u8>>, line: &[u8], d: u8) -> (r: Option<((u32, u8, u32), FixedFormationEntry)>)
    ensures
        match r {
            Some(f) => formation_row(views(header@), line@, d) == Some((f.0, f.1@)),
            None => formation_row(views(header@), line@, d) is None,
        },
{
    let k_map: [u8; 5] = [77, 97, 112, 73, 68];
    let k_level: [u8; 5] = [76, 101, 118, 101, 108];
    let k_stage: [u8; 7] = [83, 116, 97, 103, 101, 78, 111];
    let k_preset: [u8; 14] = [80, 114, 101, 115, 101, 116, 70, 105, 108, 101, 78, 97, 109, 101];
    let k_memo: [u8; 4] = [77, 69, 77, 79];
    assert(k_map@ =~= key_map_id());
    assert(k_level@ =~= key_level());
    assert(k_stage@ =~= key_stage_no());
    assert(k_preset@ =~= key_preset());
    assert(k_memo@ =~= key_memo());
    let parts = line_cells(line, d);
    let map_id = match value_of(header, &parts, &k_map, 0) {
        Some(t) => match to_u32(t.as_slice()) { Some(v) => v, None => return None },
        None => return None,
    };
    let level = match value_of(header, &parts, &k_level, 1) {
        Some(t) => match to_u8(t.as_slice()) { Some(v) => v, None => return None },
        None => return None,
    };
    let stage_no = match value_of(header, &parts, &k_stage, 2) {
        Some(t) => match to_u32(t.as_slice()) { Some(v) => v, None => return None },
        None => return None,
    };
    let preset = match value_of(header, &parts, &k_preset, 3) {
        Some(t) => decode_lossy(t.as_slice()),
        None => return None,
    };
    let memo = match value_of(header, &parts, &k_memo, 4) {
        Some(t) => decode_lossy(t.as_slice()),
        None => String::new(),
    };
    Some(((map_id, level, stage_no), FixedFormationEntry { map_id, level, stage_no, preset_file_name: preset, memo }))
}

fn put(table: &mut Vec<((u32, u8, u32), FixedFormationEntry)>, k: (u32, u8, u32), x: FixedFormationEntry)
    ensures
        pairs_map(formations_view(final(table)@)) == pairs_map(formations_view(old(table)@)).insert(k, x@),
{
    let ghost tv = formations_view(old(table)@);
    let mut out: Vec<((u32, u8, u32), FixedFormationEntry)> = Vec::new();
    let mut rest: Vec<((u32, u8, u32), FixedFormationEntry)> = Vec::new();
    std::mem::swap(&mut rest, table);
    let ghost mut i: int = 0;
    assert(tv.skip(0) =~= tv);
    while rest.len() > 0
        invariant
            0 <= i <= tv.len(),
            i + rest@.len() == tv.len(),
            tv == formations_view(old(table)@),
            formations_view(rest@) == tv.skip(i),
            formations_view(out@) == without(tv.take(i), k),
        decreases rest@.len(),
    {
        let ghost r0 = rest@;
        let p = rest.remove(0);
        proof {
            assert(formations_view(r0)[0] == (p.0, p.1@));
            assert(tv.skip(i)[0] == tv[i]);
            assert(tv.take(i + 1).drop_last() =~= tv.take(i));
            assert(tv.take(i + 1).last() == tv[i]);
            assert(formations_view(rest@) =~= formations_view(r0).skip(1));
            assert(tv.skip(i).skip(1) =~= tv.skip(i + 1));
        }
        if !(p.0.0 == k.0 && p.0.1 == k.1 && p.0.2 == k.2) {
            let ghost before = formations_view(out@);
            let ghost pv = (p.0, p.1@);
            out.push(p);
            proof {
                assert(formations_view(out@) =~= before.push(pv));
            }
        }
        proof {
            i = i + 1;
        }
    }
    proof {
        assert(tv.take(i) =~= tv);
        lemma_without(tv, k);
    }
    let ghost w = formations_view(out@);
    let ghost xv = x@;
    out.push((k, x));
    proof {
        assert(formations_view(out@) =~= w.push((k, xv)));
        assert(formations_view(out@).drop_last() =~= w);
        assert(pairs_map(formations_view(out@)) =~= pairs_map(tv).insert(k, xv));
    }
    *table = out;
}

impl FixedFormation {
    /// Parses the fixed formation table, finding each column by the header
    /// row's names and falling back to its usual position.
    ///
    /// Every byte that is not part of a valid UTF-8 character is stripped first.
    ///
    /// # Returns
    /// The lineups; `FixedFormationError::MissingHeaders` exactly when the
    /// file has no lines, and `FixedFormationError::EmptyFile` exactly when no
    /// line past the header has content.
    pub fn parse(bytes: &[u8]) -> (r: Result<Self, FixedFormationError>)
        ensures
            ({
                let lines = table_lines(valid_part(bytes@));
                let rows = drop_n(lines, 1);
                let d = resolve_spec(None, scrubbed(valid_part(bytes@)));
                match r {
                    Ok(v) => lines.len() > 0 && any_content(rows)
                        && pairs_map(formations_view(v.formations@)) == pairs_map(formations_of(split_on(lines[0], d), rows, d)),
                    Err(FixedFormationError::MissingHeaders) => lines.len() == 0,
                    Err(FixedFormationError::EmptyFile) => lines.len() > 0 && !any_content(rows),
                }
            }),
    {
        let valid = strip_invalid(bytes);
        let bytes: &[u8] = valid.as_slice();
        let (all_lines, d) = open_table(bytes, None);
        if all_lines.len() == 0 {
            return Err(FixedFormationError::MissingHeaders);
        }
        let header = split_bytes(all_lines[0].as_slice(), d);
        let ghost hs = views(header@);
        let lines = crate::text::skip_lines(&all_lines, 1);
        let ghost ls = views(lines@);
        let mut formations: Vec<((u32, u8, u32), FixedFormationEntry)> = Vec::new();
        let mut found = false;
        let mut i: usize = 0;
        while i < lines.len()
            invariant
                i <= lines@.len(),
                ls == views(lines@),
                hs == views(header@),
                found == any_content(ls.take(i as int)),
                pairs_map(formations_view(formations@)) == pairs_map(formations_of(hs, ls.take(i as int), d)),
            decreases lines@.len() - i,
        {
            let line = lines[i].as_slice();
            proof {
                assert(ls.take(i + 1).drop_last() =~= ls.take(i as int));
                assert(ls.take(i + 1).last() == line@);
            }
            if has_content(line) {
                found = true;
                match read_row(&header, line, d) {
                    Some((k, x)) => {
                        let ghost before = formations_view(formations@);
                        let ghost xv = x@;
                        put(&mut formations, k, x);
                        proof {
                            let f = formations_of(hs, ls.take(i as int), d);
                            assert(formations_of(hs, ls.take(i + 1), d) == f.push((k, xv)));
                            assert(f.push((k, xv)).drop_last() =~= f);
                            assert(pairs_map(formations_view(formations@)) =~= pairs_map(f.push((k, xv))));
                        }
                    },
                    None => {},
                }
            } else {
                proof {
                    let parts = cells_of(line@, d);
                    assert(parts =~= split_on(Seq::<u8>::empty(), d));
                    assert(parts.len() == 1 && parts[0] =~= Seq::<u8>::empty());
                    assert(crate::text::trim(Seq::<u8>::empty()) =~= Seq::<u8>::empty()) by {
                        reveal_with_fuel(crate::text::trim_start, 1);
                        reveal_with_fuel(crate::text::trim_end, 1);
                    }
                    assert(spec_u32(Seq::<u8>::empty()) is None);
                    assert(named_value(hs, parts, key_map_id(), 0) == Some(Seq::<u8>::empty()));
                }
            }
            i += 1;
        }
        proof {
            assert(ls.take(i as int) =~= ls);
        }
        if !found {
            return Err(FixedFormationError::EmptyFile);
        }
        Ok(FixedFormation { formations })
    }
}

} // verus!
