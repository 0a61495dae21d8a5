//! Localized display names for individual stages.
use std::collections::HashMap;

use vstd::prelude::*;

use crate::common::file::{open_table, resolve_spec, table_lines, Separator};
use crate::text::{cells_of, content_of, decode_lossy, eq_ignore_ascii_case, has_content, line_cells, lossy_decode,
    same_bytes, same_ignoring_case, scrubbed, trim_all, trimmed, views};

verus! {

broadcast use vstd::std_specs::hash::group_hash_axioms;

/// Represents errors that can occur during the parsing of stage names.
#[derive(Debug, Clone, PartialEq, Eq)]
#[non_exhaustive]
pub enum StageNameError {
    /// The supplied bytes yielded no line with content.
    EmptyFile,
}

impl StageNameError {
    /// A human-readable description of the error.
    #[verifier::allow_in_spec]
    pub fn message(&self) -> &'static str
        returns
            (match self {
                StageNameError::EmptyFile => "The provided byte slice contained no valid stage name data.",
            }),
    {
        match self {
            StageNameError::EmptyFile => "The provided byte slice contained no valid stage name data.",
        }
    }
}

/// The localized names of one stage, one per column of its line.
#[derive(Default, Debug, Clone, PartialEq, Eq)]
pub struct StageNameEntry {
    /// The names, trimmed, in column order.
    pub names: Vec<String>,
}

impl View for StageNameEntry {
    type V = Seq<Seq<char>>;

    open spec fn view(&self) -> Seq<Seq<char>> {
        self.names@.map_values(|s: String| s@)
    }
}

/// The parsed contents of a stage name table.
#[derive(Clone, Debug, Default, PartialEq, Eq)]
pub struct StageName {
    /// The names, keyed by stage index.
    pub entries: HashMap<u32, StageNameEntry>,
}

/// Whether a name is a placeholder: `dammy` or `<tbd>` in any case, or one
/// of the reserve markers `預備`, `예비` and `予備`.
pub open spec fn is_dummy(name: Seq<u8>) -> bool {
    eq_ignore_ascii_case(name, seq![100u8, 97, 109, 109, 121])
        || eq_ignore_ascii_case(name, seq![60u8, 116, 98, 100, 62])
        || name == seq![0xe9u8, 0xa0, 0x90, 0xe5, 0x82, 0x99]
        || name == seq![0xecu8, 0x98, 0x88, 0xeb, 0xb9, 0x84]
        || name == seq![0xe4u8, 0xba, 0x88, 0xe5, 0x82, 0x99]
}

/// The lines with content, each with its position in the file and its
/// trimmed columns, in order.
pub open spec fn named_lines(lines: Seq<Seq<u8>>, d: u8) -> Seq<(int, Seq<Seq<u8>>)>
    decreases lines.len(),
{
    if lines.len() == 0 {
        Seq::empty()
    } else if content_of(lines.last()).len() > 0 {
        named_lines(lines.drop_last(), d).push((lines.len() - 1, trim_all(cells_of(lines.last(), d))))
    } else {
        named_lines(lines.drop_last(), d)
    }
}

/// The position of the first named line whose first name is a placeholder.
pub open spec fn dummy_index(named: Seq<(int, Seq<Seq<u8>>)>) -> Option<int>
    decreases named.len(),
{
    if named.len() == 0 {
        None
    } else if named[0].1.len() > 0 && is_dummy(named[0].1[0]) {
        Some(0)
    } else {
        match dummy_index(named.skip(1)) {
            Some(i) => Some(i + 1),
            None => None,
        }
    }
}

/// The named line stage `id` takes its names from, when `count` lines precede
/// the placeholder: the two lines just before the placeholder keep their
/// stages, and the lines before them are numbered backwards from stage zero.
pub open spec fn story_line(id: int, count: int) -> int {
    if id < count - 2 { count - 3 - id } else { id }
}

/// The texts of a line's names.
pub open spec fn names_view(names: Seq<Seq<u8>>) -> Seq<Seq<char>> {
    names.map_values(|n: Seq<u8>| lossy_decode(n))
}

/// The names of the first `n` named lines, keyed by their line's position.
pub open spec fn by_position(named: Seq<(int, Seq<Seq<u8>>)>, n: int) -> Map<u32, Seq<Seq<char>>>
    decreases n,
{
    if n <= 0 {
        Map::empty()
    } else {
        by_position(named, n - 1).insert(named[n - 1].0 as u32, names_view(named[n - 1].1))
    }
}

/// The names of the stages a file declares.
///
/// Where a named line opens with a placeholder, the lines before the first
/// such line are the story stages, ordered as [`story_line`] puts them;
/// otherwise each named line is the stage at its line's position.
pub open spec fn stage_names_of(named: Seq<(int, Seq<Seq<u8>>)>) -> Map<u32, Seq<Seq<char>>> {
    match dummy_index(named) {
        Some(count) => Map::new(
            |id: u32| (id as int) < count,
            |id: u32| names_view(named[story_line(id as int, count)].1),
        ),
        None => by_position(named, named.len() as int),
    }
}

/// The views of a table of entries.
pub open spec fn entries_view(m: Map<u32, StageNameEntry>) -> Map<u32, Seq<Seq<char>>> {
    m.map_values(|e: StageNameEntry| e@)
}

/// Whether a trimmed name is a placeholder.
pub fn is_dummy_string(name: &[u8]) -> (r: bool)
    ensures
        r == is_dummy(name@),
{
    let dammy: [u8; 5] = [100, 97, 109, 109, 121];
    let tbd: [u8; 5] = [60, 116, 98, 100, 62];
    let yobi_ja: [u8; 6] = [0xe9, 0xa0, 0x90, 0xe5, 0x82, 0x99];
    let yebi_ko: [u8; 6] = [0xec, 0x98, 0x88, 0xeb, 0xb9, 0x84];
    let yobi_zh: [u8; 6] = [0xe4, 0xba, 0x88, 0xe5, 0x82, 0x99];
    assert(dammy@ =~= seq![100u8, 97, 109, 109, 121]);
    assert(tbd@ =~= seq![60u8, 116, 98, 100, 62]);
    assert(yobi_ja@ =~= seq![0xe9u8, 0xa0, 0x90, 0xe5, 0x82, 0x99]);
    assert(yebi_ko@ =~= seq![0xecu8, 0x98, 0x88, 0xeb, 0xb9, 0x84]);
    assert(yobi_zh@ =~= seq![0xe4u8, 0xba, 0x88, 0xe5, 0x82, 0x99]);
    same_ignoring_case(name, &dammy) || same_ignoring_case(name, &tbd) || same_bytes(name, &yobi_ja)
        || same_bytes(name, &yebi_ko) || same_bytes(name, &yobi_zh)
}

/// The names of a line, as strings.
fn names_of(names: &Vec<Vec<u8>>) -> (r: StageNameEntry)
    ensures
        r@ == names_view(views(names@)),
{
    let mut out: Vec<String> = Vec::new();
    let mut i: usize = 0;
    while i < names.len()
        invariant
            i <= names@.len(),
            out@.len() == i,
            forall|j: int| 0 <= j < i ==> #[trigger] out@[j]@ == lossy_decode(names@[j]@),
        decreases names@.len() - i,
    {
        out.push(decode_lossy(names[i].as_slice()));
        i += 1;
    }
    let r = StageNameEntry { names: out };
    assert(r@ =~= names_view(views(names@)));
    r
}

/// The trimmed columns of a line.
fn trimmed_cells(line: &[u8], d: u8) -> (r: Vec<Vec<u8>>)
    ensures
        views(r@) == trim_all(cells_of(line@, d)),
{
    let cells = line_cells(line, d);
    let mut out: Vec<Vec<u8>> = Vec::new();
    let mut i: usize = 0;
    while i < cells.len()
        invariant
            i <= cells@.len(),
            views(out@) == trim_all(views(cells@)).take(i as int),
        decreases cells@.len() - i,
    {
        let t = trimmed(cells[i].as_slice());
        proof {
            crate::text::lemma_views_push(out@, t);
        }
        out.push(t);
        proof {
            assert(views(out@) =~= trim_all(views(cells@)).take(i + 1));
        }
        i += 1;
    }
    assert(trim_all(views(cells@)).take(i as int) =~= trim_all(views(cells@)));
    out
}

/// The view of a list of named lines.
pub open spec fn named_view(v: Seq<(usize, Vec<Vec<u8>>)>) -> Seq<(int, Seq<Seq<u8>>)> {
    v.map_values(|p: (usize, Vec<Vec<u8>>)| (p.0 as int, views(p.1@)))
}

fn find_dummy(named: &Vec<(usize, Vec<Vec<u8>>)>) -> (r: Option<usize>)
    ensures
        match r {
            Some(i) => dummy_index(named_view(named@)) == Some(i as int),
            None => dummy_index(named_view(named@)) is None,
        },
{
    let ghost nv = named_view(named@);
    let mut i: usize = 0;
    assert(nv.skip(0) =~= nv);
    while i < named.len()
        invariant
            i <= named@.len(),
            nv == named_view(named@),
            dummy_index(nv) == match dummy_index(nv.skip(i as int)) { Some(k) => Some(k + i), None => None },
        decreases named@.len() - i,
    {
        proof {
            assert(nv.skip(i as int)[0] == nv[i as int]);
            assert(nv.skip(i as int).skip(1) =~= nv.skip(i + 1));
        }
        if named[i].1.len() > 0 && is_dummy_string(named[i].1[0].as_slice()) {
            return Some(i);
        }
        i += 1;
    }
    None
}

impl StageName {
    /// Parses a stage name table.
    ///
    /// Each line with content names one stage, its trimmed columns being the
    /// stage's names. Where a line opens with a placeholder name, the lines
    /// before the first such line are the story stages, numbered as
    /// [`story_line`] orders them, and nothing after it is read; otherwise
    /// each line names the stage at its line's position.
    ///
    /// # Returns
    /// The names keyed by stage, or `StageNameError::EmptyFile` exactly when
    /// no line has content.
    pub fn parse(bytes: &[u8], separator: Option<Separator>) -> (r: Result<Self, StageNameError>)
        requires
            ({
                let named = named_lines(table_lines(bytes@), resolve_spec(separator, scrubbed(bytes@)));
                dummy_index(named) matches Some(c) ==> c <= u32::MAX
            }),
        ensures
            ({
                let named = named_lines(table_lines(bytes@), resolve_spec(separator, scrubbed(bytes@)));
                match r {
                    Ok(v) => named.len() > 0 && entries_view(v.entries@) == stage_names_of(named),
                    Err(e) => named.len() == 0 && e == StageNameError::EmptyFile,
                }
            }),
    {
        let (lines, d) = open_table(bytes, separator);
        let ghost ls = views(lines@);
        let mut named: Vec<(usize, Vec<Vec<u8>>)> = Vec::new();
        let mut i: usize = 0;
        while i < lines.len()
            invariant
                i <= lines@.len(),
                ls == views(lines@),
                named_view(named@) == named_lines(ls.take(i as int), d),
            decreases lines@.len() - i,
        {
            proof {
                assert(ls.take(i + 1).drop_last() =~= ls.take(i as int));
                assert(ls.take(i + 1).last() == lines@[i as int]@);
            }
            let line = lines[i].as_slice();
            if has_content(line) {
                let ghost before = named_view(named@);
                let cells = trimmed_cells(line, d);
                let ghost cv = views(cells@);
                named.push((i, cells));
                proof {
                    assert(named_view(named@) =~= before.push((i as int, cv)));
                }
            }
            i += 1;
        }
        proof {
            assert(ls.take(i as int) =~= ls);
        }
        let ghost nv = named_view(named@);
        if named.len() == 0 {
            return Err(StageNameError::EmptyFile);
        }
        let mut entries: HashMap<u32, StageNameEntry> = HashMap::new();
        match find_dummy(&named) {
            Some(count) => {
                proof {
                    lemma_dummy_bound(nv);
                }
                let mut id: usize = 0;
                while id < count
                    invariant
                        id <= count,
                        count <= named@.len(),
                        count <= u32::MAX,
                        nv == named_view(named@),
                        dummy_index(nv) == Some(count as int),
                        entries_view(entries@) == Map::new(
                            |k: u32| (k as int) < id,
                            |k: u32| names_view(nv[story_line(k as int, count as int)].1),
                        ),
                    decreases count - id,
                {
                    let source: usize = if count >= 2 && id < count - 2 { count - 3 - id } else { id };
                    let entry = names_of(&named[source].1);
                    proof {
                        assert(source as int == story_line(id as int, count as int));
                        assert(nv[source as int].1 == views(named@[source as int].1@));
                    }
                    let ghost before = entries_view(entries@);
                    let ghost ev = entry@;
                    let key: u32 = id as u32;
                    assert(key as int == id as int);
                    entries.insert(key, entry);
                    proof {
                        assert(entries_view(entries@) =~= before.insert(key, ev));
                        assert(entries_view(entries@) =~= Map::new(
                            |k: u32| (k as int) < id + 1,
                            |k: u32| names_view(nv[story_line(k as int, count as int)].1),
                        ));
                    }
                    id += 1;
                }
                proof {
                    assert(entries_view(entries@) =~= stage_names_of(nv));
                }
            },
            None => {
                let mut k: usize = 0;
                assert(entries_view(entries@) =~= by_position(nv, 0));
                while k < named.len()
                    invariant
                        k <= named@.len(),
                        nv == named_view(named@),
                        entries_view(entries@) == by_position(nv, k as int),
                    decreases named@.len() - k,
                {
                    let entry = names_of(&named[k].1);
                    let ghost before = entries_view(entries@);
                    let ghost ev = entry@;
                    entries.insert(named[k].0 as u32, entry);
                    proof {
                        assert(entries_view(entries@) =~= before.insert(named@[k as int].0 as u32, ev));
                    }
                    k += 1;
                }
            },
        }
        Ok(StageName { entries })
    }
}

/// The placeholder lies among the named lines.
proof fn lemma_dummy_bound(named: Seq<(int, Seq<Seq<u8>>)>)
    ensures
        dummy_index(named) matches Some(c) ==> 0 <= c < named.len(),
    decreases named.len(),
{
    if named.len() > 0 {
        lemma_dummy_bound(named.skip(1));
    }
}

} // verus!
