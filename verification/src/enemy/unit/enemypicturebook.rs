//! The localized enemy picture book table: one description per line, its
//! first column the identifier and the rest the description's lines.

use vstd::prelude::*;

use crate::common::file::{open_table, resolve_spec, table_lines};
use crate::text::{decode_lossy, drop_n, has_prefix, lossy_decode, scrubbed, split_bytes, split_on, starts_with,
    trim, trimmed, views};

verus! {

/// Represents errors that can occur during the parsing of enemy picture book descriptions.
#[derive(Debug, Clone, PartialEq, Eq)]
#[non_exhaustive]
pub enum EnemyPictureBookError {
    /// The supplied bytes yielded no lines at all.
    EmptyData,
}

impl EnemyPictureBookError {
    /// A human-readable description of the error.
    #[verifier::allow_in_spec]
    pub fn message(&self) -> &'static str
        returns
            (match self {
                EnemyPictureBookError::EmptyData => "The provided enemy picture book file contained no valid entries.",
            }),
    {
        match self {
            EnemyPictureBookError::EmptyData => "The provided enemy picture book file contained no valid entries.",
        }
    }
}

/// An enemy's localized dictionary description.
///
/// Placeholder lines beginning with "仮" are stripped.
#[derive(Debug, Clone, Default, PartialEq, Eq)]
pub struct EnemyPictureBook {
    /// The parsed text lines, or `None` if the description is missing or invalid.
    pub description: Option<Vec<String>>,
}

/// The texts of a list of strings.
pub open spec fn texts(v: Seq<String>) -> Seq<Seq<char>> {
    v.map_values(|s: String| s@)
}

impl View for EnemyPictureBook {
    type V = Option<Seq<Seq<char>>>;

    open spec fn view(&self) -> Option<Seq<Seq<char>>> {
        match self.description {
            Some(v) => Some(texts(v@)),
            None => None,
        }
    }
}

/// The UTF-8 bytes of the placeholder mark "仮".
pub open spec fn placeholder_mark() -> Seq<u8> {
    seq![0xe4u8, 0xbb, 0xae]
}

/// Whether a trimmed column is kept as a description line: it is neither
/// empty nor a placeholder.
pub open spec fn is_kept(t: Seq<u8>) -> bool {
    t.len() > 0 && !starts_with(t, placeholder_mark())
}

/// The description lines a row's columns carry, in order.
pub open spec fn kept_lines(cols: Seq<Seq<u8>>) -> Seq<Seq<char>>
    decreases cols.len(),
{
    if cols.len() == 0 {
        Seq::empty()
    } else {
        let rest = kept_lines(cols.drop_last());
        let t = trim(cols.last());
        if is_kept(t) { rest.push(lossy_decode(t)) } else { rest }
    }
}

/// The description a line declares: its columns past the first, trimmed,
/// without empty and placeholder ones; none when nothing is left.
pub open spec fn description_of(line: Seq<u8>, d: u8) -> Option<Seq<Seq<char>>> {
    let ls = kept_lines(drop_n(split_on(line, d), 1));
    if ls.len() == 0 { None } else { Some(ls) }
}

/// Reads one line of the picture book into its description.
pub fn description_from(line: &[u8], d: u8) -> (r: EnemyPictureBook)
    ensures
        r@ == description_of(line@, d),
{
    let cols = split_bytes(line, d);
    let ghost cs = views(cols@);
    let mut out: Vec<String> = Vec::new();
    let mut i: usize = 1;
    let mark: [u8; 3] = [0xe4, 0xbb, 0xae];
    assert(mark@ =~= placeholder_mark());
    if cols.len() <= 1 {
        assert(drop_n(cs, 1) =~= Seq::<Seq<u8>>::empty());
        return EnemyPictureBook { description: None };
    }
    assert(cs.skip(1).take(0) =~= Seq::<Seq<u8>>::empty());
    while i < cols.len()
        invariant
            1 <= i <= cols@.len(),
            cs == views(cols@),
            mark@ == placeholder_mark(),
            texts(out@) == kept_lines(cs.skip(1).take(i - 1)),
        decreases cols@.len() - i,
    {
        proof {
            assert(cs.skip(1).take(i as int).drop_last() =~= cs.skip(1).take(i - 1));
            assert(cs.skip(1).take(i as int).last() == cols@[i as int]@);
        }
        let t = trimmed(cols[i].as_slice());
        if t.len() > 0 && !has_prefix(t.as_slice(), &mark) {
            let ghost before = out@;
            out.push(decode_lossy(t.as_slice()));
            proof {
                assert(texts(out@) =~= texts(before).push(lossy_decode(t@)));
            }
        }
        i += 1;
    }
    assert(cs.skip(1).take(i - 1) =~= cs.skip(1));
    if out.len() == 0 {
        EnemyPictureBook { description: None }
    } else {
        EnemyPictureBook { description: Some(out) }
    }
}

impl EnemyPictureBook {
    /// Parses the enemy picture book table into one entry per declared enemy.
    ///
    /// Every line contributes an entry, including blank ones, so an entry's
    /// position in the returned vector is its internal enemy identifier. The
    /// delimiter is detected from the content.
    ///
    /// # Returns
    /// The descriptions, or `EnemyPictureBookError::EmptyData` exactly when the
    /// file has no lines.
    pub fn parse(bytes: &[u8]) -> (r: Result<Vec<Self>, EnemyPictureBookError>)
        ensures
            ({
                let lines = table_lines(bytes@);
                let d = resolve_spec(None, scrubbed(bytes@));
                match r {
                    Ok(v) => lines.len() > 0 && v@.len() == lines.len()
                        && forall|i: int| 0 <= i < lines.len() ==> #[trigger] v@[i]@ == description_of(lines[i], d),
                    Err(e) => lines.len() == 0 && e == EnemyPictureBookError::EmptyData,
                }
            }),
    {
        let (lines, d) = open_table(bytes, None);
        let mut out: Vec<EnemyPictureBook> = Vec::new();
        let mut i: usize = 0;
        while i < lines.len()
            invariant
                i <= lines@.len(),
                views(lines@) == table_lines(bytes@),
                out@.len() == i,
                forall|j: int| 0 <= j < i ==> #[trigger] out@[j]@ == description_of(views(lines@)[j], d),
            decreases lines@.len() - i,
        {
            out.push(description_from(lines[i].as_slice(), d));
            i += 1;
        }
        if out.len() == 0 {
            return Err(EnemyPictureBookError::EmptyData);
        }
        Ok(out)
    }

    /// Parses a single row of the enemy picture book table by enemy identifier.
    ///
    /// # Returns
    /// The description, or `None` exactly when the identifier lies beyond the
    /// end of the table.
    pub fn parse_row(bytes: &[u8], id: usize) -> (r: Option<Self>)
        ensures
            ({
                let lines = table_lines(bytes@);
                let d = resolve_spec(None, scrubbed(bytes@));
                match r {
                    Some(b) => id < lines.len() && b@ == description_of(lines[id as int], d),
                    None => id >= lines.len(),
                }
            }),
    {
        let (lines, d) = open_table(bytes, None);
        if id >= lines.len() {
            return None;
        }
        Some(description_from(lines[id].as_slice(), d))
    }
}


/// Reading one row by identifier agrees with reading the whole table: where
/// `whole` holds what the table parses to and `row` what the row at `id`
/// parses to, the two entries are the same.
pub proof fn lemma_row_agrees_with_table(bytes: Seq<u8>, whole: Seq<EnemyPictureBook>, id: int, row: EnemyPictureBook)
    requires
        whole.len() == table_lines(bytes).len(),
        forall|i: int| 0 <= i < whole.len() ==> #[trigger] whole[i]@ == description_of(table_lines(bytes)[i], resolve_spec(None, scrubbed(bytes))),
        0 <= id < whole.len(),
        row@ == description_of(table_lines(bytes)[id], resolve_spec(None, scrubbed(bytes))),
    ensures
        row@ == whole[id]@,
{
}

} // verus!
