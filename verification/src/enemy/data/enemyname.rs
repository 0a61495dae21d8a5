//! The enemy name table: the first column of each line is the name.

use vstd::prelude::*;

use crate::common::file::{open_table, resolve_spec, table_lines};
use crate::enemy::unit::enemyname::{name_from, name_text};
use crate::text::{lossy_decode, scrubbed, split_bytes, split_on, trim, trimmed};

verus! {

/// Represents errors that can occur while parsing the name table.
#[derive(Debug, Clone, PartialEq, Eq)]
pub enum EnemyNameError {
    /// The file had no lines.
    EmptyData,
}

impl EnemyNameError {
    /// A human-readable description of the error.
    #[verifier::allow_in_spec]
    pub fn message(&self) -> &'static str
        returns
            (match self {
                EnemyNameError::EmptyData => "The provided enemy name file contained no valid entries.",
            }),
    {
        match self {
            EnemyNameError::EmptyData => "The provided enemy name file contained no valid entries.",
        }
    }
}

/// An enemy's localized display name, as this table declares it.
#[derive(Debug, Clone, Default, PartialEq, Eq)]
pub struct EnemyName {
    /// The name, or `None` where it is empty or the placeholder "ダミー".
    pub name: Option<String>,
}

impl View for EnemyName {
    type V = Option<Seq<char>>;

    open spec fn view(&self) -> Option<Seq<char>> {
        match self.name {
            Some(s) => Some(s@),
            None => None,
        }
    }
}

/// The name a line declares: its first column, trimmed.
pub open spec fn first_column_name(line: Seq<u8>, d: u8) -> Option<Seq<char>> {
    name_text(trim(split_on(line, d)[0]))
}

/// Reads one line into its name.
fn name_of_line(line: &[u8], d: u8) -> (r: EnemyName)
    ensures
        r@ == first_column_name(line@, d),
{
    let cols = split_bytes(line, d);
    proof {
        crate::text::lemma_split_on_nonempty(line@, d);
    }
    let t = trimmed(cols[0].as_slice());
    let n = name_from(t.as_slice());
    EnemyName { name: n.name }
}

impl EnemyName {
    /// Parses the whole table into one entry per line.
    ///
    /// # Returns
    /// The names, or `EnemyNameError::EmptyData` exactly when the file has no lines.
    pub fn parse_all(bytes: &[u8]) -> (r: Result<Vec<Self>, EnemyNameError>)
        ensures
            ({
                let lines = table_lines(bytes@);
                let d = resolve_spec(None, scrubbed(bytes@));
                match r {
                    Ok(v) => lines.len() > 0 && v@.len() == lines.len()
                        && forall|i: int| 0 <= i < lines.len() ==> #[trigger] v@[i]@ == first_column_name(lines[i], d),
                    Err(e) => lines.len() == 0 && e == EnemyNameError::EmptyData,
                }
            }),
    {
        let (lines, d) = open_table(bytes, None);
        let mut out: Vec<EnemyName> = Vec::new();
        let mut i: usize = 0;
        while i < lines.len()
            invariant
                i <= lines@.len(),
                crate::text::views(lines@) == table_lines(bytes@),
                out@.len() == i,
                forall|j: int| 0 <= j < i ==> #[trigger] out@[j]@ == first_column_name(lines@[j]@, d),
            decreases lines@.len() - i,
        {
            out.push(name_of_line(lines[i].as_slice(), d));
            i += 1;
        }
        if out.len() == 0 {
            return Err(EnemyNameError::EmptyData);
        }
        Ok(out)
    }

    /// Parses the name of one enemy, addressed by its line.
    ///
    /// # Returns
    /// `Ok(None)` when the identifier lies past the last line, and the name
    /// otherwise; the table never fails as a whole.
    pub fn parse(bytes: &[u8], id: usize) -> (r: Result<Option<Self>, EnemyNameError>)
        ensures
            ({
                let lines = table_lines(bytes@);
                let d = resolve_spec(None, scrubbed(bytes@));
                match r {
                    Ok(Some(n)) => id < lines.len() && n@ == first_column_name(lines[id as int], d),
                    Ok(None) => id >= lines.len(),
                    Err(_) => false,
                }
            }),
    {
        let (lines, d) = open_table(bytes, None);
        if id >= lines.len() {
            return Ok(None);
        }
        Ok(Some(name_of_line(lines[id].as_slice(), d)))
    }
}

} // verus!
