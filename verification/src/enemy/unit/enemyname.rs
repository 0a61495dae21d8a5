//! The localized enemy terminology table: one whole name per line.

use vstd::prelude::*;

use crate::common::file::table_lines;
use crate::text::{decode_lossy, lossy_decode, same_bytes, scrub_bytes, split_lines, trim, trimmed, views};

verus! {

/// Represents errors that can occur during the parsing of localized enemy names.
#[derive(Debug, Clone, PartialEq, Eq)]
#[non_exhaustive]
pub enum EnemyNameError {
    /// The supplied bytes yielded no lines at all.
    EmptyData,
}

impl EnemyNameError {
    /// A human-readable description of the error.
    #[verifier::allow_in_spec]
    pub fn message(&self) -> &'static str
        returns
            (match self {
                EnemyNameError::EmptyData => "The provided enemy name file contained no valid entries.",
            }),
    {
        match self {
            EnemyNameError::EmptyData => "The provided enemy name file contained no valid entries.",
        }
    }
}

/// An enemy's localized display name.
///
/// The file carries no delimiter: every line is one whole name, and several
/// localized names contain a comma. The developer placeholder "ダミー" is
/// rejected, so an unnamed or placeholder enemy evaluates to `None`.
#[derive(Debug, Clone, Default, PartialEq, Eq)]
pub struct EnemyName {
    /// The parsed display name. `None` if the name is a placeholder or empty.
    pub name: Option<String>,
}

impl View for EnemyName {
    type V = Option<Seq<char>>;

    open spec fn view(&self) -> Option<Seq<char>> {
        match self.name {
            Some(s) => Some(s@),
            None => None,
        }
    }
}

/// The UTF-8 bytes of the placeholder name "ダミー".
pub open spec fn placeholder_name() -> Seq<u8> {
    seq![0xe3u8, 0x83, 0x80, 0xe3, 0x83, 0x9f, 0xe3, 0x83, 0xbc]
}

/// The name a trimmed field spells: none when it is empty or the placeholder.
pub open spec fn name_text(t: Seq<u8>) -> Option<Seq<char>> {
    if t.len() == 0 || t == placeholder_name() {
        None
    } else {
        Some(lossy_decode(t))
    }
}

/// The name a line of the terminology table declares.
pub open spec fn name_of(line: Seq<u8>) -> Option<Seq<char>> {
    name_text(trim(line))
}

/// Reads a trimmed field as a name, rejecting empty and placeholder ones.
pub fn name_from(t: &[u8]) -> (r: EnemyName)
    ensures
        r@ == name_text(t@),
{
    let placeholder: [u8; 9] = [0xe3, 0x83, 0x80, 0xe3, 0x83, 0x9f, 0xe3, 0x83, 0xbc];
    assert(placeholder@ =~= placeholder_name());
    if t.len() == 0 || same_bytes(t, &placeholder) {
        EnemyName { name: None }
    } else {
        EnemyName { name: Some(decode_lossy(t)) }
    }
}

impl EnemyName {
    /// Parses the enemy terminology table into one entry per declared enemy.
    ///
    /// Every line contributes an entry, including blank ones, so an entry's
    /// position in the returned vector is its internal enemy identifier. The
    /// line is taken whole, since the file declares no delimiter.
    ///
    /// # Returns
    /// The names, or `EnemyNameError::EmptyData` exactly when the file has no lines.
    pub fn parse(bytes: &[u8]) -> (r: Result<Vec<Self>, EnemyNameError>)
        ensures
            ({
                let lines = table_lines(bytes@);
                match r {
                    Ok(v) => lines.len() > 0 && v@.len() == lines.len()
                        && forall|i: int| 0 <= i < lines.len() ==> #[trigger] v@[i]@ == name_of(lines[i]),
                    Err(e) => lines.len() == 0 && e == EnemyNameError::EmptyData,
                }
            }),
    {
        let content = scrub_bytes(bytes);
        let lines = split_lines(content.as_slice());
        let mut names: Vec<EnemyName> = Vec::new();
        let mut i: usize = 0;
        while i < lines.len()
            invariant
                i <= lines@.len(),
                views(lines@) == table_lines(bytes@),
                names@.len() == i,
                forall|j: int| 0 <= j < i ==> #[trigger] names@[j]@ == name_of(views(lines@)[j]),
            decreases lines@.len() - i,
        {
            let t = trimmed(lines[i].as_slice());
            names.push(name_from(t.as_slice()));
            i += 1;
        }
        if names.len() == 0 {
            return Err(EnemyNameError::EmptyData);
        }
        Ok(names)
    }

    /// Parses a single row of the enemy terminology table by enemy identifier.
    ///
    /// # Returns
    /// The name, or `None` exactly when the identifier lies beyond the end of
    /// the table.
    pub fn parse_row(bytes: &[u8], id: usize) -> (r: Option<Self>)
        ensures
            ({
                let lines = table_lines(bytes@);
                match r {
                    Some(n) => id < lines.len() && n@ == name_of(lines[id as int]),
                    None => id >= lines.len(),
                }
            }),
    {
        let content = scrub_bytes(bytes);
        let lines = split_lines(content.as_slice());
        if id >= lines.len() {
            return None;
        }
        let t = trimmed(lines[id].as_slice());
        Some(name_from(t.as_slice()))
    }
}


/// Reading one row by identifier agrees with reading the whole table: where
/// `whole` holds what the table parses to and `row` what the row at `id`
/// parses to, the two entries are the same.
pub proof fn lemma_row_agrees_with_table(bytes: Seq<u8>, whole: Seq<EnemyName>, id: int, row: EnemyName)
    requires
        whole.len() == table_lines(bytes).len(),
        forall|i: int| 0 <= i < whole.len() ==> #[trigger] whole[i]@ == name_of(table_lines(bytes)[i]),
        0 <= id < whole.len(),
        row@ == name_of(table_lines(bytes)[id]),
    ensures
        row@ == whole[id]@,
{
}

} // verus!
