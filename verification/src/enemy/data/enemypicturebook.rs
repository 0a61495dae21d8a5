//! The enemy picture book table.

use vstd::prelude::*;

use crate::common::file::{open_table, resolve_spec, table_lines};
use crate::enemy::unit::enemypicturebook::{description_from, description_of, texts};
use crate::text::{scrubbed, views};

verus! {

/// Represents errors that can occur while parsing the picture book table.
#[derive(Debug, Clone, PartialEq, Eq)]
pub enum EnemyPictureBookError {
    /// The file had no lines.
    EmptyData,
}

impl EnemyPictureBookError {
    /// A human-readable description of the error.
    #[verifier::allow_in_spec]
    pub fn message(&self) -> &'static str
        returns
            (match self {
                EnemyPictureBookError::EmptyData => "The provided enemy picture book file contained no valid entries.",
            }),
    {
        match self {
            EnemyPictureBookError::EmptyData => "The provided enemy picture book file contained no valid entries.",
        }
    }
}

/// An enemy's localized dictionary description, as this table declares it.
#[derive(Debug, Clone, Default, PartialEq, Eq)]
pub struct EnemyPictureBook {
    /// The description's lines, or `None` where the row carries none.
    pub description: Option<Vec<String>>,
}

impl View for EnemyPictureBook {
    type V = Option<Seq<Seq<char>>>;

    open spec fn view(&self) -> Option<Seq<Seq<char>>> {
        match self.description {
            Some(v) => Some(texts(v@)),
            None => None,
        }
    }
}

fn book_of_line(line: &[u8], d: u8) -> (r: EnemyPictureBook)
    ensures
        r@ == description_of(line@, d),
{
    let b = description_from(line, d);
    EnemyPictureBook { description: b.description }
}

impl EnemyPictureBook {
    /// Parses the whole table into one entry per line.
    ///
    /// # Returns
    /// The descriptions, or `EnemyPictureBookError::EmptyData` exactly when the
    /// file has no lines.
    pub fn parse_all(bytes: &[u8]) -> (r: Result<Vec<Self>, EnemyPictureBookError>)
        ensures
            ({
                let lines = table_lines(bytes@);
                let d = resolve_spec(None, scrubbed(bytes@));
                match r {
                    Ok(v) => lines.len() > 0 && v@.len() == lines.len()
                        && forall|i: int| 0 <= i < lines.len() ==> #[trigger] v@[i]@ == description_of(lines[i], d),
                    Err(e) => lines.len() == 0 && e == EnemyPictureBookError::EmptyData,
                }
            }),
    {
        let (lines, d) = open_table(bytes, None);
        let mut out: Vec<EnemyPictureBook> = Vec::new();
        let mut i: usize = 0;
        while i < lines.len()
            invariant
                i <= lines@.len(),
                views(lines@) == table_lines(bytes@),
                out@.len() == i,
                forall|j: int| 0 <= j < i ==> #[trigger] out@[j]@ == description_of(views(lines@)[j], d),
            decreases lines@.len() - i,
        {
            out.push(book_of_line(lines[i].as_slice(), d));
            i += 1;
        }
        if out.len() == 0 {
            return Err(EnemyPictureBookError::EmptyData);
        }
        Ok(out)
    }

    /// Parses the description of one enemy, addressed by its line.
    ///
    /// # Returns
    /// `Ok(None)` when the identifier lies past the last line, and the
    /// description otherwise; the table never fails as a whole.
    pub fn parse(bytes: &[u8], id: usize) -> (r: Result<Option<Self>, EnemyPictureBookError>)
        ensures
            ({
                let lines = table_lines(bytes@);
                let d = resolve_spec(None, scrubbed(bytes@));
                match r {
                    Ok(Some(b)) => id < lines.len() && b@ == description_of(lines[id as int], d),
                    Ok(None) => id >= lines.len(),
                    Err(_) => false,
                }
            }),
    {
        let (lines, d) = open_table(bytes, None);
        if id >= lines.len() {
            return Ok(None);
        }
        Ok(Some(book_of_line(lines[id].as_slice(), d)))
    }
}

} // verus!
