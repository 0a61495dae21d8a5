//! The engine's string dictionary: one key and its text per line, split at
//! the first tab.

use vstd::prelude::*;
use vstd::string::StringSliceAdditionalSpecFns;

use crate::common::file::{index_of, lemma_index_of, table_lines};
use crate::text::{clean_line, content_of, copy_range, decode_lossy, lossy_decode, same_bytes, scrub_bytes,
    split_lines, trim, trimmed, views, TAB};

use crate::text::{strip_invalid, valid_part};

verus! {

/// Represents errors that can occur while parsing the string dictionary.
#[derive(Debug, Clone, PartialEq, Eq)]
pub enum LocalizableError {
    /// The payload held no line with a tab.
    EmptyFile,
}

impl LocalizableError {
    /// A human-readable description of the error.
    #[verifier::allow_in_spec]
    pub fn message(&self) -> &'static str
        returns
            (match self {
                LocalizableError::EmptyFile => "The provided file bytes contained no valid localization data.",
            }),
    {
        match self {
            LocalizableError::EmptyFile => "The provided file bytes contained no valid localization data.",
        }
    }
}

/// The parsed string dictionary.
///
/// A key the file declares more than once keeps the text of its last line.
#[derive(Debug, Clone, Default)]
pub struct Localizable {
    entries: Vec<(Vec<u8>, String)>,
}

/// The entry a line declares: its content, without its `//` comment, split
/// at its first tab into a trimmed key and a trimmed text; none where the
/// content has no tab.
pub open spec fn entry_of(line: Seq<u8>) -> Option<(Seq<u8>, Seq<char>)> {
    let c = content_of(line);
    match index_of(c, TAB) {
        Some(t) => Some((trim(c.take(t)), lossy_decode(trim(c.skip(t))))),
        None => None,
    }
}

/// The entries a file's lines declare, in order.
pub open spec fn entries_of(lines: Seq<Seq<u8>>) -> Seq<(Seq<u8>, Seq<char>)>
    decreases lines.len(),
{
    if lines.len() == 0 {
        Seq::empty()
    } else {
        match entry_of(lines.last()) {
            Some(e) => entries_of(lines.drop_last()).push(e),
            None => entries_of(lines.drop_last()),
        }
    }
}

/// The text of the last entry for a key.
pub open spec fn text_for(entries: Seq<(Seq<u8>, Seq<char>)>, key: Seq<u8>) -> Option<Seq<char>>
    decreases entries.len(),
{
    if entries.len() == 0 {
        None
    } else if entries.last().0 == key {
        Some(entries.last().1)
    } else {
        text_for(entries.drop_last(), key)
    }
}

impl View for Localizable {
    type V = Seq<(Seq<u8>, Seq<char>)>;

    closed spec fn view(&self) -> Seq<(Seq<u8>, Seq<char>)> {
        self.entries@.map_values(|e: (Vec<u8>, String)| (e.0@, e.1@))
    }
}

fn read_entry(line: &[u8]) -> (r: Option<(Vec<u8>, String)>)
    ensures
        match r {
            Some(e) => entry_of(line@) == Some((e.0@, e.1@)),
            None => entry_of(line@) is None,
        },
{
    let c = clean_line(line);
    let mut t: usize = 0;
    while t < c.len() && c[t] != TAB
        invariant
            t <= c@.len(),
            forall|j: int| 0 <= j < t ==> c@[j] != TAB,
        decreases c@.len() - t,
    {
        t += 1;
    }
    proof {
        crate::common::file::lemma_index_of_at(c@, TAB, t as int);
    }
    if t >= c.len() {
        return None;
    }
    let head = copy_range(c.as_slice(), 0, t);
    let tail = copy_range(c.as_slice(), t, c.len());
    assert(head@ =~= c@.take(t as int));
    assert(tail@ =~= c@.skip(t as int));
    let key = trimmed(head.as_slice());
    let value = trimmed(tail.as_slice());
    Some((key, decode_lossy(value.as_slice())))
}

impl Localizable {
    /// Parses the string dictionary.
    ///
    /// Each line, without its `//` comment and trimmed, declares an entry when
    /// it has a tab: the trimmed text before the first tab is the key, and the
    /// trimmed text from it on the value.
    ///
    /// Every byte that is not part of a valid UTF-8 character is stripped first.
    ///
    /// # Returns
    /// The dictionary, or `LocalizableError::EmptyFile` exactly when no line
    /// declares an entry.
    pub fn parse(bytes: &[u8]) -> (r: Result<Self, LocalizableError>)
        ensures
            ({
                let entries = entries_of(table_lines(valid_part(bytes@)));
                match r {
                    Ok(l) => entries.len() > 0 && l@ == entries,
                    Err(e) => entries.len() == 0 && e == LocalizableError::EmptyFile,
                }
            }),
    {
        let valid = strip_invalid(bytes);
        let bytes: &[u8] = valid.as_slice();
        let content = scrub_bytes(bytes);
        let lines = split_lines(content.as_slice());
        let ghost ls = views(lines@);
        let mut entries: Vec<(Vec<u8>, String)> = Vec::new();
        let mut i: usize = 0;
        while i < lines.len()
            invariant
                i <= lines@.len(),
                ls == views(lines@),
                ls == table_lines(bytes@),
                entries@.map_values(|e: (Vec<u8>, String)| (e.0@, e.1@)) == entries_of(ls.take(i as int)),
            decreases lines@.len() - i,
        {
            proof {
                assert(ls.take(i + 1).drop_last() =~= ls.take(i as int));
                assert(ls.take(i + 1).last() == lines@[i as int]@);
            }
            match read_entry(lines[i].as_slice()) {
                Some(e) => {
                    let ghost before = entries@.map_values(|e: (Vec<u8>, String)| (e.0@, e.1@));
                    let ghost ev = (e.0@, e.1@);
                    entries.push(e);
                    proof {
                        assert(entries@.map_values(|e: (Vec<u8>, String)| (e.0@, e.1@)) =~= before.push(ev));
                    }
                },
                None => {},
            }
            i += 1;
        }
        proof {
            assert(ls.take(i as int) =~= ls);
        }
        if entries.len() == 0 {
            return Err(LocalizableError::EmptyFile);
        }
        Ok(Localizable { entries })
    }

    /// Looks up the text of a key.
    ///
    /// # Returns
    /// The text of the last line declaring the key, or `None` where no line
    /// declares it.
    pub fn lookup(&self, key: &str) -> (r: Option<&str>)
        ensures
            match text_for(self@, key.spec_bytes()) {
                Some(t) => r matches Some(v) && v@ == t,
                None => r is None,
            },
    {
        let k = key.as_bytes();
        let ghost es = self@;
        let mut i: usize = self.entries.len();
        assert(es.take(i as int) =~= es);
        while i > 0
            invariant
                i <= self.entries@.len(),
                es == self@,
                es == self.entries@.map_values(|e: (Vec<u8>, String)| (e.0@, e.1@)),
                k@ == key.spec_bytes(),
                text_for(es, k@) == text_for(es.take(i as int), k@),
            decreases i,
        {
            proof {
                assert(es.take(i as int).drop_last() =~= es.take(i - 1));
            }
            if same_bytes(self.entries[i - 1].0.as_slice(), k) {
                return Some(self.entries[i - 1].1.as_str());
            }
            i -= 1;
        }
        None
    }
}

} // verus!
