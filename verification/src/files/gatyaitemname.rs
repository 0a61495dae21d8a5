//! Parsing of the localized item names and descriptions.
//!
//! The engine writes one line of the item name table per line of the item
//! catalogue below its header, so an item's text is addressed by that
//! position rather than by the identifier the item carries. A line names the
//! item first and follows it with its description lines, ending them early
//! with the fullwidth commercial at the engine uses as a terminator.

use vstd::prelude::*;

use crate::common::file::{open_table, resolve_spec, table_lines, Separator};
use crate::text::{decode_lossy, has_prefix, lossy_decode, scrubbed, split_bytes, split_on, starts_with, trim,
    trim_all, trimmed, views};

verus! {

/// Represents errors that can occur while parsing the item name table.
#[derive(Debug, Clone, PartialEq, Eq)]
#[non_exhaustive]
pub enum GatyaItemNameError {
    /// The supplied bytes held no line with a name or description.
    EmptyFile,
}

impl GatyaItemNameError {
    /// A human-readable description of the error.
    #[verifier::allow_in_spec]
    pub fn message(&self) -> &'static str
        returns
            (match self {
                GatyaItemNameError::EmptyFile => "The provided file bytes contained no valid item text.",
            }),
    {
        match self {
            GatyaItemNameError::EmptyFile => "The provided file bytes contained no valid item text.",
        }
    }
}

/// The localized text of one item.
#[derive(Debug, Clone, Default, PartialEq, Eq)]
pub struct GatyaItemName {
    /// The item's name, or `None` where its line names none.
    pub name: Option<String>,
    /// The item's description lines, in order.
    pub description: Vec<String>,
}

impl View for GatyaItemName {
    type V = (Option<Seq<char>>, Seq<Seq<char>>);

    open spec fn view(&self) -> Self::V {
        (
            match self.name { Some(s) => Some(s@), None => None },
            self.description@.map_values(|s: String| s@),
        )
    }
}

/// The UTF-8 bytes of the terminator, the fullwidth commercial at.
pub open spec fn terminator() -> Seq<u8> {
    seq![0xefu8, 0xbc, 0xa0]
}

/// The description lines a run of trimmed columns carries: those before the
/// first that opens with the terminator, without the empty ones.
pub open spec fn description_of(cells: Seq<Seq<u8>>) -> Seq<Seq<char>>
    decreases cells.len(),
{
    if cells.len() == 0 || starts_with(cells[0], terminator()) {
        Seq::empty()
    } else if cells[0].len() == 0 {
        description_of(cells.skip(1))
    } else {
        seq![lossy_decode(cells[0])] + description_of(cells.skip(1))
    }
}

/// The text a line declares: its first trimmed column as the name, unless it
/// is empty or opens with the terminator, and the description the later
/// columns carry.
pub open spec fn text_of(line: Seq<u8>, d: u8) -> (Option<Seq<char>>, Seq<Seq<char>>) {
    let cells = trim_all(split_on(line, d));
    (
        if cells[0].len() > 0 && !starts_with(cells[0], terminator()) { Some(lossy_decode(cells[0])) } else { None },
        description_of(cells.skip(1)),
    )
}

/// Whether a line's text carries anything.
pub open spec fn has_text(t: (Option<Seq<char>>, Seq<Seq<char>>)) -> bool {
    t.0 is Some || t.1.len() > 0
}

/// Whether any of the lines carries text.
pub open spec fn any_text(lines: Seq<Seq<u8>>, d: u8) -> bool {
    exists|i: int| 0 <= i < lines.len() && #[trigger] has_text(text_of(lines[i], d))
}

fn read_text(line: &[u8], d: u8) -> (r: GatyaItemName)
    ensures
        r@ == text_of(line@, d),
{
    let cells = split_bytes(line, d);
    let ghost tc = trim_all(views(cells@));
    let at: [u8; 3] = [0xef, 0xbc, 0xa0];
    assert(at@ =~= terminator());
    proof {
        crate::text::lemma_split_on_nonempty(line@, d);
    }
    let first = trimmed(cells[0].as_slice());
    let name = if first.len() > 0 && !has_prefix(first.as_slice(), &at) {
        Some(decode_lossy(first.as_slice()))
    } else {
        None
    };
    let mut description: Vec<String> = Vec::new();
    let mut i: usize = 1;
    let ghost rest = tc.skip(1);
    assert(rest.skip(0) =~= rest);
    loop
        invariant
            1 <= i <= cells@.len(),
            tc == trim_all(views(cells@)),
            rest == tc.skip(1),
            at@ == terminator(),
            description@.map_values(|s: String| s@) + description_of(rest.skip(i - 1)) == description_of(rest),
        ensures
            description@.map_values(|s: String| s@) == description_of(rest),
        decreases cells@.len() - i,
    {
        if i >= cells.len() {
            assert(rest.skip(i - 1) =~= Seq::<Seq<u8>>::empty());
            assert(description@.map_values(|s: String| s@) + Seq::<Seq<char>>::empty() =~= description@.map_values(|s: String| s@));
            break;
        }
        let t = trimmed(cells[i].as_slice());
        proof {
            assert(rest.skip(i - 1)[0] == t@);
            assert(rest.skip(i - 1).skip(1) =~= rest.skip(i as int));
        }
        if has_prefix(t.as_slice(), &at) {
            assert(description@.map_values(|s: String| s@) + Seq::<Seq<char>>::empty() =~= description@.map_values(|s: String| s@));
            break;
        }
        if t.len() > 0 {
            let ghost before = description@.map_values(|s: String| s@);
            let s = decode_lossy(t.as_slice());
            description.push(s);
            proof {
                assert(description@.map_values(|s: String| s@) =~= before.push(lossy_decode(t@)));
                assert(before.push(lossy_decode(t@)) + description_of(rest.skip(i as int)) =~= before + (seq![lossy_decode(t@)] + description_of(rest.skip(i as int))));
            }
        }
        i += 1;
    }
    GatyaItemName { name, description }
}

impl GatyaItemName {
    /// Parses the item name table into one entry per line.
    ///
    /// Every line yields an entry, a blank one included, so an entry's
    /// position is its line's position.
    ///
    /// # Returns
    /// The entries, or `GatyaItemNameError::EmptyFile` exactly when no line
    /// carries a name or description.
    pub fn parse(bytes: &[u8], separator: Option<Separator>) -> (r: Result<Vec<Self>, GatyaItemNameError>)
        ensures
            ({
                let d = resolve_spec(separator, scrubbed(bytes@));
                let lines = table_lines(bytes@);
                match r {
                    Ok(v) => any_text(lines, d) && v@.len() == lines.len()
                        && forall|i: int| 0 <= i < lines.len() ==> #[trigger] v@[i]@ == text_of(lines[i], d),
                    Err(e) => !any_text(lines, d) && e == GatyaItemNameError::EmptyFile,
                }
            }),
    {
        let (lines, d) = open_table(bytes, separator);
        let ghost ls = views(lines@);
        let mut out: Vec<GatyaItemName> = Vec::new();
        let mut found = false;
        let mut i: usize = 0;
        while i < lines.len()
            invariant
                i <= lines@.len(),
                ls == views(lines@),
                out@.len() == i,
                found == (exists|j: int| 0 <= j < i && #[trigger] has_text(text_of(ls[j], d))),
                forall|j: int| 0 <= j < i ==> #[trigger] out@[j]@ == text_of(ls[j], d),
            decreases lines@.len() - i,
        {
            let entry = read_text(lines[i].as_slice(), d);
            let t = entry.name.is_some() || entry.description.len() > 0;
            proof {
                assert(entry@ == text_of(ls[i as int], d));
                assert(entry@.1.len() == entry.description@.len());
                assert(t == has_text(text_of(ls[i as int], d)));
                if !t {
                    assert forall|j: int| 0 <= j < i + 1 && #[trigger] has_text(text_of(ls[j], d)) implies 0 <= j < i by {}
                }
            }
            if t {
                found = true;
            }
            out.push(entry);
            i += 1;
        }
        if !found {
            return Err(GatyaItemNameError::EmptyFile);
        }
        Ok(out)
    }
}

} // verus!
