//! Columns found by the names a header row gives them.

use vstd::prelude::*;

use crate::text::{same_bytes, trim, trimmed, views};

verus! {

/// The position of the last header cell that trims to `name`.
pub open spec fn header_index(header: Seq<Seq<u8>>, name: Seq<u8>) -> Option<int>
    decreases header.len(),
{
    if header.len() == 0 {
        None
    } else if trim(header.last()) == name {
        Some(header.len() - 1)
    } else {
        header_index(header.drop_last(), name)
    }
}

/// The trimmed text of the column a header names, falling back to position
/// `fallback` where the header row does not name it or the row stops short.
pub open spec fn named_value(header: Seq<Seq<u8>>, parts: Seq<Seq<u8>>, name: Seq<u8>, fallback: int) -> Option<Seq<u8>> {
    match header_index(header, name) {
        Some(i) if 0 <= i < parts.len() => Some(trim(parts[i])),
        _ => if 0 <= fallback < parts.len() { Some(trim(parts[fallback])) } else { None },
    }
}

/// The position of the last header cell that trims to `name`.
pub fn find_header(header: &Vec<Vec<u8>>, name: &[u8]) -> (r: Option<usize>)
    ensures
        match r {
            Some(i) => header_index(views(header@), name@) == Some(i as int),
            None => header_index(views(header@), name@) is None,
        },
{
    let mut k: usize = header.len();
    assert(views(header@).take(k as int) =~= views(header@));
    while k > 0
        invariant
            k <= header@.len(),
            header_index(views(header@), name@) == header_index(views(header@).take(k as int), name@),
        decreases k,
    {
        let t = trimmed(header[k - 1].as_slice());
        proof {
            assert(views(header@).take(k as int).drop_last() =~= views(header@).take(k - 1));
        }
        if same_bytes(t.as_slice(), name) {
            return Some(k - 1);
        }
        k -= 1;
    }
    None
}

/// The trimmed text of the column a header names, or of its fallback position.
pub fn value_of(header: &Vec<Vec<u8>>, parts: &Vec<Vec<u8>>, name: &[u8], fallback: usize) -> (r: Option<Vec<u8>>)
    ensures
        match r {
            Some(t) => named_value(views(header@), views(parts@), name@, fallback as int) == Some(t@),
            None => named_value(views(header@), views(parts@), name@, fallback as int) is None,
        },
{
    match find_header(header, name) {
        Some(i) => {
            if i < parts.len() {
                return Some(trimmed(parts[i].as_slice()));
            }
        },
        None => {},
    }
    if fallback < parts.len() {
        Some(trimmed(parts[fallback].as_slice()))
    } else {
        None
    }
}

} // verus!
