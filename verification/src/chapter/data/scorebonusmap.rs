//! The score bonus document read through a typed schema.
//!
//! A JSON reader with the document's schema hands over, for each member of
//! its `MapID` object, the member's key and its typed fields: the members of
//! its `BonusType` object with their parameter lists, and its two labels. The
//! bonuses are read from those values here.

use std::collections::HashMap;

use vstd::prelude::*;

pub use crate::chapter::map::scorebonusmap::{BonusType, ScoreBonusMap, ScoreBonusMapEntry, ScoreBonusMapError};
use crate::chapter::map::scorebonusmap::{entries_view, kind_of, kinds_view, make_kind, BonusTypeView};
use crate::common::json::utf8;
use crate::text::{spec_u32, spec_u8, to_u32, to_u8};

verus! {

broadcast use vstd::std_specs::hash::group_hash_axioms;

/// The typed fields of one member of a document's `MapID` object.
#[derive(Debug, Clone, Default, PartialEq, Eq)]
pub struct RawBonusData {
    /// The members of the `BonusType` object: each key with its `Parameters` list.
    pub bonus_type: Vec<(String, Vec<u32>)>,
    /// The `BonusNameLabel` field, when present.
    pub bonus_name_label: Option<String>,
    /// The `BonusExplanationLabel` field, when present.
    pub bonus_explanation_label: Option<String>,
}

/// The bonuses a run of `BonusType` members declares: those whose key reads
/// as a `u8`, in order.
pub open spec fn raw_bonuses(kinds: Seq<(String, Vec<u32>)>) -> Seq<BonusTypeView>
    decreases kinds.len(),
{
    if kinds.len() == 0 {
        Seq::empty()
    } else {
        let rest = raw_bonuses(kinds.drop_last());
        match spec_u8(utf8(kinds.last().0)) {
            Some(key) => rest.push(kind_of(key, kinds.last().1@)),
            None => rest,
        }
    }
}

/// The text of a label that may be absent, empty when it is.
pub open spec fn label_text(label: Option<String>) -> Seq<char> {
    match label {
        Some(s) => s@,
        None => Seq::empty(),
    }
}

/// The entry a member's fields declare.
pub open spec fn raw_entry(data: RawBonusData) -> (Seq<BonusTypeView>, Seq<char>, Seq<char>) {
    (raw_bonuses(data.bonus_type@), label_text(data.bonus_name_label), label_text(data.bonus_explanation_label))
}

/// The entries a run of `MapID` members declares, keyed by map: those whose
/// key reads as a `u32`, a later member for a map replacing an earlier one.
pub open spec fn raw_entries(maps: Seq<(String, RawBonusData)>) -> Map<u32, (Seq<BonusTypeView>, Seq<char>, Seq<char>)>
    decreases maps.len(),
{
    if maps.len() == 0 {
        Map::empty()
    } else {
        let m = raw_entries(maps.drop_last());
        match spec_u32(utf8(maps.last().0)) {
            Some(id) => m.insert(id, raw_entry(maps.last().1)),
            None => m,
        }
    }
}

fn label_or_empty(label: &Option<String>) -> (r: String)
    ensures
        r@ == label_text(*label),
{
    match label {
        Some(s) => s.clone(),
        None => String::new(),
    }
}

fn entry_from_raw(data: &RawBonusData) -> (r: ScoreBonusMapEntry)
    ensures
        r@ == raw_entry(*data),
{
    let kinds = &data.bonus_type;
    let mut bonuses: Vec<BonusType> = Vec::new();
    let mut i: usize = 0;
    while i < kinds.len()
        invariant
            i <= kinds@.len(),
            kinds_view(bonuses@) == raw_bonuses(kinds@.take(i as int)),
        decreases kinds@.len() - i,
    {
        proof {
            assert(kinds@.take(i + 1).drop_last() =~= kinds@.take(i as int));
        }
        match to_u8(kinds[i].0.as_str().as_bytes()) {
            Some(key) => {
                let params = kinds[i].1.clone();
                assert(params@ =~= kinds@[i as int].1@);
                let ghost before = bonuses@;
                let bonus = make_kind(key, params);
                bonuses.push(bonus);
                assert(kinds_view(bonuses@) =~= kinds_view(before).push(bonus@));
            },
            None => {},
        }
        i += 1;
    }
    assert(kinds@.take(i as int) =~= kinds@);
    ScoreBonusMapEntry {
        bonuses,
        name_label: label_or_empty(&data.bonus_name_label),
        explanation_label: label_or_empty(&data.bonus_explanation_label),
    }
}

impl ScoreBonusMap {
    /// Builds the score bonuses from the typed members of a document's
    /// `MapID` object, in the order the reader hands them over.
    ///
    /// A member whose key is not a `u32`, or a bonus whose key is not a `u8`,
    /// is passed over; a bonus code the table does not name is kept as
    /// `BonusType::Unknown`, and an absent label reads as empty text.
    pub fn from_raw(maps: &Vec<(String, RawBonusData)>) -> (r: Self)
        ensures
            entries_view(r.entries@) == raw_entries(maps@),
    {
        let mut entries: HashMap<u32, ScoreBonusMapEntry> = HashMap::new();
        let mut i: usize = 0;
        assert(entries_view(entries@) =~= raw_entries(maps@.take(0)));
        while i < maps.len()
            invariant
                i <= maps@.len(),
                entries_view(entries@) == raw_entries(maps@.take(i as int)),
            decreases maps@.len() - i,
        {
            proof {
                assert(maps@.take(i + 1).drop_last() =~= maps@.take(i as int));
            }
            match to_u32(maps[i].0.as_str().as_bytes()) {
                Some(id) => {
                    let ghost before = entries@;
                    let entry = entry_from_raw(&maps[i].1);
                    let ghost ev = entry@;
                    entries.insert(id, entry);
                    assert(entries_view(entries@) =~= entries_view(before).insert(id, ev));
                },
                None => {},
            }
            i += 1;
        }
        assert(maps@.take(i as int) =~= maps@);
        ScoreBonusMap { entries }
    }
}

} // verus!
