//! Score bonuses awarded for fielding units with particular abilities.
use std::collections::HashMap;

use vstd::prelude::*;

use crate::common::file::scrub;
use crate::common::json::{as_members, get, json_of, label, number_list, parse_json, read_label, read_number_list,
    read_object, utf8, walked, Json};
use crate::text::{lossy_decode, scrub_chars, spec_u32, spec_u8, to_u32, to_u8};

verus! {

broadcast use vstd::std_specs::hash::group_hash_axioms;

/// Represents errors that can occur during the parsing of score bonuses.
#[derive(Debug, Clone, PartialEq, Eq)]
#[non_exhaustive]
pub enum ScoreBonusMapError {
    /// The supplied bytes could not be parsed as valid JSON.
    InvalidJson,
}

impl ScoreBonusMapError {
    /// A human-readable description of the error.
    #[verifier::allow_in_spec]
    pub fn message(&self) -> &'static str
        returns
            (match self {
                ScoreBonusMapError::InvalidJson => "The provided byte slice could not be parsed as valid JSON.",
            }),
    {
        match self {
            ScoreBonusMapError::InvalidJson => "The provided byte slice could not be parsed as valid JSON.",
        }
    }
}

/// A score bonus, carrying its parameters.
#[derive(Debug, Clone, PartialEq, Eq)]
pub enum BonusType {
    /// Units that weaken the target.
    Weaken(Vec<u32>),
    /// Units that freeze the target.
    Freeze(Vec<u32>),
    /// Units that slow the target.
    Slow(Vec<u32>),
    /// Units that knock the target back.
    Knockback(Vec<u32>),
    /// Units that strong against the target.
    StrongAttack(Vec<u32>),
    /// Units that massive damage to the target.
    MassiveDamage(Vec<u32>),
    /// Units that resistant to the target.
    StrongDefense(Vec<u32>),
    /// Units that insanely tough against the target.
    Resist(Vec<u32>),
    /// A code this parser does not recognize, carrying its raw value.
    Unknown(u8, Vec<u32>),
}

/// The abstract value of a [`BonusType`].
pub enum BonusTypeView {
    Weaken(Seq<u32>),
    Freeze(Seq<u32>),
    Slow(Seq<u32>),
    Knockback(Seq<u32>),
    StrongAttack(Seq<u32>),
    MassiveDamage(Seq<u32>),
    StrongDefense(Seq<u32>),
    Resist(Seq<u32>),
    Unknown(u8, Seq<u32>),
}

impl View for BonusType {
    type V = BonusTypeView;

    open spec fn view(&self) -> BonusTypeView {
        match self {
            BonusType::Weaken(p) => BonusTypeView::Weaken(p@),
            BonusType::Freeze(p) => BonusTypeView::Freeze(p@),
            BonusType::Slow(p) => BonusTypeView::Slow(p@),
            BonusType::Knockback(p) => BonusTypeView::Knockback(p@),
            BonusType::StrongAttack(p) => BonusTypeView::StrongAttack(p@),
            BonusType::MassiveDamage(p) => BonusTypeView::MassiveDamage(p@),
            BonusType::StrongDefense(p) => BonusTypeView::StrongDefense(p@),
            BonusType::Resist(p) => BonusTypeView::Resist(p@),
            BonusType::Unknown(k, p) => BonusTypeView::Unknown(*k, p@),
        }
    }
}

/// The kind a code names, carrying its parameters.
pub open spec fn kind_of(key: u8, params: Seq<u32>) -> BonusTypeView {
    if key == 0 { BonusTypeView::Weaken(params) }
    else if key == 1 { BonusTypeView::Freeze(params) }
    else if key == 2 { BonusTypeView::Slow(params) }
    else if key == 3 { BonusTypeView::Knockback(params) }
    else if key == 13 { BonusTypeView::StrongAttack(params) }
    else if key == 14 { BonusTypeView::MassiveDamage(params) }
    else if key == 16 { BonusTypeView::StrongDefense(params) }
    else if key == 17 { BonusTypeView::Resist(params) }
    else { BonusTypeView::Unknown(key, params) }
}

pub(crate) fn make_kind(key: u8, params: Vec<u32>) -> (r: BonusType)
    ensures
        r@ == kind_of(key, params@),
{
    match key {
        0 => BonusType::Weaken(params),
        1 => BonusType::Freeze(params),
        2 => BonusType::Slow(params),
        3 => BonusType::Knockback(params),
        13 => BonusType::StrongAttack(params),
        14 => BonusType::MassiveDamage(params),
        16 => BonusType::StrongDefense(params),
        17 => BonusType::Resist(params),
        _ => BonusType::Unknown(key, params),
    }
}

/// The kinds of a list.
pub open spec fn kinds_view(v: Seq<BonusType>) -> Seq<BonusTypeView> {
    v.map_values(|b: BonusType| b@)
}

/// The score bonuses of a single map.
#[derive(Default, Debug, Clone, PartialEq, Eq)]
pub struct ScoreBonusMapEntry {
    /// The bonuses, in the order the document lists them.
    pub bonuses: Vec<BonusType>,
    /// The label naming the bonus.
    pub name_label: String,
    /// The label explaining the bonus.
    pub explanation_label: String,
}

impl View for ScoreBonusMapEntry {
    type V = (Seq<BonusTypeView>, Seq<char>, Seq<char>);

    open spec fn view(&self) -> Self::V {
        (kinds_view(self.bonuses@), self.name_label@, self.explanation_label@)
    }
}

/// The parsed contents of the score bonus table.
#[derive(Clone, Debug, Default, PartialEq, Eq)]
pub struct ScoreBonusMap {
    /// The bonuses, keyed by map identifier.
    pub entries: HashMap<u32, ScoreBonusMapEntry>,
}

/// The key `MapID`.
pub open spec fn key_map_id() -> Seq<u8> { seq![77u8, 97, 112, 73, 68] }
fn k_map_id() -> (r: [u8; 5]) ensures r@ == key_map_id() { let r = [77u8, 97, 112, 73, 68]; assert(r@ =~= key_map_id()); r }
/// The key `BonusNameLabel`.
pub open spec fn key_name_label() -> Seq<u8> { seq![66u8, 111, 110, 117, 115, 78, 97, 109, 101, 76, 97, 98, 101, 108] }
fn k_name_label() -> (r: [u8; 14]) ensures r@ == key_name_label() { let r = [66u8, 111, 110, 117, 115, 78, 97, 109, 101, 76, 97, 98, 101, 108]; assert(r@ =~= key_name_label()); r }
/// The key `BonusExplanationLabel`.
pub open spec fn key_explanation_label() -> Seq<u8> { seq![66u8, 111, 110, 117, 115, 69, 120, 112, 108, 97, 110, 97, 116, 105, 111, 110, 76, 97, 98, 101, 108] }
fn k_explanation_label() -> (r: [u8; 21]) ensures r@ == key_explanation_label() { let r = [66u8, 111, 110, 117, 115, 69, 120, 112, 108, 97, 110, 97, 116, 105, 111, 110, 76, 97, 98, 101, 108]; assert(r@ =~= key_explanation_label()); r }
/// The key `BonusType`.
pub open spec fn key_bonus_type() -> Seq<u8> { seq![66u8, 111, 110, 117, 115, 84, 121, 112, 101] }
fn k_bonus_type() -> (r: [u8; 9]) ensures r@ == key_bonus_type() { let r = [66u8, 111, 110, 117, 115, 84, 121, 112, 101]; assert(r@ =~= key_bonus_type()); r }
/// The key `Parameters`.
pub open spec fn key_parameters() -> Seq<u8> { seq![80u8, 97, 114, 97, 109, 101, 116, 101, 114, 115] }
fn k_parameters() -> (r: [u8; 10]) ensures r@ == key_parameters() { let r = [80u8, 97, 114, 97, 109, 101, 116, 101, 114, 115]; assert(r@ =~= key_parameters()); r }

/// The bonuses the first `n` members of a `BonusType` object list: those whose
/// key is a `u8`, in order.
pub open spec fn bonuses_upto(keys: Seq<String>, values: Seq<Json>, n: int) -> Seq<BonusTypeView>
    decreases n,
{
    if n <= 0 {
        Seq::empty()
    } else {
        match spec_u8(utf8(keys[n - 1])) {
            Some(k) => bonuses_upto(keys, values, n - 1).push(kind_of(k, number_list(values[n - 1], key_parameters()))),
            None => bonuses_upto(keys, values, n - 1),
        }
    }
}

/// The entry a map's member declares.
pub open spec fn entry_of(v: Json) -> (Seq<BonusTypeView>, Seq<char>, Seq<char>) {
    (
        match as_members(get(v, key_bonus_type())) {
            Some((k, m)) => bonuses_upto(k, m, walked(k, m)),
            None => Seq::empty(),
        },
        label(v, key_name_label()),
        label(v, key_explanation_label()),
    )
}

/// The entries the first `n` members of the `MapID` object declare, keyed by
/// map, a later member for a map replacing an earlier one.
pub open spec fn entries_upto(keys: Seq<String>, values: Seq<Json>, n: int) -> Map<u32, (Seq<BonusTypeView>, Seq<char>, Seq<char>)>
    decreases n,
{
    if n <= 0 {
        Map::empty()
    } else {
        let m = entries_upto(keys, values, n - 1);
        match spec_u32(utf8(keys[n - 1])) {
            Some(id) => m.insert(id, entry_of(values[n - 1])),
            None => m,
        }
    }
}

/// The entries a document declares: the members of its `MapID` object whose
/// key is a `u32`.
pub open spec fn entries_of(root: Json) -> Map<u32, (Seq<BonusTypeView>, Seq<char>, Seq<char>)> {
    match as_members(get(root, key_map_id())) {
        Some((k, v)) => entries_upto(k, v, walked(k, v)),
        None => Map::empty(),
    }
}

/// The views of a table of entries.
pub open spec fn entries_view(m: Map<u32, ScoreBonusMapEntry>) -> Map<u32, (Seq<BonusTypeView>, Seq<char>, Seq<char>)> {
    m.map_values(|e: ScoreBonusMapEntry| e@)
}

fn read_entry(v: &Json) -> (r: ScoreBonusMapEntry)
    ensures
        r@ == entry_of(*v),
{
    let mut bonuses: Vec<BonusType> = Vec::new();
    match read_object(v, &k_bonus_type()) {
        Some((keys, values)) => {
            let n: usize = if keys.len() <= values.len() { keys.len() } else { values.len() };
            let mut i: usize = 0;
            while i < n
                invariant
                    i <= n,
                    n <= keys@.len(),
                    n <= values@.len(),
                    n == walked(keys@, values@),
                    kinds_view(bonuses@) == bonuses_upto(keys@, values@, i as int),
                decreases n - i,
            {
                match to_u8(keys[i].as_str().as_bytes()) {
                    Some(k) => {
                        let ghost before = bonuses@;
                        let b = make_kind(k, read_number_list(&values[i], &k_parameters()));
                        bonuses.push(b);
                        assert(kinds_view(bonuses@) =~= kinds_view(before).push(b@));
                    },
                    None => {},
                }
                i += 1;
            }
        },
        None => {
            assert(kinds_view(bonuses@) =~= Seq::<BonusTypeView>::empty());
        },
    }
    ScoreBonusMapEntry {
        bonuses,
        name_label: read_label(v, &k_name_label()),
        explanation_label: read_label(v, &k_explanation_label()),
    }
}

impl ScoreBonusMap {
    /// Reads the score bonuses out of a parsed document.
    pub fn from_json(root: &Json) -> (r: Self)
        ensures
            entries_view(r.entries@) == entries_of(*root),
    {
        let mut entries: HashMap<u32, ScoreBonusMapEntry> = HashMap::new();
        let (keys, values) = match read_object(root, &k_map_id()) {
            Some(s) => s,
            None => {
                assert(entries_view(entries@) =~= entries_of(*root));
                return ScoreBonusMap { entries };
            },
        };
        let n: usize = if keys.len() <= values.len() { keys.len() } else { values.len() };
        let mut i: usize = 0;
        assert(entries_view(entries@) =~= entries_upto(keys@, values@, 0));
        while i < n
            invariant
                i <= n,
                n <= keys@.len(),
                n <= values@.len(),
                n == walked(keys@, values@),
                entries_view(entries@) == entries_upto(keys@, values@, i as int),
            decreases n - i,
        {
            match to_u32(keys[i].as_str().as_bytes()) {
                Some(id) => {
                    let ghost before = entries@;
                    let entry = read_entry(&values[i]);
                    let ghost ev = entry@;
                    entries.insert(id, entry);
                    assert(entries_view(entries@) =~= entries_view(before).insert(id, ev));
                },
                None => {},
            }
            i += 1;
        }
        ScoreBonusMap { entries }
    }

    /// Parses the score bonus table: its bytes are sanitized and read as JSON.
    ///
    /// # Returns
    /// The bonuses keyed by map, or `ScoreBonusMapError::InvalidJson` exactly
    /// when the text is not a JSON document.
    pub fn parse(bytes: &[u8]) -> (r: Result<Self, ScoreBonusMapError>)
        ensures
            match json_of(scrub_chars(lossy_decode(bytes@))) {
                Some(root) => r matches Ok(m) && entries_view(m.entries@) == entries_of(root),
                None => r == Err::<Self, ScoreBonusMapError>(ScoreBonusMapError::InvalidJson),
            },
    {
        let text = scrub(bytes);
        match parse_json(text.as_str()) {
            Some(root) => Ok(Self::from_json(&root)),
            None => Err(ScoreBonusMapError::InvalidJson),
        }
    }
}

} // verus!
