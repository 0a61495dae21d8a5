//! Constraints that maps impose on how the player may fight them.
use std::collections::HashMap;

use vstd::prelude::*;

use crate::common::file::scrub;
use crate::common::json::{as_members, as_u64, get, get_member, json_of, label, number_list, parse_json, read_label,
    read_number_list, read_object, utf8, walked, Json};
use crate::text::{lossy_decode, scrub_chars, spec_u32, spec_u8, to_u32, to_u8};

verus! {

broadcast use vstd::std_specs::hash::group_hash_axioms;

/// Represents errors that can occur during the parsing of special rules.
#[derive(Debug, Clone, PartialEq, Eq)]
#[non_exhaustive]
pub enum SpecialRulesMapError {
    /// The supplied bytes could not be parsed as valid JSON.
    InvalidJson,
}

impl SpecialRulesMapError {
    /// A human-readable description of the error.
    #[verifier::allow_in_spec]
    pub fn message(&self) -> &'static str
        returns
            (match self {
                SpecialRulesMapError::InvalidJson => "The provided byte slice could not be parsed as valid JSON.",
            }),
    {
        match self {
            SpecialRulesMapError::InvalidJson => "The provided byte slice could not be parsed as valid JSON.",
        }
    }
}

/// A special rule, carrying its parameters.
#[derive(Debug, Clone, PartialEq, Eq)]
pub enum RuleType {
    /// A rule that makes the player start with a fixed amount of money.
    TrustFund(Vec<u32>),
    /// A rule that makes the player share one recharge time.
    CooldownEquality(Vec<u32>),
    /// A rule that makes the player limit the rarities that may be fielded.
    RarityLimit(Vec<u32>),
    /// A rule that makes the player cap the worker cat level.
    CheapLabor(Vec<u32>),
    /// A rule that makes the player change the cost of units.
    CatCost(Vec<u32>),
    /// A rule that makes the player change how many units may be produced.
    CatProduction(Vec<u32>),
    /// A rule that makes the player cap how many units may be deployed.
    TotalDeployLimit(Vec<u32>),
    /// A rule that makes the player require more than one unit.
    MoreThanOne(Vec<u32>),
    /// A rule that makes the player change the cat cannon.
    MegaCatCannon(Vec<u32>),
    /// A rule that makes the player fix the movement of units.
    UniformMotion(Vec<u32>),
    /// A rule that makes the player raise the cost of each further unit.
    CompoundingCost(Vec<u32>),
    /// A code this parser does not recognize, carrying its raw value.
    Unknown(u8, Vec<u32>),
}

/// The abstract value of a [`RuleType`].
pub enum RuleTypeView {
    TrustFund(Seq<u32>),
    CooldownEquality(Seq<u32>),
    RarityLimit(Seq<u32>),
    CheapLabor(Seq<u32>),
    CatCost(Seq<u32>),
    CatProduction(Seq<u32>),
    TotalDeployLimit(Seq<u32>),
    MoreThanOne(Seq<u32>),
    MegaCatCannon(Seq<u32>),
    UniformMotion(Seq<u32>),
    CompoundingCost(Seq<u32>),
    Unknown(u8, Seq<u32>),
}

impl View for RuleType {
    type V = RuleTypeView;

    open spec fn view(&self) -> RuleTypeView {
        match self {
            RuleType::TrustFund(p) => RuleTypeView::TrustFund(p@),
            RuleType::CooldownEquality(p) => RuleTypeView::CooldownEquality(p@),
            RuleType::RarityLimit(p) => RuleTypeView::RarityLimit(p@),
            RuleType::CheapLabor(p) => RuleTypeView::CheapLabor(p@),
            RuleType::CatCost(p) => RuleTypeView::CatCost(p@),
            RuleType::CatProduction(p) => RuleTypeView::CatProduction(p@),
            RuleType::TotalDeployLimit(p) => RuleTypeView::TotalDeployLimit(p@),
            RuleType::MoreThanOne(p) => RuleTypeView::MoreThanOne(p@),
            RuleType::MegaCatCannon(p) => RuleTypeView::MegaCatCannon(p@),
            RuleType::UniformMotion(p) => RuleTypeView::UniformMotion(p@),
            RuleType::CompoundingCost(p) => RuleTypeView::CompoundingCost(p@),
            RuleType::Unknown(k, p) => RuleTypeView::Unknown(*k, p@),
        }
    }
}

/// The kind a code names, carrying its parameters.
pub open spec fn kind_of(key: u8, params: Seq<u32>) -> RuleTypeView {
    if key == 0 { RuleTypeView::TrustFund(params) }
    else if key == 1 { RuleTypeView::CooldownEquality(params) }
    else if key == 3 { RuleTypeView::RarityLimit(params) }
    else if key == 4 { RuleTypeView::CheapLabor(params) }
    else if key == 5 { RuleTypeView::CatCost(params) }
    else if key == 6 { RuleTypeView::CatProduction(params) }
    else if key == 7 { RuleTypeView::TotalDeployLimit(params) }
    else if key == 8 { RuleTypeView::MoreThanOne(params) }
    else if key == 9 { RuleTypeView::MegaCatCannon(params) }
    else if key == 10 { RuleTypeView::UniformMotion(params) }
    else if key == 11 { RuleTypeView::CompoundingCost(params) }
    else { RuleTypeView::Unknown(key, params) }
}

fn make_kind(key: u8, params: Vec<u32>) -> (r: RuleType)
    ensures
        r@ == kind_of(key, params@),
{
    match key {
        0 => RuleType::TrustFund(params),
        1 => RuleType::CooldownEquality(params),
        3 => RuleType::RarityLimit(params),
        4 => RuleType::CheapLabor(params),
        5 => RuleType::CatCost(params),
        6 => RuleType::CatProduction(params),
        7 => RuleType::TotalDeployLimit(params),
        8 => RuleType::MoreThanOne(params),
        9 => RuleType::MegaCatCannon(params),
        10 => RuleType::UniformMotion(params),
        11 => RuleType::CompoundingCost(params),
        _ => RuleType::Unknown(key, params),
    }
}

/// The kinds of a list.
pub open spec fn kinds_view(v: Seq<RuleType>) -> Seq<RuleTypeView> {
    v.map_values(|b: RuleType| b@)
}

/// The special rules of a single map.
#[derive(Default, Debug, Clone, PartialEq, Eq)]
pub struct SpecialRulesMapEntry {
    /// The kind of content the map belongs to.
    pub contents_type: u8,
    /// The rules, in the order the document lists them.
    pub rules: Vec<RuleType>,
    /// The label naming the rules.
    pub name_label: String,
    /// The label explaining the rules.
    pub explanation_label: String,
}

impl View for SpecialRulesMapEntry {
    type V = (u8, Seq<RuleTypeView>, Seq<char>, Seq<char>);

    open spec fn view(&self) -> Self::V {
        (self.contents_type, kinds_view(self.rules@), self.name_label@, self.explanation_label@)
    }
}

/// The parsed contents of the special rule table.
#[derive(Clone, Debug, Default, PartialEq, Eq)]
pub struct SpecialRulesMap {
    /// The rules, keyed by map identifier.
    pub entries: HashMap<u32, SpecialRulesMapEntry>,
}

/// The key `MapID`.
pub open spec fn key_map_id() -> Seq<u8> { seq![77u8, 97, 112, 73, 68] }
fn k_map_id() -> (r: [u8; 5]) ensures r@ == key_map_id() { let r = [77u8, 97, 112, 73, 68]; assert(r@ =~= key_map_id()); r }
/// The key `ContentsType`.
pub open spec fn key_contents_type() -> Seq<u8> { seq![67u8, 111, 110, 116, 101, 110, 116, 115, 84, 121, 112, 101] }
fn k_contents_type() -> (r: [u8; 12]) ensures r@ == key_contents_type() { let r = [67u8, 111, 110, 116, 101, 110, 116, 115, 84, 121, 112, 101]; assert(r@ =~= key_contents_type()); r }
/// The key `RuleNameLabel`.
pub open spec fn key_name_label() -> Seq<u8> { seq![82u8, 117, 108, 101, 78, 97, 109, 101, 76, 97, 98, 101, 108] }
fn k_name_label() -> (r: [u8; 13]) ensures r@ == key_name_label() { let r = [82u8, 117, 108, 101, 78, 97, 109, 101, 76, 97, 98, 101, 108]; assert(r@ =~= key_name_label()); r }
/// The key `RuleExplanationLabel`.
pub open spec fn key_explanation_label() -> Seq<u8> { seq![82u8, 117, 108, 101, 69, 120, 112, 108, 97, 110, 97, 116, 105, 111, 110, 76, 97, 98, 101, 108] }
fn k_explanation_label() -> (r: [u8; 20]) ensures r@ == key_explanation_label() { let r = [82u8, 117, 108, 101, 69, 120, 112, 108, 97, 110, 97, 116, 105, 111, 110, 76, 97, 98, 101, 108]; assert(r@ =~= key_explanation_label()); r }
/// The key `RuleType`.
pub open spec fn key_rule_type() -> Seq<u8> { seq![82u8, 117, 108, 101, 84, 121, 112, 101] }
fn k_rule_type() -> (r: [u8; 8]) ensures r@ == key_rule_type() { let r = [82u8, 117, 108, 101, 84, 121, 112, 101]; assert(r@ =~= key_rule_type()); r }
/// The key `Parameters`.
pub open spec fn key_parameters() -> Seq<u8> { seq![80u8, 97, 114, 97, 109, 101, 116, 101, 114, 115] }
fn k_parameters() -> (r: [u8; 10]) ensures r@ == key_parameters() { let r = [80u8, 97, 114, 97, 109, 101, 116, 101, 114, 115]; assert(r@ =~= key_parameters()); r }

/// The rules the first `n` members of a `RuleType` object list: those whose
/// key is a `u8`, in order.
pub open spec fn rules_upto(keys: Seq<String>, values: Seq<Json>, n: int) -> Seq<RuleTypeView>
    decreases n,
{
    if n <= 0 {
        Seq::empty()
    } else {
        match spec_u8(utf8(keys[n - 1])) {
            Some(k) => rules_upto(keys, values, n - 1).push(kind_of(k, number_list(values[n - 1], key_parameters()))),
            None => rules_upto(keys, values, n - 1),
        }
    }
}

/// The entry a map's member declares; a content type that is not a `u64`
/// reads as zero, and one past a `u8` is truncated.
pub open spec fn entry_of(v: Json) -> (u8, Seq<RuleTypeView>, Seq<char>, Seq<char>) {
    (
        match as_u64(get(v, key_contents_type())) { Some(n) => n as u8, None => 0 },
        match as_members(get(v, key_rule_type())) {
            Some((k, m)) => rules_upto(k, m, walked(k, m)),
            None => Seq::empty(),
        },
        label(v, key_name_label()),
        label(v, key_explanation_label()),
    )
}

/// The entries the first `n` members of the `MapID` object declare, keyed by
/// map, a later member for a map replacing an earlier one.
pub open spec fn entries_upto(keys: Seq<String>, values: Seq<Json>, n: int) -> Map<u32, (u8, Seq<RuleTypeView>, Seq<char>, Seq<char>)>
    decreases n,
{
    if n <= 0 {
        Map::empty()
    } else {
        let m = entries_upto(keys, values, n - 1);
        match spec_u32(utf8(keys[n - 1])) {
            Some(id) => m.insert(id, entry_of(values[n - 1])),
            None => m,
        }
    }
}

/// The entries a document declares: the members of its `MapID` object whose
/// key is a `u32`.
pub open spec fn entries_of(root: Json) -> Map<u32, (u8, Seq<RuleTypeView>, Seq<char>, Seq<char>)> {
    match as_members(get(root, key_map_id())) {
        Some((k, v)) => entries_upto(k, v, walked(k, v)),
        None => Map::empty(),
    }
}

/// The views of a table of entries.
pub open spec fn entries_view(m: Map<u32, SpecialRulesMapEntry>) -> Map<u32, (u8, Seq<RuleTypeView>, Seq<char>, Seq<char>)> {
    m.map_values(|e: SpecialRulesMapEntry| e@)
}

fn read_entry(v: &Json) -> (r: SpecialRulesMapEntry)
    ensures
        r@ == entry_of(*v),
{
    let contents_type: u8 = match get_member(v, &k_contents_type()) {
        Some(Json::Number { unsigned: Some(n), signed }) => *n as u8,
        _ => 0,
    };
    let mut rules: Vec<RuleType> = Vec::new();
    match read_object(v, &k_rule_type()) {
        Some((keys, values)) => {
            let n: usize = if keys.len() <= values.len() { keys.len() } else { values.len() };
            let mut i: usize = 0;
            while i < n
                invariant
                    i <= n,
                    n <= keys@.len(),
                    n <= values@.len(),
                    n == walked(keys@, values@),
                    kinds_view(rules@) == rules_upto(keys@, values@, i as int),
                decreases n - i,
            {
                match to_u8(keys[i].as_str().as_bytes()) {
                    Some(k) => {
                        let ghost before = rules@;
                        let b = make_kind(k, read_number_list(&values[i], &k_parameters()));
                        rules.push(b);
                        assert(kinds_view(rules@) =~= kinds_view(before).push(b@));
                    },
                    None => {},
                }
                i += 1;
            }
        },
        None => {
            assert(kinds_view(rules@) =~= Seq::<RuleTypeView>::empty());
        },
    }
    SpecialRulesMapEntry {
        contents_type,
        rules,
        name_label: read_label(v, &k_name_label()),
        explanation_label: read_label(v, &k_explanation_label()),
    }
}

impl SpecialRulesMap {
    /// Reads the special rules out of a parsed document.
    pub fn from_json(root: &Json) -> (r: Self)
        ensures
            entries_view(r.entries@) == entries_of(*root),
    {
        let mut entries: HashMap<u32, SpecialRulesMapEntry> = HashMap::new();
        let (keys, values) = match read_object(root, &k_map_id()) {
            Some(s) => s,
            None => {
                assert(entries_view(entries@) =~= entries_of(*root));
                return SpecialRulesMap { entries };
            },
        };
        let n: usize = if keys.len() <= values.len() { keys.len() } else { values.len() };
        let mut i: usize = 0;
        assert(entries_view(entries@) =~= entries_upto(keys@, values@, 0));
        while i < n
            invariant
                i <= n,
                n <= keys@.len(),
                n <= values@.len(),
                n == walked(keys@, values@),
                entries_view(entries@) == entries_upto(keys@, values@, i as int),
            decreases n - i,
        {
            match to_u32(keys[i].as_str().as_bytes()) {
                Some(id) => {
                    let ghost before = entries@;
                    let entry = read_entry(&values[i]);
                    let ghost ev = entry@;
                    entries.insert(id, entry);
                    assert(entries_view(entries@) =~= entries_view(before).insert(id, ev));
                },
                None => {},
            }
            i += 1;
        }
        SpecialRulesMap { entries }
    }

    /// Parses the special rule table: its bytes are sanitized and read as JSON.
    ///
    /// # Returns
    /// The rules keyed by map, or `SpecialRulesMapError::InvalidJson` exactly
    /// when the text is not a JSON document.
    pub fn parse(bytes: &[u8]) -> (r: Result<Self, SpecialRulesMapError>)
        ensures
            match json_of(scrub_chars(lossy_decode(bytes@))) {
                Some(root) => r matches Ok(m) && entries_view(m.entries@) == entries_of(root),
                None => r == Err::<Self, SpecialRulesMapError>(SpecialRulesMapError::InvalidJson),
            },
    {
        let text = scrub(bytes);
        match parse_json(text.as_str()) {
            Some(root) => Ok(Self::from_json(&root)),
            None => Err(SpecialRulesMapError::InvalidJson),
        }
    }
}

} // verus!
