//! Unit combo restrictions imposed by map special rules.
use std::collections::HashMap;

use vstd::prelude::*;

use crate::common::file::scrub;
use crate::common::json::{as_members, get, json_of, number_list, parse_json, read_number_list, read_object, utf8,
    walked, Json};
use crate::text::{lossy_decode, scrub_chars, spec_u8, to_u8};

verus! {

broadcast use vstd::std_specs::hash::group_hash_axioms;

/// Represents errors that can occur during the parsing of special rule options.
#[derive(Debug, Clone, PartialEq, Eq)]
#[non_exhaustive]
pub enum SpecialRulesMapOptionError {
    /// The supplied bytes could not be parsed as valid JSON.
    InvalidJson,
}

impl SpecialRulesMapOptionError {
    /// A human-readable description of the error.
    #[verifier::allow_in_spec]
    pub fn message(&self) -> &'static str
        returns
            (match self {
                SpecialRulesMapOptionError::InvalidJson => "The provided byte slice could not be parsed as valid JSON.",
            }),
    {
        match self {
            SpecialRulesMapOptionError::InvalidJson => "The provided byte slice could not be parsed as valid JSON.",
        }
    }
}

/// The unit combos a special rule disables.
#[derive(Default, Debug, Clone, PartialEq, Eq)]
pub struct SpecialRulesMapOptionEntry {
    /// The identifiers of the disabled combos.
    pub invalid_combo_ids: Vec<u32>,
}

/// The parsed contents of the special rule option table.
#[derive(Clone, Debug, Default, PartialEq, Eq)]
pub struct SpecialRulesMapOption {
    /// The options, keyed by rule identifier.
    pub entries: HashMap<u8, SpecialRulesMapOptionEntry>,
}

/// The key `RuleType`.
pub open spec fn key_rule_type() -> Seq<u8> { seq![82u8, 117, 108, 101, 84, 121, 112, 101] }
fn k_rule_type() -> (r: [u8; 8]) ensures r@ == key_rule_type() { let r = [82u8, 117, 108, 101, 84, 121, 112, 101]; assert(r@ =~= key_rule_type()); r }
/// The key `InvalidNyancomboID`.
pub open spec fn key_invalid_combo() -> Seq<u8> { seq![73u8, 110, 118, 97, 108, 105, 100, 78, 121, 97, 110, 99, 111, 109, 98, 111, 73, 68] }
fn k_invalid_combo() -> (r: [u8; 18]) ensures r@ == key_invalid_combo() { let r = [73u8, 110, 118, 97, 108, 105, 100, 78, 121, 97, 110, 99, 111, 109, 98, 111, 73, 68]; assert(r@ =~= key_invalid_combo()); r }

/// The combos the first `n` members of the rule table disable, keyed by rule,
/// a later member for a rule replacing an earlier one.
pub open spec fn options_upto(keys: Seq<String>, values: Seq<Json>, n: int) -> Map<u8, Seq<u32>>
    decreases n,
{
    if n <= 0 {
        Map::empty()
    } else {
        let m = options_upto(keys, values, n - 1);
        match spec_u8(utf8(keys[n - 1])) {
            Some(id) => m.insert(id, number_list(values[n - 1], key_invalid_combo())),
            None => m,
        }
    }
}

/// The combos a document disables, keyed by rule: the members of its
/// `RuleType` object whose key is a `u8`, each with the numbers of its
/// `InvalidNyancomboID` array.
pub open spec fn options_of(root: Json) -> Map<u8, Seq<u32>> {
    match as_members(get(root, key_rule_type())) {
        Some((k, v)) => options_upto(k, v, walked(k, v)),
        None => Map::empty(),
    }
}

/// The combos of each rule of a table.
pub open spec fn options_view(m: Map<u8, SpecialRulesMapOptionEntry>) -> Map<u8, Seq<u32>> {
    m.map_values(|e: SpecialRulesMapOptionEntry| e.invalid_combo_ids@)
}

impl SpecialRulesMapOption {
    /// Reads the rule options out of a parsed document.
    pub fn from_json(root: &Json) -> (r: Self)
        ensures
            options_view(r.entries@) == options_of(*root),
    {
        let mut entries: HashMap<u8, SpecialRulesMapOptionEntry> = HashMap::new();
        let (keys, values) = match read_object(root, &k_rule_type()) {
            Some(s) => s,
            None => {
                assert(options_view(entries@) =~= Map::<u8, Seq<u32>>::empty());
                return SpecialRulesMapOption { entries };
            },
        };
        let n: usize = if keys.len() <= values.len() { keys.len() } else { values.len() };
        let mut i: usize = 0;
        assert(options_view(entries@) =~= options_upto(keys@, values@, 0));
        while i < n
            invariant
                i <= n,
                n <= keys@.len(),
                n <= values@.len(),
                n == walked(keys@, values@),
                options_view(entries@) == options_upto(keys@, values@, i as int),
            decreases n - i,
        {
            match to_u8(keys[i].as_str().as_bytes()) {
                Some(id) => {
                    let ghost before = entries@;
                    let entry = SpecialRulesMapOptionEntry { invalid_combo_ids: read_number_list(&values[i], &k_invalid_combo()) };
                    entries.insert(id, entry);
                    assert(options_view(entries@) =~= options_view(before).insert(id, entry.invalid_combo_ids@));
                },
                None => {},
            }
            i += 1;
        }
        SpecialRulesMapOption { entries }
    }

    /// Parses the special rule option table: its bytes are sanitized and read
    /// as JSON.
    ///
    /// # Returns
    /// The options, or `SpecialRulesMapOptionError::InvalidJson` exactly when
    /// the text is not a JSON document.
    pub fn parse(bytes: &[u8]) -> (r: Result<Self, SpecialRulesMapOptionError>)
        ensures
            match json_of(scrub_chars(lossy_decode(bytes@))) {
                Some(root) => r matches Ok(o) && options_view(o.entries@) == options_of(root),
                None => r == Err::<Self, SpecialRulesMapOptionError>(SpecialRulesMapOptionError::InvalidJson),
            },
    {
        let text = scrub(bytes);
        match parse_json(text.as_str()) {
            Some(root) => Ok(Self::from_json(&root)),
            None => Err(SpecialRulesMapOptionError::InvalidJson),
        }
    }
}

} // verus!
