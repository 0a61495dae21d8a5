//! A JSON document as plain values, and the reads the JSON tables make of it.
//!
//! The document is parsed by `serde_json`; everything the tables then read out
//! of it is verified over [`Json`].

use vstd::prelude::*;

use crate::text::same_bytes;

verus! {

/// A JSON value.
///
/// An object lists its members in the order the parser walks them, each key
/// once.
#[derive(Debug)]
pub enum Json {
    /// The literal `null`.
    Null,
    /// `true` or `false`.
    Bool(bool),
    /// A number, with its value as a `u64` where it is a non-negative integer
    /// that fits one, and as an `i64` where it is an integer that fits one.
    Number { unsigned: Option<u64>, signed: Option<i64> },
    /// A string.
    Text(String),
    /// An array.
    Array(Vec<Json>),
    /// An object, as the keys of its members in order and their values in
    /// the same order.
    Object(Vec<String>, Vec<Json>),
}

/// The document `serde_json` parses a text into, or `None` when the text is
/// not a JSON document.
pub uninterp spec fn json_of(text: Seq<char>) -> Option<Json>;

/// Parses a text as a JSON document with `serde_json::from_str::<Value>`.
///
/// The contract names the result and claims nothing else of it: the document
/// is `None` exactly when `serde_json` rejects the text, and objects list
/// their members in the order `serde_json`'s map walks them.
#[verifier::external_body]
pub(crate) fn parse_json(text: &str) -> (r: Option<Json>)
    ensures
        r == json_of(text@),
{
    match serde_json::from_str::<serde_json::Value>(text) {
        Ok(value) => Some(from_value(&value)),
        Err(_) => None,
    }
}

/// Converts a `serde_json` value into a [`Json`] one for one: each variant
/// into the variant of the same name, a number into its `as_u64` and
/// `as_i64` readings, and an object into its keys and values in the order
/// its map walks them. It is part of [`parse_json`] and claims nothing of
/// its own.
#[verifier::external_body]
fn from_value(value: &serde_json::Value) -> Json {
    match value {
        serde_json::Value::Null => Json::Null,
        serde_json::Value::Bool(b) => Json::Bool(*b),
        serde_json::Value::Number(n) => Json::Number { unsigned: n.as_u64(), signed: n.as_i64() },
        serde_json::Value::String(s) => Json::Text(s.clone()),
        serde_json::Value::Array(items) => Json::Array(items.iter().map(from_value).collect()),
        serde_json::Value::Object(members) => Json::Object(
            members.keys().cloned().collect(),
            members.values().map(from_value).collect(),
        ),
    }
}

/// The `serde_json::Value` type, declared so that the conversion above can
/// take one; nothing inside a value of it is visible to the proofs.
#[verifier::external_type_specification]
#[verifier::external_body]
pub struct ExValue(serde_json::Value);

/// The UTF-8 bytes of a string.
pub open spec fn utf8(s: String) -> Seq<u8> {
    vstd::utf8::encode_utf8(s@)
}

/// The position of the first of `keys` that is `key`.
pub open spec fn key_index(keys: Seq<String>, key: Seq<u8>) -> Option<int>
    decreases keys.len(),
{
    if keys.len() == 0 {
        None
    } else if utf8(keys[0]) == key {
        Some(0)
    } else {
        match key_index(keys.skip(1), key) {
            Some(i) => Some(i + 1),
            None => None,
        }
    }
}

/// The first position of `key` in `keys` is the first one no earlier key matches.
pub proof fn lemma_key_index(keys: Seq<String>, key: Seq<u8>, i: int)
    requires
        0 <= i <= keys.len(),
        forall|j: int| 0 <= j < i ==> utf8(#[trigger] keys[j]) != key,
    ensures
        i < keys.len() && utf8(keys[i]) == key ==> key_index(keys, key) == Some(i),
        i == keys.len() ==> key_index(keys, key) is None,
    decreases i,
{
    if i > 0 {
        assert forall|j: int| 0 <= j < i - 1 implies utf8(#[trigger] keys.skip(1)[j]) != key by {
            assert(keys.skip(1)[j] == keys[j + 1]);
        }
        lemma_key_index(keys.skip(1), key, i - 1);
        assert(utf8(keys[0]) != key);
    } else if keys.len() == 0 {
    }
}

/// The member `key` of an object, as `Value::get` reads it: `None` for a
/// value that is not an object or has no such member.
pub open spec fn get(v: Json, key: Seq<u8>) -> Option<Json> {
    match v {
        Json::Object(keys, values) => match key_index(keys@, key) {
            Some(i) => if i < values@.len() { Some(values@[i]) } else { None },
            None => None,
        },
        _ => None,
    }
}

/// The member `key` of an optional value.
pub open spec fn get_in(v: Option<Json>, key: Seq<u8>) -> Option<Json> {
    match v {
        Some(x) => get(x, key),
        None => None,
    }
}

/// The text of a string value.
pub open spec fn as_text(v: Option<Json>) -> Option<String> {
    match v {
        Some(Json::Text(s)) => Some(s),
        _ => None,
    }
}

/// The keys and values of an object value.
pub open spec fn as_members(v: Option<Json>) -> Option<(Seq<String>, Seq<Json>)> {
    match v {
        Some(Json::Object(k, m)) => Some((k@, m@)),
        _ => None,
    }
}

/// The items of an array value.
pub open spec fn as_items(v: Option<Json>) -> Option<Seq<Json>> {
    match v {
        Some(Json::Array(a)) => Some(a@),
        _ => None,
    }
}

/// The `u64` a value holds, as `Value::as_u64` reads it.
pub open spec fn as_u64(v: Option<Json>) -> Option<u64> {
    match v {
        Some(Json::Number { unsigned, signed }) => unsigned,
        _ => None,
    }
}

/// The boolean a value holds.
pub open spec fn as_bool(v: Option<Json>) -> Option<bool> {
    match v {
        Some(Json::Bool(b)) => Some(b),
        _ => None,
    }
}

/// The position of the first of `keys` that is `key`.
fn find_key(keys: &Vec<String>, key: &[u8]) -> (r: Option<usize>)
    ensures
        match r {
            Some(i) => key_index(keys@, key@) == Some(i as int),
            None => key_index(keys@, key@) is None,
        },
{
    let mut i: usize = 0;
    while i < keys.len()
        invariant
            i <= keys@.len(),
            forall|j: int| 0 <= j < i ==> utf8(#[trigger] keys@[j]) != key@,
        decreases keys@.len() - i,
    {
        if same_bytes(keys[i].as_str().as_bytes(), key) {
            proof {
                lemma_key_index(keys@, key@, i as int);
            }
            return Some(i);
        }
        i += 1;
    }
    proof {
        lemma_key_index(keys@, key@, i as int);
    }
    None
}

/// Looks up the member `key` of an object.
pub fn get_member<'a>(v: &'a Json, key: &[u8]) -> (r: Option<&'a Json>)
    ensures
        match r {
            Some(x) => get(*v, key@) == Some(*x),
            None => get(*v, key@) is None,
        },
{
    match v {
        Json::Object(keys, values) => match find_key(keys, key) {
            Some(i) => if i < values.len() { Some(&values[i]) } else { None },
            None => None,
        },
        _ => None,
    }
}

/// Looks up the member `key` of an optional object.
pub fn get_member_in<'a>(v: Option<&'a Json>, key: &[u8]) -> (r: Option<&'a Json>)
    ensures
        match r {
            Some(x) => get_in(match v { Some(y) => Some(*y), None => None }, key@) == Some(*x),
            None => get_in(match v { Some(y) => Some(*y), None => None }, key@) is None,
        },
{
    match v {
        Some(x) => get_member(x, key),
        None => None,
    }
}

/// Whether a string's bytes are `name`.
pub fn text_is(s: &String, name: &[u8]) -> (r: bool)
    ensures
        r == (utf8(*s) == name@),
{
    same_bytes(s.as_str().as_bytes(), name)
}

/// The numbers among a list of values that are non-negative integers fitting
/// a `u64`, each truncated to a `u32`, in order.
pub open spec fn numbers_u32(items: Seq<Json>) -> Seq<u32>
    decreases items.len(),
{
    if items.len() == 0 {
        Seq::empty()
    } else {
        match as_u64(Some(items.last())) {
            Some(n) => numbers_u32(items.drop_last()).push(n as u32),
            None => numbers_u32(items.drop_last()),
        }
    }
}

/// The numbers of the array a value holds under `key`, or none when it holds
/// no array there.
pub open spec fn number_list(v: Json, key: Seq<u8>) -> Seq<u32> {
    match as_items(get(v, key)) {
        Some(items) => numbers_u32(items),
        None => Seq::empty(),
    }
}

/// Reads the numbers of the array a value holds under `key`.
pub fn read_number_list(v: &Json, key: &[u8]) -> (r: Vec<u32>)
    ensures
        r@ == number_list(*v, key@),
{
    let items = match get_member(v, key) {
        Some(Json::Array(items)) => items,
        _ => return Vec::new(),
    };
    let mut out: Vec<u32> = Vec::new();
    let mut i: usize = 0;
    while i < items.len()
        invariant
            i <= items@.len(),
            out@ == numbers_u32(items@.take(i as int)),
        decreases items@.len() - i,
    {
        proof {
            assert(items@.take(i + 1).drop_last() =~= items@.take(i as int));
        }
        match &items[i] {
            Json::Number { unsigned: Some(n), signed } => out.push(*n as u32),
            _ => {},
        }
        i += 1;
    }
    assert(items@.take(i as int) =~= items@);
    out
}

/// The text of the string a value holds under `key`, or the empty text.
pub open spec fn label(v: Json, key: Seq<u8>) -> Seq<char> {
    match as_text(get(v, key)) {
        Some(s) => s@,
        None => Seq::empty(),
    }
}

/// Reads the string a value holds under `key`, or an empty one.
pub fn read_label(v: &Json, key: &[u8]) -> (r: String)
    ensures
        r@ == label(*v, key@),
{
    match get_member(v, key) {
        Some(Json::Text(s)) => s.clone(),
        _ => String::new(),
    }
}

/// The number of members of an object that carry both a key and a value.
pub open spec fn walked(keys: Seq<String>, values: Seq<Json>) -> int {
    if keys.len() <= values.len() { keys.len() as int } else { values.len() as int }
}

/// The keys and values of the object a value holds under `key`.
pub fn read_object<'a>(v: &'a Json, key: &[u8]) -> (r: Option<(&'a Vec<String>, &'a Vec<Json>)>)
    ensures
        match r {
            Some((k, m)) => as_members(get(*v, key@)) == Some((k@, m@)),
            None => as_members(get(*v, key@)) is None,
        },
{
    match get_member(v, key) {
        Some(Json::Object(keys, values)) => Some((keys, values)),
        _ => None,
    }
}

} // verus!
