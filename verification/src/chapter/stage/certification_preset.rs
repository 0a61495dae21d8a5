//! Predetermined player states imposed on stages that equalize progression.

use std::collections::HashMap;

use vstd::prelude::*;

use crate::common::file::scrub;
use crate::common::json::{as_bool, as_items, as_members, as_text, get, get_in, get_member, get_member_in, json_of,
    parse_json, utf8, walked, Json};
use crate::common::pairs::{lemma_without, pairs_map, without};
use crate::text::{lossy_decode, scrub_chars, spec_u16, spec_u32, spec_u8, to_u16, to_u32, to_u8};

verus! {

broadcast use vstd::std_specs::hash::group_hash_axioms;

/// Represents errors that can occur during the parsing of certification presets.
#[derive(Debug, Clone, PartialEq, Eq)]
#[non_exhaustive]
pub enum CertificationPresetError {
    /// The supplied bytes could not be parsed as valid JSON.
    InvalidJson,
}

impl CertificationPresetError {
    /// A human-readable description of the error.
    #[verifier::allow_in_spec]
    pub fn message(&self) -> &'static str
        returns
            (match self {
                CertificationPresetError::InvalidJson => "The provided byte slice could not be parsed as valid JSON.",
            }),
    {
        match self {
            CertificationPresetError::InvalidJson => "The provided byte slice could not be parsed as valid JSON.",
        }
    }
}

/// The cannon a preset fixes.
#[derive(Default, Debug, Clone, Copy, PartialEq, Eq, Structural, Hash)]
pub enum CannonType {
    /// The basic cannon.
    #[default]
    Basic,
    /// The slow beam.
    SlowBeam,
    /// The iron wall.
    IronWall,
    /// The thunderbolt.
    Thunderbolt,
    /// The waterblast.
    Waterblast,
    /// The holy blast.
    HolyBlast,
    /// The breakerblast.
    Breakerblast,
    /// The curseblast.
    Curseblast,
    /// A cannon code this parser does not recognize, carrying its raw value.
    Unknown(u8),
}

/// The cannon a code names.
pub open spec fn cannon_type_of(value: u8) -> CannonType {
    if value == 0 { CannonType::Basic }
    else if value == 1 { CannonType::SlowBeam }
    else if value == 2 { CannonType::IronWall }
    else if value == 3 { CannonType::Thunderbolt }
    else if value == 4 { CannonType::Waterblast }
    else if value == 5 { CannonType::HolyBlast }
    else if value == 6 { CannonType::Breakerblast }
    else if value == 7 { CannonType::Curseblast }
    else { CannonType::Unknown(value) }
}

impl From<u8> for CannonType {
    fn from(value: u8) -> (r: Self) {
        match value {
            0 => CannonType::Basic,
            1 => CannonType::SlowBeam,
            2 => CannonType::IronWall,
            3 => CannonType::Thunderbolt,
            4 => CannonType::Waterblast,
            5 => CannonType::HolyBlast,
            6 => CannonType::Breakerblast,
            7 => CannonType::Curseblast,
            _ => CannonType::Unknown(value),
        }
    }
}

impl vstd::std_specs::convert::FromSpecImpl<u8> for CannonType {
    open spec fn obeys_from_spec() -> bool {
        true
    }

    open spec fn from_spec(value: u8) -> Self {
        cannon_type_of(value)
    }
}

/// A base upgrade a preset fixes the level of.
#[derive(Debug, Clone, Copy, PartialEq, Eq, Structural, Hash)]
pub enum AbilityType {
    /// Cat cannon attack power.
    CatCannonAttack,
    /// Cat cannon range.
    CatCannonRange,
    /// Cat cannon charge speed.
    CatCannonCharge,
    /// Worker cat production rate.
    WorkerCatRate,
    /// Worker cat wallet capacity.
    WorkerCatWallet,
    /// Base health.
    BaseDefense,
    /// Research speed.
    Research,
    /// Money from defeated enemies.
    BountyUp,
    /// Experience earned.
    Study,
    /// Cat energy.
    CatEnergy,
    /// An upgrade code this parser does not recognize, carrying its raw value.
    Unknown(u8),
}

/// The upgrade a code names.
pub open spec fn ability_type_of(value: u8) -> AbilityType {
    if value == 0 { AbilityType::CatCannonAttack }
    else if value == 1 { AbilityType::CatCannonRange }
    else if value == 2 { AbilityType::CatCannonCharge }
    else if value == 3 { AbilityType::WorkerCatRate }
    else if value == 4 { AbilityType::WorkerCatWallet }
    else if value == 5 { AbilityType::BaseDefense }
    else if value == 6 { AbilityType::Research }
    else if value == 7 { AbilityType::BountyUp }
    else if value == 8 { AbilityType::Study }
    else if value == 9 { AbilityType::CatEnergy }
    else { AbilityType::Unknown(value) }
}

impl From<u8> for AbilityType {
    fn from(value: u8) -> (r: Self) {
        match value {
            0 => AbilityType::CatCannonAttack,
            1 => AbilityType::CatCannonRange,
            2 => AbilityType::CatCannonCharge,
            3 => AbilityType::WorkerCatRate,
            4 => AbilityType::WorkerCatWallet,
            5 => AbilityType::BaseDefense,
            6 => AbilityType::Research,
            7 => AbilityType::BountyUp,
            8 => AbilityType::Study,
            9 => AbilityType::CatEnergy,
            _ => AbilityType::Unknown(value),
        }
    }
}

impl vstd::std_specs::convert::FromSpecImpl<u8> for AbilityType {
    open spec fn obeys_from_spec() -> bool {
        true
    }

    open spec fn from_spec(value: u8) -> Self {
        ability_type_of(value)
    }
}

/// A treasure group a preset fixes the collection of.
#[derive(Debug, Clone, Copy, PartialEq, Eq, Structural, Hash)]
pub enum TreasureType {
    /// The first chapter of Empire of Cats.
    EoC1,
    /// The second chapter of Empire of Cats.
    EoC2,
    /// The third chapter of Empire of Cats.
    EoC3,
    /// The first chapter of Into the Future.
    ItF1,
    /// The second chapter of Into the Future.
    ItF2,
    /// The third chapter of Into the Future.
    ItF3,
    /// The first chapter of Cats of the Cosmos.
    CotC1,
    /// The second chapter of Cats of the Cosmos.
    CotC2,
    /// The third chapter of Cats of the Cosmos.
    CotC3,
    /// A treasure code this parser does not recognize, carrying its raw value.
    Unknown(u8),
}

/// The treasure group a code names; code three is unused.
pub open spec fn treasure_type_of(value: u8) -> TreasureType {
    if value == 0 { TreasureType::EoC1 }
    else if value == 1 { TreasureType::EoC2 }
    else if value == 2 { TreasureType::EoC3 }
    else if value == 4 { TreasureType::ItF1 }
    else if value == 5 { TreasureType::ItF2 }
    else if value == 6 { TreasureType::ItF3 }
    else if value == 7 { TreasureType::CotC1 }
    else if value == 8 { TreasureType::CotC2 }
    else if value == 9 { TreasureType::CotC3 }
    else { TreasureType::Unknown(value) }
}

impl From<u8> for TreasureType {
    fn from(value: u8) -> (r: Self) {
        match value {
            0 => TreasureType::EoC1,
            1 => TreasureType::EoC2,
            2 => TreasureType::EoC3,
            4 => TreasureType::ItF1,
            5 => TreasureType::ItF2,
            6 => TreasureType::ItF3,
            7 => TreasureType::CotC1,
            8 => TreasureType::CotC2,
            9 => TreasureType::CotC3,
            _ => TreasureType::Unknown(value),
        }
    }
}

impl vstd::std_specs::convert::FromSpecImpl<u8> for TreasureType {
    open spec fn obeys_from_spec() -> bool {
        true
    }

    open spec fn from_spec(value: u8) -> Self {
        treasure_type_of(value)
    }
}

/// The evolution a preset fixes a unit at.
#[derive(Default, Debug, Clone, Copy, PartialEq, Eq, Structural, Hash)]
pub enum EvolutionForm {
    /// The first form.
    #[default]
    Normal,
    /// The evolved form.
    Evolved,
    /// The true form.
    True,
    /// The ultra form.
    Ultra,
    /// A form code this parser does not recognize, carrying its raw value.
    Unknown(u8),
}

/// The form a code names; forms count from one.
pub open spec fn evolution_form_of(value: u8) -> EvolutionForm {
    if value == 1 { EvolutionForm::Normal }
    else if value == 2 { EvolutionForm::Evolved }
    else if value == 3 { EvolutionForm::True }
    else if value == 4 { EvolutionForm::Ultra }
    else { EvolutionForm::Unknown(value) }
}

impl From<u8> for EvolutionForm {
    fn from(value: u8) -> (r: Self) {
        match value {
            1 => EvolutionForm::Normal,
            2 => EvolutionForm::Evolved,
            3 => EvolutionForm::True,
            4 => EvolutionForm::Ultra,
            _ => EvolutionForm::Unknown(value),
        }
    }
}

impl vstd::std_specs::convert::FromSpecImpl<u8> for EvolutionForm {
    open spec fn obeys_from_spec() -> bool {
        true
    }

    open spec fn from_spec(value: u8) -> Self {
        evolution_form_of(value)
    }
}

/// The form and levels a preset fixes a unit at.
#[derive(Default, Debug, Clone, Copy, PartialEq, Eq)]
pub struct PresetChara {
    /// The unit's evolution.
    pub evolution_form: EvolutionForm,
    /// The unit's base level.
    pub level: u16,
    /// The unit's plus level.
    pub plus_level: u16,
}

/// The levels a preset fixes an upgrade at.
#[derive(Default, Debug, Clone, Copy, PartialEq, Eq)]
pub struct PresetAbility {
    /// The upgrade's base level.
    pub level: u16,
    /// The upgrade's plus level.
    pub plus_level: u16,
}

/// The treasures a preset fixes a group at.
#[derive(Default, Debug, Clone, Copy, PartialEq, Eq)]
pub struct PresetTreasure {
    /// The number of inferior treasures.
    pub inferior_count: u8,
    /// The number of normal treasures.
    pub normal_count: u8,
    /// The number of superior treasures.
    pub superior_count: u8,
}

/// A predetermined player state imposed on a stage.
///
/// The upgrade, cannon and treasure tables are held as lists with each key
/// once, in the order the keys were first set.
#[derive(Default, Debug, Clone, PartialEq, Eq)]
pub struct CertificationPreset {
    /// The units the preset fixes, keyed by unit identifier.
    pub characters: HashMap<u32, PresetChara>,
    /// The units of the preset lineup, in order.
    pub slot_units: Vec<u32>,
    /// The cannon of the preset lineup.
    pub slot_cannon_type: CannonType,
    /// The upgrade levels the preset fixes.
    pub abilities: Vec<(AbilityType, PresetAbility)>,
    /// The cannon levels the preset fixes.
    pub cannon_levels: Vec<(CannonType, u16)>,
    /// The treasures the preset fixes.
    pub treasures: Vec<(TreasureType, PresetTreasure)>,
}

/// The abstract value of a preset.
pub struct PresetView {
    pub characters: Map<u32, PresetChara>,
    pub slot_units: Seq<u32>,
    pub slot_cannon_type: CannonType,
    pub abilities: Map<AbilityType, PresetAbility>,
    pub cannon_levels: Map<CannonType, u16>,
    pub treasures: Map<TreasureType, PresetTreasure>,
}

impl View for CertificationPreset {
    type V = PresetView;

    open spec fn view(&self) -> PresetView {
        PresetView {
            characters: self.characters@,
            slot_units: self.slot_units@,
            slot_cannon_type: self.slot_cannon_type,
            abilities: pairs_map(self.abilities@),
            cannon_levels: pairs_map(self.cannon_levels@),
            treasures: pairs_map(self.treasures@),
        }
    }
}

// ---------------------------------------------------------------------------
// Keys
// ---------------------------------------------------------------------------

pub open spec fn key_chara() -> Seq<u8> { seq![99u8, 104, 97, 114, 97] }
pub open spec fn key_data() -> Seq<u8> { seq![100u8, 97, 116, 97] }
pub open spec fn key_remove() -> Seq<u8> { seq![114u8, 101, 109, 111, 118, 101] }
pub open spec fn key_evolution() -> Seq<u8> { seq![101u8, 118, 111, 108, 117, 116, 105, 111, 110] }
pub open spec fn key_level() -> Seq<u8> { seq![108u8, 101, 118, 101, 108] }
pub open spec fn key_plus() -> Seq<u8> { seq![112u8, 108, 117, 115] }
pub open spec fn key_slot() -> Seq<u8> { seq![115u8, 108, 111, 116] }
pub open spec fn key_zero() -> Seq<u8> { seq![48u8] }
pub open spec fn key_cannon() -> Seq<u8> { seq![99u8, 97, 110, 110, 111, 110] }
pub open spec fn key_ability() -> Seq<u8> { seq![97u8, 98, 105, 108, 105, 116, 121] }
pub open spec fn key_treasure() -> Seq<u8> { seq![116u8, 114, 101, 97, 115, 117, 114, 101] }
pub open spec fn key_count() -> Seq<u8> { seq![99u8, 111, 117, 110, 116] }

fn k_chara() -> (r: [u8; 5]) ensures r@ == key_chara() { let r = [99u8, 104, 97, 114, 97]; assert(r@ =~= key_chara()); r }
fn k_data() -> (r: [u8; 4]) ensures r@ == key_data() { let r = [100u8, 97, 116, 97]; assert(r@ =~= key_data()); r }
fn k_remove() -> (r: [u8; 6]) ensures r@ == key_remove() { let r = [114u8, 101, 109, 111, 118, 101]; assert(r@ =~= key_remove()); r }
fn k_evolution() -> (r: [u8; 9]) ensures r@ == key_evolution() { let r = [101u8, 118, 111, 108, 117, 116, 105, 111, 110]; assert(r@ =~= key_evolution()); r }
fn k_level() -> (r: [u8; 5]) ensures r@ == key_level() { let r = [108u8, 101, 118, 101, 108]; assert(r@ =~= key_level()); r }
fn k_plus() -> (r: [u8; 4]) ensures r@ == key_plus() { let r = [112u8, 108, 117, 115]; assert(r@ =~= key_plus()); r }
fn k_slot() -> (r: [u8; 4]) ensures r@ == key_slot() { let r = [115u8, 108, 111, 116]; assert(r@ =~= key_slot()); r }
fn k_zero() -> (r: [u8; 1]) ensures r@ == key_zero() { let r = [48u8]; assert(r@ =~= key_zero()); r }
fn k_cannon() -> (r: [u8; 6]) ensures r@ == key_cannon() { let r = [99u8, 97, 110, 110, 111, 110]; assert(r@ =~= key_cannon()); r }
fn k_ability() -> (r: [u8; 7]) ensures r@ == key_ability() { let r = [97u8, 98, 105, 108, 105, 116, 121]; assert(r@ =~= key_ability()); r }
fn k_treasure() -> (r: [u8; 8]) ensures r@ == key_treasure() { let r = [116u8, 114, 101, 97, 115, 117, 114, 101]; assert(r@ =~= key_treasure()); r }
fn k_count() -> (r: [u8; 5]) ensures r@ == key_count() { let r = [99u8, 111, 117, 110, 116]; assert(r@ =~= key_count()); r }

// ---------------------------------------------------------------------------
// Reading values
// ---------------------------------------------------------------------------

/// The `u8` a string value spells.
pub open spec fn text_u8(v: Option<Json>) -> Option<u8> {
    match as_text(v) { Some(s) => spec_u8(utf8(s)), None => None }
}

/// The `u16` a string value spells.
pub open spec fn text_u16(v: Option<Json>) -> Option<u16> {
    match as_text(v) { Some(s) => spec_u16(utf8(s)), None => None }
}

fn read_text_u8(v: Option<&Json>) -> (r: Option<u8>)
    ensures r == text_u8(match v { Some(x) => Some(*x), None => None }),
{
    match v {
        Some(Json::Text(s)) => to_u8(s.as_str().as_bytes()),
        _ => None,
    }
}

fn read_text_u16(v: Option<&Json>) -> (r: Option<u16>)
    ensures r == text_u16(match v { Some(x) => Some(*x), None => None }),
{
    match v {
        Some(Json::Text(s)) => to_u16(s.as_str().as_bytes()),
        _ => None,
    }
}

/// The keys and values of the `data` object of a section of the root.
pub open spec fn section(root: Json, name: Seq<u8>) -> Option<(Seq<String>, Seq<Json>)> {
    as_members(get_in(get(root, name), key_data()))
}

fn read_section<'a>(root: &'a Json, name: &[u8]) -> (r: Option<(&'a Vec<String>, &'a Vec<Json>)>)
    ensures
        match r {
            Some((k, v)) => section(*root, name@) == Some((k@, v@)),
            None => section(*root, name@) is None,
        },
{
    let base = get_member(root, name);
    let data = get_member_in(base, &k_data());
    match data {
        Some(Json::Object(keys, values)) => Some((keys, values)),
        _ => None,
    }
}

// ---------------------------------------------------------------------------
// Characters
// ---------------------------------------------------------------------------

/// The unit a member of the character section fixes: none when the member is
/// marked removed, its key is not a unit identifier, or its evolution and
/// levels are not all numbers written as strings.
pub open spec fn chara_of(key: String, v: Json) -> Option<(u32, PresetChara)> {
    if as_bool(get(v, key_remove())) == Some(true) {
        None
    } else {
        match (spec_u32(utf8(key)), text_u8(get(v, key_evolution())), text_u16(get(v, key_level())), text_u16(get(v, key_plus()))) {
            (Some(id), Some(e), Some(l), Some(p)) => Some((id, PresetChara { evolution_form: evolution_form_of(e), level: l, plus_level: p })),
            _ => None,
        }
    }
}

/// The units the first `n` members of the character section fix, a later
/// member for a unit replacing an earlier one.
pub open spec fn charas_upto(keys: Seq<String>, values: Seq<Json>, n: int) -> Map<u32, PresetChara>
    decreases n,
{
    if n <= 0 {
        Map::empty()
    } else {
        let m = charas_upto(keys, values, n - 1);
        match chara_of(keys[n - 1], values[n - 1]) {
            Some((id, c)) => m.insert(id, c),
            None => m,
        }
    }
}

/// The units a document fixes.
pub open spec fn characters_of(root: Json) -> Map<u32, PresetChara> {
    match section(root, key_chara()) {
        Some((k, v)) => charas_upto(k, v, walked(k, v)),
        None => Map::empty(),
    }
}

fn read_chara(key: &String, v: &Json) -> (r: Option<(u32, PresetChara)>)
    ensures r == chara_of(*key, *v),
{
    match get_member(v, &k_remove()) {
        Some(Json::Bool(true)) => return None,
        _ => {},
    }
    let id = match to_u32(key.as_str().as_bytes()) { Some(x) => x, None => return None };
    let e = match read_text_u8(get_member(v, &k_evolution())) { Some(x) => x, None => return None };
    let l = match read_text_u16(get_member(v, &k_level())) { Some(x) => x, None => return None };
    let p = match read_text_u16(get_member(v, &k_plus())) { Some(x) => x, None => return None };
    Some((id, PresetChara { evolution_form: EvolutionForm::from(e), level: l, plus_level: p }))
}

fn extract_characters(root: &Json, lineup: &mut CertificationPreset)
    ensures
        final(lineup).characters@ == old(lineup).characters@.union_prefer_right(characters_of(*root)),
        final(lineup).slot_units@ == old(lineup).slot_units@,
        final(lineup).slot_cannon_type == old(lineup).slot_cannon_type,
        final(lineup).abilities@ == old(lineup).abilities@,
        final(lineup).cannon_levels@ == old(lineup).cannon_levels@,
        final(lineup).treasures@ == old(lineup).treasures@,
{
    let (keys, values) = match read_section(root, &k_chara()) {
        Some(s) => s,
        None => {
            assert(old(lineup).characters@.union_prefer_right(Map::<u32, PresetChara>::empty()) =~= old(lineup).characters@);
            return;
        },
    };
    let n: usize = if keys.len() <= values.len() { keys.len() } else { values.len() };
    let ghost start = lineup.characters@;
    let mut i: usize = 0;
    assert(start.union_prefer_right(charas_upto(keys@, values@, 0)) =~= start);
    while i < n
        invariant
            i <= n,
            n <= keys@.len(),
            n <= values@.len(),
            n == walked(keys@, values@),
            lineup.characters@ == start.union_prefer_right(charas_upto(keys@, values@, i as int)),
            lineup.slot_units@ == old(lineup).slot_units@,
            lineup.slot_cannon_type == old(lineup).slot_cannon_type,
            lineup.abilities@ == old(lineup).abilities@,
            lineup.cannon_levels@ == old(lineup).cannon_levels@,
            lineup.treasures@ == old(lineup).treasures@,
        decreases n - i,
    {
        match read_chara(&keys[i], &values[i]) {
            Some((id, c)) => {
                lineup.characters.insert(id, c);
                assert(lineup.characters@ =~= start.union_prefer_right(charas_upto(keys@, values@, i + 1)));
            },
            None => {},
        }
        i += 1;
    }
}

// ---------------------------------------------------------------------------
// Slot
// ---------------------------------------------------------------------------

/// The lineup entry a document declares.
pub open spec fn slot_of(root: Json) -> Option<Json> {
    get_in(get_in(get(root, key_slot()), key_data()), key_zero())
}

/// An identifier written as a number, truncated to a `u8`, or as a string.
pub open spec fn id_u8(v: Json) -> Option<u8> {
    match v {
        Json::Number { unsigned, signed } => match unsigned { Some(n) => Some(n as u8), None => None },
        Json::Text(s) => spec_u8(utf8(s)),
        _ => None,
    }
}

/// An identifier written as a number, truncated to a `u32`, or as a string.
pub open spec fn id_u32(v: Json) -> Option<u32> {
    match v {
        Json::Number { unsigned, signed } => match unsigned { Some(n) => Some(n as u32), None => None },
        Json::Text(s) => spec_u32(utf8(s)),
        _ => None,
    }
}

/// The cannon the lineup entry names, where it names one.
pub open spec fn slot_cannon_of(root: Json) -> Option<CannonType> {
    match get_in(slot_of(root), key_cannon()) {
        Some(c) => match id_u8(c) { Some(id) => Some(cannon_type_of(id)), None => None },
        None => None,
    }
}

/// The identifiers among a list of values, in order.
pub open spec fn ids_of(items: Seq<Json>) -> Seq<u32>
    decreases items.len(),
{
    if items.len() == 0 {
        Seq::empty()
    } else {
        match id_u32(items.last()) {
            Some(id) => ids_of(items.drop_last()).push(id),
            None => ids_of(items.drop_last()),
        }
    }
}

/// The units of the lineup entry.
pub open spec fn slot_units_of(root: Json) -> Seq<u32> {
    match as_items(get_in(slot_of(root), key_chara())) {
        Some(items) => ids_of(items),
        None => Seq::empty(),
    }
}

fn read_id_u8(v: &Json) -> (r: Option<u8>)
    ensures r == id_u8(*v),
{
    match v {
        Json::Number { unsigned, signed } => match unsigned { Some(n) => Some(*n as u8), None => None },
        Json::Text(s) => to_u8(s.as_str().as_bytes()),
        _ => None,
    }
}

fn read_id_u32(v: &Json) -> (r: Option<u32>)
    ensures r == id_u32(*v),
{
    match v {
        Json::Number { unsigned, signed } => match unsigned { Some(n) => Some(*n as u32), None => None },
        Json::Text(s) => to_u32(s.as_str().as_bytes()),
        _ => None,
    }
}

fn extract_slot(root: &Json, lineup: &mut CertificationPreset)
    ensures
        final(lineup).slot_cannon_type == match slot_cannon_of(*root) { Some(c) => c, None => old(lineup).slot_cannon_type },
        final(lineup).slot_units@ == old(lineup).slot_units@ + slot_units_of(*root),
        final(lineup).characters@ == old(lineup).characters@,
        final(lineup).abilities@ == old(lineup).abilities@,
        final(lineup).cannon_levels@ == old(lineup).cannon_levels@,
        final(lineup).treasures@ == old(lineup).treasures@,
{
    let base = get_member(root, &k_slot());
    let data = get_member_in(base, &k_data());
    let slot = get_member_in(data, &k_zero());
    assert(old(lineup).slot_units@ + Seq::<u32>::empty() =~= old(lineup).slot_units@);
    let slot = match slot { Some(s) => s, None => return };
    match get_member(slot, &k_cannon()) {
        Some(c) => match read_id_u8(c) {
            Some(id) => lineup.slot_cannon_type = CannonType::from(id),
            None => {},
        },
        None => {},
    }
    let items = match get_member(slot, &k_chara()) {
        Some(Json::Array(items)) => items,
        _ => return,
    };
    let ghost start = lineup.slot_units@;
    let mut i: usize = 0;
    assert(items@.take(0) =~= Seq::<Json>::empty());
    assert(start + ids_of(items@.take(0)) =~= start);
    while i < items.len()
        invariant
            i <= items@.len(),
            lineup.slot_units@ == start + ids_of(items@.take(i as int)),
            lineup.slot_cannon_type == match slot_cannon_of(*root) { Some(c) => c, None => old(lineup).slot_cannon_type },
            lineup.characters@ == old(lineup).characters@,
            lineup.abilities@ == old(lineup).abilities@,
            lineup.cannon_levels@ == old(lineup).cannon_levels@,
            lineup.treasures@ == old(lineup).treasures@,
        decreases items@.len() - i,
    {
        proof {
            assert(items@.take(i + 1).drop_last() =~= items@.take(i as int));
        }
        match read_id_u32(&items[i]) {
            Some(id) => {
                lineup.slot_units.push(id);
                assert(lineup.slot_units@ =~= start + ids_of(items@.take(i + 1)));
            },
            None => {},
        }
        i += 1;
    }
    assert(items@.take(i as int) =~= items@);
}

// ---------------------------------------------------------------------------
// Abilities, cannons and treasures
// ---------------------------------------------------------------------------

/// The upgrade a member of the ability section fixes: none when its key is
/// not a `u8`; a level that is not a number written as a string reads as zero.
pub open spec fn ability_of(key: String, v: Json) -> Option<(AbilityType, PresetAbility)> {
    match spec_u8(utf8(key)) {
        Some(id) => Some((ability_type_of(id), PresetAbility {
            level: match text_u16(get(v, key_level())) { Some(l) => l, None => 0 },
            plus_level: match text_u16(get(v, key_plus())) { Some(l) => l, None => 0 },
        })),
        None => None,
    }
}

/// The cannon level a member of the cannon section fixes.
pub open spec fn cannon_of(key: String, v: Json) -> Option<(CannonType, u16)> {
    match (spec_u8(utf8(key)), text_u16(get(v, key_level()))) {
        (Some(id), Some(l)) => Some((cannon_type_of(id), l)),
        _ => None,
    }
}

/// The count at position `k` of a treasure's count list.
pub open spec fn count_at(items: Seq<Json>, k: int) -> Option<u8> {
    if k < items.len() { text_u8(Some(items[k])) } else { None }
}

/// The treasures a member of the treasure section fixes: none unless its key
/// is a `u8` and its count list opens with three numbers written as strings.
pub open spec fn treasure_of(key: String, v: Json) -> Option<(TreasureType, PresetTreasure)> {
    match (spec_u8(utf8(key)), as_items(get(v, key_count()))) {
        (Some(id), Some(items)) => match (count_at(items, 0), count_at(items, 1), count_at(items, 2)) {
            (Some(a), Some(b), Some(c)) => Some((treasure_type_of(id), PresetTreasure { inferior_count: a, normal_count: b, superior_count: c })),
            _ => None,
        },
        _ => None,
    }
}

/// The entries the first `n` members of a section yield under `f`, in order.
pub open spec fn section_pairs<K, V>(keys: Seq<String>, values: Seq<Json>, n: int, f: spec_fn(String, Json) -> Option<(K, V)>) -> Seq<(K, V)>
    decreases n,
{
    if n <= 0 {
        Seq::empty()
    } else {
        match f(keys[n - 1], values[n - 1]) {
            Some(p) => section_pairs(keys, values, n - 1, f).push(p),
            None => section_pairs(keys, values, n - 1, f),
        }
    }
}

/// The entries a section of the document yields under `f`.
pub open spec fn section_table<K, V>(root: Json, name: Seq<u8>, f: spec_fn(String, Json) -> Option<(K, V)>) -> Map<K, V> {
    match section(root, name) {
        Some((k, v)) => pairs_map(section_pairs(k, v, walked(k, v), f)),
        None => Map::empty(),
    }
}

fn read_ability(key: &String, v: &Json) -> (r: Option<(AbilityType, PresetAbility)>)
    ensures r == ability_of(*key, *v),
{
    let id = match to_u8(key.as_str().as_bytes()) { Some(x) => x, None => return None };
    let level = match read_text_u16(get_member(v, &k_level())) { Some(l) => l, None => 0 };
    let plus_level = match read_text_u16(get_member(v, &k_plus())) { Some(l) => l, None => 0 };
    Some((AbilityType::from(id), PresetAbility { level, plus_level }))
}

fn read_cannon(key: &String, v: &Json) -> (r: Option<(CannonType, u16)>)
    ensures r == cannon_of(*key, *v),
{
    let id = match to_u8(key.as_str().as_bytes()) { Some(x) => x, None => return None };
    let level = match read_text_u16(get_member(v, &k_level())) { Some(l) => l, None => return None };
    Some((CannonType::from(id), level))
}

fn read_count(items: &Vec<Json>, k: usize) -> (r: Option<u8>)
    ensures r == count_at(items@, k as int),
{
    if k < items.len() { read_text_u8(Some(&items[k])) } else { None }
}

fn read_treasure(key: &String, v: &Json) -> (r: Option<(TreasureType, PresetTreasure)>)
    ensures r == treasure_of(*key, *v),
{
    let id = match to_u8(key.as_str().as_bytes()) { Some(x) => x, None => return None };
    let items = match get_member(v, &k_count()) {
        Some(Json::Array(items)) => items,
        _ => return None,
    };
    let a = match read_count(items, 0) { Some(x) => x, None => return None };
    let b = match read_count(items, 1) { Some(x) => x, None => return None };
    let c = match read_count(items, 2) { Some(x) => x, None => return None };
    Some((TreasureType::from(id), PresetTreasure { inferior_count: a, normal_count: b, superior_count: c }))
}

fn put_ability(table: &mut Vec<(AbilityType, PresetAbility)>, k: AbilityType, x: PresetAbility)
    ensures
        pairs_map(final(table)@) == pairs_map(old(table)@).insert(k, x),
{
    let mut out: Vec<(AbilityType, PresetAbility)> = Vec::new();
    let mut i: usize = 0;
    while i < table.len()
        invariant
            i <= table@.len(),
            out@ == without(table@.take(i as int), k),
        decreases table@.len() - i,
    {
        proof {
            assert(table@.take(i + 1).drop_last() =~= table@.take(i as int));
        }
        let p = table[i];
        if p.0 != k {
            out.push(p);
        }
        i += 1;
    }
    proof {
        assert(table@.take(i as int) =~= table@);
        lemma_without(table@, k);
    }
    let ghost w = out@;
    out.push((k, x));
    proof {
        assert(out@.drop_last() =~= w);
        assert(pairs_map(out@) == pairs_map(w).insert(k, x));
        assert(pairs_map(out@) =~= pairs_map(old(table)@).insert(k, x));
    }
    *table = out;
}

fn put_cannon(table: &mut Vec<(CannonType, u16)>, k: CannonType, x: u16)
    ensures
        pairs_map(final(table)@) == pairs_map(old(table)@).insert(k, x),
{
    let mut out: Vec<(CannonType, u16)> = Vec::new();
    let mut i: usize = 0;
    while i < table.len()
        invariant
            i <= table@.len(),
            out@ == without(table@.take(i as int), k),
        decreases table@.len() - i,
    {
        proof {
            assert(table@.take(i + 1).drop_last() =~= table@.take(i as int));
        }
        let p = table[i];
        if p.0 != k {
            out.push(p);
        }
        i += 1;
    }
    proof {
        assert(table@.take(i as int) =~= table@);
        lemma_without(table@, k);
    }
    let ghost w = out@;
    out.push((k, x));
    proof {
        assert(out@.drop_last() =~= w);
        assert(pairs_map(out@) == pairs_map(w).insert(k, x));
        assert(pairs_map(out@) =~= pairs_map(old(table)@).insert(k, x));
    }
    *table = out;
}

fn put_treasure(table: &mut Vec<(TreasureType, PresetTreasure)>, k: TreasureType, x: PresetTreasure)
    ensures
        pairs_map(final(table)@) == pairs_map(old(table)@).insert(k, x),
{
    let mut out: Vec<(TreasureType, PresetTreasure)> = Vec::new();
    let mut i: usize = 0;
    while i < table.len()
        invariant
            i <= table@.len(),
            out@ == without(table@.take(i as int), k),
        decreases table@.len() - i,
    {
        proof {
            assert(table@.take(i + 1).drop_last() =~= table@.take(i as int));
        }
        let p = table[i];
        if p.0 != k {
            out.push(p);
        }
        i += 1;
    }
    proof {
        assert(table@.take(i as int) =~= table@);
        lemma_without(table@, k);
    }
    let ghost w = out@;
    out.push((k, x));
    proof {
        assert(out@.drop_last() =~= w);
        assert(pairs_map(out@) == pairs_map(w).insert(k, x));
        assert(pairs_map(out@) =~= pairs_map(old(table)@).insert(k, x));
    }
    *table = out;
}

fn extract_abilities(root: &Json, lineup: &mut CertificationPreset)
    ensures
        pairs_map(final(lineup).abilities@) == pairs_map(old(lineup).abilities@).union_prefer_right(
            section_table(*root, key_ability(), |k: String, v: Json| ability_of(k, v))),
        final(lineup).characters@ == old(lineup).characters@,
        final(lineup).slot_units@ == old(lineup).slot_units@,
        final(lineup).slot_cannon_type == old(lineup).slot_cannon_type,
        final(lineup).cannon_levels@ == old(lineup).cannon_levels@,
        final(lineup).treasures@ == old(lineup).treasures@,
{
    let ghost f = |k: String, v: Json| ability_of(k, v);
    let (keys, values) = match read_section(root, &k_ability()) {
        Some(s) => s,
        None => {
            assert(pairs_map(old(lineup).abilities@).union_prefer_right(Map::empty()) =~= pairs_map(old(lineup).abilities@));
            return;
        },
    };
    let n: usize = if keys.len() <= values.len() { keys.len() } else { values.len() };
    let ghost start = lineup.abilities@;
    let mut i: usize = 0;
    assert(pairs_map(start).union_prefer_right(pairs_map(section_pairs(keys@, values@, 0, f))) =~= pairs_map(start));
    while i < n
        invariant
            i <= n,
            n <= keys@.len(),
            n <= values@.len(),
            n == walked(keys@, values@),
            f == (|k: String, v: Json| ability_of(k, v)),
            pairs_map(lineup.abilities@) == pairs_map(start).union_prefer_right(pairs_map(section_pairs(keys@, values@, i as int, f))),
            lineup.characters@ == old(lineup).characters@,
            lineup.slot_units@ == old(lineup).slot_units@,
            lineup.slot_cannon_type == old(lineup).slot_cannon_type,
            lineup.cannon_levels@ == old(lineup).cannon_levels@,
            lineup.treasures@ == old(lineup).treasures@,
        decreases n - i,
    {
        let entry = read_ability(&keys[i], &values[i]);
        proof {
            assert(f(keys@[i as int], values@[i as int]) == entry);
        }
        match entry {
            Some((k, x)) => {
                assert(section_pairs(keys@, values@, i + 1, f) == section_pairs(keys@, values@, i as int, f).push((k, x)));
                assert(section_pairs(keys@, values@, i + 1, f).drop_last() =~= section_pairs(keys@, values@, i as int, f));
                put_ability(&mut lineup.abilities, k, x);
                assert(pairs_map(lineup.abilities@) =~= pairs_map(start).union_prefer_right(pairs_map(section_pairs(keys@, values@, i + 1, f))));
            },
            None => {
                assert(section_pairs(keys@, values@, i + 1, f) == section_pairs(keys@, values@, i as int, f));
            },
        }
        i += 1;
    }
}

fn extract_cannons(root: &Json, lineup: &mut CertificationPreset)
    ensures
        pairs_map(final(lineup).cannon_levels@) == pairs_map(old(lineup).cannon_levels@).union_prefer_right(
            section_table(*root, key_cannon(), |k: String, v: Json| cannon_of(k, v))),
        final(lineup).characters@ == old(lineup).characters@,
        final(lineup).slot_units@ == old(lineup).slot_units@,
        final(lineup).slot_cannon_type == old(lineup).slot_cannon_type,
        final(lineup).abilities@ == old(lineup).abilities@,
        final(lineup).treasures@ == old(lineup).treasures@,
{
    let ghost f = |k: String, v: Json| cannon_of(k, v);
    let (keys, values) = match read_section(root, &k_cannon()) {
        Some(s) => s,
        None => {
            assert(pairs_map(old(lineup).cannon_levels@).union_prefer_right(Map::empty()) =~= pairs_map(old(lineup).cannon_levels@));
            return;
        },
    };
    let n: usize = if keys.len() <= values.len() { keys.len() } else { values.len() };
    let ghost start = lineup.cannon_levels@;
    let mut i: usize = 0;
    assert(pairs_map(start).union_prefer_right(pairs_map(section_pairs(keys@, values@, 0, f))) =~= pairs_map(start));
    while i < n
        invariant
            i <= n,
            n <= keys@.len(),
            n <= values@.len(),
            n == walked(keys@, values@),
            f == (|k: String, v: Json| cannon_of(k, v)),
            pairs_map(lineup.cannon_levels@) == pairs_map(start).union_prefer_right(pairs_map(section_pairs(keys@, values@, i as int, f))),
            lineup.characters@ == old(lineup).characters@,
            lineup.slot_units@ == old(lineup).slot_units@,
            lineup.slot_cannon_type == old(lineup).slot_cannon_type,
            lineup.abilities@ == old(lineup).abilities@,
            lineup.treasures@ == old(lineup).treasures@,
        decreases n - i,
    {
        let entry = read_cannon(&keys[i], &values[i]);
        proof {
            assert(f(keys@[i as int], values@[i as int]) == entry);
        }
        match entry {
            Some((k, x)) => {
                assert(section_pairs(keys@, values@, i + 1, f) == section_pairs(keys@, values@, i as int, f).push((k, x)));
                assert(section_pairs(keys@, values@, i + 1, f).drop_last() =~= section_pairs(keys@, values@, i as int, f));
                put_cannon(&mut lineup.cannon_levels, k, x);
                assert(pairs_map(lineup.cannon_levels@) =~= pairs_map(start).union_prefer_right(pairs_map(section_pairs(keys@, values@, i + 1, f))));
            },
            None => {
                assert(section_pairs(keys@, values@, i + 1, f) == section_pairs(keys@, values@, i as int, f));
            },
        }
        i += 1;
    }
}

fn extract_treasures(root: &Json, lineup: &mut CertificationPreset)
    ensures
        pairs_map(final(lineup).treasures@) == pairs_map(old(lineup).treasures@).union_prefer_right(
            section_table(*root, key_treasure(), |k: String, v: Json| treasure_of(k, v))),
        final(lineup).characters@ == old(lineup).characters@,
        final(lineup).slot_units@ == old(lineup).slot_units@,
        final(lineup).slot_cannon_type == old(lineup).slot_cannon_type,
        final(lineup).abilities@ == old(lineup).abilities@,
        final(lineup).cannon_levels@ == old(lineup).cannon_levels@,
{
    let ghost f = |k: String, v: Json| treasure_of(k, v);
    let (keys, values) = match read_section(root, &k_treasure()) {
        Some(s) => s,
        None => {
            assert(pairs_map(old(lineup).treasures@).union_prefer_right(Map::empty()) =~= pairs_map(old(lineup).treasures@));
            return;
        },
    };
    let n: usize = if keys.len() <= values.len() { keys.len() } else { values.len() };
    let ghost start = lineup.treasures@;
    let mut i: usize = 0;
    assert(pairs_map(start).union_prefer_right(pairs_map(section_pairs(keys@, values@, 0, f))) =~= pairs_map(start));
    while i < n
        invariant
            i <= n,
            n <= keys@.len(),
            n <= values@.len(),
            n == walked(keys@, values@),
            f == (|k: String, v: Json| treasure_of(k, v)),
            pairs_map(lineup.treasures@) == pairs_map(start).union_prefer_right(pairs_map(section_pairs(keys@, values@, i as int, f))),
            lineup.characters@ == old(lineup).characters@,
            lineup.slot_units@ == old(lineup).slot_units@,
            lineup.slot_cannon_type == old(lineup).slot_cannon_type,
            lineup.abilities@ == old(lineup).abilities@,
            lineup.cannon_levels@ == old(lineup).cannon_levels@,
        decreases n - i,
    {
        let entry = read_treasure(&keys[i], &values[i]);
        proof {
            assert(f(keys@[i as int], values@[i as int]) == entry);
        }
        match entry {
            Some((k, x)) => {
                assert(section_pairs(keys@, values@, i + 1, f) == section_pairs(keys@, values@, i as int, f).push((k, x)));
                assert(section_pairs(keys@, values@, i + 1, f).drop_last() =~= section_pairs(keys@, values@, i as int, f));
                put_treasure(&mut lineup.treasures, k, x);
                assert(pairs_map(lineup.treasures@) =~= pairs_map(start).union_prefer_right(pairs_map(section_pairs(keys@, values@, i + 1, f))));
            },
            None => {
                assert(section_pairs(keys@, values@, i + 1, f) == section_pairs(keys@, values@, i as int, f));
            },
        }
        i += 1;
    }
}

/// How each member of a preset's sections reads: a character member fixes
/// its unit, named by its key, at the evolution, level and plus level its
/// `evolution`, `level` and `plus` strings spell, unless it is marked
/// `remove`; an ability member its `level` and `plus` (zero where absent); a
/// cannon member its `level`; a treasure member the three counts its `count`
/// list opens with, inferior first. Codes name forms from one, and cannons,
/// abilities and treasure groups from zero, treasure code three being unused.
pub proof fn lemma_preset_members_read_their_keys(key: String, v: Json, code: u8)
    ensures
        chara_of(key, v) == (if as_bool(get(v, seq![114u8, 101u8, 109u8, 111u8, 118u8, 101u8])) == Some(true) {
            None
        } else {
            match (spec_u32(utf8(key)), text_u8(get(v, seq![101u8, 118u8, 111u8, 108u8, 117u8, 116u8, 105u8, 111u8, 110u8])), text_u16(get(v, seq![108u8, 101u8, 118u8, 101u8, 108u8])),
                text_u16(get(v, seq![112u8, 108u8, 117u8, 115u8]))) {
                (Some(id), Some(e), Some(l), Some(p)) => Some((id, PresetChara {
                    evolution_form: evolution_form_of(e),
                    level: l,
                    plus_level: p,
                })),
                _ => None,
            }
        }),
        ability_of(key, v) == match spec_u8(utf8(key)) {
            Some(id) => Some((ability_type_of(id), PresetAbility {
                level: match text_u16(get(v, seq![108u8, 101u8, 118u8, 101u8, 108u8])) { Some(l) => l, None => 0 },
                plus_level: match text_u16(get(v, seq![112u8, 108u8, 117u8, 115u8])) { Some(l) => l, None => 0 },
            })),
            None => None,
        },
        cannon_of(key, v) == match (spec_u8(utf8(key)), text_u16(get(v, seq![108u8, 101u8, 118u8, 101u8, 108u8]))) {
            (Some(id), Some(l)) => Some((cannon_type_of(id), l)),
            _ => None,
        },
        treasure_of(key, v) == match (spec_u8(utf8(key)), as_items(get(v, seq![99u8, 111u8, 117u8, 110u8, 116u8]))) {
            (Some(id), Some(items)) => match (count_at(items, 0), count_at(items, 1), count_at(items, 2)) {
                (Some(a), Some(n), Some(c)) => Some((treasure_type_of(id), PresetTreasure {
                    inferior_count: a,
                    normal_count: n,
                    superior_count: c,
                })),
                _ => None,
            },
            _ => None,
        },
        evolution_form_of(code) == (if code == 1 { EvolutionForm::Normal } else if code == 2 { EvolutionForm::Evolved }
            else if code == 3 { EvolutionForm::True } else if code == 4 { EvolutionForm::Ultra }
            else { EvolutionForm::Unknown(code) }),
        cannon_type_of(code) == (if code == 0 { CannonType::Basic } else if code == 1 { CannonType::SlowBeam }
            else if code == 2 { CannonType::IronWall } else if code == 3 { CannonType::Thunderbolt }
            else if code == 4 { CannonType::Waterblast } else if code == 5 { CannonType::HolyBlast }
            else if code == 6 { CannonType::Breakerblast } else if code == 7 { CannonType::Curseblast }
            else { CannonType::Unknown(code) }),
        ability_type_of(code) == (if code == 0 { AbilityType::CatCannonAttack } else if code == 1 { AbilityType::CatCannonRange }
            else if code == 2 { AbilityType::CatCannonCharge } else if code == 3 { AbilityType::WorkerCatRate }
            else if code == 4 { AbilityType::WorkerCatWallet } else if code == 5 { AbilityType::BaseDefense }
            else if code == 6 { AbilityType::Research } else if code == 7 { AbilityType::BountyUp }
            else if code == 8 { AbilityType::Study } else if code == 9 { AbilityType::CatEnergy }
            else { AbilityType::Unknown(code) }),
        treasure_type_of(code) == (if code == 0 { TreasureType::EoC1 } else if code == 1 { TreasureType::EoC2 }
            else if code == 2 { TreasureType::EoC3 } else if code == 4 { TreasureType::ItF1 }
            else if code == 5 { TreasureType::ItF2 } else if code == 6 { TreasureType::ItF3 }
            else if code == 7 { TreasureType::CotC1 } else if code == 8 { TreasureType::CotC2 }
            else if code == 9 { TreasureType::CotC3 } else { TreasureType::Unknown(code) }),
{
}

// ---------------------------------------------------------------------------
// The preset
// ---------------------------------------------------------------------------

/// The preset a document declares.
pub open spec fn preset_of(root: Json) -> PresetView {
    PresetView {
        characters: characters_of(root),
        slot_units: slot_units_of(root),
        slot_cannon_type: match slot_cannon_of(root) { Some(c) => c, None => CannonType::Basic },
        abilities: section_table(root, key_ability(), |k: String, v: Json| ability_of(k, v)),
        cannon_levels: section_table(root, key_cannon(), |k: String, v: Json| cannon_of(k, v)),
        treasures: section_table(root, key_treasure(), |k: String, v: Json| treasure_of(k, v)),
    }
}

impl CertificationPreset {
    /// Reads a preset out of a parsed document.
    ///
    /// Each section is read from its `data` object; a member that does not
    /// read as an entry of its section is passed over, and a section that is
    /// absent or not an object leaves its table empty.
    pub fn from_json(root: &Json) -> (r: Self)
        ensures
            r@ == preset_of(*root),
    {
        let mut lineup = CertificationPreset {
            characters: HashMap::new(),
            slot_units: Vec::new(),
            slot_cannon_type: CannonType::Basic,
            abilities: Vec::new(),
            cannon_levels: Vec::new(),
            treasures: Vec::new(),
        };
        extract_characters(root, &mut lineup);
        extract_slot(root, &mut lineup);
        extract_abilities(root, &mut lineup);
        extract_cannons(root, &mut lineup);
        extract_treasures(root, &mut lineup);
        proof {
            assert(Map::<u32, PresetChara>::empty().union_prefer_right(characters_of(*root)) =~= characters_of(*root));
            assert(Seq::<u32>::empty() + slot_units_of(*root) =~= slot_units_of(*root));
            assert(lineup@.abilities =~= preset_of(*root).abilities);
            assert(lineup@.cannon_levels =~= preset_of(*root).cannon_levels);
            assert(lineup@.treasures =~= preset_of(*root).treasures);
        }
        lineup
    }

    /// Parses a preset file: its bytes are sanitized and read as JSON.
    ///
    /// # Returns
    /// The preset, or `CertificationPresetError::InvalidJson` exactly when the
    /// text is not a JSON document.
    pub fn parse(bytes: &[u8]) -> (r: Result<Self, CertificationPresetError>)
        ensures
            match json_of(scrub_chars(lossy_decode(bytes@))) {
                Some(root) => r matches Ok(p) && p@ == preset_of(root),
                None => r == Err::<Self, CertificationPresetError>(CertificationPresetError::InvalidJson),
            },
    {
        let text = scrub(bytes);
        match parse_json(text.as_str()) {
            Some(root) => Ok(Self::from_json(&root)),
            None => Err(CertificationPresetError::InvalidJson),
        }
    }
}

} // verus!
