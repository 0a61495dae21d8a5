//! Decoding of the packed entry cost a stage charges.
//!
//! A stage's cost column holds plain energy in most chapters. The Catamin
//! chapter, and any map whose metadata header sets the item flag, pack a
//! currency identifier above the amount instead.

use vstd::prelude::*;

use crate::common::columns::{FromColumn, Scale};
use crate::text::{spec_i32, to_i32};

use crate::chapter::category::Category;

verus! {

/// The factor a currency identifier is packed above the amount with.
pub const CURRENCY_SCALE: u32 = 1000;

/// Selects how a stage charges its entry cost.
#[derive(Debug, Clone, Copy, PartialEq, Eq, Hash, Default)]
pub enum CostType {
    /// The stage charges the cost column as energy directly.
    #[default]
    Energy,
    /// The stage charges an item, whose identifier and quantity the column packs.
    Item,
    /// The stage charges Catamin, whose grade and quantity the column packs.
    Catamin,
}

/// The scheme a stage of a chapter charges under, given the one its map declares.
pub open spec fn cost_type_of(category: Category, declared: CostType) -> CostType {
    match category {
        Category::CataminStages => CostType::Catamin,
        _ => declared,
    }
}

impl CostType {
    /// Returns the scheme a stage actually charges under.
    ///
    /// A stage of the Catamin chapter charges Catamin whatever its map
    /// declares, since the engine hardcodes that and records it in no file.
    /// Every other chapter charges under the scheme its header declares.
    pub fn of(category: &Category, declared: Self) -> (r: Self)
        ensures
            r == cost_type_of(*category, declared),
    {
        match category {
            Category::CataminStages => CostType::Catamin,
            _ => declared,
        }
    }

    /// The scheme a header flag column declares: one for an item, anything
    /// else for energy.
    pub fn from_flag(flag: i32) -> (r: Self)
        ensures
            r == (if flag == 1 { CostType::Item } else { CostType::Energy }),
    {
        if flag == 1 { CostType::Item } else { CostType::Energy }
    }
}

impl FromColumn for CostType {
    /// A cost scheme column names the item scheme when it reads as one, and
    /// energy when it reads as any other integer.
    open spec fn column_spec(text: Seq<u8>) -> Option<CostType> {
        match spec_i32(text) {
            Some(flag) => Some(if flag == 1 { CostType::Item } else { CostType::Energy }),
            None => None,
        }
    }

    open spec fn scaled_spec(self, scale: Scale) -> CostType {
        self
    }

    fn from_column(text: &[u8]) -> (r: Option<CostType>) {
        match to_i32(text) {
            Some(flag) => Some(CostType::from_flag(flag)),
            None => None,
        }
    }

    fn scaled(self, scale: Scale) -> (r: CostType) {
        self
    }
}

/// The grade of Catamin a Catamin stage charges.
#[derive(Debug, Clone, Copy, PartialEq, Eq, Hash)]
pub enum CataminGrade {
    /// Catamin A, selected by a packed key of zero.
    A,
    /// Catamin B, selected by a packed key of one.
    B,
    /// Catamin C, selected by a packed key of two or above.
    C,
}

/// The grade a packed key names, saturating at C.
pub open spec fn grade_of_key(key: u32) -> CataminGrade {
    if key == 0 { CataminGrade::A } else if key == 1 { CataminGrade::B } else { CataminGrade::C }
}

/// The packed key that names a grade.
pub open spec fn key_of_grade(g: CataminGrade) -> u32 {
    match g {
        CataminGrade::A => 0,
        CataminGrade::B => 1,
        CataminGrade::C => 2,
    }
}

impl CataminGrade {
    /// Returns the grade a packed key names, saturating at C.
    pub fn from_key(key: u32) -> (r: Self)
        ensures
            r == grade_of_key(key),
    {
        match key {
            0 => CataminGrade::A,
            1 => CataminGrade::B,
            _ => CataminGrade::C,
        }
    }

    /// Returns the packed key that names this grade.
    pub fn key(self) -> (r: u32)
        ensures
            r == key_of_grade(self),
    {
        match self {
            CataminGrade::A => 0,
            CataminGrade::B => 1,
            CataminGrade::C => 2,
        }
    }
}

/// A grade survives a round trip through its key.
pub proof fn lemma_grade_key_round_trip(g: CataminGrade)
    ensures
        grade_of_key(key_of_grade(g)) == g,
{
}

/// A key's grade names a key no larger than two, and the same key below three.
pub proof fn lemma_key_grade_saturates(key: u32)
    ensures
        key_of_grade(grade_of_key(key)) == if key <= 2 { key } else { 2 },
{
}

/// A stage's entry cost, decoded into the currency it is charged in.
#[derive(Debug, Clone, Copy, PartialEq, Eq, Hash)]
pub struct ResolvedCost {
    /// The currency charged, or `None` when the cost is plain energy.
    pub id: Option<u32>,
    /// The amount of that currency charged.
    pub value: u32,
}

/// The cost a packed column decodes to under a scheme.
pub open spec fn resolve_spec(cost_type: CostType, energy: u32) -> ResolvedCost {
    match cost_type {
        CostType::Catamin => ResolvedCost {
            id: Some(key_of_grade(grade_of_key(energy / 1000))),
            value: energy % 1000,
        },
        CostType::Item => ResolvedCost { id: Some(energy / 1000), value: energy % 1000 },
        CostType::Energy => ResolvedCost { id: None, value: energy },
    }
}

/// Decodes a stage's cost column into the currency and amount it charges.
///
/// Under energy the column is the amount itself. The other two schemes pack a
/// currency identifier above the amount, and a Catamin key past two
/// saturates to grade C.
pub fn resolve_energy(cost_type: CostType, energy: u32) -> (r: ResolvedCost)
    ensures
        r == resolve_spec(cost_type, energy),
{
    let packed_id = energy / CURRENCY_SCALE;
    let quantity = energy % CURRENCY_SCALE;
    match cost_type {
        CostType::Catamin => ResolvedCost { id: Some(CataminGrade::from_key(packed_id).key()), value: quantity },
        CostType::Item => ResolvedCost { id: Some(packed_id), value: quantity },
        _ => ResolvedCost { id: None, value: energy },
    }
}

/// An item cost unpacks into an identifier and a quantity below one
/// thousand that pack back into the column.
pub proof fn lemma_item_cost_round_trip(energy: u32)
    ensures
        ({
            let r = resolve_spec(CostType::Item, energy);
            &&& r.id is Some
            &&& r.id.unwrap() * 1000 + r.value == energy
            &&& r.value < 1000
        }),
{
}

} // verus!
