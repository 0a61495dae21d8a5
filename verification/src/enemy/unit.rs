//! Enemy unit data: the aggregate [`Unit`], the tables it draws on, and the
//! parsers behind them.

pub mod t_unit;
pub mod enemyname;
pub mod enemypicturebook;

use vstd::prelude::*;

use crate::combat::entity::Entity;
use self::enemyname::EnemyName;
use self::enemypicturebook::{texts, EnemyPictureBook};

verus! {

/// Borrowed references to the shared tables required to aggregate any enemy.
///
/// An enemy has no files of its own beyond its animation data, so every value
/// in [`Unit`] comes from a whole-roster table indexed by identifier. All three
/// must describe the same game version and region.
#[derive(Debug, Clone, Copy)]
pub struct Tables<'a> {
    /// The parsed combat statistic rows, indexed by enemy identifier.
    pub combat: &'a [Entity],
    /// The parsed localized display names, indexed by enemy identifier.
    pub names: &'a [EnemyName],
    /// The parsed localized dictionary descriptions, indexed by enemy identifier.
    pub picture_book: &'a [EnemyPictureBook],
}

/// The fully-aggregated representation of an Enemy unit.
///
/// A single form, with no evolutions or progression curves. Build one with
/// [`Unit::assemble`] rather than populating the fields directly.
#[derive(Debug, Clone, Default, PartialEq, Eq)]
pub struct Unit {
    /// The base identifier of the enemy, corresponding to its directory and file prefixes.
    pub id: u32,
    /// The localized display name, or `None` for a placeholder or unnamed enemy.
    pub name: Option<String>,
    /// The lines of the enemy's dictionary description, or `None` if it has no entry.
    pub description: Option<Vec<String>>,
    /// The combat data, or `None` when the table has no row for the enemy.
    pub combat: Option<Entity>,
    /// The length of the primary attack animation, which the caller measures.
    pub attack_frames: Option<i32>,
}

/// The abstract value of a unit: its identifier, name, description lines,
/// combat row and attack length.
pub struct UnitView {
    pub id: u32,
    pub name: Option<Seq<char>>,
    pub description: Option<Seq<Seq<char>>>,
    pub combat: Option<Entity>,
    pub attack_frames: Option<i32>,
}

impl View for Unit {
    type V = UnitView;

    open spec fn view(&self) -> UnitView {
        UnitView {
            id: self.id,
            name: match self.name { Some(s) => Some(s@), None => None },
            description: match self.description { Some(v) => Some(texts(v@)), None => None },
            combat: self.combat,
            attack_frames: self.attack_frames,
        }
    }
}

/// The unit the tables hold for an identifier: each field taken from the
/// table's row at the identifier, and empty where the table stops short of it.
pub open spec fn assembled(id: u32, attack_frames: Option<i32>, combat: Seq<Entity>,
    names: Seq<EnemyName>, book: Seq<EnemyPictureBook>) -> UnitView {
    UnitView {
        id,
        name: if id < names.len() { names[id as int]@ } else { None },
        description: if id < book.len() { book[id as int]@ } else { None },
        combat: if id < combat.len() { Some(combat[id as int]) } else { None },
        attack_frames,
    }
}

impl Unit {
    /// Aggregates a single enemy from the shared roster tables.
    ///
    /// Each table is indexed by the enemy's identifier. An identifier past the
    /// end of a table leaves that field empty rather than failing.
    pub fn assemble(id: u32, attack_frames: Option<i32>, tables: &Tables<'_>) -> (r: Self)
        ensures
            r@ == assembled(id, attack_frames, tables.combat@, tables.names@, tables.picture_book@),
    {
        let index = id as usize;
        let name = if index < tables.names.len() {
            match &tables.names[index].name {
                Some(s) => Some(s.clone()),
                None => None,
            }
        } else {
            None
        };
        let description = if index < tables.picture_book.len() {
            match &tables.picture_book[index].description {
                Some(v) => {
                    let c = v.clone();
                    proof {
                        assert forall|i: int| 0 <= i < c@.len() implies c@[i]@ == v@[i]@ by {
                            assert(cloned::<String>(v@[i], c@[i]));
                        }
                        assert(texts(c@) =~= texts(v@));
                    }
                    Some(c)
                },
                None => None,
            }
        } else {
            None
        };
        let combat = if index < tables.combat.len() { Some(tables.combat[index]) } else { None };
        Unit { id, name, description, combat, attack_frames }
    }
}

} // verus!
