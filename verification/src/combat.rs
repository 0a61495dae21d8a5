//! Shared combat statistics for both Cat and Enemy entities.
//!
//! Both factions describe their units with the same set of mechanical
//! properties, laid out differently in their respective source files. This
//! module holds the unified [`entity::Entity`] both are parsed into, and the
//! registry that recognizes which abilities an entity carries.

pub mod entity;
pub mod abilities;
pub mod talent;

pub use abilities::{
    get_ability, get_talent, registry, Ability, AttrUnit, AttrValue, Attribute, Identity, Stored, TalentValue,
};
pub use crate::common::columns::{Column, Scale};
pub use crate::common::file::Separator;
pub use entity::{Entity, EntityError, Faction};
pub use talent::TalentGroup;
