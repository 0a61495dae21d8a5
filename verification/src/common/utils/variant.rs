//! The regional distributions, as the earlier parsers name them.

use vstd::prelude::*;

use crate::common::variant::{metadata_texts, region_from_code, region_of_code, lemma_region_code_resolves};
use crate::common::variant as current;
use crate::text::{lower_text, upper_text};

verus! {

/// Identifies one of the four regional distributions of the game client.
#[derive(PartialEq, Eq, Hash, Clone, Copy, Debug)]
pub enum Region {
    /// The Japanese distribution.
    Ja,
    /// The global English distribution.
    En,
    /// The Taiwanese distribution.
    Tw,
    /// The Korean distribution.
    Ko,
}

/// The naming conventions of a region.
#[derive(Clone, Copy, Debug)]
pub struct RegionMetadata {
    /// The lowercase code used inside asset filenames and directory names.
    pub internal_code: &'static str,
    /// The suffix appended to package names, empty for the Japanese region.
    pub package_suffix: &'static str,
    /// The human-readable name of the distribution.
    pub full_name: &'static str,
}

/// The current region a region stands for.
pub open spec fn current_of(r: Region) -> current::Region {
    match r {
        Region::Ja => current::Region::Ja,
        Region::En => current::Region::En,
        Region::Tw => current::Region::Tw,
        Region::Ko => current::Region::Ko,
    }
}

/// Every region's own code resolves back to that region, written in lowercase
/// as the region gives it or in uppercase.
pub proof fn lemma_code_resolves(r: Region)
    ensures
        region_of_code(lower_text(metadata_texts(current_of(r)).0)) == Some(current_of(r)),
        region_of_code(lower_text(upper_text(metadata_texts(current_of(r)).0))) == Some(current_of(r)),
{
    lemma_region_code_resolves(current_of(r));
}

impl Region {
    /// Returns the naming conventions of this region.
    pub fn metadata(&self) -> (r: RegionMetadata)
        ensures
            (r.internal_code@, r.package_suffix@, r.full_name@) == metadata_texts(current_of(*self)),
    {
        let c = match self {
            Region::Ja => current::Region::Ja,
            Region::En => current::Region::En,
            Region::Tw => current::Region::Tw,
            Region::Ko => current::Region::Ko,
        };
        let m = c.metadata();
        RegionMetadata { internal_code: m.internal_code, package_suffix: m.package_suffix, full_name: m.full_name }
    }

    /// Resolves a region from one of its recognized codes, matched without
    /// regard to case.
    ///
    /// # Returns
    /// The region, or `None` exactly when the code names none.
    pub fn from_str(input: &str) -> (r: Option<Self>)
        ensures
            match r {
                Some(region) => region_of_code(lower_text(input@)) == Some(current_of(region)),
                None => region_of_code(lower_text(input@)) is None,
            },
    {
        match region_from_code(input) {
            Some(current::Region::Ja) => Some(Region::Ja),
            Some(current::Region::En) => Some(Region::En),
            Some(current::Region::Tw) => Some(Region::Tw),
            Some(current::Region::Ko) => Some(Region::Ko),
            None => None,
        }
    }
}

} // verus!
