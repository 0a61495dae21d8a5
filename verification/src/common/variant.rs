//! Identification of the game's regional distributions.

use std::str::FromStr;

use vstd::prelude::*;

use crate::text::{lower_text, upper_text, to_lowercase, lemma_case_round_trip, lemma_lower_unchanged};
use vstd::utf8::is_ascii_chars;

verus! {

/// Identifies one of the four regional distributions of the game client.
///
/// Each region ships its own asset packs, localization tables, and encryption
/// parameters.
#[derive(PartialEq, Eq, Hash, Clone, Copy, Debug)]
pub enum Region {
    /// The Japanese distribution, treated by the engine as the default region.
    Ja,
    /// The global English distribution.
    En,
    /// The Taiwanese distribution.
    Tw,
    /// The Korean distribution.
    Ko,
}

/// Holds the static naming conventions associated with a single [`Region`].
///
/// The engine derives asset paths and package identifiers from short region
/// codes that do not always match one another, so each is exposed separately.
#[derive(Clone, Copy, Debug, PartialEq, Eq, Hash)]
pub struct RegionMetadata {
    /// The lowercase code used inside asset filenames and directory names.
    pub internal_code: &'static str,
    /// The suffix appended to package names, which is empty for the Japanese region.
    pub package_suffix: &'static str,
    /// The human-readable name of the distribution.
    pub full_name: &'static str,
}

/// Indicates that a string did not correspond to any known [`Region`].
#[derive(Debug, Clone, PartialEq, Eq)]
#[non_exhaustive]
pub struct ParseRegionError;

impl ParseRegionError {
    /// A human-readable description of the error.
    #[verifier::allow_in_spec]
    pub fn message(&self) -> &'static str
        returns
            "The provided string did not match any known region code.",
    {
        "The provided string did not match any known region code."
    }
}

/// The texts of a region's naming conventions.
pub open spec fn metadata_texts(region: Region) -> (Seq<char>, Seq<char>, Seq<char>) {
    match region {
        Region::Ja => (seq!['j', 'a'], Seq::empty(), seq!['J', 'a', 'p', 'a', 'n']),
        Region::En => (seq!['e', 'n'], seq!['e', 'n'], seq!['G', 'l', 'o', 'b', 'a', 'l']),
        Region::Tw => (seq!['t', 'w'], seq!['t', 'w'], seq!['T', 'a', 'i', 'w', 'a', 'n']),
        Region::Ko => (seq!['k', 'o'], seq!['k', 'r'], seq!['K', 'o', 'r', 'e', 'a']),
    }
}

/// The region a lowercased code names: `ja`, `jp` and the `battlecats`
/// package name for Japan, `en`, `tw`, and `ko` or the divergent `kr` for Korea.
pub open spec fn region_of_code(code: Seq<char>) -> Option<Region> {
    if code == seq!['j', 'a'] || code == seq!['j', 'p']
        || code == seq!['b', 'a', 't', 't', 'l', 'e', 'c', 'a', 't', 's'] {
        Some(Region::Ja)
    } else if code == seq!['e', 'n'] {
        Some(Region::En)
    } else if code == seq!['t', 'w'] {
        Some(Region::Tw)
    } else if code == seq!['k', 'o'] || code == seq!['k', 'r'] {
        Some(Region::Ko)
    } else {
        None
    }
}

/// Every region's own code resolves back to that region, written in lowercase
/// as the region gives it or in uppercase.
pub proof fn lemma_region_code_resolves(r: Region)
    ensures
        region_of_code(lower_text(metadata_texts(r).0)) == Some(r),
        region_of_code(lower_text(upper_text(metadata_texts(r).0))) == Some(r),
{
    let code = metadata_texts(r).0;
    assert(code.len() == 2);
    assert(is_ascii_chars(code));
    lemma_lower_unchanged(code);
    lemma_case_round_trip(code);
}

/// Whether a string is a literal.
pub fn is_code(s: &String, lit: &str) -> (r: bool)
    ensures
        r == (s@ == lit@),
{
    let t = lit.to_owned();
    *s == t
}

/// The region a code names, matched without regard to case.
pub fn region_from_code(input: &str) -> (r: Option<Region>)
    ensures
        r == region_of_code(lower_text(input@)),
{
    let code = to_lowercase(input);
    proof {
        reveal_strlit("ja");
        reveal_strlit("jp");
        reveal_strlit("battlecats");
        reveal_strlit("en");
        reveal_strlit("tw");
        reveal_strlit("ko");
        reveal_strlit("kr");
        assert("ja"@ =~= seq!['j', 'a']);
        assert("jp"@ =~= seq!['j', 'p']);
        assert("battlecats"@ =~= seq!['b', 'a', 't', 't', 'l', 'e', 'c', 'a', 't', 's']);
        assert("en"@ =~= seq!['e', 'n']);
        assert("tw"@ =~= seq!['t', 'w']);
        assert("ko"@ =~= seq!['k', 'o']);
        assert("kr"@ =~= seq!['k', 'r']);
    }
    if is_code(&code, "ja") || is_code(&code, "jp") || is_code(&code, "battlecats") {
        Some(Region::Ja)
    } else if is_code(&code, "en") {
        Some(Region::En)
    } else if is_code(&code, "tw") {
        Some(Region::Tw)
    } else if is_code(&code, "ko") || is_code(&code, "kr") {
        Some(Region::Ko)
    } else {
        None
    }
}

impl Region {
    /// Returns the static naming conventions associated with this region: the
    /// internal asset code, the package name suffix, and the human-readable
    /// distribution name.
    pub fn metadata(&self) -> (r: RegionMetadata)
        ensures
            (r.internal_code@, r.package_suffix@, r.full_name@) == metadata_texts(*self),
    {
        proof {
            reveal_strlit("ja");
            reveal_strlit("");
            reveal_strlit("Japan");
            reveal_strlit("en");
            reveal_strlit("Global");
            reveal_strlit("tw");
            reveal_strlit("Taiwan");
            reveal_strlit("ko");
            reveal_strlit("kr");
            reveal_strlit("Korea");
        }
        match self {
            Region::Ja => RegionMetadata { internal_code: "ja", package_suffix: "", full_name: "Japan" },
            Region::En => RegionMetadata { internal_code: "en", package_suffix: "en", full_name: "Global" },
            Region::Tw => RegionMetadata { internal_code: "tw", package_suffix: "tw", full_name: "Taiwan" },
            Region::Ko => RegionMetadata { internal_code: "ko", package_suffix: "kr", full_name: "Korea" },
        }
    }

    /// Resolves a region from one of its recognized codes, matched without
    /// regard to case.
    ///
    /// # Returns
    /// The region, or `ParseRegionError` exactly when the code names none.
    pub fn parse_code(input: &str) -> (r: Result<Self, ParseRegionError>)
        ensures
            match region_of_code(lower_text(input@)) {
                Some(region) => r == Ok::<Region, ParseRegionError>(region),
                None => r is Err,
            },
    {
        match region_from_code(input) {
            Some(region) => Ok(region),
            None => Err(ParseRegionError),
        }
    }
}

impl FromStr for Region {
    type Err = ParseRegionError;

    /// Resolves a region from one of its recognized codes, as [`Region::parse_code`] does.
    fn from_str(input: &str) -> (r: Result<Self, Self::Err>)
        ensures
            match region_of_code(lower_text(input@)) {
                Some(region) => r == Ok::<Region, ParseRegionError>(region),
                None => r is Err,
            },
    {
        Region::parse_code(input)
    }
}

} // verus!
