//! Localized display names for maps, with the delimiter detected from the content.
use std::collections::HashMap;

use vstd::prelude::*;

use crate::chapter::map::map_name as current;
use crate::chapter::map::map_name::{map_names, texts};
use crate::common::file::{resolve_spec, table_lines};
use crate::text::{any_content, scrubbed};

use crate::text::{strip_invalid, valid_part};

verus! {

/// Represents errors that can occur during the parsing of localized map names.
#[derive(Debug, Clone, PartialEq, Eq)]
pub enum MapNameError {
    /// The supplied bytes yielded no line with content.
    EmptyFile,
}

impl MapNameError {
    /// A human-readable description of the error.
    #[verifier::allow_in_spec]
    pub fn message(&self) -> &'static str
        returns
            (match self {
                MapNameError::EmptyFile => "The provided byte slice contained no valid map name data.",
            }),
    {
        match self {
            MapNameError::EmptyFile => "The provided byte slice contained no valid map name data.",
        }
    }
}

/// The parsed contents of the localized map name table.
#[derive(Clone, Debug, Default, PartialEq, Eq)]
pub struct MapName {
    /// The display names, keyed by map identifier.
    pub names: HashMap<u32, String>,
}

impl MapName {
    /// Parses the localized map name table, detecting its delimiter.
    ///
    /// Every byte that is not part of a valid UTF-8 character is stripped first.
    ///
    /// # Returns
    /// The names, or `MapNameError::EmptyFile` exactly when no line carries content.
    pub fn parse(bytes: &[u8]) -> (r: Result<Self, MapNameError>)
        ensures
            ({
                let lines = table_lines(valid_part(bytes@));
                let d = resolve_spec(None, scrubbed(valid_part(bytes@)));
                match r {
                    Ok(v) => any_content(lines) && texts(v.names@) == map_names(lines, d),
                    Err(e) => !any_content(lines) && e == MapNameError::EmptyFile,
                }
            }),
    {
        let valid = strip_invalid(bytes);
        let bytes: &[u8] = valid.as_slice();
        match current::MapName::parse(bytes, None) {
            Ok(v) => Ok(MapName { names: v.names }),
            Err(_) => Err(MapNameError::EmptyFile),
        }
    }
}

} // verus!
