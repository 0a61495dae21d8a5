//! The stage lineup restrictions, with each map identifier redirected to the
//! map it stands for.
use std::collections::HashMap;

use vstd::prelude::*;

use crate::chapter::map::redirect::redirect_spec;
use crate::chapter::stage::stage_option::{collect_restrictions, restrictions, restrictions_view};
use crate::common::file::{resolve_spec, table_lines};
use crate::text::{any_content, drop_n, scrubbed};

pub use crate::chapter::stage::stage_option::StageOptionEntry;

use crate::text::{strip_invalid, valid_part};

verus! {

/// Represents errors that can occur during the parsing of stage options.
#[derive(Debug, Clone, PartialEq, Eq)]
pub enum StageOptionError {
    /// The supplied bytes yielded no line with content past the header.
    EmptyFile,
}

impl StageOptionError {
    /// A human-readable description of the error.
    #[verifier::allow_in_spec]
    pub fn message(&self) -> &'static str
        returns
            (match self {
                StageOptionError::EmptyFile => "The provided byte slice contained no valid stage option data.",
            }),
    {
        match self {
            StageOptionError::EmptyFile => "The provided byte slice contained no valid stage option data.",
        }
    }
}

/// The parsed contents of the stage lineup restriction table.
#[derive(Clone, Debug, Default, PartialEq, Eq)]
pub struct StageOption {
    /// The restrictions applying to each map, keyed by redirected map identifier.
    pub entries: HashMap<u32, Vec<StageOptionEntry>>,
}

impl StageOption {
    /// Parses the stage lineup restriction table, redirecting each map
    /// identifier to the map it stands for.
    ///
    /// Every byte that is not part of a valid UTF-8 character is stripped first.
    ///
    /// # Returns
    /// The restrictions, or `StageOptionError::EmptyFile` exactly when no line
    /// past the header has content.
    pub fn parse(bytes: &[u8]) -> (r: Result<Self, StageOptionError>)
        ensures
            ({
                let rows = drop_n(table_lines(valid_part(bytes@)), 1);
                let d = resolve_spec(None, scrubbed(valid_part(bytes@)));
                match r {
                    Ok(v) => any_content(rows)
                        && restrictions_view(v.entries@) == restrictions(rows, d, |id: u32| redirect_spec(id)),
                    Err(e) => !any_content(rows) && e == StageOptionError::EmptyFile,
                }
            }),
    {
        let valid = strip_invalid(bytes);
        let bytes: &[u8] = valid.as_slice();
        match collect_restrictions(bytes, true) {
            Some(entries) => Ok(StageOption { entries }),
            None => Err(StageOptionError::EmptyFile),
        }
    }
}

} // verus!
