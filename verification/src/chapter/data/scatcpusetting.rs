//! The automatic play settings, with the delimiter detected from the content.

use vstd::prelude::*;

use crate::chapter::stage::scatcpusetting::{setting_of, ScatCpuSetting};
use crate::common::file::{resolve_spec, table_lines};
use crate::text::{first_content, scrubbed};

use crate::text::{strip_invalid, valid_part};

verus! {

/// Represents errors that can occur during the parsing of automatic play settings.
#[derive(Debug, Clone, PartialEq, Eq)]
pub enum SCatCpuSettingError {
    /// The supplied bytes yielded no line with content.
    EmptyFile,
}

impl SCatCpuSettingError {
    /// A human-readable description of the error.
    #[verifier::allow_in_spec]
    pub fn message(&self) -> &'static str
        returns
            (match self {
                SCatCpuSettingError::EmptyFile => "The provided byte slice contained no valid super cat CPU setting data.",
            }),
    {
        match self {
            SCatCpuSettingError::EmptyFile => "The provided byte slice contained no valid super cat CPU setting data.",
        }
    }
}

/// The global configuration of the automatic play feature.
#[derive(Default, Debug, Clone, Copy, PartialEq, Eq)]
pub struct SCatCpuSetting {
    /// A column whose effect on the engine is not established.
    pub unknown_1: u32,
    /// The number of accelerated automatic play runs permitted each day.
    pub super_cpu_daily_limit: u32,
    /// The quantity of the consumable spent per accelerated run.
    pub super_cpu_consume_amount: u32,
}

/// The setting a line declares, in this module's type.
pub open spec fn s_setting_of(line: Seq<u8>, d: u8) -> SCatCpuSetting {
    let s = setting_of(line, d);
    SCatCpuSetting {
        unknown_1: s.unknown_1,
        super_cpu_daily_limit: s.super_cpu_daily_limit,
        super_cpu_consume_amount: s.super_cpu_consume_amount,
    }
}

impl SCatCpuSetting {
    /// Parses the automatic play settings, read from the first line with
    /// content and detecting the delimiter.
    ///
    /// Every byte that is not part of a valid UTF-8 character is stripped first.
    pub fn parse(bytes: &[u8]) -> (r: Result<Self, SCatCpuSettingError>)
        ensures
            ({
                let lines = table_lines(valid_part(bytes@));
                let d = resolve_spec(None, scrubbed(valid_part(bytes@)));
                match first_content(lines) {
                    Some(line) => r == Ok::<SCatCpuSetting, SCatCpuSettingError>(s_setting_of(line, d)),
                    None => r == Err::<SCatCpuSetting, SCatCpuSettingError>(SCatCpuSettingError::EmptyFile),
                }
            }),
    {
        let valid = strip_invalid(bytes);
        let bytes: &[u8] = valid.as_slice();
        match ScatCpuSetting::parse(bytes, None) {
            Ok(s) => Ok(SCatCpuSetting {
                unknown_1: s.unknown_1,
                super_cpu_daily_limit: s.super_cpu_daily_limit,
                super_cpu_consume_amount: s.super_cpu_consume_amount,
            }),
            Err(_) => Err(SCatCpuSettingError::EmptyFile),
        }
    }
}

} // verus!
