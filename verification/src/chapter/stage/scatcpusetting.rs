//! Global configuration of the automatic play feature.

use vstd::prelude::*;

use crate::common::columns::{column_value, lemma_u32_column, Column, FromColumn, Scale};
use crate::common::file::{open_table, resolve_spec, table_lines, Separator};
use crate::text::{
    any_content, cells_of, first_content, get_u32_or, has_content, lemma_any_content_skip_first,
    line_cells, scrubbed, u32_or, views,
};

verus! {

/// Represents errors that can occur during the parsing of automatic play settings.
#[derive(Debug, Clone, PartialEq, Eq)]
pub enum ScatCpuSettingError {
    /// The supplied bytes yielded no parseable rows.
    EmptyFile,
}

impl ScatCpuSettingError {
    /// A human-readable description of the error.
    #[verifier::allow_in_spec]
    pub fn message(&self) -> &'static str
        returns
            (match self {
                ScatCpuSettingError::EmptyFile => "The provided byte slice contained no valid Super Cat CPU setting data.",
            }),
    {
        match self {
            ScatCpuSettingError::EmptyFile => "The provided byte slice contained no valid Super Cat CPU setting data.",
        }
    }
}

/// The global configuration of the automatic play feature.
#[derive(Default, Debug, Clone, Copy, PartialEq, Eq)]
pub struct ScatCpuSetting {
    /// A column present in the raw data whose effect on the engine is not established.
    pub unknown_1: u32,
    /// The number of accelerated automatic play runs permitted each day.
    pub super_cpu_daily_limit: u32,
    /// The quantity of the consumable spent per accelerated run.
    pub super_cpu_consume_amount: u32,
}

/// The setting a line's cells declare: its first three columns, each zero
/// where it does not read as a `u32`.
pub open spec fn setting_of(line: Seq<u8>, d: u8) -> ScatCpuSetting {
    setting_from_cells(cells_of(line, d))
}

/// The setting a line's cells read as: three `u32` columns, zero where a
/// column is missing or does not read as one.
pub open spec fn setting_from_cells(cells: Seq<Seq<u8>>) -> ScatCpuSetting {
    ScatCpuSetting {
        unknown_1: u32_or(cells, 0, 0),
        super_cpu_daily_limit: u32_or(cells, 1, 0),
        super_cpu_consume_amount: u32_or(cells, 2, 0),
    }
}

/// The automatic play settings read their first three columns in order: an
/// unnamed value, the daily limit and the amount each run consumes, each zero
/// where its column is missing or names no `u32`.
pub proof fn lemma_setting_reads_its_columns(cells: Seq<Seq<u8>>)
    ensures
        setting_from_cells(cells).unknown_1 == crate::text::read_u32_at(cells, 0, 0u32),
        setting_from_cells(cells).super_cpu_daily_limit == crate::text::read_u32_at(cells, 1, 0u32),
        setting_from_cells(cells).super_cpu_consume_amount == crate::text::read_u32_at(cells, 2, 0u32),
{
}

impl ScatCpuSetting {
    /// Parses the automatic play settings file into its global configuration,
    /// read from the first line with content.
    pub fn parse(bytes: &[u8], separator: Option<Separator>) -> (r: Result<Self, ScatCpuSettingError>)
        ensures
            ({
                let lines = table_lines(bytes@);
                let d = resolve_spec(separator, scrubbed(bytes@));
                match first_content(lines) {
                    Some(line) => r == Ok::<ScatCpuSetting, ScatCpuSettingError>(setting_of(line, d)),
                    None => r == Err::<ScatCpuSetting, ScatCpuSettingError>(ScatCpuSettingError::EmptyFile),
                }
            }),
    {
        parse_inner(bytes, separator)
    }
}

fn parse_inner(bytes: &[u8], separator: Option<Separator>) -> (r: Result<ScatCpuSetting, ScatCpuSettingError>)
    ensures
        ({
            let lines = table_lines(bytes@);
            let d = resolve_spec(separator, scrubbed(bytes@));
            match first_content(lines) {
                Some(line) => r == Ok::<ScatCpuSetting, ScatCpuSettingError>(setting_of(line, d)),
                None => r == Err::<ScatCpuSetting, ScatCpuSettingError>(ScatCpuSettingError::EmptyFile),
            }
        }),
{
    let (lines, d) = open_table(bytes, separator);
    let ghost ls = views(lines@);
    let mut i: usize = 0;
    assert(ls.skip(0) =~= ls);
    while i < lines.len()
        invariant
            i <= lines@.len(),
            ls == views(lines@),
            ls == table_lines(bytes@),
            d == resolve_spec(separator, scrubbed(bytes@)),
            first_content(ls.skip(i as int)) == first_content(ls),
        decreases lines@.len() - i,
    {
        let line = lines[i].as_slice();
        assert(ls.skip(i as int)[0] == line@);
        if has_content(line) {
            let cells = line_cells(line, d);
            let setting = ScatCpuSetting {
                unknown_1: get_u32_or(&cells, 0, 0),
                super_cpu_daily_limit: get_u32_or(&cells, 1, 0),
                super_cpu_consume_amount: get_u32_or(&cells, 2, 0),
            };
            assert(first_content(ls.skip(i as int)) == Some(line@));
            assert(setting == setting_of(line@, d));

            return Ok(setting);
        }
        assert(ls.skip(i as int).skip(1) =~= ls.skip(i + 1));
        i += 1;
    }
    assert(ls.skip(i as int) =~= Seq::<Seq<u8>>::empty());
    Err(ScatCpuSettingError::EmptyFile)
}


/// The column mapping the ScatCpuSetting rows are read with, in the order it is applied.
pub open spec fn setting_layout() -> Seq<Column> {
    seq![
        Column { field: "unknown_1", index: 0, scale: Scale::Raw, default: "0" },
        Column { field: "super_cpu_daily_limit", index: 1, scale: Scale::Raw, default: "0" },
        Column { field: "super_cpu_consume_amount", index: 2, scale: Scale::Raw, default: "0" },
    ]
}

impl ScatCpuSetting {
    /// The column mapping this parser applies, in the order it applies it.
    ///
    /// Published so a consumer can read the layout of a row from the parser's
    /// own table instead of restating it.
    pub fn columns() -> (r: Vec<Column>)
        ensures
            r@ == setting_layout(),
    {
        let r = vec![
            Column { field: "unknown_1", index: 0, scale: Scale::Raw, default: "0" },
            Column { field: "super_cpu_daily_limit", index: 1, scale: Scale::Raw, default: "0" },
            Column { field: "super_cpu_consume_amount", index: 2, scale: Scale::Raw, default: "0" },
        ];
        assert(r@ =~= setting_layout());
        r
    }
}

/// Every column of the settings layout reaches the field it names: in the setting a line's cells read as, the field each column names holds the value that column reads.
pub proof fn lemma_columns_reach_their_fields(cells: Seq<Seq<u8>>)
    ensures
        setting_layout()[0].field == "unknown_1" && Some(setting_from_cells(cells).unknown_1) == column_value::<u32>(setting_layout()[0], cells),
        setting_layout()[1].field == "super_cpu_daily_limit" && Some(setting_from_cells(cells).super_cpu_daily_limit) == column_value::<u32>(setting_layout()[1], cells),
        setting_layout()[2].field == "super_cpu_consume_amount" && Some(setting_from_cells(cells).super_cpu_consume_amount) == column_value::<u32>(setting_layout()[2], cells),
{
    let layout = setting_layout();
    lemma_u32_column(cells, layout[0]);
    lemma_u32_column(cells, layout[1]);
    lemma_u32_column(cells, layout[2]);
}

} // verus!
