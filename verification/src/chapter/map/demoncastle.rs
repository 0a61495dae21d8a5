//! The Aku Realms altar tables, `DemonCastlelimit.csv` and `DemonCastledefine.csv`.

use vstd::prelude::*;

use crate::common::columns::{column_value, lemma_i32_column, Column, Scale};
use crate::common::file::{open_table, resolve_spec, table_lines, Separator};
use crate::text::{
    any_nonempty, content_of, div_trunc, drop_n, rem_trunc, get_i32_or, has_content, has_nonempty, i32_or, line_raw_cells,
    nonempty_ints, raw_cells, scrubbed, trailing_ints, views,
};

verus! {

/// The number of stage indices each map takes in a stage key.
pub const STAGES_PER_MAP: i32 = 100;

/// Represents errors that can occur while parsing an altar table.
#[derive(Debug, Clone, PartialEq, Eq)]
pub enum DemonCastleError {
    /// The supplied bytes yielded no parseable rows.
    EmptyFile,
}

impl DemonCastleError {
    /// A human-readable description of the error.
    #[verifier::allow_in_spec]
    pub fn message(&self) -> &'static str
        returns
            (match self {
                DemonCastleError::EmptyFile => "The provided byte slice contained no valid altar data.",
            }),
    {
        match self {
            DemonCastleError::EmptyFile => "The provided byte slice contained no valid altar data.",
        }
    }
}

/// One stage whose clear raises or lifts an altar's level cap.
#[derive(Debug, Clone, PartialEq, Eq)]
pub struct DemonCastleLimit {
    /// The stage the row belongs to, written as the global map identifier times one hundred plus the stage index.
    pub stage_key: i32,
    /// The amount a clear of the stage adds to the altar's level cap.
    pub amount: i32,
    /// Whether a clear of the stage unseals the altar, lifting its cap altogether.
    pub unseal: i32,
    /// The enemy identifier of the altar castle the row applies to.
    pub enemy_id: i32,
    /// Any trailing columns beyond the known layout, held as `None` where a column does not read as an integer.
    pub rest: Vec<Option<i32>>,
}

impl View for DemonCastleLimit {
    type V = (i32, i32, i32, i32, Seq<Option<i32>>);

    open spec fn view(&self) -> Self::V {
        (self.stage_key, self.amount, self.unseal, self.enemy_id, self.rest@)
    }
}

/// One altar castle and the castle it becomes once unsealed.
#[derive(Debug, Clone, PartialEq, Eq)]
pub struct DemonCastleDefine {
    /// The enemy identifier of the altar castle.
    pub enemy_id: i32,
    /// The enemy identifier of the castle that replaces the altar once it is unsealed.
    pub spent_enemy_id: i32,
    /// Any trailing columns beyond the known layout, held as `None` where a column does not read as an integer.
    pub rest: Vec<Option<i32>>,
}

impl View for DemonCastleDefine {
    type V = (i32, i32, Seq<Option<i32>>);

    open spec fn view(&self) -> Self::V {
        (self.enemy_id, self.spent_enemy_id, self.rest@)
    }
}

impl Default for DemonCastleLimit {
    fn default() -> (r: Self)
        ensures
            r@ == (-1i32, -1i32, -1i32, -1i32, Seq::<Option<i32>>::empty()),
    {
        DemonCastleLimit { stage_key: -1, amount: -1, unseal: -1, enemy_id: -1, rest: Vec::new() }
    }
}

impl Default for DemonCastleDefine {
    fn default() -> (r: Self)
        ensures
            r@ == (-1i32, -1i32, Seq::<Option<i32>>::empty()),
    {
        DemonCastleDefine { enemy_id: -1, spent_enemy_id: -1, rest: Vec::new() }
    }
}

/// The cells of the rows an altar table holds: every line with content whose
/// cells are not all blank, in file order.
pub open spec fn altar_rows(lines: Seq<Seq<u8>>, d: u8) -> Seq<Seq<Seq<u8>>>
    decreases lines.len(),
{
    if lines.len() == 0 {
        Seq::empty()
    } else {
        let rows = altar_rows(lines.drop_last(), d);
        let cells = raw_cells(lines.last(), d);
        if content_of(lines.last()).len() > 0 && any_nonempty(cells) {
            rows.push(cells)
        } else {
            rows
        }
    }
}

/// The limit row a row's cells read as: four integer columns falling back to
/// negative one, then the non-empty trailing cells.
pub open spec fn limit_of(cells: Seq<Seq<u8>>) -> (i32, i32, i32, i32, Seq<Option<i32>>) {
    (i32_or(cells, 0, -1i32), i32_or(cells, 1, -1i32), i32_or(cells, 2, -1i32), i32_or(cells, 3, -1i32), nonempty_ints(drop_n(cells, 4)))
}

/// The define row a row's cells read as: two integer columns falling back to
/// negative one, then the non-empty trailing cells.
pub open spec fn define_of(cells: Seq<Seq<u8>>) -> (i32, i32, Seq<Option<i32>>) {
    (i32_or(cells, 0, -1i32), i32_or(cells, 1, -1i32), nonempty_ints(drop_n(cells, 2)))
}

impl DemonCastleLimit {
    /// The global map identifier encoded in the stage key.
    pub fn map_id(&self) -> (r: i32)
        ensures
            r == div_trunc(self.stage_key as int, 100),
    {
        self.stage_key / STAGES_PER_MAP
    }

    /// The stage index encoded in the stage key.
    pub fn stage(&self) -> (r: i32)
        ensures
            r == rem_trunc(self.stage_key as int, 100),
    {
        self.stage_key % STAGES_PER_MAP
    }

    /// Parses the altar cap table into one row per stage, in file order.
    ///
    /// # Returns
    /// The rows on success, or `DemonCastleError::EmptyFile` exactly when the
    /// file holds no row.
    pub fn parse(bytes: &[u8], separator: Option<Separator>) -> (r: Result<Vec<Self>, DemonCastleError>)
        ensures
            ({
                let rows = altar_rows(table_lines(bytes@), resolve_spec(separator, scrubbed(bytes@)));
                match r {
                    Ok(v) => rows.len() > 0 && v@.len() == rows.len()
                        && forall|i: int| 0 <= i < rows.len() ==> #[trigger] v@[i]@ == limit_of(rows[i]),
                    Err(_) => rows.len() == 0,
                }
            }),
    {
        parse_limit(bytes, separator)
    }
}

/// A non-negative stage key is its map identifier times one hundred plus its
/// stage index, and the index is below one hundred.
pub proof fn lemma_stage_key_decomposes(key: i32)
    requires
        key >= 0,
    ensures
        div_trunc(key as int, 100) * 100 + rem_trunc(key as int, 100) == key,
        0 <= rem_trunc(key as int, 100) < 100,
        div_trunc(key as int, 100) >= 0,
{
}

impl DemonCastleDefine {
    /// Parses the altar castle table into one row per altar, in file order.
    ///
    /// # Returns
    /// The rows on success, or `DemonCastleError::EmptyFile` exactly when the
    /// file holds no row.
    pub fn parse(bytes: &[u8], separator: Option<Separator>) -> (r: Result<Vec<Self>, DemonCastleError>)
        ensures
            ({
                let rows = altar_rows(table_lines(bytes@), resolve_spec(separator, scrubbed(bytes@)));
                match r {
                    Ok(v) => rows.len() > 0 && v@.len() == rows.len()
                        && forall|i: int| 0 <= i < rows.len() ==> #[trigger] v@[i]@ == define_of(rows[i]),
                    Err(_) => rows.len() == 0,
                }
            }),
    {
        parse_define(bytes, separator)
    }
}

/// The cells of every row of an altar table.
fn cells(bytes: &[u8], separator: Option<Separator>) -> (rows: Vec<Vec<Vec<u8>>>)
    ensures
        rows@.len() == altar_rows(table_lines(bytes@), resolve_spec(separator, scrubbed(bytes@))).len(),
        forall|i: int| 0 <= i < rows@.len() ==> #[trigger] views(rows@[i]@)
            == altar_rows(table_lines(bytes@), resolve_spec(separator, scrubbed(bytes@)))[i],
{
    let (lines, d) = open_table(bytes, separator);
    let ghost ls = views(lines@);
    let mut rows: Vec<Vec<Vec<u8>>> = Vec::new();
    let mut i: usize = 0;
    while i < lines.len()
        invariant
            i <= lines@.len(),
            ls == views(lines@),
            rows@.len() == altar_rows(ls.take(i as int), d).len(),
            forall|k: int| 0 <= k < rows@.len() ==> #[trigger] views(rows@[k]@) == altar_rows(ls.take(i as int), d)[k],
        decreases lines@.len() - i,
    {
        let line = lines[i].as_slice();
        proof {
            assert(ls.take(i + 1).drop_last() =~= ls.take(i as int));
            assert(ls.take(i + 1).last() == line@);
        }
        let row = line_raw_cells(line, d);
        if has_content(line) && has_nonempty(&row) {
            rows.push(row);
        }
        i += 1;
    }
    proof {
        assert(ls.take(i as int) =~= ls);
    }
    rows
}

fn parse_limit(bytes: &[u8], separator: Option<Separator>) -> (r: Result<Vec<DemonCastleLimit>, DemonCastleError>)
    ensures
        ({
            let rows = altar_rows(table_lines(bytes@), resolve_spec(separator, scrubbed(bytes@)));
            match r {
                Ok(v) => rows.len() > 0 && v@.len() == rows.len()
                    && forall|i: int| 0 <= i < rows.len() ==> #[trigger] v@[i]@ == limit_of(rows[i]),
                Err(_) => rows.len() == 0,
            }
        }),
{
    let rows = cells(bytes, separator);
    let ghost spec_rows = altar_rows(table_lines(bytes@), resolve_spec(separator, scrubbed(bytes@)));
    let mut out: Vec<DemonCastleLimit> = Vec::new();
    let mut i: usize = 0;
    while i < rows.len()
        invariant
            i <= rows@.len(),
            rows@.len() == spec_rows.len(),
            forall|k: int| 0 <= k < rows@.len() ==> #[trigger] views(rows@[k]@) == spec_rows[k],
            out@.len() == i,
            forall|k: int| 0 <= k < i ==> #[trigger] out@[k]@ == limit_of(spec_rows[k]),
        decreases rows@.len() - i,
    {
        let parts = &rows[i];
        assert(views(parts@) == spec_rows[i as int]);
        let row = DemonCastleLimit {
            stage_key: get_i32_or(parts, 0, -1),
            amount: get_i32_or(parts, 1, -1),
            unseal: get_i32_or(parts, 2, -1),
            enemy_id: get_i32_or(parts, 3, -1),
            rest: trailing_ints(parts, 4),
        };
        out.push(row);
        i += 1;
    }
    if out.len() == 0 {
        return Err(DemonCastleError::EmptyFile);
    }
    Ok(out)
}

fn parse_define(bytes: &[u8], separator: Option<Separator>) -> (r: Result<Vec<DemonCastleDefine>, DemonCastleError>)
    ensures
        ({
            let rows = altar_rows(table_lines(bytes@), resolve_spec(separator, scrubbed(bytes@)));
            match r {
                Ok(v) => rows.len() > 0 && v@.len() == rows.len()
                    && forall|i: int| 0 <= i < rows.len() ==> #[trigger] v@[i]@ == define_of(rows[i]),
                Err(_) => rows.len() == 0,
            }
        }),
{
    let rows = cells(bytes, separator);
    let ghost spec_rows = altar_rows(table_lines(bytes@), resolve_spec(separator, scrubbed(bytes@)));
    let mut out: Vec<DemonCastleDefine> = Vec::new();
    let mut i: usize = 0;
    while i < rows.len()
        invariant
            i <= rows@.len(),
            rows@.len() == spec_rows.len(),
            forall|k: int| 0 <= k < rows@.len() ==> #[trigger] views(rows@[k]@) == spec_rows[k],
            out@.len() == i,
            forall|k: int| 0 <= k < i ==> #[trigger] out@[k]@ == define_of(spec_rows[k]),
        decreases rows@.len() - i,
    {
        let parts = &rows[i];
        assert(views(parts@) == spec_rows[i as int]);
        let row = DemonCastleDefine {
            enemy_id: get_i32_or(parts, 0, -1),
            spent_enemy_id: get_i32_or(parts, 1, -1),
            rest: trailing_ints(parts, 2),
        };
        out.push(row);
        i += 1;
    }
    if out.len() == 0 {
        return Err(DemonCastleError::EmptyFile);
    }
    Ok(out)
}


/// The column mapping the DemonCastleLimit rows are read with, in the order it is applied.
pub open spec fn limit_layout() -> Seq<Column> {
    seq![
        Column { field: "stage_key", index: 0, scale: Scale::Raw, default: "-1" },
        Column { field: "amount", index: 1, scale: Scale::Raw, default: "-1" },
        Column { field: "unseal", index: 2, scale: Scale::Raw, default: "-1" },
        Column { field: "enemy_id", index: 3, scale: Scale::Raw, default: "-1" },
    ]
}

impl DemonCastleLimit {
    /// The column mapping this parser applies, in the order it applies it.
    ///
    /// Published so a consumer can read the layout of a row from the parser's
    /// own table instead of restating it.
    pub fn columns() -> (r: Vec<Column>)
        ensures
            r@ == limit_layout(),
    {
        let r = vec![
            Column { field: "stage_key", index: 0, scale: Scale::Raw, default: "-1" },
            Column { field: "amount", index: 1, scale: Scale::Raw, default: "-1" },
            Column { field: "unseal", index: 2, scale: Scale::Raw, default: "-1" },
            Column { field: "enemy_id", index: 3, scale: Scale::Raw, default: "-1" },
        ];
        assert(r@ =~= limit_layout());
        r
    }
}

/// Every column of the cap layout reaches the field it names: in the row a line reads as, the field each column names holds the value that column reads.
pub proof fn lemma_limit_columns_reach_their_fields(cells: Seq<Seq<u8>>)
    ensures
        limit_layout()[0].field == "stage_key" && Some(limit_of(cells).0) == column_value::<i32>(limit_layout()[0], cells),
        limit_layout()[1].field == "amount" && Some(limit_of(cells).1) == column_value::<i32>(limit_layout()[1], cells),
        limit_layout()[2].field == "unseal" && Some(limit_of(cells).2) == column_value::<i32>(limit_layout()[2], cells),
        limit_layout()[3].field == "enemy_id" && Some(limit_of(cells).3) == column_value::<i32>(limit_layout()[3], cells),
{
    let layout = limit_layout();
    lemma_i32_column(cells, layout[0], -1i32);
    lemma_i32_column(cells, layout[1], -1i32);
    lemma_i32_column(cells, layout[2], -1i32);
    lemma_i32_column(cells, layout[3], -1i32);
}

/// The column mapping the DemonCastleDefine rows are read with, in the order it is applied.
pub open spec fn define_layout() -> Seq<Column> {
    seq![
        Column { field: "enemy_id", index: 0, scale: Scale::Raw, default: "-1" },
        Column { field: "spent_enemy_id", index: 1, scale: Scale::Raw, default: "-1" },
    ]
}

impl DemonCastleDefine {
    /// The column mapping this parser applies, in the order it applies it.
    ///
    /// Published so a consumer can read the layout of a row from the parser's
    /// own table instead of restating it.
    pub fn columns() -> (r: Vec<Column>)
        ensures
            r@ == define_layout(),
    {
        let r = vec![
            Column { field: "enemy_id", index: 0, scale: Scale::Raw, default: "-1" },
            Column { field: "spent_enemy_id", index: 1, scale: Scale::Raw, default: "-1" },
        ];
        assert(r@ =~= define_layout());
        r
    }
}

/// Every column of the altar layout reaches the field it names: in the row a line reads as, the field each column names holds the value that column reads.
pub proof fn lemma_define_columns_reach_their_fields(cells: Seq<Seq<u8>>)
    ensures
        define_layout()[0].field == "enemy_id" && Some(define_of(cells).0) == column_value::<i32>(define_layout()[0], cells),
        define_layout()[1].field == "spent_enemy_id" && Some(define_of(cells).1) == column_value::<i32>(define_layout()[1], cells),
{
    let layout = define_layout();
    lemma_i32_column(cells, layout[0], -1i32);
    lemma_i32_column(cells, layout[1], -1i32);
}

} // verus!
