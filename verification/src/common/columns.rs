//! Declarations of a flat row's column layout.
//!
//! A layout is a table of [`Column`]s: for each column, the field it feeds, its
//! position in the raw row, the arithmetic its value passes through and the
//! text it falls back to. A consumer reads the mapping from the parser's own
//! table rather than restating it.

use vstd::prelude::*;

use crate::text::{spec_u64, spec_usize, to_u64, to_usize, spec_i16, spec_i32, spec_i64, spec_i8, spec_u16, spec_u32, spec_u8, to_i16, to_i32,
    to_i64, to_i8, to_u16, to_u32, to_u8, trim, trimmed, div_trunc, views, all_digits, digits_value, i32_or, is_digit, u32_or};
use vstd::string::StringSliceAdditionalSpecFns;

verus! {

/// The arithmetic a raw column value passes through on its way into a field.
///
/// A few durations are recorded at half their frame count, and several
/// distances are quadrupled.
#[derive(Debug, Clone, Copy, PartialEq, Eq, Hash)]
pub enum Scale {
    /// The column is stored exactly as it is read.
    Raw,
    /// The column is doubled, converting a half-frame duration into frames.
    Double,
    /// The column is divided by four, converting a quadrupled distance into engine units.
    Quarter,
}

impl Default for Scale {
    fn default() -> (r: Self)
        ensures
            r == Scale::Raw,
    {
        Scale::Raw
    }
}

/// An integer doubled, saturating at the bounds of `lo..=hi`.
pub open spec fn doubled(v: int, lo: int, hi: int) -> int {
    if 2 * v > hi {
        hi
    } else if 2 * v < lo {
        lo
    } else {
        2 * v
    }
}

/// The value an `i32` column holds once its conversion is applied: doubling
/// saturates, and quartering truncates toward zero.
pub open spec fn scale_i32(scale: Scale, v: i32) -> i32 {
    match scale {
        Scale::Raw => v,
        Scale::Double => doubled(v as int, i32::MIN as int, i32::MAX as int) as i32,
        Scale::Quarter => div_trunc(v as int, 4) as i32,
    }
}

impl Scale {
    /// Applies the conversion to one raw column value.
    pub fn apply(self, value: i32) -> (r: i32)
        ensures
            r == scale_i32(self, value),
    {
        match self {
            Scale::Raw => value,
            Scale::Double => {
                if value > 0x3fff_ffff {
                    i32::MAX
                } else if value < -0x4000_0000 {
                    i32::MIN
                } else {
                    value * 2
                }
            },
            Scale::Quarter => value / 4,
        }
    }
}

/// A field type a column's text can be read into.
///
/// The implementation decides what the column's text means for the field, so a
/// column falls back to its declared default in the field's own type.
pub trait FromColumn: Sized {
    /// The value a column's trimmed text names, if any.
    spec fn column_spec(text: Seq<u8>) -> Option<Self>;

    /// The value once a column's conversion is applied.
    spec fn scaled_spec(self, scale: Scale) -> Self;

    /// Reads a column's trimmed text into this type.
    fn from_column(text: &[u8]) -> (r: Option<Self>)
        ensures
            r == Self::column_spec(text@);

    /// Applies a column's conversion to a value of this type.
    fn scaled(self, scale: Scale) -> (r: Self)
        ensures
            r == self.scaled_spec(scale);
}

impl FromColumn for i32 {
    open spec fn column_spec(text: Seq<u8>) -> Option<i32> {
        spec_i32(text)
    }

    open spec fn scaled_spec(self, scale: Scale) -> i32 {
        scale_i32(scale, self)
    }

    fn from_column(text: &[u8]) -> (r: Option<i32>) {
        to_i32(text)
    }

    fn scaled(self, scale: Scale) -> (r: i32) {
        scale.apply(self)
    }
}

impl FromColumn for i64 {
    open spec fn column_spec(text: Seq<u8>) -> Option<i64> {
        spec_i64(text)
    }

    open spec fn scaled_spec(self, scale: Scale) -> i64 {
        match scale {
            Scale::Raw => self,
            Scale::Double => doubled(self as int, i64::MIN as int, i64::MAX as int) as i64,
            Scale::Quarter => div_trunc(self as int, 4) as i64,
        }
    }

    fn from_column(text: &[u8]) -> (r: Option<i64>) {
        to_i64(text)
    }

    fn scaled(self, scale: Scale) -> (r: i64) {
        match scale {
            Scale::Raw => self,
            Scale::Double => {
                if self > 0x3fff_ffff_ffff_ffff {
                    i64::MAX
                } else if self < -0x4000_0000_0000_0000 {
                    i64::MIN
                } else {
                    self * 2
                }
            },
            Scale::Quarter => self / 4,
        }
    }
}

impl FromColumn for i16 {
    open spec fn column_spec(text: Seq<u8>) -> Option<i16> {
        spec_i16(text)
    }

    open spec fn scaled_spec(self, scale: Scale) -> i16 {
        match scale {
            Scale::Raw => self,
            Scale::Double => doubled(self as int, i16::MIN as int, i16::MAX as int) as i16,
            Scale::Quarter => div_trunc(self as int, 4) as i16,
        }
    }

    fn from_column(text: &[u8]) -> (r: Option<i16>) {
        to_i16(text)
    }

    fn scaled(self, scale: Scale) -> (r: i16) {
        match scale {
            Scale::Raw => self,
            Scale::Double => {
                if self > 0x3fff {
                    i16::MAX
                } else if self < -0x4000 {
                    i16::MIN
                } else {
                    self * 2
                }
            },
            Scale::Quarter => self / 4,
        }
    }
}

impl FromColumn for i8 {
    open spec fn column_spec(text: Seq<u8>) -> Option<i8> {
        spec_i8(text)
    }

    open spec fn scaled_spec(self, scale: Scale) -> i8 {
        match scale {
            Scale::Raw => self,
            Scale::Double => doubled(self as int, i8::MIN as int, i8::MAX as int) as i8,
            Scale::Quarter => div_trunc(self as int, 4) as i8,
        }
    }

    fn from_column(text: &[u8]) -> (r: Option<i8>) {
        to_i8(text)
    }

    fn scaled(self, scale: Scale) -> (r: i8) {
        match scale {
            Scale::Raw => self,
            Scale::Double => {
                if self > 0x3f {
                    i8::MAX
                } else if self < -0x40 {
                    i8::MIN
                } else {
                    self * 2
                }
            },
            Scale::Quarter => self / 4,
        }
    }
}

impl FromColumn for u32 {
    open spec fn column_spec(text: Seq<u8>) -> Option<u32> {
        spec_u32(text)
    }

    open spec fn scaled_spec(self, scale: Scale) -> u32 {
        match scale {
            Scale::Raw => self,
            Scale::Double => doubled(self as int, 0, u32::MAX as int) as u32,
            Scale::Quarter => self / 4,
        }
    }

    fn from_column(text: &[u8]) -> (r: Option<u32>) {
        to_u32(text)
    }

    fn scaled(self, scale: Scale) -> (r: u32) {
        match scale {
            Scale::Raw => self,
            Scale::Double => if self > 0x7fff_ffff { u32::MAX } else { self * 2 },
            Scale::Quarter => self / 4,
        }
    }
}

impl FromColumn for u16 {
    open spec fn column_spec(text: Seq<u8>) -> Option<u16> {
        spec_u16(text)
    }

    open spec fn scaled_spec(self, scale: Scale) -> u16 {
        match scale {
            Scale::Raw => self,
            Scale::Double => doubled(self as int, 0, u16::MAX as int) as u16,
            Scale::Quarter => self / 4,
        }
    }

    fn from_column(text: &[u8]) -> (r: Option<u16>) {
        to_u16(text)
    }

    fn scaled(self, scale: Scale) -> (r: u16) {
        match scale {
            Scale::Raw => self,
            Scale::Double => if self > 0x7fff { u16::MAX } else { self * 2 },
            Scale::Quarter => self / 4,
        }
    }
}

impl FromColumn for u8 {
    open spec fn column_spec(text: Seq<u8>) -> Option<u8> {
        spec_u8(text)
    }

    open spec fn scaled_spec(self, scale: Scale) -> u8 {
        match scale {
            Scale::Raw => self,
            Scale::Double => doubled(self as int, 0, u8::MAX as int) as u8,
            Scale::Quarter => self / 4,
        }
    }

    fn from_column(text: &[u8]) -> (r: Option<u8>) {
        to_u8(text)
    }

    fn scaled(self, scale: Scale) -> (r: u8) {
        match scale {
            Scale::Raw => self,
            Scale::Double => if self > 0x7f { u8::MAX } else { self * 2 },
            Scale::Quarter => self / 4,
        }
    }
}

impl FromColumn for u64 {
    open spec fn column_spec(text: Seq<u8>) -> Option<u64> {
        spec_u64(text)
    }

    open spec fn scaled_spec(self, scale: Scale) -> u64 {
        match scale {
            Scale::Raw => self,
            Scale::Double => doubled(self as int, 0, u64::MAX as int) as u64,
            Scale::Quarter => self / 4,
        }
    }

    fn from_column(text: &[u8]) -> (r: Option<u64>) {
        to_u64(text)
    }

    fn scaled(self, scale: Scale) -> (r: u64) {
        match scale {
            Scale::Raw => self,
            Scale::Double => if self > 0x7fff_ffff_ffff_ffff { u64::MAX } else { self * 2 },
            Scale::Quarter => self / 4,
        }
    }
}

impl FromColumn for usize {
    open spec fn column_spec(text: Seq<u8>) -> Option<usize> {
        spec_usize(text)
    }

    open spec fn scaled_spec(self, scale: Scale) -> usize {
        match scale {
            Scale::Raw => self,
            Scale::Double => doubled(self as int, 0, usize::MAX as int) as usize,
            Scale::Quarter => self / 4,
        }
    }

    fn from_column(text: &[u8]) -> (r: Option<usize>) {
        to_usize(text)
    }

    fn scaled(self, scale: Scale) -> (r: usize) {
        match scale {
            Scale::Raw => self,
            Scale::Double => if self > usize::MAX / 2 { usize::MAX } else { self * 2 },
            Scale::Quarter => self / 4,
        }
    }
}

impl FromColumn for bool {
    /// A flag column is set exactly when it reads as the integer one.
    open spec fn column_spec(text: Seq<u8>) -> Option<bool> {
        match spec_i64(text) {
            Some(v) => Some(v == 1),
            None => None,
        }
    }

    open spec fn scaled_spec(self, scale: Scale) -> bool {
        self
    }

    fn from_column(text: &[u8]) -> (r: Option<bool>) {
        match to_i64(text) {
            Some(v) => Some(v == 1),
            None => None,
        }
    }

    fn scaled(self, scale: Scale) -> (r: bool) {
        self
    }
}

/// The value one column contributes: the column's trimmed text read in the
/// field's type, else its default read by the same rules, converted; `None`
/// when neither names a value.
pub open spec fn cell_spec<F: FromColumn>(cell: Option<Seq<u8>>, default: Seq<u8>, scale: Scale) -> Option<F> {
    let read = match cell {
        Some(text) => F::column_spec(trim(text)),
        None => None,
    };
    let value = match read {
        Some(v) => Some(v),
        None => F::column_spec(default),
    };
    match value {
        Some(v) => Some(v.scaled_spec(scale)),
        None => None,
    }
}

impl<T: FromColumn> FromColumn for Option<T> {
    /// An optional field reads every text, as the value it names or as `None`,
    /// so its default stands in only where the row stops short of it.
    open spec fn column_spec(text: Seq<u8>) -> Option<Option<T>> {
        Some(T::column_spec(text))
    }

    open spec fn scaled_spec(self, scale: Scale) -> Option<T> {
        match self {
            Some(v) => Some(v.scaled_spec(scale)),
            None => None,
        }
    }

    fn from_column(text: &[u8]) -> (r: Option<Option<T>>) {
        Some(T::from_column(text))
    }

    fn scaled(self, scale: Scale) -> (r: Option<T>) {
        match self {
            Some(v) => Some(v.scaled(scale)),
            None => None,
        }
    }
}

/// Reads one column's text into a field's own type.
///
/// The column's declared default stands in when the row does not reach the
/// column or its text names no value, and is read in the same type by the same
/// rules.
pub fn parse_cell<F: FromColumn>(cell: Option<&[u8]>, default: &[u8], scale: Scale) -> (r: Option<F>)
    ensures
        r == cell_spec::<F>(
            match cell { Some(t) => Some(t@), None => None },
            default@,
            scale,
        ),
{
    let read: Option<F> = match cell {
        Some(text) => {
            let bytes = trimmed(text);
            F::from_column(bytes.as_slice())
        },
        None => None,
    };
    let value = match read {
        Some(v) => Some(v),
        None => F::from_column(default),
    };
    match value {
        Some(v) => Some(v.scaled(scale)),
        None => None,
    }
}

/// The definition of one column of a raw row, and the field it lands in.
///
/// A layout's full column mapping is published as a slice of these, so a
/// consumer needing to know which index feeds which field, how it is scaled,
/// or what it falls back to reads it from the table the parser runs on.
#[derive(Debug, Clone, Copy, PartialEq, Eq)]
pub struct Column {
    /// The name of the field this column populates.
    pub field: &'static str,
    /// The zero-based position of this column within the raw row.
    pub index: usize,
    /// The conversion applied to the raw value before it is stored.
    pub scale: Scale,
    /// The text used when the column is absent from the row or names no value.
    pub default: &'static str,
}

/// The text of cell `k` of a row, or `None` when the row stops short of it.
pub open spec fn row_cell(row: Seq<Seq<u8>>, k: int) -> Option<Seq<u8>> {
    if 0 <= k < row.len() { Some(row[k]) } else { None }
}

/// The value a column contributes to a row.
pub open spec fn column_value<F: FromColumn>(column: Column, row: Seq<Seq<u8>>) -> Option<F> {
    cell_spec::<F>(row_cell(row, column.index as int), column.default.spec_bytes(), column.scale)
}

impl Column {
    /// Reads this column out of a raw row.
    ///
    /// A column the row does not reach, or whose text names no value,
    /// contributes [`Column::default`] instead.
    ///
    /// # Returns
    /// The value to store, or `None` when neither the column nor its default
    /// names one, in which case the field keeps what it held.
    pub fn read<F: FromColumn>(&self, row: &[Vec<u8>]) -> (r: Option<F>)
        ensures
            r == column_value::<F>(*self, views(row@)),
    {
        let cell: Option<&[u8]> = if self.index < row.len() {
            Some(row[self.index].as_slice())
        } else {
            None
        };
        parse_cell::<F>(cell, self.default.as_bytes(), self.scale)
    }
}

/// The widest index a table describes, or zero for an empty table.
pub open spec fn widest_index(table: Seq<Column>) -> int
    decreases table.len(),
{
    if table.len() == 0 {
        0
    } else {
        let w = widest_index(table.drop_last());
        if table.last().index > w { table.last().index as int } else { w }
    }
}

/// One past the widest index a table describes, which is one for an empty table.
pub open spec fn table_width(table: Seq<Column>) -> int {
    widest_index(table) + 1
}

/// Reads every column of a table out of a raw row.
///
/// # Returns
/// The value each column contributes, in the order the table declares them,
/// and the first index past the widest column the table describes, where a
/// caller retaining trailing columns begins.
pub fn apply<F: FromColumn>(row: &[Vec<u8>], table: &[Column]) -> (r: (Vec<Option<F>>, usize))
    requires
        forall|k: int| 0 <= k < table@.len() ==> #[trigger] table@[k].index < usize::MAX,
    ensures
        r.0@.len() == table@.len(),
        forall|k: int| 0 <= k < table@.len() ==> #[trigger] r.0@[k] == column_value::<F>(table@[k], views(row@)),
        r.1 == table_width(table@),
{
    let mut values: Vec<Option<F>> = Vec::new();
    let mut widest: usize = 0;
    let mut k: usize = 0;
    while k < table.len()
        invariant
            k <= table@.len(),
            forall|j: int| 0 <= j < table@.len() ==> #[trigger] table@[j].index < usize::MAX,
            values@.len() == k,
            forall|j: int| 0 <= j < k ==> #[trigger] values@[j] == column_value::<F>(table@[j], views(row@)),
            widest == widest_index(table@.take(k as int)),
            widest < usize::MAX,
        decreases table@.len() - k,
    {
        let column = table[k];
        values.push(column.read::<F>(row));
        if column.index > widest {
            widest = column.index;
        }
        proof {
            assert(table@.take(k + 1).drop_last() =~= table@.take(k as int));
        }
        k += 1;
    }
    assert(table@.take(k as int) =~= table@);
    (values, widest + 1)
}


/// What the default texts the column tables use read as.
pub proof fn lemma_default_texts()
    ensures
        spec_i32("0".spec_bytes()) == Some(0i32),
        spec_i32("-1".spec_bytes()) == Some(-1i32),
        spec_u32("0".spec_bytes()) == Some(0u32),
        spec_u32("-1".spec_bytes()) is None,
        spec_u32("100".spec_bytes()) == Some(100u32),
        spec_u8("0".spec_bytes()) == Some(0u8),
        spec_u8("1".spec_bytes()) == Some(1u8),
        spec_i64("0".spec_bytes()) == Some(0i64),
{
    reveal_strlit("0");
    reveal_strlit("-1");
    reveal_strlit("1");
    reveal_strlit("100");
    vstd::string::is_ascii_spec_bytes("0");
    vstd::string::is_ascii_spec_bytes("-1");
    vstd::string::is_ascii_spec_bytes("1");
    vstd::string::is_ascii_spec_bytes("100");
    let zero: Seq<u8> = seq![48u8];
    let one: Seq<u8> = seq![49u8];
    let ten: Seq<u8> = seq![49u8, 48u8];
    let hundred: Seq<u8> = seq![49u8, 48u8, 48u8];
    assert("0".spec_bytes() =~= zero);
    assert("1".spec_bytes() =~= one);
    assert("-1".spec_bytes() =~= seq![45u8, 49u8]);
    assert("100".spec_bytes() =~= hundred);
    assert(digits_value(Seq::<u8>::empty()) == 0);
    assert(zero.drop_last() =~= Seq::<u8>::empty());
    assert(one.drop_last() =~= Seq::<u8>::empty());
    assert(ten.drop_last() =~= one);
    assert(hundred.drop_last() =~= ten);
    assert(digits_value(zero) == 0);
    assert(digits_value(one) == 1);
    assert(digits_value(ten) == 10);
    assert(digits_value(hundred) == 100);
    assert(all_digits(zero));
    assert(all_digits(one));
    assert(all_digits(hundred));
    assert(seq![45u8, 49u8].skip(1) =~= one);
    assert(!is_digit(45u8));
    assert(!all_digits(seq![45u8, 49u8]));
}

/// An `i32` column whose default is `"0"` or `"-1"` reads from a row its
/// cell as an `i32`, or the default where the cell reads as none, converted.
pub proof fn lemma_i32_column(cells: Seq<Seq<u8>>, column: Column, default: i32)
    requires
        (column.default == "0" && default == 0) || (column.default == "-1" && default == -1),
    ensures
        column_value::<i32>(column, cells) == Some(scale_i32(column.scale, i32_or(cells, column.index as int, default))),
{
    lemma_default_texts();
}

/// A `u32` column whose default is `"0"` reads from a row its cell as a
/// `u32`, or zero where the cell reads as none, converted.
pub proof fn lemma_u32_column(cells: Seq<Seq<u8>>, column: Column)
    requires
        column.default == "0",
    ensures
        column_value::<u32>(column, cells) == Some(u32_or(cells, column.index as int, 0).scaled_spec(column.scale)),
{
    lemma_default_texts();
}

/// Doubling a column saturates at the bounds of an `i32`, quartering it
/// truncates toward zero, and a raw column is kept as it is.
pub proof fn lemma_scales(v: i32)
    ensures
        scale_i32(Scale::Raw, v) == v,
        scale_i32(Scale::Double, v) == (if 2 * v > i32::MAX { i32::MAX } else if 2 * v < i32::MIN { i32::MIN } else { (2 * v) as i32 }),
        scale_i32(Scale::Quarter, v) == (if v >= 0 { v / 4 } else { -((-v) / 4) }),
{
}

} // verus!
