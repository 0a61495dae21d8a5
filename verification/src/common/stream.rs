//! The engine's own reader for its comma delimited animation files.
//!
//! The animation loaders share one text stream, and its behaviour decides what
//! a malformed file parses to. It addresses a row by column index rather than
//! by a moving cursor, reads a missing column as zero rather than as an error,
//! refills its cell buffer only when a line was actually there, and takes a
//! count at its word however many rows follow it.

use vstd::prelude::*;
use vstd::string::StringSliceAdditionalSpecFns;

use crate::text::{copy_range, decode_lossy, lossy_decode, spec_i32, spec_i64, split_bytes, split_on, to_i32, to_i64,
    views, COMMA, MINUS, NL, PLUS};

verus! {

/// The carriage return the engine trims from the tail of a line.
pub const CR: u8 = 13;

/// The most rows a declared count may ask for.
pub const COUNT_CAP: usize = 65536;

// ---------------------------------------------------------------------------
// Lines
// ---------------------------------------------------------------------------

/// The position of the first line feed in `s`.
pub open spec fn first_nl(s: Seq<u8>) -> Option<int>
    decreases s.len(),
{
    if s.len() == 0 {
        None
    } else if s[0] == NL {
        Some(0)
    } else {
        match first_nl(s.skip(1)) {
            Some(i) => Some(i + 1),
            None => None,
        }
    }
}

/// `s` without its trailing carriage returns and line feeds.
pub open spec fn trim_endings(s: Seq<u8>) -> Seq<u8>
    decreases s.len(),
{
    if s.len() > 0 && (s.last() == CR || s.last() == NL) {
        trim_endings(s.drop_last())
    } else {
        s
    }
}

/// The next line of `rest` and what follows it: the text up to the first line
/// feed without its trailing line endings, or kept whole where it is nothing
/// but line endings; `None` once nothing is left.
pub open spec fn next_line(rest: Seq<u8>) -> Option<(Seq<u8>, Seq<u8>)> {
    if rest.len() == 0 {
        None
    } else {
        let (line, after) = match first_nl(rest) {
            Some(i) => (rest.take(i), rest.skip(i + 1)),
            None => (rest, Seq::empty()),
        };
        let trimmed = trim_endings(line);
        Some((if trimmed.len() == 0 { line } else { trimmed }, after))
    }
}

proof fn lemma_first_nl(s: Seq<u8>, i: int)
    requires
        0 <= i <= s.len(),
        forall|j: int| 0 <= j < i ==> s[j] != NL,
    ensures
        i < s.len() && s[i] == NL ==> first_nl(s) == Some(i),
        i == s.len() ==> first_nl(s) is None,
    decreases i,
{
    if i > 0 {
        assert forall|j: int| 0 <= j < i - 1 implies s.skip(1)[j] != NL by {
            assert(s.skip(1)[j] == s[j + 1]);
        }
        lemma_first_nl(s.skip(1), i - 1);
    }
}

fn find_nl(s: &[u8], from: usize) -> (r: Option<usize>)
    requires
        from <= s.len(),
    ensures
        match r {
            Some(i) => from <= i < s.len() && first_nl(s@.skip(from as int)) == Some(i - from),
            None => first_nl(s@.skip(from as int)) is None,
        },
{
    let mut i: usize = from;
    while i < s.len()
        invariant
            from <= i <= s.len(),
            forall|j: int| from <= j < i ==> s@[j] != NL,
        decreases s.len() - i,
    {
        if s[i] == NL {
            proof {
                lemma_first_nl(s@.skip(from as int), i - from);
            }
            return Some(i);
        }
        i += 1;
    }
    proof {
        lemma_first_nl(s@.skip(from as int), i - from);
    }
    None
}

/// The length of `s[..end]` once its trailing line endings are removed.
fn endings_cut(s: &[u8], start: usize, end: usize) -> (k: usize)
    requires
        start <= end <= s.len(),
    ensures
        start <= k <= end,
        s@.subrange(start as int, k as int) == trim_endings(s@.subrange(start as int, end as int)),
{
    let mut k: usize = end;
    while k > start && (s[k - 1] == CR || s[k - 1] == NL)
        invariant
            start <= k <= end,
            end <= s@.len(),
            trim_endings(s@.subrange(start as int, k as int)) == trim_endings(s@.subrange(start as int, end as int)),
        decreases k,
    {
        proof {
            assert(s@.subrange(start as int, k as int).drop_last() =~= s@.subrange(start as int, k - 1));
        }
        k -= 1;
    }
    k
}

// ---------------------------------------------------------------------------
// Cells
// ---------------------------------------------------------------------------

/// Whether the engine's cell reader skips a byte before a sign or a digit.
pub open spec fn is_blank(b: u8) -> bool {
    b == 32 || (9 <= b && b <= 13)
}

/// The number of leading bytes of `s` the cell reader skips.
pub open spec fn blank_run(s: Seq<u8>) -> int
    decreases s.len(),
{
    if s.len() > 0 && is_blank(s[0]) { 1 + blank_run(s.skip(1)) } else { 0 }
}

/// The number of leading ASCII digits of `s`.
pub open spec fn digit_run(s: Seq<u8>) -> int
    decreases s.len(),
{
    if s.len() > 0 && 48 <= s[0] && s[0] <= 57 { 1 + digit_run(s.skip(1)) } else { 0 }
}

/// The decimal digits of a natural number.
pub open spec fn digits(n: nat) -> Seq<u8>
    decreases n,
{
    if n < 10 {
        seq![(48 + n) as u8]
    } else {
        digits(n / 10).push((48 + n % 10) as u8)
    }
}

/// The decimal text of an integer, as `i32::to_string` writes it.
pub open spec fn decimal(v: i32) -> Seq<u8> {
    if v < 0 { seq![MINUS] + digits((-v) as nat) } else { digits(v as nat) }
}

/// The text the engine's cell reader consumes from a cell: its sign and
/// digits after any leading blanks, nothing when it has no digits, and where
/// the number overflows an `i32`, the value the engine's conversion wraps it
/// to, written out.
pub open spec fn scalar(cell: Seq<u8>) -> Seq<u8> {
    let text = cell.skip(blank_run(cell));
    let sign = if text.len() > 0 && (text[0] == PLUS || text[0] == MINUS) { 1int } else { 0int };
    let count = digit_run(text.skip(sign));
    let read = text.take(sign + count);
    if count == 0 {
        Seq::empty()
    } else if spec_i32(read) is Some {
        read
    } else {
        let saturated: i64 = match spec_i64(read) {
            Some(v) => v,
            None => if read[0] == MINUS { i64::MIN } else { i64::MAX },
        };
        decimal(saturated as i32)
    }
}

/// The integer a cell names: the number its scalar text spells, or zero.
pub open spec fn value_of(cell: Seq<u8>) -> i32 {
    match spec_i32(scalar(cell)) {
        Some(v) => v,
        None => 0,
    }
}

fn push_digits(n: u64, out: &mut Vec<u8>)
    ensures
        final(out)@ == old(out)@ + digits(n as nat),
    decreases n,
{
    if n >= 10 {
        push_digits(n / 10, out);
    }
    out.push((48 + n % 10) as u8);
    proof {
        if n >= 10 {
            assert(old(out)@ + digits(n as nat) =~= old(out)@ + digits((n / 10) as nat) + seq![(48 + n % 10) as u8]);
        }
    }
}

/// Writes an integer in decimal.
fn decimal_of(v: i32) -> (r: Vec<u8>)
    ensures
        r@ == decimal(v),
{
    let mut out: Vec<u8> = Vec::new();
    if v < 0 {
        out.push(MINUS);
        let magnitude: u64 = (-(v as i64)) as u64;
        push_digits(magnitude, &mut out);
        assert(out@ =~= decimal(v));
    } else {
        push_digits(v as u64, &mut out);
        assert(out@ =~= decimal(v));
    }
    out
}

fn blanks_at(s: &[u8]) -> (k: usize)
    ensures
        k == blank_run(s@),
        k <= s.len(),
{
    let mut k: usize = 0;
    assert(s@.skip(0) =~= s@);
    while k < s.len() && (s[k] == 32 || (9 <= s[k] && s[k] <= 13))
        invariant
            k <= s.len(),
            blank_run(s@) == k + blank_run(s@.skip(k as int)),
        decreases s.len() - k,
    {
        proof {
            assert(s@.skip(k as int).skip(1) =~= s@.skip(k + 1));
        }
        k += 1;
    }
    k
}

fn digits_at(s: &[u8], from: usize) -> (k: usize)
    requires
        from <= s.len(),
    ensures
        k == digit_run(s@.skip(from as int)),
        from + k <= s.len(),
{
    let mut k: usize = 0;
    assert(s@.skip(from + 0) =~= s@.skip(from as int));
    while from + k < s.len() && 48 <= s[from + k] && s[from + k] <= 57
        invariant
            from + k <= s.len(),
            digit_run(s@.skip(from as int)) == k + digit_run(s@.skip(from + k)),
        decreases s.len() - from - k,
    {
        proof {
            assert(s@.skip(from + k).skip(1) =~= s@.skip(from + k + 1));
        }
        k += 1;
    }
    k
}

/// Reduces a cell to the text the engine's cell reader consumes from it.
pub fn scalar_text(cell: &[u8]) -> (r: Vec<u8>)
    ensures
        r@ == scalar(cell@),
{
    let b = blanks_at(cell);
    let ghost text = cell@.skip(b as int);
    let sign: usize = if b < cell.len() && (cell[b] == PLUS || cell[b] == MINUS) { 1 } else { 0 };
    let count = digits_at(cell, b + sign);
    proof {
        assert(text.skip(sign as int) =~= cell@.skip(b + sign));
    }
    if count == 0 {
        return Vec::new();
    }
    let read = copy_range(cell, b, b + sign + count);
    assert(read@ =~= text.take(sign + count));
    match to_i32(read.as_slice()) {
        Some(_) => read,
        None => {
            let saturated: i64 = match to_i64(read.as_slice()) {
                Some(v) => v,
                None => if read[0] == MINUS { i64::MIN } else { i64::MAX },
            };
            decimal_of(saturated as i32)
        },
    }
}

/// Returns the integer the engine's cell reader takes from a piece of text.
///
/// Reading stops at the first character that is not part of a decimal
/// integer, so text carrying a number in front of anything else contributes
/// that number and text carrying no digits at all contributes zero. A run of
/// digits too long for an `i32` saturates and then wraps, as the engine's own
/// conversion does.
pub fn cell_value(text: &str) -> (r: i32)
    ensures
        r == value_of(text.spec_bytes()),
{
    let s = scalar_text(text.as_bytes());
    match to_i32(s.as_slice()) {
        Some(v) => v,
        None => 0,
    }
}

/// The number of rows a declared count asks for, or `None` for a negative or
/// larger than the engine survives.
pub open spec fn rows_for(count: i32) -> Option<usize> {
    if 0 <= count <= COUNT_CAP { Some(count as usize) } else { None }
}

/// Turns a count a file declares into the number of rows to read after it.
///
/// The engine sign extends the count and compares it unsigned, so a negative
/// count reads as enormous and aborts, and a merely large one exhausts the
/// heap. Both kill the process, which a library reports rather than
/// reproduces.
pub fn declared_rows(count: i32) -> (r: Option<usize>)
    ensures
        r == rows_for(count),
{
    if count >= 0 && count <= 65536 { Some(count as usize) } else { None }
}

// ---------------------------------------------------------------------------
// The reader
// ---------------------------------------------------------------------------

/// The cells a non-empty line splits into: its final field is dropped where
/// it is empty, so a trailing delimiter adds no cell.
pub open spec fn row_cells(line: Seq<u8>) -> Seq<Seq<u8>> {
    if line.len() == 0 {
        Seq::empty()
    } else if line.last() == COMMA {
        split_on(line.drop_last(), COMMA)
    } else {
        split_on(line, COMMA)
    }
}

/// A reader over one of the engine's comma delimited animation files.
///
/// A row read past the end of the file leaves the previous row's cells in
/// place, because the engine refills its cell buffer only once it has a line
/// to fill it from.
#[derive(Clone, Debug)]
pub struct Reader<'a> {
    text: &'a [u8],
    pos: usize,
    cells: Vec<Vec<u8>>,
    values: Vec<Vec<u8>>,
}

/// The abstract state of a reader: what is left to read, and the current
/// row's cells.
pub struct ReaderView {
    pub rest: Seq<u8>,
    pub cells: Seq<Seq<u8>>,
}

impl<'a> View for Reader<'a> {
    type V = ReaderView;

    closed spec fn view(&self) -> ReaderView {
        ReaderView { rest: self.text@.skip(self.pos as int), cells: views(self.cells@) }
    }
}

impl<'a> Reader<'a> {
    /// Whether the reader's scalar texts match its cells.
    pub closed spec fn wf(&self) -> bool {
        &&& self.pos <= self.text@.len()
        &&& self.values@.len() == self.cells@.len()
        &&& forall|i: int| 0 <= i < self.cells@.len() ==> #[trigger] self.values@[i]@ == scalar(self.cells@[i]@)
    }

    /// Opens a reader over a file's text, positioned at the first line.
    pub fn new(text: &'a str) -> (r: Self)
        ensures
            r.wf(),
            r@.rest == text.spec_bytes(),
            r@.cells == Seq::<Seq<u8>>::empty(),
    {
        let bytes = text.as_bytes();
        let r = Reader { text: bytes, pos: 0, cells: Vec::new(), values: Vec::new() };
        assert(r@.rest =~= text.spec_bytes());
        assert(r@.cells =~= Seq::<Seq<u8>>::empty());
        r
    }

    fn next_raw(&mut self) -> (r: Option<Vec<u8>>)
        requires
            old(self).wf(),
        ensures
            final(self).wf(),
            final(self).cells@ == old(self).cells@,
            final(self).values@ == old(self).values@,
            match next_line(old(self)@.rest) {
                Some((line, after)) => r matches Some(l) && l@ == line && final(self)@.rest == after,
                None => r is None && final(self)@.rest == old(self)@.rest,
            },
    {
        let n = self.text.len();
        let start = self.pos;
        if start >= n {
            assert(self@.rest =~= Seq::<u8>::empty());
            return None;
        }
        let ghost rest = self@.rest;
        let (end, next) = match find_nl(self.text, start) {
            Some(i) => (i, i + 1),
            None => (n, n),
        };
        proof {
            assert(self.text@.subrange(start as int, end as int) =~= match first_nl(rest) {
                Some(i) => rest.take(i),
                None => rest,
            });
        }
        let k = endings_cut(self.text, start, end);
        let line = if k == start { copy_range(self.text, start, end) } else { copy_range(self.text, start, k) };
        self.pos = next;
        proof {
            assert(self@.rest =~= match first_nl(rest) {
                Some(i) => rest.skip(i + 1),
                None => Seq::<u8>::empty(),
            });
        }
        Some(line)
    }

    /// Reads one raw line, which is how a loader discards its header lines.
    ///
    /// A blank line is a line like any other, and a line made up entirely of
    /// line endings keeps them.
    ///
    /// # Returns
    /// The line without its trailing line endings, or `None` once the file is
    /// exhausted.
    pub fn line(&mut self) -> (r: Option<String>)
        requires
            old(self).wf(),
        ensures
            final(self).wf(),
            final(self)@.cells == old(self)@.cells,
            match next_line(old(self)@.rest) {
                Some((line, after)) => r matches Some(l) && l@ == lossy_decode(line) && final(self)@.rest == after,
                None => r is None && final(self)@.rest == old(self)@.rest,
            },
    {
        match self.next_raw() {
            Some(l) => Some(decode_lossy(l.as_slice())),
            None => None,
        }
    }

    /// Reads one row into the cell table, which a read past the end leaves untouched.
    ///
    /// A line's final field is dropped where it is empty, so a row written
    /// with a trailing delimiter holds the same cells as one written without.
    pub fn row(&mut self)
        requires
            old(self).wf(),
        ensures
            final(self).wf(),
            match next_line(old(self)@.rest) {
                Some((line, after)) => final(self)@.rest == after && final(self)@.cells == row_cells(line),
                None => final(self)@ == old(self)@,
            },
    {
        let line = match self.next_raw() {
            Some(l) => l,
            None => return,
        };
        let pieces = if line.len() == 0 {
            Vec::new()
        } else if line[line.len() - 1] == COMMA {
            let body = copy_range(line.as_slice(), 0, line.len() - 1);
            assert(body@ =~= line@.drop_last());
            split_bytes(body.as_slice(), COMMA)
        } else {
            split_bytes(line.as_slice(), COMMA)
        };
        assert(views(pieces@) =~= row_cells(line@));
        let mut values: Vec<Vec<u8>> = Vec::new();
        let mut i: usize = 0;
        while i < pieces.len()
            invariant
                i <= pieces@.len(),
                values@.len() == i,
                forall|j: int| 0 <= j < i ==> #[trigger] values@[j]@ == scalar(pieces@[j]@),
            decreases pieces@.len() - i,
        {
            values.push(scalar_text(pieces[i].as_slice()));
            i += 1;
        }
        self.cells = pieces;
        self.values = values;
    }

    /// Returns the current row's cells exactly as the file writes them, empty
    /// before the first row is read.
    pub fn cells(&self) -> (r: Vec<String>)
        ensures
            r@.len() == self@.cells.len(),
            forall|i: int| 0 <= i < r@.len() ==> #[trigger] r@[i]@ == lossy_decode(self@.cells[i]),
    {
        let mut out: Vec<String> = Vec::new();
        let mut i: usize = 0;
        while i < self.cells.len()
            invariant
                i <= self.cells@.len(),
                out@.len() == i,
                forall|j: int| 0 <= j < i ==> #[trigger] out@[j]@ == lossy_decode(self.cells@[j]@),
            decreases self.cells@.len() - i,
        {
            out.push(decode_lossy(self.cells[i].as_slice()));
            i += 1;
        }
        out
    }

    /// Returns the current row's cells as the text a column table reads them
    /// from: each reduced to the integer the engine takes from it.
    pub fn scalars(&self) -> (r: Vec<String>)
        requires
            self.wf(),
        ensures
            r@.len() == self@.cells.len(),
            forall|i: int| 0 <= i < r@.len() ==> #[trigger] r@[i]@ == lossy_decode(scalar(self@.cells[i])),
    {
        let mut out: Vec<String> = Vec::new();
        let mut i: usize = 0;
        while i < self.values.len()
            invariant
                self.wf(),
                i <= self.values@.len(),
                out@.len() == i,
                forall|j: int| 0 <= j < i ==> #[trigger] out@[j]@ == lossy_decode(scalar(self.cells@[j]@)),
            decreases self.values@.len() - i,
        {
            out.push(decode_lossy(self.values[i].as_slice()));
            i += 1;
        }
        out
    }

    /// Returns the integer one cell of the current row names, which is zero
    /// where the row does not reach that position.
    pub fn value(&self, index: usize) -> (r: i32)
        requires
            self.wf(),
        ensures
            r == (if index < self@.cells.len() { value_of(self@.cells[index as int]) } else { 0 }),
    {
        if index >= self.values.len() {
            return 0;
        }
        match to_i32(self.values[index].as_slice()) {
            Some(v) => v,
            None => 0,
        }
    }
}

} // verus!
