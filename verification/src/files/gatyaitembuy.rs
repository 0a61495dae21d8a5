//! Parsing of the item catalogue.
//!
//! The engine declares one item per row of the catalogue, below a single
//! header line, and writes that item's localized name on the matching line of
//! the item name table. A row is therefore addressed by its position below the
//! header as well as by the identifier the rest of the game refers to it by,
//! and the two do not always agree.

use vstd::prelude::*;

use crate::common::columns::{column_value, lemma_i32_column, Column, Scale};
use crate::common::file::{open_table, resolve_spec, table_lines, Separator};
use crate::text::{all_ints, any_content, content_of, decode_lossy, drop_n, get_i32, get_i32_or, has_content,
    i32_or, line_raw_cells, lossy_decode, raw_cells, scrubbed, spec_i32, trailing_all_ints, views};

verus! {

/// The column the row's comment sits in.
pub const COMMENT_INDEX: usize = 12;

/// Represents errors that can occur while parsing the item catalogue.
#[derive(Debug, Clone, PartialEq, Eq)]
#[non_exhaustive]
pub enum GatyaItemBuyError {
    /// The supplied bytes held no row with content.
    EmptyFile,
}

impl GatyaItemBuyError {
    /// A human-readable description of the error.
    #[verifier::allow_in_spec]
    pub fn message(&self) -> &'static str
        returns
            (match self {
                GatyaItemBuyError::EmptyFile => "The provided file bytes contained no valid item catalogue data.",
            }),
    {
        match self {
            GatyaItemBuyError::EmptyFile => "The provided file bytes contained no valid item catalogue data.",
        }
    }
}

/// One item of the catalogue.
///
/// Each integer column reads as negative one where the row stops short of it
/// or its text is not an integer.
#[derive(Debug, Clone, PartialEq, Eq)]
pub struct GatyaItemBuy {
    /// The item's rarity.
    pub rarity: i32,
    /// Whether the item is applied at once or kept in storage.
    pub reflect_or_storage: i32,
    /// The item's price.
    pub price: i32,
    /// The identifier stage drop tables refer to the item by.
    pub stage_drop_item_id: i32,
    /// The quantity granted.
    pub quantity: i32,
    /// The identifier the server refers to the item by.
    pub sever_id: i32,
    /// The item's category.
    pub category: i32,
    /// The item's position within its category.
    pub index: i32,
    /// The identifier of the item this one is derived from.
    pub src_item_id: i32,
    /// The main menu the item opens.
    pub main_menu_type: i32,
    /// The gacha ticket the item stands for.
    pub gatya_ticket_id: i32,
    /// The icon the item is drawn with, or negative one for the row's own.
    pub img_id: i32,
    /// The developer comment in the row's comment column.
    pub comment: String,
    /// Any columns past the comment, held as `None` where a column does not read as an integer.
    pub rest: Vec<Option<i32>>,
}

/// The abstract value of a catalogue item.
pub struct GatyaItemBuyView {
    pub rarity: i32,
    pub reflect_or_storage: i32,
    pub price: i32,
    pub stage_drop_item_id: i32,
    pub quantity: i32,
    pub sever_id: i32,
    pub category: i32,
    pub index: i32,
    pub src_item_id: i32,
    pub main_menu_type: i32,
    pub gatya_ticket_id: i32,
    pub img_id: i32,
    pub comment: Seq<char>,
    pub rest: Seq<Option<i32>>,
}

impl View for GatyaItemBuy {
    type V = GatyaItemBuyView;

    open spec fn view(&self) -> GatyaItemBuyView {
        GatyaItemBuyView {
            rarity: self.rarity,
            reflect_or_storage: self.reflect_or_storage,
            price: self.price,
            stage_drop_item_id: self.stage_drop_item_id,
            quantity: self.quantity,
            sever_id: self.sever_id,
            category: self.category,
            index: self.index,
            src_item_id: self.src_item_id,
            main_menu_type: self.main_menu_type,
            gatya_ticket_id: self.gatya_ticket_id,
            img_id: self.img_id,
            comment: self.comment@,
            rest: self.rest@,
        }
    }
}

/// The item a row declares: each column trimmed, the integer columns falling
/// back to negative one, the comment column taken as text, and every later
/// column read as an integer where it reads as one.
pub open spec fn item_of(parts: Seq<Seq<u8>>) -> GatyaItemBuyView {
    GatyaItemBuyView {
        rarity: i32_or(parts, 0, -1i32),
        reflect_or_storage: i32_or(parts, 1, -1i32),
        price: i32_or(parts, 2, -1i32),
        stage_drop_item_id: i32_or(parts, 3, -1i32),
        quantity: i32_or(parts, 4, -1i32),
        sever_id: i32_or(parts, 5, -1i32),
        category: i32_or(parts, 6, -1i32),
        index: i32_or(parts, 7, -1i32),
        src_item_id: i32_or(parts, 8, -1i32),
        main_menu_type: i32_or(parts, 9, -1i32),
        gatya_ticket_id: i32_or(parts, 10, -1i32),
        img_id: i32_or(parts, 11, -1i32),
        comment: if COMMENT_INDEX < parts.len() { lossy_decode(parts[COMMENT_INDEX as int]) } else { Seq::empty() },
        rest: all_ints(drop_n(parts, COMMENT_INDEX + 1)),
    }
}

/// Each integer of a catalogue row comes from its own column, in the order
/// the engine's table gives them, negative one standing for a column the row
/// lacks or that names no integer; column twelve is the comment and every
/// later column is kept.
pub proof fn lemma_item_reads_its_columns(parts: Seq<Seq<u8>>)
    ensures
        item_of(parts).rarity == crate::text::read_i32_at(parts, 0, -1i32),
        item_of(parts).reflect_or_storage == crate::text::read_i32_at(parts, 1, -1i32),
        item_of(parts).price == crate::text::read_i32_at(parts, 2, -1i32),
        item_of(parts).stage_drop_item_id == crate::text::read_i32_at(parts, 3, -1i32),
        item_of(parts).quantity == crate::text::read_i32_at(parts, 4, -1i32),
        item_of(parts).sever_id == crate::text::read_i32_at(parts, 5, -1i32),
        item_of(parts).category == crate::text::read_i32_at(parts, 6, -1i32),
        item_of(parts).index == crate::text::read_i32_at(parts, 7, -1i32),
        item_of(parts).src_item_id == crate::text::read_i32_at(parts, 8, -1i32),
        item_of(parts).main_menu_type == crate::text::read_i32_at(parts, 9, -1i32),
        item_of(parts).gatya_ticket_id == crate::text::read_i32_at(parts, 10, -1i32),
        item_of(parts).img_id == crate::text::read_i32_at(parts, 11, -1i32),
        item_of(parts).comment == (if 12 < parts.len() { lossy_decode(parts[12]) } else { Seq::empty() }),
        item_of(parts).rest == all_ints(drop_n(parts, 13)),
{
}

/// The item of a row with no columns at all.
pub open spec fn default_item() -> GatyaItemBuyView {
    GatyaItemBuyView {
        rarity: -1i32,
        reflect_or_storage: -1i32,
        price: -1i32,
        stage_drop_item_id: -1i32,
        quantity: -1i32,
        sever_id: -1i32,
        category: -1i32,
        index: -1i32,
        src_item_id: -1i32,
        main_menu_type: -1i32,
        gatya_ticket_id: -1i32,
        img_id: -1i32,
        comment: Seq::empty(),
        rest: Seq::empty(),
    }
}

impl Default for GatyaItemBuy {
    fn default() -> (r: Self)
        ensures
            r@ == default_item(),
    {
        GatyaItemBuy {
            rarity: -1,
            reflect_or_storage: -1,
            price: -1,
            stage_drop_item_id: -1,
            quantity: -1,
            sever_id: -1,
            category: -1,
            index: -1,
            src_item_id: -1,
            main_menu_type: -1,
            gatya_ticket_id: -1,
            img_id: -1,
            comment: String::new(),
            rest: Vec::new(),
        }
    }
}

/// Whether a line is the header: its first column, trimmed, is text that
/// does not read as an integer.
pub open spec fn is_header_line(line: Seq<u8>, d: u8) -> bool {
    raw_cells(line, d)[0].len() > 0 && crate::text::cell_i32(raw_cells(line, d), 0) is None
}

/// The rows of the catalogue: its lines, without the first where it is a header.
pub open spec fn item_lines(bytes: Seq<u8>, d: u8) -> Seq<Seq<u8>> {
    let lines = table_lines(bytes);
    if lines.len() > 0 && is_header_line(lines[0], d) { lines.skip(1) } else { lines }
}

/// Whether a line is the catalogue's header.
pub fn is_header(line: &[u8], d: u8) -> (r: bool)
    ensures
        r == is_header_line(line@, d),
{
    let parts = line_raw_cells(line, d);
    proof {
        crate::text::lemma_split_on_nonempty(crate::text::before_comment(line@), d);
    }
    parts[0].len() > 0 && get_i32(&parts, 0).is_none()
}

impl GatyaItemBuy {
    /// The icon the item is drawn with: its own where it names one, and the
    /// row's position otherwise.
    pub fn icon_index(&self, line: usize) -> (r: usize)
        ensures
            r == (if 0 <= self.img_id && self.img_id <= usize::MAX { self.img_id as usize } else { line }),
    {
        if self.img_id >= 0 {
            self.img_id as usize
        } else {
            line
        }
    }

    /// Reads one line of the catalogue into its item.
    pub fn from_csv_line(line: &[u8], d: u8) -> (r: Self)
        ensures
            r@ == item_of(raw_cells(line@, d)),
    {
        let parts = line_raw_cells(line, d);
        let comment = if COMMENT_INDEX < parts.len() {
            decode_lossy(parts[COMMENT_INDEX].as_slice())
        } else {
            String::new()
        };
        GatyaItemBuy {
            rarity: get_i32_or(&parts, 0, -1),
            reflect_or_storage: get_i32_or(&parts, 1, -1),
            price: get_i32_or(&parts, 2, -1),
            stage_drop_item_id: get_i32_or(&parts, 3, -1),
            quantity: get_i32_or(&parts, 4, -1),
            sever_id: get_i32_or(&parts, 5, -1),
            category: get_i32_or(&parts, 6, -1),
            index: get_i32_or(&parts, 7, -1),
            src_item_id: get_i32_or(&parts, 8, -1),
            main_menu_type: get_i32_or(&parts, 9, -1),
            gatya_ticket_id: get_i32_or(&parts, 10, -1),
            img_id: get_i32_or(&parts, 11, -1),
            comment,
            rest: trailing_all_ints(&parts, COMMENT_INDEX + 1),
        }
    }

    /// Parses the item catalogue into one item per line.
    ///
    /// A leading header line is dropped where the file carries one. Every
    /// other line yields an item, a blank or short one included, so an item's
    /// position is its line's position below the header.
    ///
    /// # Returns
    /// The items, or `GatyaItemBuyError::EmptyFile` exactly when no line below
    /// the header has content.
    pub fn parse(bytes: &[u8], separator: Option<Separator>) -> (r: Result<Vec<Self>, GatyaItemBuyError>)
        ensures
            ({
                let d = resolve_spec(separator, scrubbed(bytes@));
                let rows = item_lines(bytes@, d);
                match r {
                    Ok(v) => any_content(rows) && v@.len() == rows.len()
                        && forall|i: int| 0 <= i < rows.len() ==> #[trigger] v@[i]@ == item_of(raw_cells(rows[i], d)),
                    Err(e) => !any_content(rows) && e == GatyaItemBuyError::EmptyFile,
                }
            }),
    {
        let (lines, d) = open_table(bytes, separator);
        let ghost ls = views(lines@);
        let skip: usize = if lines.len() > 0 && is_header(lines[0].as_slice(), d) { 1 } else { 0 };
        let ghost rows = ls.skip(skip as int);
        proof {
            assert(rows =~= item_lines(bytes@, d));
        }
        let mut out: Vec<GatyaItemBuy> = Vec::new();
        let mut found = false;
        let mut i: usize = skip;
        assert(rows.take(0) =~= Seq::<Seq<u8>>::empty());
        while i < lines.len()
            invariant
                skip <= i <= lines@.len(),
                ls == views(lines@),
                rows == ls.skip(skip as int),
                out@.len() == i - skip,
                found == any_content(rows.take(i - skip)),
                forall|j: int| 0 <= j < i - skip ==> #[trigger] out@[j]@ == item_of(raw_cells(rows[j], d)),
            decreases lines@.len() - i,
        {
            proof {
                assert(rows.take(i - skip + 1).drop_last() =~= rows.take(i - skip));
                assert(rows.take(i - skip + 1).last() == lines@[i as int]@);
            }
            let line = lines[i].as_slice();
            if has_content(line) {
                found = true;
            }
            out.push(GatyaItemBuy::from_csv_line(line, d));
            i += 1;
        }
        assert(rows.take(i - skip) =~= rows);
        if !found {
            return Err(GatyaItemBuyError::EmptyFile);
        }
        Ok(out)
    }
}


/// The column mapping the GatyaItemBuy rows are read with, in the order it is applied.
pub open spec fn item_layout() -> Seq<Column> {
    seq![
        Column { field: "rarity", index: 0, scale: Scale::Raw, default: "-1" },
        Column { field: "reflect_or_storage", index: 1, scale: Scale::Raw, default: "-1" },
        Column { field: "price", index: 2, scale: Scale::Raw, default: "-1" },
        Column { field: "stage_drop_item_id", index: 3, scale: Scale::Raw, default: "-1" },
        Column { field: "quantity", index: 4, scale: Scale::Raw, default: "-1" },
        Column { field: "sever_id", index: 5, scale: Scale::Raw, default: "-1" },
        Column { field: "category", index: 6, scale: Scale::Raw, default: "-1" },
        Column { field: "index", index: 7, scale: Scale::Raw, default: "-1" },
        Column { field: "src_item_id", index: 8, scale: Scale::Raw, default: "-1" },
        Column { field: "main_menu_type", index: 9, scale: Scale::Raw, default: "-1" },
        Column { field: "gatya_ticket_id", index: 10, scale: Scale::Raw, default: "-1" },
        Column { field: "img_id", index: 11, scale: Scale::Raw, default: "-1" },
    ]
}

impl GatyaItemBuy {
    /// The column mapping this parser applies, in the order it applies it.
    ///
    /// Published so a consumer can read the layout of a row from the parser's
    /// own table instead of restating it.
    pub fn columns() -> (r: Vec<Column>)
        ensures
            r@ == item_layout(),
    {
        let r = vec![
            Column { field: "rarity", index: 0, scale: Scale::Raw, default: "-1" },
            Column { field: "reflect_or_storage", index: 1, scale: Scale::Raw, default: "-1" },
            Column { field: "price", index: 2, scale: Scale::Raw, default: "-1" },
            Column { field: "stage_drop_item_id", index: 3, scale: Scale::Raw, default: "-1" },
            Column { field: "quantity", index: 4, scale: Scale::Raw, default: "-1" },
            Column { field: "sever_id", index: 5, scale: Scale::Raw, default: "-1" },
            Column { field: "category", index: 6, scale: Scale::Raw, default: "-1" },
            Column { field: "index", index: 7, scale: Scale::Raw, default: "-1" },
            Column { field: "src_item_id", index: 8, scale: Scale::Raw, default: "-1" },
            Column { field: "main_menu_type", index: 9, scale: Scale::Raw, default: "-1" },
            Column { field: "gatya_ticket_id", index: 10, scale: Scale::Raw, default: "-1" },
            Column { field: "img_id", index: 11, scale: Scale::Raw, default: "-1" },
        ];
        assert(r@ =~= item_layout());
        r
    }
}

/// Every column of the catalogue layout reaches the field it names: in the item a row reads as, the field each column names holds the value that column reads.
pub proof fn lemma_columns_reach_their_fields(cells: Seq<Seq<u8>>)
    ensures
        item_layout()[0].field == "rarity" && Some(item_of(cells).rarity) == column_value::<i32>(item_layout()[0], cells),
        item_layout()[1].field == "reflect_or_storage" && Some(item_of(cells).reflect_or_storage) == column_value::<i32>(item_layout()[1], cells),
        item_layout()[2].field == "price" && Some(item_of(cells).price) == column_value::<i32>(item_layout()[2], cells),
        item_layout()[3].field == "stage_drop_item_id" && Some(item_of(cells).stage_drop_item_id) == column_value::<i32>(item_layout()[3], cells),
        item_layout()[4].field == "quantity" && Some(item_of(cells).quantity) == column_value::<i32>(item_layout()[4], cells),
        item_layout()[5].field == "sever_id" && Some(item_of(cells).sever_id) == column_value::<i32>(item_layout()[5], cells),
        item_layout()[6].field == "category" && Some(item_of(cells).category) == column_value::<i32>(item_layout()[6], cells),
        item_layout()[7].field == "index" && Some(item_of(cells).index) == column_value::<i32>(item_layout()[7], cells),
        item_layout()[8].field == "src_item_id" && Some(item_of(cells).src_item_id) == column_value::<i32>(item_layout()[8], cells),
        item_layout()[9].field == "main_menu_type" && Some(item_of(cells).main_menu_type) == column_value::<i32>(item_layout()[9], cells),
        item_layout()[10].field == "gatya_ticket_id" && Some(item_of(cells).gatya_ticket_id) == column_value::<i32>(item_layout()[10], cells),
        item_layout()[11].field == "img_id" && Some(item_of(cells).img_id) == column_value::<i32>(item_layout()[11], cells),
{
    let layout = item_layout();
    lemma_i32_column(cells, layout[0], -1i32);
    lemma_i32_column(cells, layout[1], -1i32);
    lemma_i32_column(cells, layout[2], -1i32);
    lemma_i32_column(cells, layout[3], -1i32);
    lemma_i32_column(cells, layout[4], -1i32);
    lemma_i32_column(cells, layout[5], -1i32);
    lemma_i32_column(cells, layout[6], -1i32);
    lemma_i32_column(cells, layout[7], -1i32);
    lemma_i32_column(cells, layout[8], -1i32);
    lemma_i32_column(cells, layout[9], -1i32);
    lemma_i32_column(cells, layout[10], -1i32);
    lemma_i32_column(cells, layout[11], -1i32);
}

} // verus!
