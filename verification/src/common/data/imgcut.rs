//! The layout of a sprite atlas's cut table.
//!
//! A cut table lists, one line per sprite, the rectangle each sprite occupies
//! in its atlas. The rectangles are decimal numbers and are read where floating
//! point is available; this module decides which lines are the sprite lines
//! and splits them into columns, and decodes the atlas image into pixels.

use vstd::prelude::*;

use crate::common::file::table_lines;
use crate::text::{strip_invalid, valid_part};
use crate::text::{contains_byte, lemma_views_push, split_bytes, split_on, to_u64, trim, trimmed, views};

verus! {

/// The largest sprite count a count line may declare, exclusive.
pub const SPRITE_LIMIT: u64 = 5000;

/// The lines of a table that are not blank once trimmed, in order.
pub open spec fn nonblank(lines: Seq<Seq<u8>>) -> Seq<Seq<u8>>
    decreases lines.len(),
{
    if lines.len() == 0 {
        Seq::empty()
    } else if trim(lines.last()).len() > 0 {
        nonblank(lines.drop_last()).push(lines.last())
    } else {
        nonblank(lines.drop_last())
    }
}

/// The sprite count a line declares: a line without a comma whose trimmed
/// text reads as a count between one and 4999.
pub open spec fn declared_count(line: Seq<u8>) -> Option<int> {
    if line.contains(0x2cu8) {
        None
    } else {
        match crate::text::spec_u64(trim(line)) {
            Some(c) => if 0 < c < SPRITE_LIMIT { Some(c as int) } else { None },
            None => None,
        }
    }
}

/// The scan for the count line from line `i` on, given whether one has been
/// found and the count and first sprite line it gave. A line with a comma
/// ends the scan once a count has been found and is passed over before; a
/// later count line overrides an earlier one.
pub open spec fn scan(lines: Seq<Seq<u8>>, i: int, found: bool, count: int, start: int) -> (bool, int, int)
    decreases lines.len() - i,
{
    if i < 0 || i >= lines.len() {
        (found, count, start)
    } else if lines[i].contains(0x2cu8) {
        if found { (found, count, start) } else { scan(lines, i + 1, found, count, start) }
    } else {
        match declared_count(lines[i]) {
            Some(c) => scan(lines, i + 1, true, c, i + 1),
            None => scan(lines, i + 1, found, count, start),
        }
    }
}

/// The first sprite line and the number of sprites: those a count line
/// declares, or every line from the first when no line declares a count.
pub open spec fn cut_layout(lines: Seq<Seq<u8>>) -> (int, int) {
    let (found, count, start) = scan(lines, 0, false, 0, 0);
    if found && count > 0 { (start, count) } else { (0, lines.len() as int) }
}

/// The comma separated columns of each sprite line of a cut table, sprite by
/// sprite; the table stops short where its lines run out.
pub open spec fn cut_rows(imgcut: Seq<u8>) -> Seq<Seq<Seq<u8>>> {
    let lines = nonblank(table_lines(valid_part(imgcut)));
    let (start, count) = cut_layout(lines);
    let n = if start + count <= lines.len() { count } else if start <= lines.len() { lines.len() - start } else { 0 };
    Seq::new(n as nat, |k: int| split_on(lines[start + k], 0x2cu8))
}

/// The columns of a table of column lists.
pub open spec fn table_views(v: Seq<Vec<Vec<u8>>>) -> Seq<Seq<Seq<u8>>> {
    v.map_values(|row: Vec<Vec<u8>>| views(row@))
}

/// Splits a sprite atlas's cut table into the columns of its sprite lines,
/// the sprite's index being its position in the result.
///
/// Blank lines are passed over. A line holding a count between one and 4999
/// and no comma marks the sprite lines as the ones after it; without one,
/// every line is a sprite line. Every byte that is not part of a valid UTF-8
/// character is stripped first.
pub fn sprite_rows(imgcut: &[u8]) -> (r: Vec<Vec<Vec<u8>>>)
    ensures
        table_views(r@) == cut_rows(imgcut@),
{
    let valid = strip_invalid(imgcut);
    let content = crate::text::scrub_bytes(valid.as_slice());
    let all = crate::text::split_lines(content.as_slice());
    let ghost all_v = views(all@);
    proof {
        assert(all_v == table_lines(valid_part(imgcut@)));
    }
    let mut lines: Vec<Vec<u8>> = Vec::new();
    let mut i: usize = 0;
    while i < all.len()
        invariant
            i <= all@.len(),
            all_v == views(all@),
            views(lines@) == nonblank(all_v.take(i as int)),
        decreases all@.len() - i,
    {
        proof {
            assert(all_v.take(i + 1).drop_last() =~= all_v.take(i as int));
            assert(all_v.take(i + 1).last() == all@[i as int]@);
        }
        let t = trimmed(all[i].as_slice());
        if t.len() > 0 {
            let line = all[i].clone();
            proof {
                lemma_views_push(lines@, line);
            }
            lines.push(line);
        }
        i += 1;
    }
    proof {
        assert(all_v.take(i as int) =~= all_v);
    }
    let ghost ls = views(lines@);
    let mut found = false;
    let mut count: usize = 0;
    let mut start: usize = 0;
    let mut j: usize = 0;
    while j < lines.len()
        invariant_except_break
            j <= lines@.len(),
            ls == views(lines@),
            scan(ls, j as int, found, count as int, start as int) == scan(ls, 0, false, 0, 0),
            start <= lines@.len(),
        ensures
            ls == views(lines@),
            (found, count as int, start as int) == scan(ls, 0, false, 0, 0),
            start <= lines@.len(),
        decreases lines@.len() - j,
    {
        let line = lines[j].as_slice();
        if contains_byte(line, 0x2c) {
            if found {
                break;
            }
        } else {
            let t = trimmed(line);
            match to_u64(t.as_slice()) {
                Some(c) => {
                    if 0 < c && c < SPRITE_LIMIT {
                        count = c as usize;
                        start = j + 1;
                        found = true;
                    }
                },
                None => {},
            }
        }
        j += 1;
    }
    if !found || count == 0 {
        start = 0;
        count = lines.len();
    }
    let mut rows: Vec<Vec<Vec<u8>>> = Vec::new();
    let mut k: usize = 0;
    let ghost n: int = if start + count <= ls.len() { count as int } else { ls.len() - start };
    while k < count
        invariant_except_break
            k <= count,
            ls == views(lines@),
            start <= lines@.len(),
            n == (if start + count <= ls.len() { count as int } else { ls.len() - start }),
            k <= n,
            table_views(rows@) =~= Seq::new(k as nat, |m: int| split_on(ls[start + m], 0x2cu8)),
        ensures
            table_views(rows@) =~= Seq::new(n as nat, |m: int| split_on(ls[start + m], 0x2cu8)),
        decreases count - k,
    {
        if k >= lines.len() - start {
            break;
        }
        let parts = split_bytes(lines[start + k].as_slice(), 0x2c);
        let ghost before = rows@;
        rows.push(parts);
        proof {
            assert(table_views(rows@) =~= table_views(before).push(views(parts@)));
        }
        k += 1;
    }
    rows
}

/// The size and the 8-bit RGBA pixels, row by row, that the `image` crate
/// decodes a PNG atlas into, or `None` when it cannot decode the bytes.
pub uninterp spec fn atlas_pixels(png: Seq<u8>) -> Option<(u32, u32, Seq<u8>)>;

/// Decodes an atlas with `image::load_from_memory` and converts it to 8-bit
/// RGBA with `to_rgba8`.
///
/// Trusted: the result is the named `atlas_pixels` of the bytes, `None`
/// exactly when the image crate reports an error. What the pixels of a given
/// image are is left to the image crate.
#[verifier::external_body]
fn load_rgba(png: &[u8]) -> (r: Option<(u32, u32, Vec<u8>)>)
    ensures
        match r {
            Some(t) => atlas_pixels(png@) == Some((t.0, t.1, t.2@)),
            None => atlas_pixels(png@) is None,
        },
{
    match image::load_from_memory(png) {
        Ok(decoded) => {
            let rgba = decoded.to_rgba8();
            Some((rgba.width(), rgba.height(), rgba.into_raw()))
        },
        Err(_) => None,
    }
}

/// A decoded atlas: its size and its 8-bit RGBA pixels, row by row.
#[derive(Debug, Clone, PartialEq, Eq)]
pub struct Atlas {
    /// The width in pixels.
    pub width: u32,
    /// The height in pixels.
    pub height: u32,
    /// Four bytes per pixel: red, green, blue and alpha.
    pub pixels: Vec<u8>,
}

/// RGBA pixels with the colour of every fully transparent pixel cleared to
/// zero; other pixels, and bytes past the last whole pixel, are kept.
pub open spec fn cleared(p: Seq<u8>) -> Seq<u8> {
    Seq::new(p.len(), |k: int| {
        let base = k - k % 4;
        if k % 4 != 3 && base + 3 < p.len() && p[base + 3] == 0 { 0u8 } else { p[k] }
    })
}

/// The byte `j` places into the pixel starting at `i` is that pixel's byte `j`.
proof fn lemma_within_pixel(i: int, j: int)
    by (nonlinear_arith)
    requires
        i >= 0,
        i % 4 == 0,
        0 <= j < 4,
    ensures
        (i + j) % 4 == j,
{
}

/// Decodes a sprite atlas into RGBA pixels and clears the colour of every
/// fully transparent pixel, the part of premultiplying by alpha that needs no
/// floating point.
///
/// # Returns
/// The atlas, or `None` exactly when the image cannot be decoded.
pub fn decode_atlas(png: &[u8]) -> (r: Option<Atlas>)
    ensures
        match atlas_pixels(png@) {
            Some((w, h, p)) => r matches Some(a) && a.width == w && a.height == h && a.pixels@ == cleared(p),
            None => r is None,
        },
{
    let (width, height, mut pixels) = match load_rgba(png) {
        Some(t) => t,
        None => return None,
    };
    let ghost orig = pixels@;
    let n = pixels.len();
    let mut i: usize = 0;
    while n - i >= 4
        invariant
            n == pixels@.len(),
            n == orig.len(),
            i <= n,
            i % 4 == 0,
            forall|k: int| 0 <= k < i ==> #[trigger] pixels@[k] == cleared(orig)[k],
            forall|k: int| i <= k < n ==> #[trigger] pixels@[k] == orig[k],
        decreases n - i,
    {
        if pixels[i + 3] == 0 {
            pixels.set(i, 0);
            pixels.set(i + 1, 0);
            pixels.set(i + 2, 0);
        }
        proof {
            assert forall|k: int| i <= k < i + 4 implies #[trigger] pixels@[k] == cleared(orig)[k] by {
                lemma_within_pixel(i as int, k - i);
            }
        }
        i += 4;
    }
    proof {
        assert forall|k: int| i <= k < n implies #[trigger] pixels@[k] == cleared(orig)[k] by {
            lemma_within_pixel(i as int, k - i);
        }
        assert(pixels@ =~= cleared(orig));
    }
    Some(Atlas { width, height, pixels })
}

} // verus!
