//! Delimiter detection, sanitizing, tag stripping and row lookup over raw
//! delimited text, with the delimiter always detected from the content.

use vstd::prelude::*;
use vstd::string::StringSliceAdditionalSpecFns;

use crate::common::file;
use crate::common::file::{lookup_spec, resolve_spec, strip_from, table_lines, tags_are_whole};
use crate::text::{
    is_clean_text, lemma_scrub_chars_clean, lemma_scrub_chars_keeps_clean, lemma_valid_part_of_valid,
    lemma_valid_part_valid, lossy_decode, scrub_chars, scrubbed, strip_invalid, valid_part,
};
use vstd::utf8::{decode_utf8, encode_utf8, encode_utf8_decode_utf8, encode_utf8_valid_utf8, valid_utf8};

verus! {

/// Determines the delimiter a payload is written with: a bar anywhere wins,
/// then the first tab or comma, and a comma where it has none.
pub fn detect_separator(text: &str) -> (c: char)
    ensures
        c as u8 == resolve_spec(None, text.spec_bytes()),
        (c as u32) < 128,
{
    file::resolve(None, text)
}

/// Converts raw bytes to a string, stripping every byte that is not part of a
/// valid UTF-8 encoding of a character, dropping byte-order marks and null
/// characters and normalizing line endings.
pub fn scrub(bytes: &[u8]) -> (text: String)
    ensures
        text@ == scrub_chars(decode_utf8(valid_part(bytes@))),
{
    let valid = strip_invalid(bytes);
    proof {
        lemma_valid_part_valid(bytes@);
    }
    file::scrub(valid.as_slice())
}

/// Scrubbed text holds no null character, byte-order mark or carriage return;
/// scrubbing its bytes again gives it back unchanged; and valid UTF-8 that holds
/// none of them is scrubbed into exactly the text it encodes, every byte kept.
pub proof fn lemma_scrub_laws(bytes: Seq<u8>)
    ensures
        valid_utf8(valid_part(bytes)),
        is_clean_text(scrub_chars(decode_utf8(valid_part(bytes)))),
        scrub_chars(decode_utf8(valid_part(encode_utf8(scrub_chars(decode_utf8(valid_part(bytes)))))))
            == scrub_chars(decode_utf8(valid_part(bytes))),
        valid_utf8(bytes) ==> valid_part(bytes) == bytes,
        valid_utf8(bytes) && is_clean_text(decode_utf8(bytes))
            ==> scrub_chars(decode_utf8(valid_part(bytes))) == decode_utf8(bytes),
{
    lemma_valid_part_valid(bytes);
    let t = scrub_chars(decode_utf8(valid_part(bytes)));
    lemma_scrub_chars_clean(decode_utf8(valid_part(bytes)));
    encode_utf8_valid_utf8(t);
    encode_utf8_decode_utf8(t);
    lemma_valid_part_of_valid(encode_utf8(t));
    lemma_scrub_chars_keeps_clean(t);
    if valid_utf8(bytes) {
        lemma_valid_part_of_valid(bytes);
        if is_clean_text(decode_utf8(bytes)) {
            lemma_scrub_chars_keeps_clean(decode_utf8(bytes));
        }
    }
}

/// Dictates how `<br>` tags are handled while stripping HTML.
#[derive(Debug, Clone, Copy, PartialEq, Eq)]
pub enum BreakHandling {
    /// Replaces `<br>` with a single space.
    Space,
    /// Replaces `<br>` with a newline character.
    Newline,
    /// Deletes the `<br>` tag without a substitute.
    Delete,
}

/// The handling of the current tag stripper that a handling names.
pub open spec fn handling_of(h: BreakHandling) -> file::BreakHandling {
    match h {
        BreakHandling::Space => file::BreakHandling::Space,
        BreakHandling::Newline => file::BreakHandling::Newline,
        BreakHandling::Delete => file::BreakHandling::Delete,
    }
}

/// Strips HTML tags from a string and processes `<br>` elements as
/// `handling` directs.
///
/// The result is never longer in bytes than the input, an input without `<`
/// comes back unchanged, and a `<` that no `>` follows is kept, with
/// everything after it, at the end of the result.
pub fn strip_html_tags(input: &str, handling: BreakHandling) -> (r: String)
    requires
        tags_are_whole(input.spec_bytes()),
    ensures
        r@ == lossy_decode(strip_from(Seq::empty(), input.spec_bytes(), handling_of(handling))),
        encode_utf8(r@).len() <= input.spec_bytes().len(),
        !input@.contains('<') ==> r@ == input@,
        forall|i: int| 0 <= i < input@.len() && input@[i] == '<' && !input@.skip(i).contains('>')
            ==> exists|p: Seq<char>| r@ == p + #[trigger] input@.skip(i),
{
    let h = match handling {
        BreakHandling::Space => file::BreakHandling::Space,
        BreakHandling::Newline => file::BreakHandling::Newline,
        BreakHandling::Delete => file::BreakHandling::Delete,
    };
    file::strip_html_tags(input, h)
}

/// Finds a row by one column's value and returns another column from it,
/// detecting the delimiter from the content. The content is read as [`scrub`]
/// reads it, every byte that is not part of a valid character stripped.
pub fn lookup(data: &[u8], key: &str, search_col: usize, target_col: usize) -> (r: Option<String>)
    ensures
        match lookup_spec(
            table_lines(valid_part(data@)),
            resolve_spec(None, scrubbed(valid_part(data@))),
            key.spec_bytes(),
            search_col as int,
            target_col as int,
        ) {
            Some(t) => r matches Some(v) && v@ == lossy_decode(t),
            None => r is None,
        },
{
    let valid = strip_invalid(data);
    file::lookup(valid.as_slice(), key, search_col, target_col, None)
}

} // verus!
