//! Sanitization and structural probing of raw delimited text files.
//!
//! Which delimiter a file uses is a property of the file rather than of its
//! bytes: a localized table is pipe delimited in most languages and comma
//! delimited in others, and a name carrying a comma makes the two
//! indistinguishable from the content alone. A parser therefore takes the
//! delimiter from its caller, and falls back to [`Separator::detect`] only when
//! the caller states none.

use vstd::prelude::*;
use vstd::string::StringSliceAdditionalSpecFns;
use crate::text::{
    cells_of, contains_byte, content_of, copy_range, decode_lossy, find_tab_or_comma, first_tab_or_comma,
    has_content, line_cells, lines_of, lossy_decode, same_bytes, scrub_bytes, scrubbed, split_bytes, split_lines,
    split_on, trim, trimmed, views, COMMA, NL, PIPE, TAB, scrub_chars, scrub_raw, is_clean_text,
    lemma_scrubbed_valid, lemma_scrub_chars_clean, lemma_scrub_chars_keeps_clean, lemma_first_char,
};
use vstd::utf8::{
    char_is_scalar, char_u32_cast, decode_utf8, decode_utf8_encode_utf8, decode_utf8_split, encode_scalar, encode_utf8,
    encode_utf8_decode_utf8, encode_utf8_valid_utf8, is_char_boundary_iff_not_is_continuation_byte,
    is_char_boundary_start_end_of_seq, is_scalar, last_continuation_byte, leading_byte_width_1,
    leading_byte_width_2, leading_byte_width_3, leading_byte_width_4, pop_first_scalar,
    second_last_continuation_byte, third_last_continuation_byte, valid_utf8, valid_utf8_concat, valid_utf8_split,
};

verus! {

/// A delimiter one of the engine's delimited text files separates its columns with.
#[derive(Debug, Clone, Copy, PartialEq, Eq, Hash)]
pub enum Separator {
    /// A vertical bar, used by most localized text tables.
    Pipe,
    /// A horizontal tab.
    Tab,
    /// A comma, used by the mechanical tables and by the Japanese text tables.
    Comma,
}

/// The byte a delimiter is written as.
pub open spec fn sep_byte(s: Separator) -> u8 {
    match s {
        Separator::Pipe => PIPE,
        Separator::Tab => TAB,
        Separator::Comma => COMMA,
    }
}

/// The delimiter a payload appears to be written with: a bar anywhere wins,
/// and otherwise the first tab or comma decides.
pub open spec fn detect_spec(text: Seq<u8>) -> Option<Separator> {
    if text.contains(PIPE) {
        Some(Separator::Pipe)
    } else {
        match first_tab_or_comma(text) {
            Some(b) => if b == TAB { Some(Separator::Tab) } else { Some(Separator::Comma) },
            None => None,
        }
    }
}

/// The delimiter byte a parser splits on: the stated one, else the detected
/// one, else a comma.
pub open spec fn resolve_spec(separator: Option<Separator>, text: Seq<u8>) -> u8 {
    match separator {
        Some(s) => sep_byte(s),
        None => match detect_spec(text) {
            Some(s) => sep_byte(s),
            None => COMMA,
        },
    }
}

pub proof fn lemma_first_tab_or_comma(s: Seq<u8>)
    ensures
        first_tab_or_comma(s) matches Some(b) ==> b == TAB || b == COMMA,
    decreases s.len(),
{
    if s.len() > 0 {
        lemma_first_tab_or_comma(s.skip(1));
    }
}

impl Separator {
    /// Every delimiter the engine's delimited files are written with.
    pub const ALL: [Separator; 3] = [Separator::Pipe, Separator::Tab, Separator::Comma];

    /// The delimiter a payload appears to be written with.
    ///
    /// A bar anywhere in the payload wins outright, and otherwise the first tab
    /// or comma decides, so a file whose first field carries a comma before its
    /// first real delimiter is misread. A caller that knows the file should
    /// state the delimiter instead.
    pub fn detect(text: &str) -> (r: Option<Self>)
        ensures
            r == detect_spec(text.spec_bytes()),
    {
        detect_bytes(text.as_bytes())
    }

    /// The character this delimiter is written as.
    pub fn char(self) -> (c: char)
        ensures
            c as u8 == sep_byte(self),
            (c as u32) < 128,
    {
        match self {
            Separator::Pipe => '|',
            Separator::Tab => '\t',
            Separator::Comma => ',',
        }
    }

    /// The byte this delimiter is written as.
    pub fn byte(self) -> (b: u8)
        ensures
            b == sep_byte(self),
    {
        match self {
            Separator::Pipe => PIPE,
            Separator::Tab => TAB,
            Separator::Comma => COMMA,
        }
    }

    /// Splits one line into its columns on this delimiter.
    ///
    /// # Returns
    /// The line's columns, exactly as they are written.
    pub fn split(self, line: &str) -> (cols: Vec<String>)
        ensures
            cols@.len() == split_on(line.spec_bytes(), sep_byte(self)).len(),
            forall|i: int| 0 <= i < cols@.len() ==>
                #[trigger] cols@[i]@ == lossy_decode(split_on(line.spec_bytes(), sep_byte(self))[i]),
    {
        let pieces = split_bytes(line.as_bytes(), self.byte());
        let mut cols: Vec<String> = Vec::new();
        let mut i: usize = 0;
        while i < pieces.len()
            invariant
                i <= pieces@.len(),
                views(pieces@) == split_on(line.spec_bytes(), sep_byte(self)),
                cols@.len() == i,
                forall|k: int| 0 <= k < i ==> #[trigger] cols@[k]@ == lossy_decode(views(pieces@)[k]),
            decreases pieces@.len() - i,
        {
            cols.push(decode_lossy(pieces[i].as_slice()));
            i += 1;
        }
        cols
    }
}

/// The delimiters are listed bar first, then tab, then comma, and each is
/// written as its own character.
pub proof fn lemma_all_separators()
    ensures
        Separator::ALL@ == seq![Separator::Pipe, Separator::Tab, Separator::Comma],
        sep_byte(Separator::Pipe) == '|' as u8,
        sep_byte(Separator::Tab) == '\t' as u8,
        sep_byte(Separator::Comma) == ',' as u8,
{
    assert(Separator::ALL@ =~= seq![Separator::Pipe, Separator::Tab, Separator::Comma]);
}

/// The delimiter a sanitized payload appears to be written with.
pub fn detect_bytes(text: &[u8]) -> (r: Option<Separator>)
    ensures
        r == detect_spec(text@),
{
    if contains_byte(text, PIPE) {
        return Some(Separator::Pipe);
    }
    proof {
        lemma_first_tab_or_comma(text@);
    }
    match find_tab_or_comma(text) {
        Some(b) => if b == TAB { Some(Separator::Tab) } else { Some(Separator::Comma) },
        None => None,
    }
}

/// The delimiter byte to split a sanitized payload on.
pub fn delimiter(separator: Option<Separator>, text: &[u8]) -> (d: u8)
    ensures
        d == resolve_spec(separator, text@),
{
    match separator {
        Some(s) => s.byte(),
        None => match detect_bytes(text) {
            Some(s) => s.byte(),
            None => COMMA,
        },
    }
}

/// The delimiter a parser splits on: the stated one, else the one the text
/// appears to use, else a comma.
pub fn resolve(separator: Option<Separator>, text: &str) -> (c: char)
    ensures
        c as u8 == resolve_spec(separator, text.spec_bytes()),
        (c as u32) < 128,
{
    match separator {
        Some(s) => s.char(),
        None => match Separator::detect(text) {
            Some(s) => s.char(),
            None => ',',
        },
    }
}

/// Converts raw bytes to a string, dropping byte-order marks and null
/// characters and normalizing line endings.
pub fn scrub(bytes: &[u8]) -> (text: String)
    ensures
        text@ == scrub_chars(lossy_decode(bytes@)),
{
    let decoded = decode_lossy(bytes);
    let raw: &[u8] = decoded.as_str().as_bytes();
    let clean = scrub_raw(raw);
    proof {
        encode_utf8_valid_utf8(decoded@);
        encode_utf8_decode_utf8(decoded@);
        lemma_scrubbed_valid(raw@);
    }
    decode_lossy(clean.as_slice())
}

/// Scrubbed text holds no null character, byte-order mark or carriage return;
/// scrubbing its bytes again gives it back unchanged; and valid UTF-8 that holds
/// none of them is scrubbed into exactly the text it encodes.
pub proof fn lemma_scrub_laws(bytes: Seq<u8>)
    ensures
        is_clean_text(scrub_chars(lossy_decode(bytes))),
        scrub_chars(lossy_decode(encode_utf8(scrub_chars(lossy_decode(bytes)))))
            == scrub_chars(lossy_decode(bytes)),
        valid_utf8(bytes) && is_clean_text(decode_utf8(bytes))
            ==> scrub_chars(lossy_decode(bytes)) == decode_utf8(bytes),
{
    let t = scrub_chars(lossy_decode(bytes));
    lemma_scrub_chars_clean(lossy_decode(bytes));
    encode_utf8_valid_utf8(t);
    encode_utf8_decode_utf8(t);
    lemma_scrub_chars_keeps_clean(t);
    if valid_utf8(bytes) && is_clean_text(decode_utf8(bytes)) {
        lemma_scrub_chars_keeps_clean(decode_utf8(bytes));
    }
}

/// A sanitized table: its lines and the delimiter its columns are split on.
pub open spec fn table_lines(bytes: Seq<u8>) -> Seq<Seq<u8>> {
    lines_of(scrubbed(bytes))
}

/// Sanitizes a raw table and splits it into lines, resolving its delimiter.
pub fn open_table(bytes: &[u8], separator: Option<Separator>) -> (r: (Vec<Vec<u8>>, u8))
    ensures
        views(r.0@) == table_lines(bytes@),
        r.1 == resolve_spec(separator, scrubbed(bytes@)),
{
    let content = scrub_bytes(bytes);
    let d = delimiter(separator, content.as_slice());
    let lines = split_lines(content.as_slice());
    (lines, d)
}

/// How `<br>` tags are substituted when stripping HTML.
#[derive(Debug, Clone, Copy, PartialEq, Eq)]
pub enum BreakHandling {
    /// Replaces `<br>` with a single space, collapsing runs.
    Space,
    /// Replaces `<br>` with a newline character.
    Newline,
    /// Deletes the `<br>` tag without a substitute.
    Delete,
}

/// The position of the first `b` in `s`.
pub open spec fn index_of(s: Seq<u8>, b: u8) -> Option<int>
    decreases s.len(),
{
    if s.len() == 0 {
        None
    } else if s[0] == b {
        Some(0)
    } else {
        match index_of(s.skip(1), b) {
            Some(i) => Some(i + 1),
            None => None,
        }
    }
}

pub proof fn lemma_index_of(s: Seq<u8>, b: u8)
    ensures
        index_of(s, b) matches Some(i) ==> 0 <= i < s.len() && s[i] == b
            && forall|j: int| 0 <= j < i ==> s[j] != b,
        index_of(s, b) is None ==> forall|j: int| 0 <= j < s.len() ==> s[j] != b,
    decreases s.len(),
{
    if s.len() > 0 {
        lemma_index_of(s.skip(1), b);
        assert forall|j: int| 1 <= j < s.len() implies s[j] == s.skip(1)[j - 1] by {}
    }
}

/// The first position of `b` is the first one no earlier byte matches.
pub proof fn lemma_index_of_at(s: Seq<u8>, b: u8, i: int)
    requires
        0 <= i <= s.len(),
        forall|j: int| 0 <= j < i ==> s[j] != b,
    ensures
        i < s.len() && s[i] == b ==> index_of(s, b) == Some(i),
        i == s.len() ==> index_of(s, b) is None,
    decreases i,
{
    if i > 0 {
        assert forall|j: int| 0 <= j < i - 1 implies s.skip(1)[j] != b by {
            assert(s.skip(1)[j] == s[j + 1]);
        }
        lemma_index_of_at(s.skip(1), b, i - 1);
    }
}

/// The bytes `<br`.
pub open spec fn br_open() -> Seq<u8> {
    seq![60u8, 98, 114]
}

/// Whether a tag is a `<br>` tag: it opens with `<br` in any case.
pub open spec fn is_break_tag(tag: Seq<u8>) -> bool {
    tag.len() >= 3 && crate::text::eq_ignore_ascii_case(tag.take(3), br_open())
}

/// What a `<br>` tag leaves behind, given the text stripped so far and the
/// text that follows the tag.
pub open spec fn break_output(out: Seq<u8>, rest: Seq<u8>, h: BreakHandling) -> Seq<u8> {
    match h {
        BreakHandling::Space => if (out.len() > 0 && out.last() == 32) || (rest.len() > 0 && rest[0] == 32) {
            out
        } else {
            out.push(32)
        },
        BreakHandling::Newline => out.push(NL),
        BreakHandling::Delete => out,
    }
}

/// The text stripped of its tags, appended to `out`: everything outside a
/// `<...>` pair is kept, a `<br>` tag is substituted as `h` directs, and an
/// unclosed `<` keeps the rest of the text as it is.
pub open spec fn strip_from(out: Seq<u8>, rest: Seq<u8>, h: BreakHandling) -> Seq<u8>
    decreases rest.len(),
{
    match index_of(rest, 60) {
        None => out + rest,
        Some(st) => {
            proof { lemma_index_of(rest, 60); }
            let out1 = out + rest.take(st);
            let after = rest.skip(st);
            match index_of(after, 62) {
                None => out1 + after,
                Some(e) => {
                    proof { lemma_index_of(after, 62); }
                    let tag = after.take(e + 1);
                    let rest2 = after.skip(e + 1);
                    let out2 = if is_break_tag(tag) { break_output(out1, rest2, h) } else { out1 };
                    strip_from(out2, rest2, h)
                },
            }
        },
    }
}

/// Whether the first three bytes of a tag cut a character in two, which the
/// tag test cannot do.
pub open spec fn cuts_a_character(tag: Seq<u8>) -> bool {
    tag.len() > 3 && 0x80 <= tag[3] && tag[3] <= 0xBF
}

/// Whether every tag of the text leaves its first three bytes whole.
pub open spec fn tags_are_whole(rest: Seq<u8>) -> bool
    decreases rest.len(),
{
    match index_of(rest, 60) {
        None => true,
        Some(st) => {
            proof { lemma_index_of(rest, 60); }
            let after = rest.skip(st);
            match index_of(after, 62) {
                None => true,
                Some(e) => {
                    proof { lemma_index_of(after, 62); }
                    !cuts_a_character(after.take(e + 1)) && tags_are_whole(after.skip(e + 1))
                },
            }
        },
    }
}

fn find_byte(s: &[u8], from: usize, b: u8) -> (r: Option<usize>)
    requires
        from <= s.len(),
    ensures
        match r {
            Some(i) => from <= i < s.len() && index_of(s@.skip(from as int), b) == Some(i - from),
            None => index_of(s@.skip(from as int), b) is None,
        },
{
    let mut i: usize = from;
    while i < s.len()
        invariant
            from <= i <= s.len(),
            forall|j: int| from <= j < i ==> s@[j] != b,
        decreases s.len() - i,
    {
        if s[i] == b {
            proof {
                assert forall|j: int| 0 <= j < i - from implies s@.skip(from as int)[j] != b by {
                    assert(s@.skip(from as int)[j] == s@[from + j]);
                }
                lemma_index_of_at(s@.skip(from as int), b, i - from);
            }
            return Some(i);
        }
        i += 1;
    }
    proof {
        assert forall|j: int| 0 <= j < i - from implies s@.skip(from as int)[j] != b by {
            assert(s@.skip(from as int)[j] == s@[from + j]);
        }
        lemma_index_of_at(s@.skip(from as int), b, i - from);
    }
    None
}

/// Strips HTML tags from the bytes of a text, substituting `<br>` tags.
pub fn strip_tags_bytes(s: &[u8], handling: BreakHandling) -> (out: Vec<u8>)
    requires
        tags_are_whole(s@),
    ensures
        out@ == strip_from(Seq::empty(), s@, handling),
{
    let mut out: Vec<u8> = Vec::new();
    let mut pos: usize = 0;
    assert(s@.skip(0) =~= s@);
    loop
        invariant
            pos <= s.len(),
            strip_from(out@, s@.skip(pos as int), handling) == strip_from(Seq::empty(), s@, handling),
            tags_are_whole(s@.skip(pos as int)),
        decreases s.len() - pos,
    {
        let ghost rest = s@.skip(pos as int);
        let ghost old_out = out@;
        let start = match find_byte(s, pos, 60) {
            Some(i) => i,
            None => {
                let tail = copy_range(s, pos, s.len());
                assert(tail@ =~= rest);
                out.extend_from_slice(tail.as_slice());
                assert(out@ =~= old_out + rest);
                return out;
            },
        };
        let head = copy_range(s, pos, start);
        assert(head@ =~= rest.take(start - pos));
        out.extend_from_slice(head.as_slice());
        let ghost out1 = out@;
        proof {
            assert(out1 =~= old_out + rest.take(start - pos));
            assert(rest.skip(start - pos) =~= s@.skip(start as int));
        }
        let end = match find_byte(s, start, 62) {
            Some(e) => e,
            None => {
                let tail = copy_range(s, start, s.len());
                assert(tail@ =~= s@.skip(start as int));
                out.extend_from_slice(tail.as_slice());
                assert(out@ =~= out1 + s@.skip(start as int));
                return out;
            },
        };
        let ghost after = s@.skip(start as int);
        let ghost tag = after.take(end - start + 1);
        let ghost rest2 = after.skip(end - start + 1);
        proof {
            assert(s@.subrange(start as int, end + 1) =~= tag);
            assert(rest2 =~= s@.skip(end + 1));
        }
        let is_break = if end + 1 - start >= 3 {
            let first = copy_range(s, start, start + 3);
            assert(first@ =~= tag.take(3));
            let br: [u8; 3] = [60, 98, 114];
            assert(br@ =~= br_open());
            crate::text::same_ignoring_case(first.as_slice(), &br)
        } else {
            false
        };
        let next = end + 1;
        if is_break {
            match handling {
                BreakHandling::Space => {
                    let ends_in_space = out.len() > 0 && out[out.len() - 1] == 32;
                    let starts_with_space = next < s.len() && s[next] == 32;
                    proof {
                        if next < s.len() {
                            assert(rest2[0] == s@[next as int]);
                        }
                    }
                    if !ends_in_space && !starts_with_space {
                        out.push(32);
                    }
                },
                BreakHandling::Newline => {
                    out.push(NL);
                },
                BreakHandling::Delete => {},
            }
        }
        proof {
            assert(out@ == (if is_break_tag(tag) { break_output(out1, rest2, handling) } else { out1 }));
            assert(strip_from(old_out, rest, handling) == strip_from(out@, rest2, handling));
            assert(tags_are_whole(rest2));
        }
        pos = next;
    }
}

/// Strips HTML tags from a string, substituting `<br>` tags as `handling`
/// directs.
///
/// The result is never longer in bytes than the input, an input without `<`
/// comes back unchanged, and a `<` that no `>` follows is kept, with
/// everything after it, at the end of the result.
///
/// Everything outside a `<...>` pair is kept. A `<br>` tag, matched without
/// regard to case, becomes a newline, nothing, or a single space that is left
/// out where the text on either side already has one. An unclosed `<` keeps
/// the rest of the text as it is.
pub fn strip_html_tags(input: &str, handling: BreakHandling) -> (r: String)
    requires
        tags_are_whole(input.spec_bytes()),
    ensures
        r@ == lossy_decode(strip_from(Seq::empty(), input.spec_bytes(), handling)),
        encode_utf8(r@).len() <= input.spec_bytes().len(),
        !input@.contains('<') ==> r@ == input@,
        forall|i: int| 0 <= i < input@.len() && input@[i] == '<' && !input@.skip(i).contains('>')
            ==> exists|p: Seq<char>| r@ == p + #[trigger] input@.skip(i),
{
    let out = strip_tags_bytes(input.as_bytes(), handling);
    proof {
        lemma_stripped_text(input@, handling);
    }
    decode_lossy(out.as_slice())
}

/// Stripping tags never adds bytes beyond those already stripped and those
/// still to come.
pub proof fn lemma_strip_len(out: Seq<u8>, rest: Seq<u8>, h: BreakHandling)
    ensures
        strip_from(out, rest, h).len() <= out.len() + rest.len(),
    decreases rest.len(),
{
    lemma_index_of(rest, 60);
    if let Some(st) = index_of(rest, 60) {
        let after = rest.skip(st);
        lemma_index_of(after, 62);
        if let Some(e) = index_of(after, 62) {
            assert(e >= 1) by {
                assert(after[0] == 60);
            }
            let tag = after.take(e + 1);
            let rest2 = after.skip(e + 1);
            let out1 = out + rest.take(st);
            let out2 = if is_break_tag(tag) { break_output(out1, rest2, h) } else { out1 };
            assert(out2.len() <= out1.len() + 1);
            lemma_strip_len(out2, rest2, h);
        }
    }
}

/// Stripping tags never lengthens a text; a text without `<` comes out as it
/// went in; and where the first `<` is never followed by a `>`, the whole text
/// is kept as it is.
pub proof fn lemma_strip_laws(s: Seq<u8>, h: BreakHandling)
    ensures
        strip_from(Seq::empty(), s, h).len() <= s.len(),
        !s.contains(60) ==> strip_from(Seq::empty(), s, h) == s,
        (index_of(s, 60) matches Some(st) && !s.skip(st).contains(62))
            ==> strip_from(Seq::empty(), s, h) == s,
{
    lemma_strip_len(Seq::empty(), s, h);
    lemma_index_of(s, 60);
    if !s.contains(60) {
        if let Some(st) = index_of(s, 60) {
            assert(s[st] == 60);
        }
        assert(Seq::<u8>::empty() + s =~= s);
    }
    if let Some(st) = index_of(s, 60) {
        let after = s.skip(st);
        lemma_index_of(after, 62);
        if !after.contains(62) {
            if let Some(e) = index_of(after, 62) {
                assert(after[e] == 62);
            }
            assert(Seq::<u8>::empty() + s.take(st) + after =~= s);
        }
    }
}

/// A `<` that no `>` follows is kept, together with everything after it,
/// exactly as it is written: the stripped text ends with it.
pub proof fn lemma_unclosed_tail_kept(out: Seq<u8>, x: Seq<u8>, y: Seq<u8>, h: BreakHandling)
    requires
        y.len() > 0,
        y[0] == 60,
        !y.contains(62),
    ensures
        exists|p: Seq<u8>| strip_from(out, x + y, h) == p + y,
    decreases x.len(),
{
    let rest = x + y;
    lemma_index_of(rest, 60);
    assert(rest[x.len() as int] == 60);
    let st = index_of(rest, 60)->0;
    assert(st <= x.len());
    let after = rest.skip(st);
    lemma_index_of(after, 62);
    let out1 = out + rest.take(st);
    match index_of(after, 62) {
        None => {
            assert(out1 + after =~= (out1 + x.skip(st)) + y);
        },
        Some(e) => {
            if st + e >= x.len() {
                assert(y[st + e - x.len()] == after[e]);
                assert(y.contains(62));
            }
            let tag = after.take(e + 1);
            let rest2 = after.skip(e + 1);
            let out2 = if is_break_tag(tag) { break_output(out1, rest2, h) } else { out1 };
            let x2 = x.skip(st + e + 1);
            assert(rest2 =~= x2 + y);
            lemma_unclosed_tail_kept(out2, x2, y, h);
        },
    }
}

/// A valid UTF-8 sequence splits into two valid halves, decoded one after
/// the other, in front of any ASCII byte and at its end.
proof fn lemma_split_at_ascii(b: Seq<u8>, i: int)
    requires
        valid_utf8(b),
        0 <= i <= b.len(),
        i == b.len() || b[i] < 0x80,
    ensures
        valid_utf8(b.take(i)),
        valid_utf8(b.skip(i)),
        decode_utf8(b) == decode_utf8(b.take(i)) + decode_utf8(b.skip(i)),
{
    if i == b.len() {
        is_char_boundary_start_end_of_seq(b);
    } else {
        is_char_boundary_iff_not_is_continuation_byte(b, i);
    }
    valid_utf8_split(b, i);
    decode_utf8_split(b, i);
    assert(b.take(i) =~= b.subrange(0, i));
    assert(b.skip(i) =~= b.subrange(i, b.len() as int));
}

/// One ASCII byte on its own is valid UTF-8.
proof fn lemma_ascii_byte_valid(c: u8)
    requires
        c < 0x80,
    ensures
        valid_utf8(seq![c]),
{
    assert(((c & 0x7F) as u32) <= 0x7f) by (bit_vector)
        requires
            c < 0x80,
    ;
    assert(pop_first_scalar(seq![c]) =~= Seq::<u8>::empty());
    reveal_with_fuel(valid_utf8, 2);
}

/// Stripping the tags of valid UTF-8 onto valid UTF-8 gives valid UTF-8:
/// every cut falls before a `<` or after a `>`, and every substitute is ASCII.
proof fn lemma_strip_valid(out: Seq<u8>, rest: Seq<u8>, h: BreakHandling)
    requires
        valid_utf8(out),
        valid_utf8(rest),
    ensures
        valid_utf8(strip_from(out, rest, h)),
    decreases rest.len(),
{
    lemma_index_of(rest, 60);
    match index_of(rest, 60) {
        None => {
            valid_utf8_concat(out, rest);
        },
        Some(st) => {
            lemma_split_at_ascii(rest, st);
            let out1 = out + rest.take(st);
            valid_utf8_concat(out, rest.take(st));
            let after = rest.skip(st);
            lemma_index_of(after, 62);
            match index_of(after, 62) {
                None => {
                    valid_utf8_concat(out1, after);
                },
                Some(e) => {
                    lemma_split_at_ascii(after, e);
                    let from_e = after.skip(e);
                    lemma_first_char(from_e);
                    assert(from_e[0] == 62);
                    let rest2 = after.skip(e + 1);
                    assert(pop_first_scalar(from_e) =~= rest2);
                    let tag = after.take(e + 1);
                    let out2 = if is_break_tag(tag) { break_output(out1, rest2, h) } else { out1 };
                    lemma_ascii_byte_valid(32);
                    lemma_ascii_byte_valid(NL);
                    valid_utf8_concat(out1, seq![32u8]);
                    valid_utf8_concat(out1, seq![NL]);
                    assert(out1.push(32) =~= out1 + seq![32u8]);
                    assert(out1.push(NL) =~= out1 + seq![NL]);
                    assert(valid_utf8(out2));
                    lemma_strip_valid(out2, rest2, h);
                },
            }
        },
    }
}

/// Encoding two texts one after the other encodes their concatenation.
proof fn lemma_encode_concat(a: Seq<char>, b: Seq<char>)
    ensures
        encode_utf8(a + b) == encode_utf8(a) + encode_utf8(b),
    decreases a.len(),
{
    if a.len() == 0 {
        assert(a + b =~= b);
        assert(encode_utf8(a) + encode_utf8(b) =~= encode_utf8(b));
    } else {
        assert((a + b).drop_first() =~= a.drop_first() + b);
        lemma_encode_concat(a.drop_first(), b);
        assert(encode_utf8(a + b) =~= encode_scalar(a[0] as u32) + (encode_utf8(a.drop_first()) + encode_utf8(b)));
    }
}

proof fn lemma_scalar_bytes(x: u32)
    requires
        is_scalar(x),
    ensures
        forall|j: int| 0 <= j < encode_scalar(x).len() && #[trigger] encode_scalar(x)[j] < 0x80
            ==> encode_scalar(x).len() == 1 && encode_scalar(x)[j] as u32 == x,
{
    assert(x <= 0x7f ==> leading_byte_width_1(x) as u32 == x) by (bit_vector);
    assert(leading_byte_width_2(x) >= 0xc0) by (bit_vector);
    assert(leading_byte_width_3(x) >= 0xc0) by (bit_vector);
    assert(leading_byte_width_4(x) >= 0xc0) by (bit_vector);
    assert(last_continuation_byte(x) >= 0x80) by (bit_vector);
    assert(second_last_continuation_byte(x) >= 0x80) by (bit_vector);
    assert(third_last_continuation_byte(x) >= 0x80) by (bit_vector);
}

/// An ASCII byte occurs in the encoding of a text only as the encoding of
/// that very character.
proof fn lemma_ascii_in_encoding(cs: Seq<char>, b: u8)
    requires
        b < 0x80,
        encode_utf8(cs).contains(b),
    ensures
        exists|i: int| 0 <= i < cs.len() && cs[i] as u32 == b as u32,
    decreases cs.len(),
{
    let e = encode_utf8(cs);
    let k = choose|k: int| 0 <= k < e.len() && e[k] == b;
    if cs.len() == 0 {
        assert(e.len() == 0);
    } else {
        let first = encode_scalar(cs[0] as u32);
        let rest = encode_utf8(cs.drop_first());
        assert(e == first + rest);
        if k < first.len() {
            char_is_scalar(cs[0]);
            lemma_scalar_bytes(cs[0] as u32);
            assert(first[k] == b);
            assert(cs[0] as u32 == b as u32);
        } else {
            assert(rest[k - first.len()] == b);
            lemma_ascii_in_encoding(cs.drop_first(), b);
            let i = choose|i: int| 0 <= i < cs.drop_first().len() && cs.drop_first()[i] as u32 == b as u32;
            assert(cs[i + 1] == cs.drop_first()[i]);
        }
    }
}

/// What tag stripping gives of a text, as the text [`strip_html_tags`] and
/// the delimited-text reader's `strip_html_tags` return for it: it is never
/// longer in bytes than the text; a text without `<` comes out unchanged; and
/// a `<` that no `>` follows is kept, with everything after it, at the end of
/// the result.
pub proof fn lemma_stripped_text(text: Seq<char>, h: BreakHandling)
    ensures
        ({
            let r = lossy_decode(strip_from(Seq::empty(), encode_utf8(text), h));
            &&& encode_utf8(r).len() <= encode_utf8(text).len()
            &&& !text.contains('<') ==> r == text
            &&& forall|i: int| 0 <= i < text.len() && text[i] == '<' && !text.skip(i).contains('>')
                ==> exists|p: Seq<char>| r == p + #[trigger] text.skip(i)
        }),
{
    let bytes = encode_utf8(text);
    let w = strip_from(Seq::empty(), bytes, h);
    encode_utf8_valid_utf8(text);
    encode_utf8_decode_utf8(text);
    assert(valid_utf8(Seq::<u8>::empty()));
    lemma_strip_valid(Seq::empty(), bytes, h);
    decode_utf8_encode_utf8(w);
    lemma_strip_laws(bytes, h);
    if !text.contains('<') {
        if bytes.contains(60) {
            lemma_ascii_in_encoding(text, 60);
            let i = choose|i: int| 0 <= i < text.len() && text[i] as u32 == 60u8 as u32;
            char_u32_cast(text[i], 60u32);
            char_u32_cast('<', 60u32);
            assert(text[i] == '<');
        }
    }
    assert forall|i: int| 0 <= i < text.len() && text[i] == '<' && !text.skip(i).contains('>')
        implies exists|p: Seq<char>| lossy_decode(w) == p + #[trigger] text.skip(i) by {
        let t1 = text.take(i);
        let t2 = text.skip(i);
        assert(text =~= t1 + t2);
        lemma_encode_concat(t1, t2);
        let x = encode_utf8(t1);
        let y = encode_utf8(t2);
        assert(y == encode_scalar(t2[0] as u32) + encode_utf8(t2.drop_first()));
        assert(t2[0] == '<');
        assert(leading_byte_width_1(60u32) == 60u8) by (bit_vector);
        assert(y[0] == 60);
        if y.contains(62) {
            lemma_ascii_in_encoding(t2, 62);
            let j = choose|j: int| 0 <= j < t2.len() && t2[j] as u32 == 62u8 as u32;
            char_u32_cast(t2[j], 62u32);
            char_u32_cast('>', 62u32);
            assert(t2[j] == '>');
        }
        lemma_unclosed_tail_kept(Seq::empty(), x, y, h);
        let p = choose|p: Seq<u8>| strip_from(Seq::empty(), x + y, h) == p + y;
        assert(w == p + y);
        lemma_split_at_ascii(w, p.len() as int);
        assert(w.take(p.len() as int) =~= p);
        assert(w.skip(p.len() as int) =~= y);
        encode_utf8_decode_utf8(t2);
        assert(lossy_decode(w) == decode_utf8(p) + t2);
    }
}


/// The value `lookup` finds: the trimmed target column of the first line
/// with content whose trimmed search column is `key` and which reaches the
/// target column.
pub open spec fn lookup_spec(lines: Seq<Seq<u8>>, d: u8, key: Seq<u8>, search: int, target: int) -> Option<Seq<u8>>
    decreases lines.len(),
{
    if lines.len() == 0 {
        None
    } else {
        let cells = cells_of(lines[0], d);
        if content_of(lines[0]).len() > 0 && search < cells.len() && trim(cells[search]) == key && target < cells.len() {
            Some(trim(cells[target]))
        } else {
            lookup_spec(lines.skip(1), d, key, search, target)
        }
    }
}

/// Finds a row by one column's value and returns another column from it.
///
/// Each line is read without its trailing `//` comment and trimmed; a line
/// with no content, one short of either column, or whose search column is
/// not `key` once trimmed is passed over.
///
/// # Returns
/// The trimmed target column of the first matching row, or `None` if no row
/// matches.
pub fn lookup(data: &[u8], key: &str, search_col: usize, target_col: usize, separator: Option<Separator>) -> (r: Option<String>)
    ensures
        match lookup_spec(table_lines(data@), resolve_spec(separator, scrubbed(data@)), key.spec_bytes(), search_col as int, target_col as int) {
            Some(t) => r matches Some(v) && v@ == lossy_decode(t),
            None => r is None,
        },
{
    let (lines, d) = open_table(data, separator);
    let k = key.as_bytes();
    let ghost ls = views(lines@);
    let mut i: usize = 0;
    assert(ls.skip(0) =~= ls);
    while i < lines.len()
        invariant
            i <= lines@.len(),
            ls == views(lines@),
            ls == table_lines(data@),
            d == resolve_spec(separator, scrubbed(data@)),
            k@ == key.spec_bytes(),
            lookup_spec(ls, d, k@, search_col as int, target_col as int)
                == lookup_spec(ls.skip(i as int), d, k@, search_col as int, target_col as int),
        decreases lines@.len() - i,
    {
        proof {
            assert(ls.skip(i as int).skip(1) =~= ls.skip(i + 1));
            assert(ls.skip(i as int)[0] == lines@[i as int]@);
        }
        let line = lines[i].as_slice();
        if has_content(line) {
            let cells = line_cells(line, d);
            if search_col < cells.len() && target_col < cells.len() {
                let found = trimmed(cells[search_col].as_slice());
                if same_bytes(found.as_slice(), k) {
                    let value = trimmed(cells[target_col].as_slice());
                    assert(lookup_spec(ls.skip(i as int), d, k@, search_col as int, target_col as int) == Some(value@));
                    return Some(decode_lossy(value.as_slice()));
                }
            }
        }
        i += 1;
    }
    None
}

} // verus!
