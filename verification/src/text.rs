//! The byte-level model of the engine's delimited text files.
//!
//! Every table parser reads its file through the same few steps: decode the
//! bytes, drop byte-order marks and null characters, normalize line endings,
//! split into lines, cut a trailing `//` comment, trim whitespace, split on a
//! delimiter and read integers out of the cells. This module states each step
//! as a spec function over byte sequences and implements it with a proof that
//! the code computes exactly that.

use vstd::prelude::*;
use vstd::utf8::*;

verus! {

pub const NL: u8 = 10;
pub const CR: u8 = 13;
pub const TAB: u8 = 9;
pub const COMMA: u8 = 44;
pub const PIPE: u8 = 124;
pub const SLASH: u8 = 47;
pub const PLUS: u8 = 43;
pub const MINUS: u8 = 45;
pub const DOT: u8 = 46;

/// The byte views of a sequence of byte vectors.
pub open spec fn views(v: Seq<Vec<u8>>) -> Seq<Seq<u8>> {
    v.map_values(|x: Vec<u8>| x@)
}

pub proof fn lemma_views_push(v: Seq<Vec<u8>>, x: Vec<u8>)
    ensures
        views(v.push(x)) == views(v).push(x@),
{
    assert(views(v.push(x)) =~= views(v).push(x@));
}

// ---------------------------------------------------------------------------
// Splitting
// ---------------------------------------------------------------------------

/// The pieces of `s` between occurrences of `d`, as `str::split` yields them
/// for a one-byte delimiter: always at least one piece, and an empty piece on
/// either side of a delimiter at an end.
pub open spec fn split_on(s: Seq<u8>, d: u8) -> Seq<Seq<u8>>
    decreases s.len(),
{
    if s.len() == 0 {
        seq![Seq::<u8>::empty()]
    } else {
        let rest = split_on(s.drop_last(), d);
        if s.last() == d {
            rest.push(Seq::<u8>::empty())
        } else {
            rest.update(rest.len() - 1, rest.last().push(s.last()))
        }
    }
}

pub proof fn lemma_split_on_nonempty(s: Seq<u8>, d: u8)
    ensures
        split_on(s, d).len() >= 1,
    decreases s.len(),
{
    if s.len() > 0 {
        lemma_split_on_nonempty(s.drop_last(), d);
    }
}

/// Splits `s` on every occurrence of `d`.
pub fn split_bytes(s: &[u8], d: u8) -> (pieces: Vec<Vec<u8>>)
    ensures
        views(pieces@) == split_on(s@, d),
{
    let mut pieces: Vec<Vec<u8>> = Vec::new();
    let mut cur: Vec<u8> = Vec::new();
    let mut i: usize = 0;
    while i < s.len()
        invariant
            i <= s.len(),
            views(pieces@).push(cur@) == split_on(s@.take(i as int), d),
        decreases s.len() - i,
    {
        proof {
            assert(s@.take(i + 1).drop_last() =~= s@.take(i as int));
            lemma_split_on_nonempty(s@.take(i as int), d);
        }
        if s[i] == d {
            proof {
                lemma_views_push(pieces@, cur);
            }
            pieces.push(cur);
            cur = Vec::new();
            proof {
                assert(views(pieces@).push(cur@) =~= split_on(s@.take(i + 1), d));
            }
        } else {
            let ghost old_cur = cur@;
            cur.push(s[i]);
            proof {
                assert(views(pieces@).push(cur@) =~= split_on(s@.take(i + 1), d));
            }
        }
        i += 1;
    }
    proof {
        lemma_views_push(pieces@, cur);
        assert(s@.take(s@.len() as int) =~= s@);
    }
    pieces.push(cur);
    pieces
}

/// The lines of a text with no carriage returns, as `str::lines` yields them:
/// a final line ending adds no empty line, and an empty text has no lines.
pub open spec fn lines_of(s: Seq<u8>) -> Seq<Seq<u8>> {
    if s.len() == 0 {
        Seq::empty()
    } else if s.last() == NL {
        split_on(s.drop_last(), NL)
    } else {
        split_on(s, NL)
    }
}

/// Splits a text with no carriage returns into its lines.
pub fn split_lines(s: &[u8]) -> (lines: Vec<Vec<u8>>)
    ensures
        views(lines@) == lines_of(s@),
{
    if s.len() == 0 {
        let v: Vec<Vec<u8>> = Vec::new();
        assert(views(v@) =~= Seq::<Seq<u8>>::empty());
        v
    } else if s[s.len() - 1] == NL {
        let body = &s[0..s.len() - 1];
        assert(body@ =~= s@.drop_last());
        split_bytes(body, NL)
    } else {
        split_bytes(s, NL)
    }
}


// ---------------------------------------------------------------------------
// Comments
// ---------------------------------------------------------------------------

/// The position of the first `//` in `s`, if any.
pub open spec fn comment_start(s: Seq<u8>) -> Option<int>
    decreases s.len(),
{
    if s.len() < 2 {
        None
    } else {
        match comment_start(s.drop_last()) {
            Some(i) => Some(i),
            None => if s[s.len() - 2] == SLASH && s.last() == SLASH {
                Some(s.len() - 2)
            } else {
                None
            },
        }
    }
}

/// The text before the first `//`, or all of `s` when it has none.
pub open spec fn before_comment(s: Seq<u8>) -> Seq<u8> {
    match comment_start(s) {
        Some(i) => s.take(i),
        None => s,
    }
}

/// The text after the first `//`, or nothing when `s` has none.
pub open spec fn after_comment(s: Seq<u8>) -> Seq<u8> {
    match comment_start(s) {
        Some(i) => s.skip(i + 2),
        None => Seq::empty(),
    }
}

pub proof fn lemma_comment_start_bounds(s: Seq<u8>)
    ensures
        comment_start(s) matches Some(i) ==> 0 <= i && i + 2 <= s.len() && s[i] == SLASH && s[i + 1] == SLASH,
    decreases s.len(),
{
    if s.len() >= 2 {
        lemma_comment_start_bounds(s.drop_last());
    }
}

pub proof fn lemma_comment_start_prefix(s: Seq<u8>, k: int)
    requires
        0 <= k <= s.len(),
        comment_start(s.take(k)) is Some,
    ensures
        comment_start(s) == comment_start(s.take(k)),
    decreases s.len() - k,
{
    if k < s.len() {
        assert(s.take(k + 1).drop_last() =~= s.take(k));
        lemma_comment_start_prefix(s, k + 1);
    } else {
        assert(s.take(k) =~= s);
    }
}

/// Finds the first `//` in `s`.
pub fn find_comment(s: &[u8]) -> (r: Option<usize>)
    ensures
        match r {
            Some(i) => comment_start(s@) == Some(i as int),
            None => comment_start(s@) is None,
        },
{
    if s.len() < 2 {
        return None;
    }
    let mut j: usize = 0;
    while j + 1 < s.len()
        invariant
            s.len() >= 2,
            j + 1 <= s.len(),
            comment_start(s@.take(j + 1)) is None,
        decreases s.len() - j,
    {
        proof {
            assert(s@.take(j + 2).drop_last() =~= s@.take(j + 1));
        }
        if s[j] == SLASH && s[j + 1] == SLASH {
            proof {
                lemma_comment_start_prefix(s@, j + 2);
            }
            return Some(j);
        }
        j += 1;
    }
    proof {
        assert(s@.take(j + 1) =~= s@);
    }
    None
}

/// The range of `s` before its first `//`.
pub fn comment_cut(s: &[u8]) -> (end: usize)
    ensures
        end <= s.len(),
        s@.take(end as int) == before_comment(s@),
{
    proof {
        lemma_comment_start_bounds(s@);
    }
    match find_comment(s) {
        Some(i) => i,
        None => {
            assert(s@.take(s.len() as int) =~= s@);
            s.len()
        },
    }
}

// ---------------------------------------------------------------------------
// Whitespace
// ---------------------------------------------------------------------------

/// Whether `b` is an ASCII whitespace byte in the sense of `char::is_whitespace`.
pub open spec fn is_ascii_ws(b: u8) -> bool {
    b == 32 || (9 <= b && b <= 13)
}

/// The byte length of the whitespace character `s` starts with, or zero.
///
/// Besides ASCII whitespace this covers every other character with the
/// Unicode `White_Space` property, in its UTF-8 encoding: U+0085, U+00A0,
/// U+1680, U+2000 to U+200A, U+2028, U+2029, U+202F, U+205F and U+3000.
pub open spec fn lead_ws_len(s: Seq<u8>) -> int {
    if s.len() >= 1 && is_ascii_ws(s[0]) {
        1
    } else if s.len() >= 2 && s[0] == 0xC2 && (s[1] == 0x85 || s[1] == 0xA0) {
        2
    } else if s.len() >= 3 && is_ws3(s[0], s[1], s[2]) {
        3
    } else {
        0
    }
}

/// Whether three bytes encode a three-byte whitespace character.
pub open spec fn is_ws3(a: u8, b: u8, c: u8) -> bool {
    (a == 0xE1 && b == 0x9A && c == 0x80)
    || (a == 0xE2 && b == 0x80 && ((0x80 <= c && c <= 0x8A) || c == 0xA8 || c == 0xA9 || c == 0xAF))
    || (a == 0xE2 && b == 0x81 && c == 0x9F)
    || (a == 0xE3 && b == 0x80 && c == 0x80)
}

/// The byte length of the whitespace character `s` ends with, or zero.
pub open spec fn trail_ws_len(s: Seq<u8>) -> int {
    let n = s.len();
    if n >= 1 && is_ascii_ws(s[n - 1]) {
        1
    } else if n >= 2 && s[n - 2] == 0xC2 && (s[n - 1] == 0x85 || s[n - 1] == 0xA0) {
        2
    } else if n >= 3 && is_ws3(s[n - 3], s[n - 2], s[n - 1]) {
        3
    } else {
        0
    }
}

/// `s` without its leading whitespace.
pub open spec fn trim_start(s: Seq<u8>) -> Seq<u8>
    decreases s.len(),
{
    if lead_ws_len(s) > 0 {
        trim_start(s.skip(lead_ws_len(s)))
    } else {
        s
    }
}

/// `s` without its trailing whitespace.
pub open spec fn trim_end(s: Seq<u8>) -> Seq<u8>
    decreases s.len(),
{
    if trail_ws_len(s) > 0 {
        trim_end(s.take(s.len() - trail_ws_len(s)))
    } else {
        s
    }
}

/// `s` without leading or trailing whitespace, as `str::trim` leaves it.
pub open spec fn trim(s: Seq<u8>) -> Seq<u8> {
    trim_end(trim_start(s))
}

fn ws_len_at(s: &[u8], i: usize) -> (k: usize)
    requires
        i <= s.len(),
    ensures
        k == lead_ws_len(s@.skip(i as int)),
{
    let n = s.len() - i;
    if n >= 1 && (s[i] == 32 || (9 <= s[i] && s[i] <= 13)) {
        1
    } else if n >= 2 && s[i] == 0xC2 && (s[i + 1] == 0x85 || s[i + 1] == 0xA0) {
        2
    } else if n >= 3 && ws3(s[i], s[i + 1], s[i + 2]) {
        3
    } else {
        0
    }
}

fn ws3(a: u8, b: u8, c: u8) -> (r: bool)
    ensures
        r == is_ws3(a, b, c),
{
    (a == 0xE1 && b == 0x9A && c == 0x80)
    || (a == 0xE2 && b == 0x80 && ((0x80 <= c && c <= 0x8A) || c == 0xA8 || c == 0xA9 || c == 0xAF))
    || (a == 0xE2 && b == 0x81 && c == 0x9F)
    || (a == 0xE3 && b == 0x80 && c == 0x80)
}

fn trail_ws_len_at(s: &[u8], j: usize) -> (k: usize)
    requires
        j <= s.len(),
    ensures
        k == trail_ws_len(s@.take(j as int)),
        k <= j,
{
    if j >= 1 && (s[j - 1] == 32 || (9 <= s[j - 1] && s[j - 1] <= 13)) {
        1
    } else if j >= 2 && s[j - 2] == 0xC2 && (s[j - 1] == 0x85 || s[j - 1] == 0xA0) {
        2
    } else if j >= 3 && ws3(s[j - 3], s[j - 2], s[j - 1]) {
        3
    } else {
        0
    }
}

/// The range `start..end` of `s` that `str::trim` keeps.
pub fn trim_range(s: &[u8]) -> (r: (usize, usize))
    ensures
        r.0 <= r.1 <= s.len(),
        s@.subrange(r.0 as int, r.1 as int) == trim(s@),
{
    let mut i: usize = 0;
    assert(s@.skip(0) =~= s@);
    loop
        invariant
            i <= s.len(),
            trim_start(s@.skip(i as int)) == trim_start(s@),
        ensures
            i <= s.len(),
            trim_start(s@) == s@.skip(i as int),
        decreases s.len() - i,
    {
        let k = ws_len_at(s, i);
        if k == 0 {
            break;
        }
        proof {
            assert(s@.skip(i as int).skip(k as int) =~= s@.skip(i + k));
        }
        i = i + k;
    }
    let mut j: usize = s.len();
    assert(s@.skip(i as int) =~= s@.subrange(i as int, j as int));
    loop
        invariant
            i <= j <= s.len(),
            trim_end(s@.subrange(i as int, j as int)) == trim(s@),
        ensures
            i <= j <= s.len(),
            s@.subrange(i as int, j as int) == trim(s@),
        decreases j,
    {
        let k = trail_ws_len_at(s, j);
        proof {
            let t = s@.subrange(i as int, j as int);
            if j - i >= 3 {
                assert(t[t.len() - 1] == s@[j - 1]);
                assert(t[t.len() - 2] == s@[j - 2]);
                assert(t[t.len() - 3] == s@[j - 3]);
            }
        }
        if k == 0 || j - k < i {
            proof {
                let t = s@.subrange(i as int, j as int);
                if j - i >= 1 {
                    assert(t[t.len() - 1] == s@[j - 1]);
                }
                if j - i >= 2 {
                    assert(t[t.len() - 2] == s@[j - 2]);
                }
            }
            break;
        }
        proof {
            let t = s@.subrange(i as int, j as int);
            assert(t[t.len() - 1] == s@[j - 1]);
            if k >= 2 {
                assert(t[t.len() - 2] == s@[j - 2]);
            }
            assert(t.take(t.len() - k as int) =~= s@.subrange(i as int, j - k));
        }
        j = j - k;
    }
    (i, j)
}


/// The copy of `s` without its trailing whitespace, as `str::trim_end` leaves it.
pub fn trimmed_end(s: &[u8]) -> (out: Vec<u8>)
    ensures
        out@ == trim_end(s@),
{
    let mut j: usize = s.len();
    assert(s@.take(j as int) =~= s@);
    loop
        invariant
            j <= s.len(),
            trim_end(s@.take(j as int)) == trim_end(s@),
        ensures
            j <= s.len(),
            s@.take(j as int) == trim_end(s@),
        decreases j,
    {
        let k = trail_ws_len_at(s, j);
        if k == 0 {
            break;
        }
        proof {
            assert(s@.take(j as int).take(j - k) =~= s@.take(j - k));
        }
        j = j - k;
    }
    copy_range(s, 0, j)
}


/// The length of the run of non-whitespace bytes `s` opens with.
pub open spec fn word_len(s: Seq<u8>) -> int
    decreases s.len(),
{
    if s.len() == 0 || lead_ws_len(s) > 0 { 0 } else { 1 + word_len(s.skip(1)) }
}

/// The whitespace-separated words of `s`, as `str::split_whitespace` yields them.
pub open spec fn words(s: Seq<u8>) -> Seq<Seq<u8>>
    decreases s.len(),
{
    if s.len() == 0 {
        Seq::empty()
    } else if lead_ws_len(s) > 0 {
        words(s.skip(lead_ws_len(s)))
    } else {
        let n = word_len(s);
        proof { lemma_word_len(s); }
        seq![s.take(n)] + words(s.skip(n))
    }
}

pub proof fn lemma_word_len(s: Seq<u8>)
    ensures
        0 <= word_len(s) <= s.len(),
        s.len() > 0 && lead_ws_len(s) == 0 ==> word_len(s) >= 1,
    decreases s.len(),
{
    if s.len() > 0 && lead_ws_len(s) == 0 {
        lemma_word_len(s.skip(1));
    }
}

/// Splits `s` into its whitespace-separated words.
pub fn split_words(s: &[u8]) -> (out: Vec<Vec<u8>>)
    ensures
        views(out@) == words(s@),
{
    let mut out: Vec<Vec<u8>> = Vec::new();
    let mut i: usize = 0;
    assert(s@.skip(0) =~= s@);
    assert(views(out@) + words(s@.skip(0)) =~= words(s@));
    while i < s.len()
        invariant
            i <= s.len(),
            views(out@) + words(s@.skip(i as int)) == words(s@),
        decreases s.len() - i,
    {
        let k = ws_len_at(s, i);
        if k > 0 {
            proof {
                assert(s@.skip(i as int).skip(k as int) =~= s@.skip(i + k));
            }
            i = i + k;
        } else {
            let mut j: usize = i;
            while j < s.len() && ws_len_at(s, j) == 0
                invariant
                    i <= j <= s.len(),
                    word_len(s@.skip(i as int)) == (j - i) + word_len(s@.skip(j as int)),
                decreases s.len() - j,
            {
                proof {
                    assert(s@.skip(j as int).skip(1) =~= s@.skip(j + 1));
                }
                j += 1;
            }
            let word = copy_range(s, i, j);
            proof {
                lemma_word_len(s@.skip(i as int));
                assert(word@ =~= s@.skip(i as int).take(j - i));
                assert(s@.skip(i as int).skip(j - i) =~= s@.skip(j as int));
                lemma_views_push(out@, word);
            }
            let ghost before = views(out@);
            out.push(word);
            proof {
                assert(views(out@) + words(s@.skip(j as int)) =~= before + (seq![word@] + words(s@.skip(j as int))));
            }
            i = j;
        }
    }
    assert(s@.skip(i as int) =~= Seq::<u8>::empty());
    assert(views(out@) + Seq::<Seq<u8>>::empty() =~= views(out@));
    out
}


// ---------------------------------------------------------------------------
// Integers
// ---------------------------------------------------------------------------

/// Whether `b` is an ASCII decimal digit.
pub open spec fn is_digit(b: u8) -> bool {
    48 <= b && b <= 57
}

/// Whether every byte of `s` is an ASCII decimal digit.
pub open spec fn all_digits(s: Seq<u8>) -> bool {
    forall|i: int| 0 <= i < s.len() ==> #[trigger] is_digit(s[i])
}

/// The decimal value of a run of digits.
pub open spec fn digits_value(s: Seq<u8>) -> int
    decreases s.len(),
{
    if s.len() == 0 {
        0
    } else {
        digits_value(s.drop_last()) * 10 + (s.last() - 48)
    }
}

/// What `str::parse` makes of `s` for an unsigned type whose largest value is `max`.
///
/// One leading `+` is accepted; the rest must be at least one digit and name
/// a value no larger than `max`.
pub open spec fn parse_unsigned(s: Seq<u8>, max: int) -> Option<int> {
    let body = if s.len() > 0 && s[0] == PLUS { s.skip(1) } else { s };
    if body.len() > 0 && all_digits(body) && digits_value(body) <= max {
        Some(digits_value(body))
    } else {
        None
    }
}

/// What `str::parse` makes of `s` for a signed type with range `min..=max`.
pub open spec fn parse_signed(s: Seq<u8>, min: int, max: int) -> Option<int> {
    if s.len() > 0 && s[0] == MINUS {
        let body = s.skip(1);
        if body.len() > 0 && all_digits(body) && -digits_value(body) >= min {
            Some(-digits_value(body))
        } else {
            None
        }
    } else {
        parse_unsigned(s, max)
    }
}

pub proof fn lemma_digits_value_nonneg(s: Seq<u8>)
    requires
        all_digits(s),
    ensures
        digits_value(s) >= 0,
    decreases s.len(),
{
    if s.len() > 0 {
        assert(is_digit(s[s.len() - 1]));
        lemma_digits_value_nonneg(s.drop_last());
    }
}

pub proof fn lemma_digits_value_mono(s: Seq<u8>, k: int)
    requires
        all_digits(s),
        0 <= k <= s.len(),
    ensures
        digits_value(s.take(k)) <= digits_value(s),
    decreases s.len(),
{
    if k == s.len() {
        assert(s.take(k) =~= s);
    } else {
        assert(is_digit(s[s.len() - 1]));
        lemma_digits_value_nonneg(s.drop_last());
        lemma_digits_value_mono(s.drop_last(), k);
        assert(s.drop_last().take(k) =~= s.take(k));
    }
}

/// Reads a run of digits no larger than `max`.
fn read_digits(s: &[u8], start: usize, max: u64) -> (r: Option<u64>)
    requires
        start <= s.len(),
    ensures
        ({
            let body = s@.skip(start as int);
            match r {
                Some(v) => body.len() > 0 && all_digits(body) && digits_value(body) <= max && v == digits_value(body),
                None => !(body.len() > 0 && all_digits(body) && digits_value(body) <= max),
            }
        }),
{
    let ghost body = s@.skip(start as int);
    if start >= s.len() {
        return None;
    }
    let mut acc: u128 = 0;
    let mut i: usize = start;
    while i < s.len()
        invariant
            start <= i <= s.len(),
            body == s@.skip(start as int),
            all_digits(body.take(i - start)),
            acc == digits_value(body.take(i - start)),
            acc <= max,
        decreases s.len() - i,
    {
        let b = s[i];
        proof {
            assert(body.take(i - start + 1).drop_last() =~= body.take(i - start));
            assert(body[i - start] == b);
        }
        if b < 48 || b > 57 {
            proof {
                assert(!is_digit(body[i - start]));
            }
            return None;
        }
        let next: u128 = acc * 10 + (b - 48) as u128;
        if next > max as u128 {
            proof {
                assert(all_digits(body.take(i - start + 1)));
                if all_digits(body) {
                    lemma_digits_value_mono(body, i - start + 1);
                }
            }
            return None;
        }
        acc = next;
        i += 1;
        proof {
            assert(all_digits(body.take(i - start)));
        }
    }
    proof {
        assert(body.take(i - start) =~= body);
    }
    Some(acc as u64)
}

/// Parses `s` as an unsigned integer no larger than `max`.
pub fn parse_uint(s: &[u8], max: u64) -> (r: Option<u64>)
    ensures
        match r {
            Some(v) => parse_unsigned(s@, max as int) == Some(v as int),
            None => parse_unsigned(s@, max as int) is None,
        },
{
    if s.len() > 0 && s[0] == PLUS {
        read_digits(s, 1, max)
    } else {
        assert(s@.skip(0) =~= s@);
        read_digits(s, 0, max)
    }
}

/// Parses `s` as a signed integer within `-neg_max..=max`.
pub fn parse_int(s: &[u8], neg_max: u64, max: u64) -> (r: Option<i128>)
    ensures
        match r {
            Some(v) => parse_signed(s@, -(neg_max as int), max as int) == Some(v as int),
            None => parse_signed(s@, -(neg_max as int), max as int) is None,
        },
{
    if s.len() > 0 && s[0] == MINUS {
        match read_digits(s, 1, neg_max) {
            Some(v) => Some(-(v as i128)),
            None => None,
        }
    } else {
        match parse_uint(s, max) {
            Some(v) => Some(v as i128),
            None => None,
        }
    }
}

pub open spec fn spec_u8(s: Seq<u8>) -> Option<u8> {
    match parse_unsigned(s, 0xff) { Some(v) => Some(v as u8), None => None }
}

pub open spec fn spec_u16(s: Seq<u8>) -> Option<u16> {
    match parse_unsigned(s, 0xffff) { Some(v) => Some(v as u16), None => None }
}

pub open spec fn spec_u32(s: Seq<u8>) -> Option<u32> {
    match parse_unsigned(s, 0xffff_ffff) { Some(v) => Some(v as u32), None => None }
}

pub open spec fn spec_u64(s: Seq<u8>) -> Option<u64> {
    match parse_unsigned(s, 0xffff_ffff_ffff_ffff) { Some(v) => Some(v as u64), None => None }
}

pub open spec fn spec_usize(s: Seq<u8>) -> Option<usize> {
    match parse_unsigned(s, usize::MAX as int) { Some(v) => Some(v as usize), None => None }
}

pub open spec fn spec_i8(s: Seq<u8>) -> Option<i8> {
    match parse_signed(s, -0x80, 0x7f) { Some(v) => Some(v as i8), None => None }
}

pub open spec fn spec_i16(s: Seq<u8>) -> Option<i16> {
    match parse_signed(s, -0x8000, 0x7fff) { Some(v) => Some(v as i16), None => None }
}

pub open spec fn spec_i32(s: Seq<u8>) -> Option<i32> {
    match parse_signed(s, -0x8000_0000, 0x7fff_ffff) { Some(v) => Some(v as i32), None => None }
}

pub open spec fn spec_i64(s: Seq<u8>) -> Option<i64> {
    match parse_signed(s, -0x8000_0000_0000_0000, 0x7fff_ffff_ffff_ffff) { Some(v) => Some(v as i64), None => None }
}

/// Parses `s` as a `u8`, as `str::parse::<u8>` does.
pub fn to_u8(s: &[u8]) -> (r: Option<u8>)
    ensures r == spec_u8(s@),
{
    match parse_uint(s, 0xff) { Some(v) => Some(v as u8), None => None }
}

/// Parses `s` as a `u16`, as `str::parse::<u16>` does.
pub fn to_u16(s: &[u8]) -> (r: Option<u16>)
    ensures r == spec_u16(s@),
{
    match parse_uint(s, 0xffff) { Some(v) => Some(v as u16), None => None }
}

/// Parses `s` as a `u32`, as `str::parse::<u32>` does.
pub fn to_u32(s: &[u8]) -> (r: Option<u32>)
    ensures r == spec_u32(s@),
{
    match parse_uint(s, 0xffff_ffff) { Some(v) => Some(v as u32), None => None }
}

/// Parses `s` as a `u64`, as `str::parse::<u64>` does.
pub fn to_u64(s: &[u8]) -> (r: Option<u64>)
    ensures r == spec_u64(s@),
{
    parse_uint(s, 0xffff_ffff_ffff_ffff)
}

/// Parses `s` as a `usize`, as `str::parse::<usize>` does.
pub fn to_usize(s: &[u8]) -> (r: Option<usize>)
    ensures r == spec_usize(s@),
{
    match parse_uint(s, usize::MAX as u64) { Some(v) => Some(v as usize), None => None }
}

/// Parses `s` as an `i8`, as `str::parse::<i8>` does.
pub fn to_i8(s: &[u8]) -> (r: Option<i8>)
    ensures r == spec_i8(s@),
{
    match parse_int(s, 0x80, 0x7f) { Some(v) => Some(v as i8), None => None }
}

/// Parses `s` as an `i16`, as `str::parse::<i16>` does.
pub fn to_i16(s: &[u8]) -> (r: Option<i16>)
    ensures r == spec_i16(s@),
{
    match parse_int(s, 0x8000, 0x7fff) { Some(v) => Some(v as i16), None => None }
}

/// Parses `s` as an `i32`, as `str::parse::<i32>` does.
pub fn to_i32(s: &[u8]) -> (r: Option<i32>)
    ensures r == spec_i32(s@),
{
    match parse_int(s, 0x8000_0000, 0x7fff_ffff) { Some(v) => Some(v as i32), None => None }
}

/// Parses `s` as an `i64`, as `str::parse::<i64>` does.
pub fn to_i64(s: &[u8]) -> (r: Option<i64>)
    ensures r == spec_i64(s@),
{
    match parse_int(s, 0x8000_0000_0000_0000, 0x7fff_ffff_ffff_ffff) { Some(v) => Some(v as i64), None => None }
}


// ---------------------------------------------------------------------------
// Decoding and sanitizing
// ---------------------------------------------------------------------------

/// The text `String::from_utf8_lossy` makes of `bytes`.
pub uninterp spec fn lossy_text(bytes: Seq<u8>) -> Seq<char>;

/// Decodes bytes as UTF-8 with `String::from_utf8_lossy`.
///
/// Trusted: the result is the text named `lossy_text` of the bytes, and, as
/// the function's documentation states, valid UTF-8 is decoded unchanged.
/// How invalid sequences are replaced is left unsaid.
#[verifier::external_body]
pub(crate) fn decode_lossy(bytes: &[u8]) -> (text: String)
    ensures
        text@ == lossy_text(bytes@),
        valid_utf8(bytes@) ==> text@ == decode_utf8(bytes@),
{
    String::from_utf8_lossy(bytes).into_owned()
}

/// `s` with null bytes and byte-order marks removed and each carriage return,
/// together with a line feed directly after it, turned into one line feed.
pub open spec fn scrub_text(s: Seq<u8>) -> Seq<u8>
    decreases s.len(),
{
    if s.len() == 0 {
        Seq::empty()
    } else if s[0] == 0 {
        scrub_text(s.skip(1))
    } else if s.len() >= 3 && s[0] == 0xEF && s[1] == 0xBB && s[2] == 0xBF {
        scrub_text(s.skip(3))
    } else if s[0] == CR {
        seq![NL] + scrub_text(if s.len() >= 2 && s[1] == NL { s.skip(2) } else { s.skip(1) })
    } else {
        seq![s[0]] + scrub_text(s.skip(1))
    }
}

/// The sanitized text of a raw file: its lossy UTF-8 decoding, re-encoded,
/// after `scrub_text`.
pub open spec fn scrubbed(bytes: Seq<u8>) -> Seq<u8> {
    scrub_text(encode_utf8(lossy_decode(bytes)))
}

/// Removes null bytes and byte-order marks from `s` and normalizes its line endings.
pub fn scrub_raw(s: &[u8]) -> (out: Vec<u8>)
    ensures
        out@ == scrub_text(s@),
{
    let mut out: Vec<u8> = Vec::new();
    let mut i: usize = 0;
    assert(s@.skip(0) =~= s@);
    while i < s.len()
        invariant
            i <= s.len(),
            out@ + scrub_text(s@.skip(i as int)) == scrub_text(s@),
        decreases s.len() - i,
    {
        let ghost rest = s@.skip(i as int);
        let n = s.len() - i;
        if s[i] == 0 {
            assert(rest.skip(1) =~= s@.skip(i + 1));
            i += 1;
        } else if n >= 3 && s[i] == 0xEF && s[i + 1] == 0xBB && s[i + 2] == 0xBF {
            assert(rest.skip(3) =~= s@.skip(i + 3));
            i += 3;
        } else if s[i] == CR {
            let ghost old_out = out@;
            out.push(NL);
            if n >= 2 && s[i + 1] == NL {
                assert(rest.skip(2) =~= s@.skip(i + 2));
                assert(out@ + scrub_text(s@.skip(i + 2)) =~= old_out + scrub_text(rest));
                i += 2;
            } else {
                assert(rest.skip(1) =~= s@.skip(i + 1));
                assert(out@ + scrub_text(s@.skip(i + 1)) =~= old_out + scrub_text(rest));
                i += 1;
            }
        } else {
            let ghost old_out = out@;
            out.push(s[i]);
            assert(rest.skip(1) =~= s@.skip(i + 1));
            assert(out@ + scrub_text(s@.skip(i + 1)) =~= old_out + scrub_text(rest));
            i += 1;
        }
    }
    assert(s@.skip(i as int) =~= Seq::<u8>::empty());
    assert(out@ + Seq::<u8>::empty() =~= out@);
    out
}

/// Text with null characters and byte-order marks removed and each carriage
/// return, together with a line feed directly after it, turned into one line feed.
pub open spec fn scrub_chars(cs: Seq<char>) -> Seq<char>
    decreases cs.len(),
{
    if cs.len() == 0 {
        Seq::empty()
    } else if cs[0] == '\0' || cs[0] == '\u{feff}' {
        scrub_chars(cs.drop_first())
    } else if cs[0] == '\r' {
        seq!['\n'] + scrub_chars(if cs.len() >= 2 && cs[1] == '\n' { cs.skip(2) } else { cs.drop_first() })
    } else {
        seq![cs[0]] + scrub_chars(cs.drop_first())
    }
}

/// Whether a text holds no null character, byte-order mark or carriage return.
pub open spec fn is_clean_text(cs: Seq<char>) -> bool {
    forall|i: int| 0 <= i < cs.len() ==> #[trigger] cs[i] != '\0' && cs[i] != '\u{feff}' && cs[i] != '\r'
}

/// The text raw bytes decode to: valid UTF-8 decodes as itself, and other
/// bytes as `String::from_utf8_lossy` decodes them.
pub open spec fn lossy_decode(bytes: Seq<u8>) -> Seq<char> {
    if valid_utf8(bytes) { decode_utf8(bytes) } else { lossy_text(bytes) }
}

/// The bytes of `s` that encode whole characters: every byte at which no
/// valid UTF-8 encoding of a character begins is dropped.
pub open spec fn valid_part(s: Seq<u8>) -> Seq<u8>
    decreases s.len(),
{
    if s.len() == 0 {
        s
    } else if valid_first_scalar(s) {
        take_first_scalar(s) + valid_part(pop_first_scalar(s))
    } else {
        valid_part(s.skip(1))
    }
}

proof fn lemma_ascii_byte(b: u8)
    by (bit_vector)
    requires
        b < 0x80,
    ensures
        codepoint_width_1(b) == b as u32,
{
}

proof fn lemma_bom_bytes(b1: u8, b2: u8, b3: u8)
    by (bit_vector)
    requires
        0xe0 <= b1 <= 0xef,
        0x80 <= b2 <= 0xbf,
        0x80 <= b3 <= 0xbf,
    ensures
        (codepoint_width_3(b1, b2, b3) == 0xFEFF) == (b1 == 0xef && b2 == 0xbb && b3 == 0xbf),
{
}

proof fn lemma_width_2_range(b1: u8, b2: u8)
    by (bit_vector)
    ensures
        codepoint_width_2(b1, b2) <= 0x7ff,
{
}

proof fn lemma_line_feed_encoding()
    ensures
        encode_scalar('\n' as u32) == seq![NL],
{
    assert(leading_byte_width_1(10u32) == 10u8) by (bit_vector);
}

proof fn lemma_special_encodings()
    ensures
        encode_scalar('\0' as u32) == seq![0u8],
        encode_scalar('\r' as u32) == seq![CR],
        encode_scalar('\u{feff}' as u32) == seq![0xEFu8, 0xBBu8, 0xBFu8],
{
    assert(leading_byte_width_1(0u32) == 0u8) by (bit_vector);
    assert(leading_byte_width_1(13u32) == 13u8) by (bit_vector);
    assert(leading_byte_width_3(0xFEFFu32) == 0xEFu8) by (bit_vector);
    assert(second_last_continuation_byte(0xFEFFu32) == 0xBBu8) by (bit_vector);
    assert(last_continuation_byte(0xFEFFu32) == 0xBFu8) by (bit_vector);
}

/// A valid UTF-8 sequence starts with the encoding of its first character.
pub proof fn lemma_first_char(s: Seq<u8>)
    requires
        valid_utf8(s),
        s.len() > 0,
    ensures
        valid_first_scalar(s),
        1 <= length_of_first_scalar(s) <= s.len(),
        pop_first_scalar(s) == s.skip(length_of_first_scalar(s)),
        valid_utf8(pop_first_scalar(s)),
        decode_utf8(s) == seq![decode_first_scalar(s) as char] + decode_utf8(pop_first_scalar(s)),
        encode_scalar((decode_first_scalar(s) as char) as u32) == take_first_scalar(s),
        s[0] < 0x80 ==> length_of_first_scalar(s) == 1 && decode_first_scalar(s) == s[0] as u32,
        s[0] >= 0x80 ==> decode_first_scalar(s) >= 0x80,
        forall|j: int| 1 <= j < length_of_first_scalar(s) ==> 0x80 <= #[trigger] s[j] <= 0xbf,
        (decode_first_scalar(s) == 0xFEFF) == (s.len() >= 3 && s[0] == 0xef && s[1] == 0xbb && s[2] == 0xbf),
{
    assert(pop_first_scalar(s) =~= s.skip(length_of_first_scalar(s)));
    decode_utf8_first_scalar(s);
    if s[0] < 0x80 {
        lemma_ascii_byte(s[0]);
    } else if 0xc0 <= s[0] <= 0xdf {
        lemma_width_2_range(s[0], s[1]);
    } else if 0xe0 <= s[0] <= 0xef {
        lemma_bom_bytes(s[0], s[1], s[2]);
    }
}

/// Scrubbing bytes that begin no character copies them.
proof fn lemma_scrub_copies_continuations(a: Seq<u8>, b: Seq<u8>)
    requires
        forall|j: int| 0 <= j < a.len() ==> 0x80 <= #[trigger] a[j] <= 0xbf,
    ensures
        scrub_text(a + b) == a + scrub_text(b),
    decreases a.len(),
{
    if a.len() > 0 {
        let t = a + b;
        assert(t[0] == a[0]);
        assert(t.skip(1) =~= a.skip(1) + b);
        lemma_scrub_copies_continuations(a.skip(1), b);
        assert(a =~= seq![a[0]] + a.skip(1));
    } else {
        assert(a + b =~= b);
    }
}

/// On valid UTF-8, scrubbing bytes is scrubbing the text they encode.
pub proof fn lemma_scrub_text_encodes(s: Seq<u8>)
    requires
        valid_utf8(s),
    ensures
        scrub_text(s) == encode_utf8(scrub_chars(decode_utf8(s))),
    decreases s.len(),
{
    if s.len() == 0 {
        assert(decode_utf8(s) =~= Seq::<char>::empty());
        assert(encode_utf8(Seq::<char>::empty()) =~= Seq::<u8>::empty());
    } else {
        lemma_first_char(s);
        let k = length_of_first_scalar(s);
        let rest = pop_first_scalar(s);
        let cs = decode_utf8(s);
        let c = decode_first_scalar(s) as char;
        assert(cs[0] == c);
        assert(cs.drop_first() =~= decode_utf8(rest));
        lemma_scrub_text_encodes(rest);
        if s[0] == 0 {
            assert(c == '\0');
        } else if s.len() >= 3 && s[0] == 0xEF && s[1] == 0xBB && s[2] == 0xBF {
            assert(c == '\u{feff}');
        } else if s[0] == CR {
            assert(c == '\r');
            lemma_line_feed_encoding();
            if s.len() >= 2 && s[1] == NL {
                lemma_first_char(rest);
                let rest2 = pop_first_scalar(rest);
                assert(rest[0] == NL);
                assert(rest2 =~= s.skip(2));
                lemma_scrub_text_encodes(rest2);
                assert(cs[1] == '\n');
                assert(cs.skip(2) =~= decode_utf8(rest2));
                let tail = scrub_chars(cs.skip(2));
                assert(encode_utf8(seq!['\n'] + tail) =~= seq![NL] + encode_utf8(tail)) by {
                    assert((seq!['\n'] + tail).drop_first() =~= tail);
                }
            } else {
                if rest.len() > 0 {
                    lemma_first_char(rest);
                    assert(decode_utf8(rest)[0] != '\n');
                }
                assert(rest =~= s.skip(1));
                let tail = scrub_chars(cs.drop_first());
                assert(encode_utf8(seq!['\n'] + tail) =~= seq![NL] + encode_utf8(tail)) by {
                    assert((seq!['\n'] + tail).drop_first() =~= tail);
                }
            }
        } else {
            lemma_special_encodings();
            assert(take_first_scalar(s)[0] == s[0]);
            assert(c != '\0' && c != '\r');
            if c == '\u{feff}' {
                assert(take_first_scalar(s).len() == 3);
                assert(take_first_scalar(s)[1] == s[1] && take_first_scalar(s)[2] == s[2]);
            }
            let conts = s.subrange(1, k);
            assert(s.skip(1) =~= conts + rest);
            lemma_scrub_copies_continuations(conts, rest);
            let tail = scrub_chars(cs.drop_first());
            assert(scrub_chars(cs) =~= seq![c] + tail);
            assert((seq![c] + tail).drop_first() =~= tail);
            assert(take_first_scalar(s) =~= seq![s[0]] + conts);
        }
    }
}

/// Decoding after scrubbing valid UTF-8 bytes gives the scrubbed text.
pub proof fn lemma_scrubbed_valid(s: Seq<u8>)
    requires
        valid_utf8(s),
    ensures
        valid_utf8(scrub_text(s)),
        decode_utf8(scrub_text(s)) == scrub_chars(decode_utf8(s)),
{
    lemma_scrub_text_encodes(s);
    encode_utf8_valid_utf8(scrub_chars(decode_utf8(s)));
    encode_utf8_decode_utf8(scrub_chars(decode_utf8(s)));
}

/// Scrubbed text holds no null character, byte-order mark or carriage return.
pub proof fn lemma_scrub_chars_clean(cs: Seq<char>)
    ensures
        is_clean_text(scrub_chars(cs)),
    decreases cs.len(),
{
    if cs.len() > 0 {
        lemma_scrub_chars_clean(cs.drop_first());
        if cs[0] == '\r' && cs.len() >= 2 && cs[1] == '\n' {
            lemma_scrub_chars_clean(cs.skip(2));
        }
        let r = scrub_chars(cs);
        assert forall|i: int| 0 <= i < r.len() implies #[trigger] r[i] != '\0' && r[i] != '\u{feff}' && r[i] != '\r' by {
            if cs[0] == '\0' || cs[0] == '\u{feff}' {
            } else if cs[0] == '\r' {
                if i > 0 {
                    let tail = scrub_chars(if cs.len() >= 2 && cs[1] == '\n' { cs.skip(2) } else { cs.drop_first() });
                    assert(r[i] == tail[i - 1]);
                }
            } else {
                if i > 0 {
                    assert(r[i] == scrub_chars(cs.drop_first())[i - 1]);
                }
            }
        }
    }
}

/// Scrubbing text that holds no null character, byte-order mark or carriage
/// return leaves it as it is.
pub proof fn lemma_scrub_chars_keeps_clean(cs: Seq<char>)
    requires
        is_clean_text(cs),
    ensures
        scrub_chars(cs) == cs,
    decreases cs.len(),
{
    if cs.len() > 0 {
        assert(cs[0] != '\0' && cs[0] != '\u{feff}' && cs[0] != '\r');
        let rest = cs.drop_first();
        assert forall|i: int| 0 <= i < rest.len() implies #[trigger] rest[i] != '\0' && rest[i] != '\u{feff}' && rest[i] != '\r' by {
            assert(rest[i] == cs[i + 1]);
        }
        lemma_scrub_chars_keeps_clean(rest);
        assert(seq![cs[0]] + rest =~= cs);
    } else {
        assert(cs =~= Seq::<char>::empty());
    }
}

/// The encoding of one well-formed character is valid UTF-8 on its own.
proof fn lemma_first_scalar_alone(s: Seq<u8>)
    requires
        s.len() > 0,
        valid_first_scalar(s),
    ensures
        1 <= length_of_first_scalar(s) <= s.len(),
        valid_utf8(take_first_scalar(s)),
        pop_first_scalar(s).len() < s.len(),
{
    let t = take_first_scalar(s);
    let k = length_of_first_scalar(s);
    assert(t.len() == k);
    assert(forall|j: int| 0 <= j < k ==> t[j] == s[j]);
    assert(valid_first_scalar(t));
    assert(pop_first_scalar(t) =~= Seq::<u8>::empty());
    reveal_with_fuel(valid_utf8, 2);
}

/// The bytes kept of a sequence are valid UTF-8.
pub proof fn lemma_valid_part_valid(s: Seq<u8>)
    ensures
        valid_utf8(valid_part(s)),
    decreases s.len(),
{
    if s.len() > 0 {
        if valid_first_scalar(s) {
            lemma_first_scalar_alone(s);
            lemma_valid_part_valid(pop_first_scalar(s));
            valid_utf8_concat(take_first_scalar(s), valid_part(pop_first_scalar(s)));
        } else {
            lemma_valid_part_valid(s.skip(1));
        }
    }
}

/// Valid UTF-8 keeps every byte.
pub proof fn lemma_valid_part_of_valid(s: Seq<u8>)
    requires
        valid_utf8(s),
    ensures
        valid_part(s) == s,
    decreases s.len(),
{
    if s.len() > 0 {
        lemma_first_scalar_alone(s);
        lemma_valid_part_of_valid(pop_first_scalar(s));
        assert(take_first_scalar(s) + pop_first_scalar(s) =~= s);
    }
}

/// The length of the character encoding that starts `s` at `i`, or 0 when no
/// valid encoding of a character starts there.
fn first_scalar_len(s: &[u8], i: usize) -> (k: usize)
    requires
        i < s.len(),
    ensures
        k == (if valid_first_scalar(s@.skip(i as int)) { length_of_first_scalar(s@.skip(i as int)) } else { 0 }),
{
    let ghost t = s@.skip(i as int);
    let n = s.len() - i;
    let b0 = s[i];
    assert(t[0] == b0);
    if b0 <= 0x7f {
        assert(((b0 & 0x7F) as u32) <= 0x7f) by (bit_vector);
        1
    } else if 0xc0 <= b0 && b0 <= 0xdf {
        if n >= 2 && 0x80 <= s[i + 1] && s[i + 1] <= 0xbf {
            let b1 = s[i + 1];
            assert(t[1] == b1);
            let cp: u32 = (((b0 & 0x1F) as u32) << 6) | ((b1 & 0x3f) as u32);
            proof { lemma_width_2_range(b0, b1); }
            assert(cp == codepoint_width_2(b0, b1));
            if cp >= 0x80 { 2 } else { 0 }
        } else {
            0
        }
    } else if 0xe0 <= b0 && b0 <= 0xef {
        if n >= 3 && 0x80 <= s[i + 1] && s[i + 1] <= 0xbf && 0x80 <= s[i + 2] && s[i + 2] <= 0xbf {
            let b1 = s[i + 1];
            let b2 = s[i + 2];
            assert(t[1] == b1 && t[2] == b2);
            let cp: u32 = (((b0 & 0x0F) as u32) << 12) | (((b1 & 0x3f) as u32) << 6) | ((b2 & 0x3f) as u32);
            assert(cp == codepoint_width_3(b0, b1, b2));
            if cp >= 0x800 && !(0xD800 <= cp && cp <= 0xDFFF) { 3 } else { 0 }
        } else {
            0
        }
    } else if 0xf0 <= b0 && b0 <= 0xf7 {
        if n >= 4 && 0x80 <= s[i + 1] && s[i + 1] <= 0xbf && 0x80 <= s[i + 2] && s[i + 2] <= 0xbf
            && 0x80 <= s[i + 3] && s[i + 3] <= 0xbf {
            let b1 = s[i + 1];
            let b2 = s[i + 2];
            let b3 = s[i + 3];
            assert(t[1] == b1 && t[2] == b2 && t[3] == b3);
            let cp: u32 = (((b0 & 0x07) as u32) << 18) | (((b1 & 0x3f) as u32) << 12)
                | (((b2 & 0x3f) as u32) << 6) | ((b3 & 0x3f) as u32);
            assert(cp == codepoint_width_4(b0, b1, b2, b3));
            if 0x10000 <= cp && cp <= 0x10ffff { 4 } else { 0 }
        } else {
            0
        }
    } else {
        0
    }
}

/// Drops every byte at which no valid UTF-8 encoding of a character begins.
pub fn strip_invalid(bytes: &[u8]) -> (out: Vec<u8>)
    ensures
        out@ == valid_part(bytes@),
{
    let mut out: Vec<u8> = Vec::new();
    let mut i: usize = 0;
    assert(bytes@.skip(0) =~= bytes@);
    while i < bytes.len()
        invariant
            i <= bytes.len(),
            out@ + valid_part(bytes@.skip(i as int)) == valid_part(bytes@),
        decreases bytes.len() - i,
    {
        let ghost rest = bytes@.skip(i as int);
        let k = first_scalar_len(bytes, i);
        if k == 0 {
            assert(rest.skip(1) =~= bytes@.skip(i + 1));
            i += 1;
        } else {
            proof { lemma_first_scalar_alone(rest); }
            let ghost old_out = out@;
            let mut j: usize = i;
            while j < i + k
                invariant
                    i <= j <= i + k <= bytes.len(),
                    out@ == old_out + bytes@.subrange(i as int, j as int),
                decreases i + k - j,
            {
                out.push(bytes[j]);
                assert(bytes@.subrange(i as int, j + 1) =~= bytes@.subrange(i as int, j as int).push(bytes@[j as int]));
                j += 1;
            }
            assert(take_first_scalar(rest) =~= bytes@.subrange(i as int, (i + k) as int));
            assert(pop_first_scalar(rest) =~= bytes@.skip((i + k) as int));
            assert(out@ + valid_part(bytes@.skip((i + k) as int)) =~= old_out + valid_part(rest));
            i += k;
        }
    }
    assert(bytes@.skip(i as int) =~= Seq::<u8>::empty());
    assert(out@ + Seq::<u8>::empty() =~= out@);
    out
}

/// Decodes a raw file and sanitizes it for line-by-line reading.
pub fn scrub_bytes(bytes: &[u8]) -> (out: Vec<u8>)
    ensures
        out@ == scrubbed(bytes@),
{
    let text = decode_lossy(bytes);
    let raw: &[u8] = text.as_str().as_bytes();
    scrub_raw(raw)
}

// ---------------------------------------------------------------------------
// Delimiters
// ---------------------------------------------------------------------------

/// The first tab or comma of `s`, if any.
pub open spec fn first_tab_or_comma(s: Seq<u8>) -> Option<u8>
    decreases s.len(),
{
    if s.len() == 0 {
        None
    } else if s[0] == TAB || s[0] == COMMA {
        Some(s[0])
    } else {
        first_tab_or_comma(s.skip(1))
    }
}

/// Finds the first tab or comma of `s`.
pub fn find_tab_or_comma(s: &[u8]) -> (r: Option<u8>)
    ensures
        r == first_tab_or_comma(s@),
{
    let mut i: usize = 0;
    assert(s@.skip(0) =~= s@);
    while i < s.len()
        invariant
            i <= s.len(),
            first_tab_or_comma(s@.skip(i as int)) == first_tab_or_comma(s@),
        decreases s.len() - i,
    {
        if s[i] == TAB || s[i] == COMMA {
            return Some(s[i]);
        }
        assert(s@.skip(i as int).skip(1) =~= s@.skip(i + 1));
        i += 1;
    }
    None
}

/// Whether `s` holds the byte `b`.
pub fn contains_byte(s: &[u8], b: u8) -> (r: bool)
    ensures
        r == s@.contains(b),
{
    let mut i: usize = 0;
    while i < s.len()
        invariant
            i <= s.len(),
            forall|j: int| 0 <= j < i ==> s@[j] != b,
        decreases s.len() - i,
    {
        if s[i] == b {
            return true;
        }
        i += 1;
    }
    false
}

/// Copies `s[a..b]`.
pub fn copy_range(s: &[u8], a: usize, b: usize) -> (out: Vec<u8>)
    requires
        a <= b <= s.len(),
    ensures
        out@ == s@.subrange(a as int, b as int),
{
    vstd::slice::slice_to_vec(&s[a..b])
}

/// The trimmed copy of `s`.
pub fn trimmed(s: &[u8]) -> (out: Vec<u8>)
    ensures
        out@ == trim(s@),
{
    let (a, b) = trim_range(s);
    copy_range(s, a, b)
}

/// The copy of `s` before its first `//`, trimmed.
pub fn clean_line(s: &[u8]) -> (out: Vec<u8>)
    ensures
        out@ == trim(before_comment(s@)),
{
    let end = comment_cut(s);
    trimmed(&s[0..end])
}


// ---------------------------------------------------------------------------
// Rows and cells
// ---------------------------------------------------------------------------

/// What a line reads as once its trailing comment is cut and it is trimmed.
pub open spec fn content_of(line: Seq<u8>) -> Seq<u8> {
    trim(before_comment(line))
}

/// Whether any of `lines` has content once comments and whitespace are removed.
pub open spec fn any_content(lines: Seq<Seq<u8>>) -> bool
    decreases lines.len(),
{
    lines.len() > 0 && (any_content(lines.drop_last()) || content_of(lines.last()).len() > 0)
}

/// The cells of a line's content.
pub open spec fn cells_of(line: Seq<u8>, d: u8) -> Seq<Seq<u8>> {
    split_on(content_of(line), d)
}

/// The trimmed text of cell `k`, or `None` when the row stops short of it.
pub open spec fn cell(cells: Seq<Seq<u8>>, k: int) -> Option<Seq<u8>> {
    if 0 <= k < cells.len() { Some(trim(cells[k])) } else { None }
}

pub open spec fn cell_u8(cells: Seq<Seq<u8>>, k: int) -> Option<u8> {
    match cell(cells, k) { Some(c) => spec_u8(c), None => None }
}

pub open spec fn cell_u16(cells: Seq<Seq<u8>>, k: int) -> Option<u16> {
    match cell(cells, k) { Some(c) => spec_u16(c), None => None }
}

pub open spec fn cell_u32(cells: Seq<Seq<u8>>, k: int) -> Option<u32> {
    match cell(cells, k) { Some(c) => spec_u32(c), None => None }
}

pub open spec fn cell_i8(cells: Seq<Seq<u8>>, k: int) -> Option<i8> {
    match cell(cells, k) { Some(c) => spec_i8(c), None => None }
}

pub open spec fn cell_i16(cells: Seq<Seq<u8>>, k: int) -> Option<i16> {
    match cell(cells, k) { Some(c) => spec_i16(c), None => None }
}

pub open spec fn cell_i32(cells: Seq<Seq<u8>>, k: int) -> Option<i32> {
    match cell(cells, k) { Some(c) => spec_i32(c), None => None }
}

/// Whether a line has content.
pub fn has_content(line: &[u8]) -> (r: bool)
    ensures
        r == (content_of(line@).len() > 0),
{
    let end = comment_cut(line);
    let (a, b) = trim_range(&line[0..end]);
    a < b
}

/// The cells of a line: its content split on `d`.
pub fn line_cells(line: &[u8], d: u8) -> (cells: Vec<Vec<u8>>)
    ensures
        views(cells@) == cells_of(line@, d),
{
    let clean = clean_line(line);
    split_bytes(clean.as_slice(), d)
}

/// The trimmed text of cell `k`.
pub fn get_cell(cells: &Vec<Vec<u8>>, k: usize) -> (r: Option<Vec<u8>>)
    ensures
        match r {
            Some(c) => cell(views(cells@), k as int) == Some(c@),
            None => cell(views(cells@), k as int) is None,
        },
{
    if k < cells.len() {
        Some(trimmed(cells[k].as_slice()))
    } else {
        None
    }
}

pub fn get_u8(cells: &Vec<Vec<u8>>, k: usize) -> (r: Option<u8>)
    ensures r == cell_u8(views(cells@), k as int),
{
    match get_cell(cells, k) { Some(c) => to_u8(c.as_slice()), None => None }
}

pub fn get_u16(cells: &Vec<Vec<u8>>, k: usize) -> (r: Option<u16>)
    ensures r == cell_u16(views(cells@), k as int),
{
    match get_cell(cells, k) { Some(c) => to_u16(c.as_slice()), None => None }
}

pub fn get_u32(cells: &Vec<Vec<u8>>, k: usize) -> (r: Option<u32>)
    ensures r == cell_u32(views(cells@), k as int),
{
    match get_cell(cells, k) { Some(c) => to_u32(c.as_slice()), None => None }
}

pub fn get_i8(cells: &Vec<Vec<u8>>, k: usize) -> (r: Option<i8>)
    ensures r == cell_i8(views(cells@), k as int),
{
    match get_cell(cells, k) { Some(c) => to_i8(c.as_slice()), None => None }
}

pub fn get_i16(cells: &Vec<Vec<u8>>, k: usize) -> (r: Option<i16>)
    ensures r == cell_i16(views(cells@), k as int),
{
    match get_cell(cells, k) { Some(c) => to_i16(c.as_slice()), None => None }
}

pub fn get_i32(cells: &Vec<Vec<u8>>, k: usize) -> (r: Option<i32>)
    ensures r == cell_i32(views(cells@), k as int),
{
    match get_cell(cells, k) { Some(c) => to_i32(c.as_slice()), None => None }
}


/// The copy of `s` after its first `//`, trimmed; empty when it has none.
pub fn comment_text(s: &[u8]) -> (out: Vec<u8>)
    ensures
        out@ == trim(after_comment(s@)),
{
    proof {
        lemma_comment_start_bounds(s@);
    }
    match find_comment(s) {
        Some(i) => {
            assert(comment_start(s@) == Some(i as int));
            assert(i + 2 <= s.len());
            assert(s@.subrange(i + 2, s@.len() as int) =~= s@.skip(i + 2));
            trimmed(&s[i + 2..s.len()])
        },
        None => {
            let v: Vec<u8> = Vec::new();
            assert(trim(Seq::<u8>::empty()) =~= Seq::<u8>::empty()) by {
                reveal_with_fuel(trim_start, 1);
                reveal_with_fuel(trim_end, 1);
            }
            v
        },
    }
}

/// Every piece of `pieces`, trimmed.
pub open spec fn trim_all(pieces: Seq<Seq<u8>>) -> Seq<Seq<u8>> {
    pieces.map_values(|p: Seq<u8>| trim(p))
}

/// The cells of a line before its comment, each trimmed, without trimming
/// the line first.
pub open spec fn raw_cells(line: Seq<u8>, d: u8) -> Seq<Seq<u8>> {
    trim_all(split_on(before_comment(line), d))
}

/// Splits the part of a line before its comment on `d` and trims every cell.
pub fn line_raw_cells(line: &[u8], d: u8) -> (cells: Vec<Vec<u8>>)
    ensures
        views(cells@) == raw_cells(line@, d),
{
    let end = comment_cut(line);
    let pieces = split_bytes(&line[0..end], d);
    let mut out: Vec<Vec<u8>> = Vec::new();
    let mut i: usize = 0;
    while i < pieces.len()
        invariant
            i <= pieces@.len(),
            views(pieces@) == split_on(before_comment(line@), d),
            views(out@) == trim_all(views(pieces@)).take(i as int),
        decreases pieces@.len() - i,
    {
        let t = trimmed(pieces[i].as_slice());
        proof {
            lemma_views_push(out@, t);
        }
        out.push(t);
        proof {
            assert(views(out@) =~= trim_all(views(pieces@)).take(i + 1));
        }
        i += 1;
    }
    proof {
        assert(trim_all(views(pieces@)).take(i as int) =~= trim_all(views(pieces@)));
    }
    out
}


/// `s` without its first `n` elements, or nothing when it is shorter.
pub open spec fn drop_n<T>(s: Seq<T>, n: int) -> Seq<T> {
    if n <= s.len() { s.skip(n) } else { Seq::empty() }
}

/// Rust's truncating division on integers.
pub open spec fn div_trunc(a: int, b: int) -> int {
    if a >= 0 { a / b } else { -((-a) / b) }
}

/// Rust's truncating remainder on integers.
pub open spec fn rem_trunc(a: int, b: int) -> int {
    a - div_trunc(a, b) * b
}

/// The integer cell `k` reads as, or `default` when it reads as none.
pub open spec fn i32_or(cells: Seq<Seq<u8>>, k: int, default: i32) -> i32 {
    match cell_i32(cells, k) { Some(v) => v, None => default }
}

/// The `i32` that column `k` of a row reads as once trimmed, or `default`
/// where the row stops short of it or the text names no `i32`.
pub open spec fn read_i32_at(cells: Seq<Seq<u8>>, k: int, default: i32) -> i32 {
    if 0 <= k < cells.len() {
        match spec_i32(trim(cells[k])) { Some(v) => v, None => default }
    } else {
        default
    }
}

/// The `u32` that column `k` of a row reads as once trimmed, or `default`
/// where the row stops short of it or the text names no `u32`.
pub open spec fn read_u32_at(cells: Seq<Seq<u8>>, k: int, default: u32) -> u32 {
    if 0 <= k < cells.len() {
        match spec_u32(trim(cells[k])) { Some(v) => v, None => default }
    } else {
        default
    }
}

/// The `u8` that column `k` of a row reads as once trimmed, or `default`
/// where the row stops short of it or the text names no `u8`.
pub open spec fn read_u8_at(cells: Seq<Seq<u8>>, k: int, default: u8) -> u8 {
    if 0 <= k < cells.len() {
        match spec_u8(trim(cells[k])) { Some(v) => v, None => default }
    } else {
        default
    }
}

/// The `u32` cell `k` reads as, or `default` when it reads as none.
pub open spec fn u32_or(cells: Seq<Seq<u8>>, k: int, default: u32) -> u32 {
    match cell_u32(cells, k) { Some(v) => v, None => default }
}

pub fn get_i32_or(cells: &Vec<Vec<u8>>, k: usize, default: i32) -> (r: i32)
    ensures r == i32_or(views(cells@), k as int, default),
{
    match get_i32(cells, k) { Some(v) => v, None => default }
}

pub fn get_u32_or(cells: &Vec<Vec<u8>>, k: usize, default: u32) -> (r: u32)
    ensures r == u32_or(views(cells@), k as int, default),
{
    match get_u32(cells, k) { Some(v) => v, None => default }
}

/// The `u8` cell `k` reads as, or `default` when it reads as none.
pub open spec fn u8_or(cells: Seq<Seq<u8>>, k: int, default: u8) -> u8 {
    match cell_u8(cells, k) { Some(v) => v, None => default }
}

pub fn get_u8_or(cells: &Vec<Vec<u8>>, k: usize, default: u8) -> (r: u8)
    ensures r == u8_or(views(cells@), k as int, default),
{
    match get_u8(cells, k) { Some(v) => v, None => default }
}

/// The `i16` cell `k` reads as, or `default` when it reads as none.
pub open spec fn i16_or(cells: Seq<Seq<u8>>, k: int, default: i16) -> i16 {
    match cell_i16(cells, k) { Some(v) => v, None => default }
}

pub fn get_i16_or(cells: &Vec<Vec<u8>>, k: usize, default: i16) -> (r: i16)
    ensures r == i16_or(views(cells@), k as int, default),
{
    match get_i16(cells, k) { Some(v) => v, None => default }
}

/// Whether cell `k` reads as the integer one.
pub open spec fn flag_of(cells: Seq<Seq<u8>>, k: int) -> bool {
    match cell(cells, k) { Some(c) => spec_i64(c) == Some(1i64), None => false }
}

pub fn get_flag(cells: &Vec<Vec<u8>>, k: usize) -> (r: bool)
    ensures r == flag_of(views(cells@), k as int),
{
    match get_cell(cells, k) {
        Some(c) => match to_i64(c.as_slice()) { Some(v) => v == 1, None => false },
        None => false,
    }
}

/// Whether any of `cells` is not empty.
pub open spec fn any_nonempty(cells: Seq<Seq<u8>>) -> bool {
    exists|i: int| 0 <= i < cells.len() && #[trigger] cells[i].len() > 0
}

pub fn has_nonempty(cells: &Vec<Vec<u8>>) -> (r: bool)
    ensures r == any_nonempty(views(cells@)),
{
    let mut i: usize = 0;
    while i < cells.len()
        invariant
            i <= cells@.len(),
            forall|j: int| 0 <= j < i ==> #[trigger] views(cells@)[j].len() == 0,
        decreases cells@.len() - i,
    {
        if cells[i].len() > 0 {
            assert(views(cells@)[i as int].len() > 0);
            return true;
        }
        i += 1;
    }
    false
}

/// The non-empty cells of `cells`, each read as an `i32` where it reads as one.
pub open spec fn nonempty_ints(cells: Seq<Seq<u8>>) -> Seq<Option<i32>>
    decreases cells.len(),
{
    if cells.len() == 0 {
        Seq::empty()
    } else if cells.last().len() == 0 {
        nonempty_ints(cells.drop_last())
    } else {
        nonempty_ints(cells.drop_last()).push(spec_i32(cells.last()))
    }
}

/// Every cell of `cells`, read as an `i32` where it reads as one.
pub open spec fn all_ints(cells: Seq<Seq<u8>>) -> Seq<Option<i32>> {
    cells.map_values(|c: Seq<u8>| spec_i32(c))
}

/// Reads the cells of `cells` from `start` on as integers, skipping empty ones.
pub fn trailing_ints(cells: &Vec<Vec<u8>>, start: usize) -> (r: Vec<Option<i32>>)
    ensures
        r@ == nonempty_ints(drop_n(views(cells@), start as int)),
{
    let mut out: Vec<Option<i32>> = Vec::new();
    let mut i: usize = start;
    let ghost cs = views(cells@);
    if start >= cells.len() {
        assert(drop_n(cs, start as int) =~= Seq::<Seq<u8>>::empty());
        return out;
    }
    assert(cs.skip(start as int).take(0) =~= Seq::<Seq<u8>>::empty());
    while i < cells.len()
        invariant
            start <= i <= cells@.len(),
            cs == views(cells@),
            out@ == nonempty_ints(cs.skip(start as int).take(i - start)),
        decreases cells@.len() - i,
    {
        proof {
            assert(cs.skip(start as int).take(i - start + 1).drop_last() =~= cs.skip(start as int).take(i - start));
            assert(cs.skip(start as int).take(i - start + 1).last() == cells@[i as int]@);
        }
        if cells[i].len() > 0 {
            out.push(to_i32(cells[i].as_slice()));
        }
        i += 1;
    }
    assert(cs.skip(start as int).take(i - start) =~= cs.skip(start as int));
    out
}

/// Reads every cell of `cells` from `start` on as an integer.
pub fn trailing_all_ints(cells: &Vec<Vec<u8>>, start: usize) -> (r: Vec<Option<i32>>)
    ensures
        r@ == all_ints(drop_n(views(cells@), start as int)),
{
    let mut out: Vec<Option<i32>> = Vec::new();
    let mut i: usize = start;
    let ghost cs = views(cells@);
    if start >= cells.len() {
        assert(all_ints(drop_n(cs, start as int)) =~= Seq::<Option<i32>>::empty());
        return out;
    }
    while i < cells.len()
        invariant
            start <= i <= cells@.len(),
            cs == views(cells@),
            out@ == all_ints(cs.skip(start as int)).take(i - start),
        decreases cells@.len() - i,
    {
        out.push(to_i32(cells[i].as_slice()));
        proof {
            assert(out@ =~= all_ints(cs.skip(start as int)).take(i + 1 - start));
        }
        i += 1;
    }
    assert(all_ints(cs.skip(start as int)).take(i - start) =~= all_ints(cs.skip(start as int)));
    out
}


// ---------------------------------------------------------------------------
// Strings
// ---------------------------------------------------------------------------

/// The text `str::to_lowercase` makes of `s`.
pub uninterp spec fn lowercase(s: Seq<char>) -> Seq<char>;

/// The text `str::to_uppercase` makes of `s`.
pub uninterp spec fn uppercase(s: Seq<char>) -> Seq<char>;

/// The ASCII lowercase of a character, leaving every other character alone.
pub open spec fn ascii_lower(c: char) -> char {
    if 'A' <= c && c <= 'Z' { ((c as u32) + 32) as char } else { c }
}

/// The ASCII uppercase of a character, leaving every other character alone.
pub open spec fn ascii_upper(c: char) -> char {
    if 'a' <= c && c <= 'z' { ((c as u32) - 32) as char } else { c }
}

/// The lowercase of a text: letter by letter for ASCII text, and the
/// `str::to_lowercase` text otherwise.
pub open spec fn lower_text(s: Seq<char>) -> Seq<char> {
    if is_ascii_chars(s) { s.map_values(|c: char| ascii_lower(c)) } else { lowercase(s) }
}

/// The uppercase of a text: letter by letter for ASCII text, and the
/// `str::to_uppercase` text otherwise.
pub open spec fn upper_text(s: Seq<char>) -> Seq<char> {
    if is_ascii_chars(s) { s.map_values(|c: char| ascii_upper(c)) } else { uppercase(s) }
}

/// Uppercasing ASCII text after lowercasing it gives its uppercase, and the
/// other way round.
pub proof fn lemma_case_round_trip(s: Seq<char>)
    requires
        is_ascii_chars(s),
    ensures
        upper_text(lower_text(s)) == upper_text(s),
        lower_text(upper_text(s)) == lower_text(s),
{
    let lo = s.map_values(|c: char| ascii_lower(c));
    let up = s.map_values(|c: char| ascii_upper(c));
    assert(is_ascii_chars(lo));
    assert(is_ascii_chars(up));
    assert(lo.map_values(|c: char| ascii_upper(c)) =~= up);
    assert(up.map_values(|c: char| ascii_lower(c)) =~= lo);
}

/// Text without lowercase ASCII letters is its own uppercase.
pub proof fn lemma_upper_unchanged(s: Seq<char>)
    requires
        is_ascii_chars(s),
        forall|i: int| 0 <= i < s.len() ==> !('a' <= #[trigger] s[i] && s[i] <= 'z'),
    ensures
        upper_text(s) == s,
{
    assert(s.map_values(|c: char| ascii_upper(c)) =~= s);
}

/// Text without uppercase ASCII letters is its own lowercase.
pub proof fn lemma_lower_unchanged(s: Seq<char>)
    requires
        is_ascii_chars(s),
        forall|i: int| 0 <= i < s.len() ==> !('A' <= #[trigger] s[i] && s[i] <= 'Z'),
    ensures
        lower_text(s) == s,
{
    assert(s.map_values(|c: char| ascii_lower(c)) =~= s);
}

/// Lowercases a string with `str::to_lowercase`.
///
/// Trusted: the result is the text named `lowercase` of the input, and an
/// ASCII input is lowercased letter by letter. The full Unicode case mapping
/// is left unsaid.
#[verifier::external_body]
pub(crate) fn to_lowercase(s: &str) -> (r: String)
    ensures
        r@ == lowercase(s@),
        is_ascii_chars(s@) ==> r@ == s@.map_values(|c: char| ascii_lower(c)),
{
    s.to_lowercase()
}

/// Uppercases a string with `str::to_uppercase`.
///
/// Trusted: the result is the text named `uppercase` of the input, and an
/// ASCII input is uppercased letter by letter. The full Unicode case mapping
/// is left unsaid.
#[verifier::external_body]
pub(crate) fn to_uppercase(s: &str) -> (r: String)
    ensures
        r@ == uppercase(s@),
        is_ascii_chars(s@) ==> r@ == s@.map_values(|c: char| ascii_upper(c)),
{
    s.to_uppercase()
}

/// Whether two strings hold the same text.
pub fn same_text(a: &str, b: &str) -> (r: bool)
    ensures
        r == (a@ == b@),
{
    let x: String = a.to_owned();
    let y: String = b.to_owned();
    x == y
}

/// An owned copy of a string slice.
pub fn owned(s: &str) -> (r: String)
    ensures
        r@ == s@,
{
    s.to_owned()
}


/// The part of `s` before its first `b`, or all of `s` when it has none.
pub open spec fn take_until(s: Seq<u8>, b: u8) -> Seq<u8>
    decreases s.len(),
{
    if s.len() == 0 {
        s
    } else if s[0] == b {
        Seq::empty()
    } else {
        seq![s[0]] + take_until(s.skip(1), b)
    }
}

/// The length of the part of `s` before its first `b`.
pub fn until_byte(s: &[u8], b: u8) -> (k: usize)
    ensures
        k <= s.len(),
        s@.take(k as int) == take_until(s@, b),
{
    let mut i: usize = 0;
    assert(s@.skip(0) =~= s@);
    assert(s@.take(0) + take_until(s@.skip(0), b) =~= take_until(s@, b));
    while i < s.len()
        invariant
            i <= s.len(),
            s@.take(i as int) + take_until(s@.skip(i as int), b) == take_until(s@, b),
        decreases s.len() - i,
    {
        if s[i] == b {
            assert(take_until(s@.skip(i as int), b) =~= Seq::<u8>::empty());
            assert(s@.take(i as int) + Seq::<u8>::empty() =~= s@.take(i as int));
            return i;
        }
        proof {
            assert(s@.skip(i as int).skip(1) =~= s@.skip(i + 1));
            assert(s@.take(i + 1) =~= s@.take(i as int) + seq![s@[i as int]]);
            assert(s@.take(i + 1) + take_until(s@.skip(i + 1), b)
                =~= s@.take(i as int) + take_until(s@.skip(i as int), b));
        }
        i += 1;
    }
    assert(s@.skip(i as int) =~= Seq::<u8>::empty());
    assert(s@.take(i as int) + Seq::<u8>::empty() =~= s@.take(i as int));
    i
}

/// The first of `lines` with content, if any.
pub open spec fn first_content(lines: Seq<Seq<u8>>) -> Option<Seq<u8>>
    decreases lines.len(),
{
    if lines.len() == 0 {
        None
    } else if content_of(lines[0]).len() > 0 {
        Some(lines[0])
    } else {
        first_content(lines.skip(1))
    }
}

pub proof fn lemma_any_content_skip_first(lines: Seq<Seq<u8>>)
    ensures
        any_content(lines) == (first_content(lines) is Some),
    decreases lines.len(),
{
    if lines.len() > 0 {
        lemma_any_content_split(lines);
        lemma_any_content_skip_first(lines.skip(1));
    }
}

/// Whether a line with content occurs: either the first line has it or a later one does.
pub proof fn lemma_any_content_split(lines: Seq<Seq<u8>>)
    requires
        lines.len() > 0,
    ensures
        any_content(lines) == (content_of(lines[0]).len() > 0 || any_content(lines.skip(1))),
    decreases lines.len(),
{
    if lines.len() > 1 {
        lemma_any_content_split(lines.drop_last());
        assert(lines.drop_last().skip(1) =~= lines.skip(1).drop_last());
        assert(lines.drop_last()[0] == lines[0]);
    } else {
        assert(lines.drop_last() =~= Seq::<Seq<u8>>::empty());
        assert(lines.skip(1) =~= Seq::<Seq<u8>>::empty());
    }
}


/// The lines of a table from line `n` on.
pub fn skip_lines(lines: &Vec<Vec<u8>>, n: usize) -> (r: &[Vec<u8>])
    ensures
        views(r@) == drop_n(views(lines@), n as int),
{
    if n <= lines.len() {
        let r = &lines.as_slice()[n..lines.len()];
        assert(views(r@) =~= views(lines@).skip(n as int));
        r
    } else {
        let r = &lines.as_slice()[0..0];
        assert(views(r@) =~= Seq::<Seq<u8>>::empty());
        r
    }
}


/// The `u32` values of the cells that read as one, in order.
pub open spec fn u32_cells(cells: Seq<Seq<u8>>) -> Seq<u32>
    decreases cells.len(),
{
    if cells.len() == 0 {
        Seq::empty()
    } else {
        match spec_u32(trim(cells.last())) {
            Some(v) => u32_cells(cells.drop_last()).push(v),
            None => u32_cells(cells.drop_last()),
        }
    }
}

/// Reads the cells of `cells` from `start` on that read as a `u32`.
pub fn read_u32_cells(cells: &Vec<Vec<u8>>, start: usize) -> (r: Vec<u32>)
    ensures
        r@ == u32_cells(drop_n(views(cells@), start as int)),
{
    let mut out: Vec<u32> = Vec::new();
    let ghost cs = views(cells@);
    if start >= cells.len() {
        assert(drop_n(cs, start as int) =~= Seq::<Seq<u8>>::empty());
        return out;
    }
    let mut i: usize = start;
    assert(cs.skip(start as int).take(0) =~= Seq::<Seq<u8>>::empty());
    while i < cells.len()
        invariant
            start <= i <= cells@.len(),
            cs == views(cells@),
            out@ == u32_cells(cs.skip(start as int).take(i - start)),
        decreases cells@.len() - i,
    {
        proof {
            assert(cs.skip(start as int).take(i - start + 1).drop_last() =~= cs.skip(start as int).take(i - start));
            assert(cs.skip(start as int).take(i - start + 1).last() == cells@[i as int]@);
        }
        let t = trimmed(cells[i].as_slice());
        match to_u32(t.as_slice()) {
            Some(v) => out.push(v),
            None => {},
        }
        i += 1;
    }
    assert(cs.skip(start as int).take(i - start) =~= cs.skip(start as int));
    out
}

/// Whether `s` equals the ASCII text `lit` ignoring ASCII case.
pub open spec fn eq_ignore_ascii_case(s: Seq<u8>, lit: Seq<u8>) -> bool {
    s.len() == lit.len() && forall|i: int| 0 <= i < s.len() ==> #[trigger] ascii_fold(s[i]) == ascii_fold(lit[i])
}

/// The ASCII lowercase of a byte.
pub open spec fn ascii_fold(b: u8) -> u8 {
    if 65 <= b && b <= 90 { (b + 32) as u8 } else { b }
}

fn fold_byte(b: u8) -> (r: u8)
    ensures
        r == ascii_fold(b),
{
    if 65 <= b && b <= 90 { b + 32 } else { b }
}

/// Compares `s` with `lit` ignoring ASCII case.
pub fn same_ignoring_case(s: &[u8], lit: &[u8]) -> (r: bool)
    ensures
        r == eq_ignore_ascii_case(s@, lit@),
{
    if s.len() != lit.len() {
        return false;
    }
    let mut i: usize = 0;
    while i < s.len()
        invariant
            i <= s.len(),
            s.len() == lit.len(),
            forall|j: int| 0 <= j < i ==> #[trigger] ascii_fold(s@[j]) == ascii_fold(lit@[j]),
        decreases s.len() - i,
    {
        if fold_byte(s[i]) != fold_byte(lit[i]) {
            return false;
        }
        i += 1;
    }
    true
}

/// Compares two byte strings.
pub fn same_bytes(a: &[u8], b: &[u8]) -> (r: bool)
    ensures
        r == (a@ == b@),
{
    if a.len() != b.len() {
        return false;
    }
    let mut i: usize = 0;
    while i < a.len()
        invariant
            i <= a.len(),
            a.len() == b.len(),
            forall|j: int| 0 <= j < i ==> a@[j] == b@[j],
        decreases a.len() - i,
    {
        if a[i] != b[i] {
            return false;
        }
        i += 1;
    }
    assert(a@ =~= b@);
    true
}

/// Whether `s` begins with `p`.
pub open spec fn starts_with(s: Seq<u8>, p: Seq<u8>) -> bool {
    p.len() <= s.len() && s.take(p.len() as int) == p
}

/// Tests whether `s` begins with `p`.
pub fn has_prefix(s: &[u8], p: &[u8]) -> (r: bool)
    ensures
        r == starts_with(s@, p@),
{
    if p.len() > s.len() {
        return false;
    }
    let r = same_bytes(&s[0..p.len()], p);
    assert(s@.subrange(0, p@.len() as int) =~= s@.take(p@.len() as int));
    r
}

} // verus!
