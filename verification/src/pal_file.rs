use vstd::prelude::*;

use vstd::utf8::valid_utf8;

use crate::palettes::{NESColor, table_colors, rgb_color};
use crate::text::{bytes_eq, decimal_digits, lemma_parse_unsigned_range, parse_unsigned, parse_unsigned_bytes, push_char, push_decimal};

verus! {

/// First line of a JASC palette file: "JASC-PAL".
pub const JASC_PAL_TAG: [u8; 8] = [0x4A, 0x41, 0x53, 0x43, 0x2D, 0x50, 0x41, 0x4C];

/// Size of a raw palette file: 64 colours of three bytes.
pub const RAW_PALETTE_SIZE: usize = 192;

pub open spec fn black() -> NESColor {
    NESColor { r: 0, g: 0, b: 0 }
}

// ---------------------------------------------------------------- lines

/// Position of the first `c` in `s`, or the length of `s` when there is none.
pub open spec fn first_index_of(s: Seq<u8>, c: u8) -> nat
    decreases s.len(),
{
    if s.len() == 0 {
        0
    } else if s[0] == c {
        0
    } else {
        1 + first_index_of(s.skip(1), c)
    }
}

/// A line loses one carriage return before its line feed.
pub open spec fn strip_cr(line: Seq<u8>) -> Seq<u8> {
    if line.len() > 0 && line.last() == 0x0D {
        line.drop_last()
    } else {
        line
    }
}

/// The lines of a text: split at each line feed, a final line feed ends the
/// last line rather than starting an empty one, and a carriage return just
/// before a line feed is not part of its line.
pub open spec fn text_lines(s: Seq<u8>) -> Seq<Seq<u8>>
    decreases s.len(),
{
    if s.len() == 0 {
        seq![]
    } else {
        let k = first_index_of(s, 0x0A);
        if k < s.len() {
            seq![strip_cr(s.take(k as int))] + text_lines(s.skip(k as int + 1))
        } else {
            seq![s]
        }
    }
}

// ---------------------------------------------------------------- words

/// Length of the whitespace character at the start of the UTF-8 text `s`,
/// 0 when it does not start with one: tab, line feed, vertical tab, form
/// feed, carriage return, space, U+0085, U+00A0, U+1680, U+2000-U+200A,
/// U+2028, U+2029, U+202F, U+205F and U+3000.
pub open spec fn ws_len(s: Seq<u8>) -> nat {
    if s.len() == 0 {
        0
    } else if (0x09 <= s[0] <= 0x0D) || s[0] == 0x20 {
        1
    } else if s.len() >= 2 && s[0] == 0xC2 && (s[1] == 0x85 || s[1] == 0xA0) {
        2
    } else if s.len() >= 3 && (
        (s[0] == 0xE1 && s[1] == 0x9A && s[2] == 0x80)
        || (s[0] == 0xE2 && s[1] == 0x80 && ((0x80 <= s[2] <= 0x8A) || s[2] == 0xA8 || s[2] == 0xA9 || s[2] == 0xAF))
        || (s[0] == 0xE2 && s[1] == 0x81 && s[2] == 0x9F)
        || (s[0] == 0xE3 && s[1] == 0x80 && s[2] == 0x80)
    ) {
        3
    } else {
        0
    }
}

/// Length of the run at the start of `s` in which no whitespace character starts.
pub open spec fn word_len(s: Seq<u8>) -> nat
    decreases s.len(),
{
    if s.len() == 0 || ws_len(s) > 0 {
        0
    } else {
        1 + word_len(s.skip(1))
    }
}

pub proof fn lemma_word_len_bound(s: Seq<u8>)
    ensures
        word_len(s) <= s.len(),
    decreases s.len(),
{
    if s.len() > 0 && ws_len(s) == 0 {
        lemma_word_len_bound(s.skip(1));
    }
}

/// The whitespace-separated words of `s`.
pub open spec fn words(s: Seq<u8>) -> Seq<Seq<u8>>
    decreases s.len(),
{
    if s.len() == 0 {
        seq![]
    } else if ws_len(s) > 0 {
        words(s.skip(ws_len(s) as int))
    } else {
        proof {
            lemma_word_len_bound(s);
        }
        seq![s.take(word_len(s) as int)] + words(s.skip(word_len(s) as int))
    }
}

// ---------------------------------------------------------------- file

/// The file is a JASC palette: valid UTF-8 text that begins with "JASC-PAL".
pub open spec fn is_jasc_pal(b: Seq<u8>) -> bool {
    &&& valid_utf8(b)
    &&& b.len() >= 8
    &&& b.take(8) == JASC_PAL_TAG@
}

/// The colour of a line that holds exactly three words, each a number up to 255.
pub open spec fn jasc_line_color(line: Seq<u8>) -> Option<NESColor> {
    let w = words(line);
    if w.len() == 3 {
        match (parse_unsigned(w[0], 10, 255), parse_unsigned(w[1], 10, 255), parse_unsigned(w[2], 10, 255)) {
            (Some(r), Some(g), Some(b)) => Some(NESColor { r: r as u8, g: g as u8, b: b as u8 }),
            _ => None,
        }
    } else {
        None
    }
}

/// Colour `i` of a JASC palette: read from line 6 + i (the header lines and
/// the three after the colour count are passed over), black when that line
/// is missing or holds no colour.
pub open spec fn jasc_color(b: Seq<u8>, i: int) -> NESColor {
    let lines = text_lines(b);
    if 6 + i < lines.len() {
        match jasc_line_color(lines[6 + i]) {
            Some(c) => c,
            None => black(),
        }
    } else {
        black()
    }
}

pub open spec fn jasc_colors(b: Seq<u8>) -> Seq<NESColor> {
    Seq::new(64, |i: int| jasc_color(b, i))
}

/// The colour count that the third line declares, 0 when it holds no number.
pub open spec fn jasc_declared_colors(b: Seq<u8>) -> u32 {
    let lines = text_lines(b);
    if lines.len() > 2 {
        match parse_unsigned(lines[2], 10, u32::MAX as int) {
            Some(n) => n as u32,
            None => 0,
        }
    } else {
        0
    }
}

/// The message for a raw palette file of `found` bytes.
pub open spec fn invalid_size_text(found: nat) -> Seq<char> {
    "Invalid file size (Expected 192bytes, found: "@ + decimal_digits(found) + ")"@
}

/// A palette file as read: its 64 colours and, for a JASC file, the colour
/// count it declares (a NES palette declares 64).
pub struct PalFile {
    pub colors: [NESColor; 64],
    pub declared_colors: Option<u32>,
}

#[verifier::external_type_specification]
#[verifier::external_body]
pub struct ExIoError(std::io::Error);

#[derive(Debug)]
pub enum PaletteError {
    Io(std::io::Error),
    InvalidFormat(String),
}

impl From<std::io::Error> for PaletteError {
    fn from(err: std::io::Error) -> (r: Self) {
        PaletteError::Io(err)
    }
}

impl vstd::std_specs::convert::FromSpecImpl<std::io::Error> for PaletteError {
    open spec fn obeys_from_spec() -> bool {
        true
    }

    open spec fn from_spec(err: std::io::Error) -> Self {
        PaletteError::Io(err)
    }
}

/// `std::str::from_utf8` accepts exactly the byte sequences that are valid UTF-8.
#[verifier::external_body]
fn is_utf8(bytes: &[u8]) -> (r: bool)
    ensures
        r == valid_utf8(bytes@),
{
    std::str::from_utf8(bytes).is_ok()
}

/// The message for a raw palette file of `found` bytes.
fn invalid_size_message(found: usize) -> (s: String)
    ensures
        s@ == invalid_size_text(found as nat),
{
    let mut s = "Invalid file size (Expected 192bytes, found: ".to_owned();
    push_decimal(&mut s, found);
    push_char(&mut s, ')');
    proof {
        reveal_strlit(")");
        assert(s@ =~= invalid_size_text(found as nat));
    }
    s
}


// ---------------------------------------------------------------- reading

/// The parts of `b` that the ranges `r` mark.
pub open spec fn ranges_of(b: Seq<u8>, r: Seq<(usize, usize)>) -> Seq<Seq<u8>> {
    r.map_values(|x: (usize, usize)| b.subrange(x.0 as int, x.1 as int))
}

proof fn lemma_first_index_of(s: Seq<u8>, c: u8, m: int)
    requires
        0 <= m <= s.len(),
        forall|i: int| 0 <= i < m ==> s[i] != c,
        m == s.len() || s[m] == c,
    ensures
        first_index_of(s, c) == m,
    decreases m,
{
    if s.len() > 0 && m > 0 {
        assert forall|i: int| 0 <= i < m - 1 implies s.skip(1)[i] != c by {
            assert(s.skip(1)[i] == s[i + 1]);
        }
        lemma_first_index_of(s.skip(1), c, m - 1);
    }
}

proof fn lemma_word_len(s: Seq<u8>, m: int)
    requires
        0 <= m <= s.len(),
        forall|i: int| 0 <= i < m ==> ws_len(#[trigger] s.skip(i)) == 0,
        m == s.len() || ws_len(s.skip(m)) > 0,
    ensures
        word_len(s) == m,
    decreases m,
{
    assert(s.skip(0) =~= s);
    if m > 0 {
        assert forall|i: int| 0 <= i < m - 1 implies ws_len(#[trigger] s.skip(1).skip(i)) == 0 by {
            assert(s.skip(1).skip(i) =~= s.skip(i + 1));
        }
        assert(s.skip(1).skip(m - 1) =~= s.skip(m));
        lemma_word_len(s.skip(1), m - 1);
    }
}

fn line_ranges(b: &[u8]) -> (r: Vec<(usize, usize)>)
    ensures
        ranges_of(b@, r@) == text_lines(b@),
        forall|i: int| 0 <= i < r@.len() ==> (#[trigger] r@[i]).0 <= r@[i].1 <= b@.len(),
{
    let mut r: Vec<(usize, usize)> = Vec::new();
    let len = b.len();
    let mut p: usize = 0;
    proof {
        assert(b@.skip(0) =~= b@);
        assert(ranges_of(b@, r@) =~= seq![]);
        assert(text_lines(b@) =~= ranges_of(b@, r@) + text_lines(b@.skip(0)));
    }
    while p < len
        invariant
            p <= len == b@.len(),
            text_lines(b@) == ranges_of(b@, r@) + text_lines(b@.skip(p as int)),
            forall|i: int| 0 <= i < r@.len() ==> (#[trigger] r@[i]).0 <= r@[i].1 <= len,
        decreases len - p,
    {
        let mut q: usize = p;
        while q < len && b[q] != 0x0A
            invariant
                p <= q <= len == b@.len(),
                forall|i: int| p <= i < q ==> b@[i] != 0x0A,
            decreases len - q,
        {
            q = q + 1;
        }
        let ghost s = b@.skip(p as int);
        proof {
            assert forall|i: int| 0 <= i < q - p implies s[i] != 0x0A by {
                assert(s[i] == b@[p + i]);
            }
            lemma_first_index_of(s, 0x0A, q - p);
        }
        let ghost before = r@;
        if q < len {
            let end = if q > p && b[q - 1] == 0x0D { q - 1 } else { q };
            r.push((p, end));
            proof {
                assert(s.take(q - p) =~= b@.subrange(p as int, q as int));
                assert(strip_cr(s.take(q - p)) =~= b@.subrange(p as int, end as int));
                assert(s.skip(q - p + 1) =~= b@.skip(q + 1));
                assert(ranges_of(b@, r@) =~= ranges_of(b@, before).push(b@.subrange(p as int, end as int)));
                assert(text_lines(s) == seq![strip_cr(s.take(q - p))] + text_lines(s.skip(q - p + 1)));
                assert(text_lines(b@) =~= ranges_of(b@, r@) + text_lines(b@.skip(q + 1)));
            }
            p = q + 1;
        } else {
            r.push((p, q));
            proof {
                assert(s =~= b@.subrange(p as int, q as int));
                assert(ranges_of(b@, r@) =~= ranges_of(b@, before).push(b@.subrange(p as int, q as int)));
                assert(text_lines(s) == seq![s]);
                assert(b@.skip(len as int) =~= Seq::<u8>::empty());
                assert(text_lines(b@) =~= ranges_of(b@, r@) + text_lines(b@.skip(len as int)));
            }
            p = len;
        }
    }
    proof {
        assert(b@.skip(p as int) =~= Seq::<u8>::empty());
        assert(text_lines(b@) =~= ranges_of(b@, r@));
    }
    r
}

fn ws_len_at(s: &[u8], p: usize) -> (n: usize)
    requires
        p <= s@.len(),
    ensures
        n == ws_len(s@.skip(p as int)),
        n <= s@.len() - p,
{
    let ghost t = s@.skip(p as int);
    let len = s.len();
    if p >= len {
        return 0;
    }
    proof {
        assert(t[0] == s@[p as int]);
    }
    let c0 = s[p];
    if (0x09 <= c0 && c0 <= 0x0D) || c0 == 0x20 {
        return 1;
    }
    if len - p >= 2 {
        let c1 = s[p + 1];
        proof { assert(t[1] == c1); }
        if c0 == 0xC2 && (c1 == 0x85 || c1 == 0xA0) {
            return 2;
        }
    }
    if len - p >= 3 {
        let c1 = s[p + 1];
        let c2 = s[p + 2];
        proof { assert(t[1] == c1); assert(t[2] == c2); }
        if (c0 == 0xE1 && c1 == 0x9A && c2 == 0x80)
            || (c0 == 0xE2 && c1 == 0x80 && ((0x80 <= c2 && c2 <= 0x8A) || c2 == 0xA8 || c2 == 0xA9 || c2 == 0xAF))
            || (c0 == 0xE2 && c1 == 0x81 && c2 == 0x9F)
            || (c0 == 0xE3 && c1 == 0x80 && c2 == 0x80) {
            return 3;
        }
    }
    0
}

fn word_ranges(line: &[u8]) -> (r: Vec<(usize, usize)>)
    ensures
        ranges_of(line@, r@) == words(line@),
        forall|i: int| 0 <= i < r@.len() ==> (#[trigger] r@[i]).0 <= r@[i].1 <= line@.len(),
{
    let mut r: Vec<(usize, usize)> = Vec::new();
    let len = line.len();
    let mut p: usize = 0;
    proof {
        assert(line@.skip(0) =~= line@);
        assert(words(line@) =~= ranges_of(line@, r@) + words(line@.skip(0)));
    }
    while p < len
        invariant
            p <= len == line@.len(),
            words(line@) == ranges_of(line@, r@) + words(line@.skip(p as int)),
            forall|i: int| 0 <= i < r@.len() ==> (#[trigger] r@[i]).0 <= r@[i].1 <= len,
        decreases len - p,
    {
        let ghost s = line@.skip(p as int);
        let w = ws_len_at(line, p);
        if w > 0 {
            proof {
                assert(s.skip(w as int) =~= line@.skip(p + w));
                assert(words(s) == words(s.skip(ws_len(s) as int)));
            }
            p = p + w;
        } else {
            let mut q: usize = p + 1;
            while q < len && ws_len_at(line, q) == 0
                invariant
                    p < q <= len == line@.len(),
                    forall|i: int| p <= i < q ==> ws_len(#[trigger] line@.skip(i)) == 0,
                decreases len - q,
            {
                q = q + 1;
            }
            let ghost before = r@;
            r.push((p, q));
            proof {
                assert forall|i: int| 0 <= i < q - p implies ws_len(#[trigger] s.skip(i)) == 0 by {
                    assert(s.skip(i) =~= line@.skip(p + i));
                }
                if q < len {
                    assert(s.skip(q - p) =~= line@.skip(q as int));
                }
                lemma_word_len(s, q - p);
                assert(s.take(q - p) =~= line@.subrange(p as int, q as int));
                assert(s.skip(q - p) =~= line@.skip(q as int));
                assert(ranges_of(line@, r@) =~= ranges_of(line@, before).push(line@.subrange(p as int, q as int)));
                assert(words(s) == seq![s.take(word_len(s) as int)] + words(s.skip(word_len(s) as int)));
                assert(words(line@) =~= ranges_of(line@, r@) + words(line@.skip(q as int)));
            }
            p = q;
        }
    }
    proof {
        assert(line@.skip(p as int) =~= Seq::<u8>::empty());
        assert(words(line@) =~= ranges_of(line@, r@));
    }
    r
}

fn line_color(line: &[u8]) -> (c: Option<NESColor>)
    ensures
        c == jasc_line_color(line@),
{
    let w = word_ranges(line);
    if w.len() != 3 {
        return None;
    }
    let (a0, b0) = w[0];
    let (a1, b1) = w[1];
    let (a2, b2) = w[2];
    proof {
        assert(ranges_of(line@, w@)[0] == line@.subrange(a0 as int, b0 as int));
        assert(ranges_of(line@, w@)[1] == line@.subrange(a1 as int, b1 as int));
        assert(ranges_of(line@, w@)[2] == line@.subrange(a2 as int, b2 as int));
    }
    let r = parse_unsigned_bytes(&line[a0..b0], 10, 255);
    let g = parse_unsigned_bytes(&line[a1..b1], 10, 255);
    let b = parse_unsigned_bytes(&line[a2..b2], 10, 255);
    proof {
        lemma_parse_unsigned_range(line@.subrange(a0 as int, b0 as int), 10, 255);
        lemma_parse_unsigned_range(line@.subrange(a1 as int, b1 as int), 10, 255);
        lemma_parse_unsigned_range(line@.subrange(a2 as int, b2 as int), 10, 255);
    }
    match (r, g, b) {
        (Some(r), Some(g), Some(b)) => Some(NESColor { r: r as u8, g: g as u8, b: b as u8 }),
        _ => None,
    }
}

/// Reads a palette file: a JASC palette (UTF-8 text starting with
/// "JASC-PAL", the colour count on its third line and one colour per line
/// from its seventh line on), or else 192 bytes of RGB triples.
pub fn palette_from_dot_pal_bytes(bytes: &[u8]) -> (r: Result<PalFile, PaletteError>)
    ensures
        is_jasc_pal(bytes@) ==> (r matches Ok(p) && p.colors@ == jasc_colors(bytes@)
            && p.declared_colors == Some(jasc_declared_colors(bytes@))),
        !is_jasc_pal(bytes@) && bytes@.len() == RAW_PALETTE_SIZE ==> (r matches Ok(p)
            && p.colors@ == table_colors(bytes@) && p.declared_colors is None),
        !is_jasc_pal(bytes@) && bytes@.len() != RAW_PALETTE_SIZE ==> (r matches Err(PaletteError::InvalidFormat(msg))
            && msg@ == invalid_size_text(bytes@.len())),
{
    let jasc = if is_utf8(bytes) && bytes.len() >= 8 {
        let head = &bytes[0..8];
        proof { assert(head@ =~= bytes@.take(8)); }
        bytes_eq(head, &JASC_PAL_TAG)
    } else {
        false
    };
    if jasc {
        let lines = line_ranges(bytes);
        let declared: u32 = if lines.len() > 2 {
            let (a, b) = lines[2];
            proof { assert(ranges_of(bytes@, lines@)[2] == bytes@.subrange(a as int, b as int)); }
            let n = parse_unsigned_bytes(&bytes[a..b], 10, 0xFFFF_FFFF);
            match n {
                Some(n) => n,
                None => 0,
            }
        } else {
            0
        };
        let mut colors = [NESColor { r: 0, g: 0, b: 0 }; 64];
        let mut i: usize = 0;
        while i < 64
            invariant
                i <= 64,
                colors@.len() == 64,
                ranges_of(bytes@, lines@) == text_lines(bytes@),
                forall|k: int| 0 <= k < lines@.len() ==> (#[trigger] lines@[k]).0 <= lines@[k].1 <= bytes@.len(),
                forall|j: int| 0 <= j < i ==> colors@[j] == jasc_color(bytes@, j),
            decreases 64 - i,
        {
            if 6 + i < lines.len() {
                let (a, b) = lines[6 + i];
                proof { assert(ranges_of(bytes@, lines@)[6 + i] == bytes@.subrange(a as int, b as int)); }
                match line_color(&bytes[a..b]) {
                    Some(c) => {
                        colors[i] = c;
                    },
                    None => {
                        colors[i] = NESColor { r: 0, g: 0, b: 0 };
                    },
                }
            } else {
                colors[i] = NESColor { r: 0, g: 0, b: 0 };
            }
            i = i + 1;
        }
        proof {
            assert(colors@ =~= jasc_colors(bytes@));
        }
        return Ok(PalFile { colors, declared_colors: Some(declared) });
    }
    if bytes.len() == RAW_PALETTE_SIZE {
        let mut colors = [NESColor { r: 0, g: 0, b: 0 }; 64];
        let mut i: usize = 0;
        while i < 64
            invariant
                i <= 64,
                colors@.len() == 64,
                bytes@.len() == RAW_PALETTE_SIZE,
                forall|j: int| 0 <= j < i ==> colors@[j] == rgb_color(bytes@, j),
            decreases 64 - i,
        {
            colors[i] = NESColor { r: bytes[i * 3], g: bytes[i * 3 + 1], b: bytes[i * 3 + 2] };
            i = i + 1;
        }
        proof {
            assert(colors@ =~= table_colors(bytes@));
        }
        Ok(PalFile { colors, declared_colors: None })
    } else {
        Err(PaletteError::InvalidFormat(invalid_size_message(bytes.len())))
    }
}

} // verus!
