use vstd::prelude::*;

use crate::text::{hex_value, is_hex_char, law_parse_hex_pair, lemma_parse_unsigned_range, parse_unsigned, parse_unsigned_bytes};
#[allow(unused_imports)]
use vstd::string::StringSliceAdditionalSpecFns;

verus! {

/// The colour that a script's `"#RRGGBB"` string names: seven bytes, a `#`
/// and three hexadecimal pairs (each may be written with a leading `+`);
/// `None` for anything else.
pub open spec fn draw_color(b: Seq<u8>) -> Option<(u8, u8, u8)> {
    if b.len() == 7 && b[0] == 0x23 {
        match (
            parse_unsigned(b.subrange(1, 3), 16, 255),
            parse_unsigned(b.subrange(3, 5), 16, 255),
            parse_unsigned(b.subrange(5, 7), 16, 255),
        ) {
            (Some(r), Some(g), Some(bl)) => Some((r as u8, g as u8, bl as u8)),
            _ => None,
        }
    } else {
        None
    }
}

/// Cutting the string after its third byte falls inside a character.
pub open spec fn red_pair_splits_char(b: Seq<u8>) -> bool {
    b.len() == 7 && b[0] == 0x23 && 0x80 <= b[3] <= 0xBF
}

/// Reads the colour of a drawing command of a script, like `"#FF8000"`.
pub fn parse_color(hex: &str) -> (c: Option<(u8, u8, u8)>)
    requires
        !red_pair_splits_char(hex.spec_bytes()),
    ensures
        c == draw_color(hex.spec_bytes()),
{
    let b = hex.as_bytes();
    if b.len() != 7 || b[0] != 0x23 {
        return None;
    }
    let rs = &b[1..3];
    let gs = &b[3..5];
    let bs = &b[5..7];
    proof {
        lemma_parse_unsigned_range(rs@, 16, 255);
        lemma_parse_unsigned_range(gs@, 16, 255);
        lemma_parse_unsigned_range(bs@, 16, 255);
    }
    if let Some(r) = parse_unsigned_bytes(rs, 16, 255) {
        if let Some(g) = parse_unsigned_bytes(gs, 16, 255) {
            if let Some(bl) = parse_unsigned_bytes(bs, 16, 255) {
                return Some((r as u8, g as u8, bl as u8));
            }
        }
    }
    None
}

/// `"#RRGGBB"` with six hexadecimal digits names the colour whose red, green
/// and blue are the three pairs read as bytes; a string that is not seven
/// bytes long or does not start with `#` names none.
pub proof fn law_draw_color_pairs(b: Seq<u8>)
    ensures
        b.len() == 7 && b[0] == 0x23 && (forall|i: int| 1 <= i < 7 ==> is_hex_char(#[trigger] b[i])) ==> draw_color(b)
            == Some(
            (
                (hex_value(b[1]) * 16 + hex_value(b[2])) as u8,
                (hex_value(b[3]) * 16 + hex_value(b[4])) as u8,
                (hex_value(b[5]) * 16 + hex_value(b[6])) as u8,
            ),
        ),
        b.len() != 7 || b[0] != 0x23 ==> draw_color(b) is None,
{
    if b.len() == 7 {
        assert(b.subrange(1, 3) =~= seq![b[1], b[2]]);
        assert(b.subrange(3, 5) =~= seq![b[3], b[4]]);
        assert(b.subrange(5, 7) =~= seq![b[5], b[6]]);
        law_parse_hex_pair(b[1], b[2]);
        law_parse_hex_pair(b[3], b[4]);
        law_parse_hex_pair(b[5], b[6]);
    }
}

} // verus!
