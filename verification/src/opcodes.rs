use vstd::prelude::*;

use std::collections::HashMap;

use crate::text::{bytes_eq, hex_value, is_hex_char, law_parse_hex_pair, lemma_parse_unsigned_range, parse_unsigned, parse_unsigned_bytes};
#[allow(unused_imports)]
use vstd::string::StringSliceAdditionalSpecFns;

verus! {

broadcast use vstd::std_specs::hash::group_hash_axioms;

/// How a 6502 instruction finds its operand.
#[allow(non_camel_case_types)]
#[derive(Clone, Copy, Debug, PartialEq, Eq, Structural)]
pub enum AddressingMode {
    Immediate,
    ZeroPage,
    ZeroPage_X,
    ZeroPage_Y,
    Absolute,
    Absolute_X,
    Absolute_Y,
    Indirect_X,
    Indirect_Y,
    NoneAddressing,
}

/// One 6502 opcode: its byte, mnemonic, length in bytes, base cycle count
/// and addressing mode.
pub struct OpCode {
    pub code: u8,
    pub mnemonic: String,
    pub len: u8,
    pub cycles: u8,
    pub mode: AddressingMode,
}

/// Mode names of the opcode table, as ASCII bytes.
pub const MODE_IMMEDIATE: [u8; 9] = [0x49u8, 0x6Du8, 0x6Du8, 0x65u8, 0x64u8, 0x69u8, 0x61u8, 0x74u8, 0x65u8];
pub const MODE_ZERO_PAGE: [u8; 8] = [0x5Au8, 0x65u8, 0x72u8, 0x6Fu8, 0x50u8, 0x61u8, 0x67u8, 0x65u8];
pub const MODE_ABSOLUTE: [u8; 8] = [0x41u8, 0x62u8, 0x73u8, 0x6Fu8, 0x6Cu8, 0x75u8, 0x74u8, 0x65u8];
pub const MODE_INDIRECT: [u8; 8] = [0x49u8, 0x6Eu8, 0x64u8, 0x69u8, 0x72u8, 0x65u8, 0x63u8, 0x74u8];

/// `s` is `base` followed by `,` or `_` and then the index register `reg`.
pub open spec fn indexed_name(s: Seq<u8>, base: Seq<u8>, reg: u8) -> bool {
    &&& s.len() == base.len() + 2
    &&& s.take(base.len() as int) == base
    &&& (s[base.len() as int] == 0x2Cu8 || s[base.len() as int] == 0x5Fu8)
    &&& s[base.len() as int + 1] == reg
}

/// The addressing mode that a mode name of the opcode table stands for;
/// implied, accumulator, relative and unknown names give no operand address.
pub open spec fn mode_from_name(s: Seq<u8>) -> AddressingMode {
    if s == MODE_IMMEDIATE@ {
        AddressingMode::Immediate
    } else if s == MODE_ZERO_PAGE@ {
        AddressingMode::ZeroPage
    } else if indexed_name(s, MODE_ZERO_PAGE@, 0x58u8) {
        AddressingMode::ZeroPage_X
    } else if indexed_name(s, MODE_ZERO_PAGE@, 0x59u8) {
        AddressingMode::ZeroPage_Y
    } else if s == MODE_ABSOLUTE@ {
        AddressingMode::Absolute
    } else if indexed_name(s, MODE_ABSOLUTE@, 0x58u8) {
        AddressingMode::Absolute_X
    } else if indexed_name(s, MODE_ABSOLUTE@, 0x59u8) {
        AddressingMode::Absolute_Y
    } else if indexed_name(s, MODE_INDIRECT@, 0x58u8) {
        AddressingMode::Indirect_X
    } else if indexed_name(s, MODE_INDIRECT@, 0x59u8) {
        AddressingMode::Indirect_Y
    } else {
        AddressingMode::NoneAddressing
    }
}

/// `s` without its leading `$` signs.
pub open spec fn strip_dollars(s: Seq<u8>) -> Seq<u8>
    decreases s.len(),
{
    if s.len() > 0 && s[0] == 0x24u8 {
        strip_dollars(s.skip(1))
    } else {
        s
    }
}

/// The opcode byte that an entry like `"$A9"` gives: hexadecimal after the
/// leading `$` signs.
pub open spec fn opcode_byte(s: Seq<u8>) -> Option<int> {
    parse_unsigned(strip_dollars(s), 16, 0xFF)
}

fn is_indexed_name(s: &[u8], base: &[u8], reg: u8) -> (r: bool)
    ensures
        r == indexed_name(s@, base@, reg),
{
    let n = base.len();
    if s.len() < 2 || s.len() - 2 != n {
        return false;
    }
    let head = &s[0..n];
    proof { assert(head@ =~= s@.take(n as int)); }
    bytes_eq(head, base) && (s[n] == 0x2Cu8 || s[n] == 0x5Fu8) && s[n + 1] == reg
}

/// The addressing mode that the mode name `name` stands for.
pub fn addressing_mode_from_name(name: &[u8]) -> (m: AddressingMode)
    ensures
        m == mode_from_name(name@),
{
    if bytes_eq(name, &MODE_IMMEDIATE) {
        AddressingMode::Immediate
    } else if bytes_eq(name, &MODE_ZERO_PAGE) {
        AddressingMode::ZeroPage
    } else if is_indexed_name(name, &MODE_ZERO_PAGE, 0x58u8) {
        AddressingMode::ZeroPage_X
    } else if is_indexed_name(name, &MODE_ZERO_PAGE, 0x59u8) {
        AddressingMode::ZeroPage_Y
    } else if bytes_eq(name, &MODE_ABSOLUTE) {
        AddressingMode::Absolute
    } else if is_indexed_name(name, &MODE_ABSOLUTE, 0x58u8) {
        AddressingMode::Absolute_X
    } else if is_indexed_name(name, &MODE_ABSOLUTE, 0x59u8) {
        AddressingMode::Absolute_Y
    } else if is_indexed_name(name, &MODE_INDIRECT, 0x58u8) {
        AddressingMode::Indirect_X
    } else if is_indexed_name(name, &MODE_INDIRECT, 0x59u8) {
        AddressingMode::Indirect_Y
    } else {
        AddressingMode::NoneAddressing
    }
}

/// Reads the opcode byte of an entry like `"$A9"`.
pub fn parse_opcode_byte(s: &[u8]) -> (r: Option<u8>)
    ensures
        match opcode_byte(s@) {
            Some(v) => r == Some(v as u8),
            None => r is None,
        },
{
    let mut i: usize = 0;
    proof { assert(s@.skip(0) =~= s@); }
    while i < s.len() && s[i] == 0x24u8
        invariant
            i <= s@.len(),
            strip_dollars(s@) == strip_dollars(s@.skip(i as int)),
        decreases s@.len() - i,
    {
        proof {
            assert(s@.skip(i as int).skip(1) =~= s@.skip(i + 1));
        }
        i = i + 1;
    }
    let digits = &s[i..s.len()];
    proof {
        assert(digits@ =~= s@.skip(i as int));
        assert(strip_dollars(digits@) == digits@);
    }
    let parsed = parse_unsigned_bytes(digits, 16, 0xFF);
    proof {
        lemma_parse_unsigned_range(digits@, 16, 0xFF);
    }
    match parsed {
        Some(v) => Some(v as u8),
        None => None,
    }
}

impl OpCode {
    fn new(code: u8, mnemonic: String, len: u8, cycles: u8, mode: AddressingMode) -> (op: Self)
        ensures
            op.code == code,
            op.mnemonic == mnemonic,
            op.len == len,
            op.cycles == cycles,
            op.mode == mode,
    {
        OpCode { code, mnemonic, len, cycles, mode }
    }

    /// Builds an opcode from an entry of the opcode table: its `$`-prefixed
    /// hexadecimal byte, its mnemonic, length, cycle count and mode name.
    /// `None` when the byte is not hexadecimal.
    pub fn from_table_entry(opcode: &str, name: String, bytes: u8, cycles: u8, mode: &str) -> (r: Option<OpCode>)
        ensures
            match opcode_byte(opcode.spec_bytes()) {
                Some(v) => r matches Some(op) && op.code == v as u8 && op.mnemonic == name && op.len == bytes
                    && op.cycles == cycles && op.mode == mode_from_name(mode.spec_bytes()),
                None => r is None,
            },
    {
        let code = parse_opcode_byte(opcode.as_bytes());
        let mode = addressing_mode_from_name(mode.as_bytes());
        match code {
            Some(c) => Some(OpCode::new(c, name, bytes, cycles, mode)),
            None => None,
        }
    }
}

/// The opcode table indexed by opcode byte: each byte that occurs maps to the
/// position of its last entry in `ops`.
pub open spec fn is_opcode_index(ops: Seq<OpCode>, m: Map<u8, usize>) -> bool {
    &&& forall|i: int| 0 <= i < ops.len() ==> m.contains_key(#[trigger] ops[i].code)
    &&& forall|k: u8| #[trigger] m.contains_key(k) ==> {
        &&& m[k] < ops.len()
        &&& ops[m[k] as int].code == k
        &&& forall|j: int| m[k] < j < ops.len() ==> #[trigger] ops[j].code != k
    }
}

/// Maps each opcode byte of `ops` to the position of its entry.
pub fn opcodes_map(ops: &Vec<OpCode>) -> (map: HashMap<u8, usize>)
    ensures
        is_opcode_index(ops@, map@),
{
    let mut map: HashMap<u8, usize> = HashMap::new();
    let mut i: usize = 0;
    while i < ops.len()
        invariant
            i <= ops@.len(),
            is_opcode_index(ops@.take(i as int), map@),
            forall|k: u8| #[trigger] map@.contains_key(k) ==> map@[k] < i,
        decreases ops@.len() - i,
    {
        let code = ops[i].code;
        map.insert(code, i);
        proof {
            let t = ops@.take(i + 1);
            assert forall|j: int| 0 <= j < t.len() implies map@.contains_key(#[trigger] t[j].code) by {
                if j < i {
                    assert(t[j] == ops@.take(i as int)[j]);
                }
            }
            assert forall|k: u8| #[trigger] map@.contains_key(k) implies {
                &&& map@[k] < t.len()
                &&& t[map@[k] as int].code == k
                &&& forall|j: int| map@[k] < j < t.len() ==> #[trigger] t[j].code != k
            } by {
                if k != code {
                    assert(t[map@[k] as int] == ops@.take(i as int)[map@[k] as int]);
                    assert forall|j: int| map@[k] < j < t.len() implies #[trigger] t[j].code != k by {
                        if j < i {
                            assert(t[j] == ops@.take(i as int)[j]);
                        }
                    }
                }
            }
        }
        i = i + 1;
    }
    proof {
        assert(ops@.take(i as int) =~= ops@);
    }
    map
}

/// The mode names of the opcode table: "Immediate", "ZeroPage" and
/// "Absolute" name their modes; a base name followed by `,` or `_` and a
/// register letter names the mode indexed by that register ("ZeroPage,X",
/// "ZeroPage_Y", "Absolute,X", "Indirect_Y", ...); "Indirect" alone,
/// "Implied", "Accumulator" and "Relative" give no operand address.
pub proof fn law_mode_names(sep: u8)
    requires
        sep == 0x2Cu8 || sep == 0x5Fu8,
    ensures
        mode_from_name(seq![0x49u8, 0x6D, 0x6D, 0x65, 0x64, 0x69, 0x61, 0x74, 0x65]) == AddressingMode::Immediate,
        mode_from_name(seq![0x5Au8, 0x65, 0x72, 0x6F, 0x50, 0x61, 0x67, 0x65]) == AddressingMode::ZeroPage,
        mode_from_name(seq![0x5Au8, 0x65, 0x72, 0x6F, 0x50, 0x61, 0x67, 0x65, sep, 0x58])
            == AddressingMode::ZeroPage_X,
        mode_from_name(seq![0x5Au8, 0x65, 0x72, 0x6F, 0x50, 0x61, 0x67, 0x65, sep, 0x59])
            == AddressingMode::ZeroPage_Y,
        mode_from_name(seq![0x41u8, 0x62, 0x73, 0x6F, 0x6C, 0x75, 0x74, 0x65]) == AddressingMode::Absolute,
        mode_from_name(seq![0x41u8, 0x62, 0x73, 0x6F, 0x6C, 0x75, 0x74, 0x65, sep, 0x58])
            == AddressingMode::Absolute_X,
        mode_from_name(seq![0x41u8, 0x62, 0x73, 0x6F, 0x6C, 0x75, 0x74, 0x65, sep, 0x59])
            == AddressingMode::Absolute_Y,
        mode_from_name(seq![0x49u8, 0x6E, 0x64, 0x69, 0x72, 0x65, 0x63, 0x74, sep, 0x58])
            == AddressingMode::Indirect_X,
        mode_from_name(seq![0x49u8, 0x6E, 0x64, 0x69, 0x72, 0x65, 0x63, 0x74, sep, 0x59])
            == AddressingMode::Indirect_Y,
        mode_from_name(seq![0x49u8, 0x6E, 0x64, 0x69, 0x72, 0x65, 0x63, 0x74]) == AddressingMode::NoneAddressing,
        mode_from_name(seq![0x49u8, 0x6D, 0x70, 0x6C, 0x69, 0x65, 0x64]) == AddressingMode::NoneAddressing,
        mode_from_name(seq![0x52u8, 0x65, 0x6C, 0x61, 0x74, 0x69, 0x76, 0x65]) == AddressingMode::NoneAddressing,
{
    let imm = seq![0x49u8, 0x6D, 0x6D, 0x65, 0x64, 0x69, 0x61, 0x74, 0x65];
    let zp = seq![0x5Au8, 0x65, 0x72, 0x6F, 0x50, 0x61, 0x67, 0x65];
    let abs = seq![0x41u8, 0x62, 0x73, 0x6F, 0x6C, 0x75, 0x74, 0x65];
    let ind = seq![0x49u8, 0x6E, 0x64, 0x69, 0x72, 0x65, 0x63, 0x74];
    assert(MODE_IMMEDIATE@ =~= imm);
    assert(MODE_ZERO_PAGE@ =~= zp);
    assert(MODE_ABSOLUTE@ =~= abs);
    assert(MODE_INDIRECT@ =~= ind);
    let x = 0x58u8;
    let y = 0x59u8;
    assert((zp + seq![sep, x]).take(8) =~= zp);
    assert((zp + seq![sep, y]).take(8) =~= zp);
    assert((abs + seq![sep, x]).take(8) =~= abs);
    assert((abs + seq![sep, y]).take(8) =~= abs);
    assert((ind + seq![sep, x]).take(8) =~= ind);
    assert((ind + seq![sep, y]).take(8) =~= ind);
    assert(seq![0x5Au8, 0x65, 0x72, 0x6F, 0x50, 0x61, 0x67, 0x65, sep, 0x58] =~= zp + seq![sep, x]);
    assert(seq![0x5Au8, 0x65, 0x72, 0x6F, 0x50, 0x61, 0x67, 0x65, sep, 0x59] =~= zp + seq![sep, y]);
    assert(seq![0x41u8, 0x62, 0x73, 0x6F, 0x6C, 0x75, 0x74, 0x65, sep, 0x58] =~= abs + seq![sep, x]);
    assert(seq![0x41u8, 0x62, 0x73, 0x6F, 0x6C, 0x75, 0x74, 0x65, sep, 0x59] =~= abs + seq![sep, y]);
    assert(seq![0x49u8, 0x6E, 0x64, 0x69, 0x72, 0x65, 0x63, 0x74, sep, 0x58] =~= ind + seq![sep, x]);
    assert(seq![0x49u8, 0x6E, 0x64, 0x69, 0x72, 0x65, 0x63, 0x74, sep, 0x59] =~= ind + seq![sep, y]);
    assert(zp != abs) by { assert(zp[0] != abs[0]); }
    assert(zp != ind) by { assert(zp[0] != ind[0]); }
    assert(abs != ind) by { assert(abs[0] != ind[0]); }
    assert(imm != ind) by { assert(imm[1] != ind[1]); }
    let rel = seq![0x52u8, 0x65, 0x6C, 0x61, 0x74, 0x69, 0x76, 0x65];
    assert(rel != zp) by { assert(rel[0] != zp[0]); }
    assert(rel != abs) by { assert(rel[0] != abs[0]); }
}

/// An opcode entry like `"$A9"`: the two hexadecimal digits after the `$`
/// are the opcode byte, high digit first; without the `$` the digits read
/// the same.
pub proof fn law_opcode_entry(h: u8, l: u8)
    requires
        is_hex_char(h),
        is_hex_char(l),
    ensures
        opcode_byte(seq![0x24u8, h, l]) == Some(hex_value(h) * 16 + hex_value(l)),
        opcode_byte(seq![h, l]) == Some(hex_value(h) * 16 + hex_value(l)),
{
    law_parse_hex_pair(h, l);
    assert(seq![0x24u8, h, l].skip(1) =~= seq![h, l]);
    assert(strip_dollars(seq![h, l]) == seq![h, l]);
}

} // verus!
