use vstd::prelude::*;

verus! {

/// `c` is a digit of base `radix` (10 or 16; hexadecimal digits in either case).
pub open spec fn is_digit(c: u8, radix: int) -> bool {
    if radix == 16 {
        (0x30 <= c <= 0x39) || (0x41 <= c <= 0x46) || (0x61 <= c <= 0x66)
    } else {
        0x30 <= c <= 0x39
    }
}

/// The value of the digit `c`.
pub open spec fn digit_value(c: u8) -> int {
    if 0x30 <= c <= 0x39 {
        c - 0x30
    } else if 0x41 <= c <= 0x46 {
        c - 0x41 + 10
    } else {
        c - 0x61 + 10
    }
}

/// The value of the digits `s`, most significant first.
pub open spec fn digits_value(s: Seq<u8>, radix: int) -> int
    decreases s.len(),
{
    if s.len() == 0 {
        0
    } else {
        digits_value(s.drop_last(), radix) * radix + digit_value(s.last())
    }
}

pub open spec fn all_digits(s: Seq<u8>, radix: int) -> bool {
    forall|i: int| 0 <= i < s.len() ==> is_digit(#[trigger] s[i], radix)
}

/// The digits of `s` once an optional leading `+` is taken off.
pub open spec fn unsigned_digits(s: Seq<u8>) -> Seq<u8> {
    if s.len() > 0 && s[0] == 0x2B {
        s.skip(1)
    } else {
        s
    }
}

/// What parsing `s` as an unsigned integer of base `radix` whose largest
/// value is `max` gives: an optional `+`, then one digit or more, of a
/// value up to `max`; `None` for anything else.
pub open spec fn parse_unsigned(s: Seq<u8>, radix: int, max: int) -> Option<int> {
    let d = unsigned_digits(s);
    if d.len() > 0 && all_digits(d, radix) && digits_value(d, radix) <= max {
        Some(digits_value(d, radix))
    } else {
        None
    }
}

proof fn lemma_digits_value_step(s: Seq<u8>, k: int, radix: int)
    requires
        0 <= k < s.len(),
    ensures
        digits_value(s.take(k + 1), radix) == digits_value(s.take(k), radix) * radix + digit_value(s[k]),
{
    assert(s.take(k + 1).drop_last() =~= s.take(k));
}

proof fn lemma_digits_value_nonneg(s: Seq<u8>, radix: int)
    requires
        all_digits(s, radix),
        radix == 10 || radix == 16,
    ensures
        digits_value(s, radix) >= 0,
    decreases s.len(),
{
    if s.len() > 0 {
        assert(all_digits(s.drop_last(), radix)) by {
            assert forall|i: int| 0 <= i < s.drop_last().len() implies is_digit(#[trigger] s.drop_last()[i], radix) by {
                assert(s.drop_last()[i] == s[i]);
            }
        }
        lemma_digits_value_nonneg(s.drop_last(), radix);
        assert(is_digit(s[s.len() - 1], radix));
        let v = digits_value(s.drop_last(), radix);
        assert(v * radix >= 0) by (nonlinear_arith)
            requires v >= 0, radix >= 0;
    }
}

/// A parsed value lies between 0 and `max`.
pub proof fn lemma_parse_unsigned_range(s: Seq<u8>, radix: int, max: int)
    requires
        radix == 10 || radix == 16,
    ensures
        parse_unsigned(s, radix, max) matches Some(v) ==> 0 <= v <= max,
{
    let d = unsigned_digits(s);
    if d.len() > 0 && all_digits(d, radix) {
        lemma_digits_value_nonneg(d, radix);
    }
}

/// Parses `s` as an unsigned integer of base `radix` (10 or 16) no larger
/// than `max`, the way the standard library's `from_str_radix` does for an
/// unsigned type whose largest value is `max`.
pub fn parse_unsigned_bytes(s: &[u8], radix: u8, max: u32) -> (r: Option<u32>)
    requires
        radix == 10 || radix == 16,
    ensures
        match parse_unsigned(s@, radix as int, max as int) {
            Some(v) => r == Some(v as u32),
            None => r is None,
        },
{
    let len = s.len();
    let start: usize = if len > 0 && s[0] == 0x2B { 1 } else { 0 };
    let ghost d = unsigned_digits(s@);
    proof {
        assert(d =~= s@.subrange(start as int, len as int));
    }
    if start == len {
        return None;
    }
    let limit: u64 = max as u64 + 1;
    let mut acc: u64 = 0;
    let mut i: usize = start;
    while i < len
        invariant
            start <= i <= len,
            len == s@.len(),
            d == s@.subrange(start as int, len as int),
            d == unsigned_digits(s@),
            radix == 10 || radix == 16,
            limit == max + 1,
            all_digits(d.take(i - start), radix as int),
            acc == (if digits_value(d.take(i - start), radix as int) <= max {
                digits_value(d.take(i - start), radix as int)
            } else {
                limit as int
            }),
        decreases len - i,
    {
        let c = s[i];
        let is_dig = if radix == 16 {
            (0x30 <= c && c <= 0x39) || (0x41 <= c && c <= 0x46) || (0x61 <= c && c <= 0x66)
        } else {
            0x30 <= c && c <= 0x39
        };
        if !is_dig {
            proof {
                assert(d[i - start] == c);
                assert(!is_digit(d[i - start], radix as int));
                assert(!all_digits(d, radix as int));
            }
            return None;
        }
        let dv: u64 = if 0x30 <= c && c <= 0x39 {
            (c - 0x30) as u64
        } else if 0x41 <= c && c <= 0x46 {
            (c - 0x41 + 10) as u64
        } else {
            (c - 0x61 + 10) as u64
        };
        let ghost k = i - start;
        proof {
            assert(d[k] == c);
            lemma_digits_value_step(d, k, radix as int);
            lemma_digits_value_nonneg(d.take(k), radix as int);
            assert(all_digits(d.take(k + 1), radix as int)) by {
                assert forall|j: int| 0 <= j < d.take(k + 1).len() implies is_digit(#[trigger] d.take(k + 1)[j], radix as int) by {
                    if j < k {
                        assert(d.take(k + 1)[j] == d.take(k)[j]);
                    }
                }
            }
        }
        if acc < limit {
            let next = acc * (radix as u64) + dv;
            if next < limit {
                acc = next;
            } else {
                acc = limit;
            }
        } else {
            proof {
                let v = digits_value(d.take(k), radix as int);
                let r = radix as int;
                assert(v * r + digit_value(c) >= v) by (nonlinear_arith)
                    requires v >= 0, r >= 1, digit_value(c) >= 0;
            }
        }
        i = i + 1;
    }
    proof {
        assert(d.take(len - start) =~= d);
    }
    if acc < limit {
        Some(acc as u32)
    } else {
        None
    }
}

/// Whether `a` and `b` hold the same bytes.
pub fn bytes_eq(a: &[u8], b: &[u8]) -> (r: bool)
    ensures
        r == (a@ == b@),
{
    if a.len() != b.len() {
        return false;
    }
    let mut i: usize = 0;
    while i < a.len()
        invariant
            a@.len() == b@.len(),
            i <= a@.len(),
            a@.take(i as int) == b@.take(i as int),
        decreases a@.len() - i,
    {
        if a[i] != b[i] {
            return false;
        }
        proof {
            assert(a@.take(i + 1) =~= a@.take(i as int).push(a@[i as int]));
            assert(b@.take(i + 1) =~= b@.take(i as int).push(b@[i as int]));
        }
        i = i + 1;
    }
    proof {
        assert(a@.take(i as int) =~= a@);
        assert(b@.take(i as int) =~= b@);
    }
    true
}

/// The decimal digits of `n`.
pub open spec fn decimal_digits(n: nat) -> Seq<char>
    decreases n,
{
    if n < 10 {
        seq![(n + 48) as char]
    } else {
        decimal_digits(n / 10).push(((n % 10) + 48) as char)
    }
}

/// The upper-case hexadecimal digit of `d`, for `d` below 16.
pub open spec fn hex_digit_char(d: nat) -> char {
    if d < 10 {
        (d + 48) as char
    } else {
        (d + 55) as char
    }
}

/// The two upper-case hexadecimal digits of `v`.
pub open spec fn hex_byte_digits(v: u8) -> Seq<char> {
    seq![hex_digit_char((v / 16) as nat), hex_digit_char((v % 16) as nat)]
}

/// `String::push` appends the character at the end.
#[verifier::external_body]
pub(crate) fn push_char(s: &mut String, c: char)
    ensures
        final(s)@ == old(s)@.push(c),
{
    s.push(c);
}

/// Appends the decimal digits of `n`.
pub fn push_decimal(s: &mut String, n: usize)
    ensures
        final(s)@ == old(s)@ + decimal_digits(n as nat),
    decreases n,
{
    if n >= 10 {
        push_decimal(s, n / 10);
    }
    let d = (n % 10) as u8;
    push_char(s, (d + 48) as char);
    proof {
        assert(final(s)@ =~= old(s)@ + decimal_digits(n as nat));
    }
}

/// Appends the two upper-case hexadecimal digits of `v`.
pub fn push_hex_byte(s: &mut String, v: u8)
    ensures
        final(s)@ == old(s)@ + hex_byte_digits(v),
{
    let hi = v / 16;
    let lo = v % 16;
    let hc = if hi < 10 { (hi + 48) as char } else { (hi + 55) as char };
    let lc = if lo < 10 { (lo + 48) as char } else { (lo + 55) as char };
    push_char(s, hc);
    push_char(s, lc);
    proof {
        assert(final(s)@ =~= old(s)@ + hex_byte_digits(v));
    }
}

/// The value of a hexadecimal digit, in either case.
pub open spec fn hex_value(c: u8) -> int {
    if 0x30 <= c <= 0x39 {
        c - 48
    } else if 0x41 <= c <= 0x46 {
        c - 55
    } else {
        c - 87
    }
}

/// A hexadecimal or decimal digit character.
pub open spec fn is_hex_char(c: u8) -> bool {
    (0x30 <= c <= 0x39) || (0x41 <= c <= 0x46) || (0x61 <= c <= 0x66)
}

/// Two hexadecimal digits read as a byte, most significant first, with or
/// without a leading `+`; a pair that does not start with `+` and holds a
/// non-digit reads as nothing. Decimal digits read in base ten.
pub proof fn law_parse_hex_pair(h: u8, l: u8)
    ensures
        is_hex_char(h) && is_hex_char(l) ==> parse_unsigned(seq![h, l], 16, 255) == Some(hex_value(h) * 16 + hex_value(l))
            && parse_unsigned(seq![0x2Bu8, h, l], 16, 255) == Some(hex_value(h) * 16 + hex_value(l)),
        h != 0x2B && !(is_hex_char(h) && is_hex_char(l)) ==> parse_unsigned(seq![h, l], 16, 255) is None,
        (0x30 <= h <= 0x39) && (0x30 <= l <= 0x39) ==> parse_unsigned(seq![h, l], 10, 255) == Some(
            (h - 48) * 10 + (l - 48),
        ),
        h != 0x2B && !((0x30 <= h <= 0x39) && (0x30 <= l <= 0x39)) ==> parse_unsigned(seq![h, l], 10, 255) is None,
{
    let s = seq![h, l];
    assert(s.drop_last() =~= seq![h]);
    assert(seq![h].drop_last() =~= Seq::<u8>::empty());
    assert(seq![0x2Bu8, h, l].skip(1) =~= s);
    assert(seq![h].last() == h);
    assert(s.last() == l);
    assert(digits_value(Seq::<u8>::empty(), 16) == 0);
    assert(digits_value(Seq::<u8>::empty(), 10) == 0);
    assert(digits_value(seq![h], 16) == digit_value(h));
    assert(digits_value(s, 16) == digit_value(h) * 16 + digit_value(l));
    assert(digits_value(seq![h], 10) == digit_value(h));
    assert(digits_value(s, 10) == digit_value(h) * 10 + digit_value(l));
    if h != 0x2B {
        assert(unsigned_digits(s) == s);
        if !is_digit(h, 16) {
            assert(!is_digit(s[0], 16));
        }
        if !is_digit(l, 16) {
            assert(!is_digit(s[1], 16));
        }
        if !is_digit(h, 10) {
            assert(!is_digit(s[0], 10));
        }
        if !is_digit(l, 10) {
            assert(!is_digit(s[1], 10));
        }
    }
    if is_hex_char(h) && is_hex_char(l) {
        assert(h != 0x2B);
        assert(all_digits(s, 16));
        assert(unsigned_digits(seq![0x2Bu8, h, l]) == s);
    }
    if (0x30 <= h <= 0x39) && (0x30 <= l <= 0x39) {
        assert(all_digits(s, 10));
    }
}

} // verus!
