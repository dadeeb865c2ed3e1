use vstd::prelude::*;

use crate::text::{decimal_digits, push_char, push_decimal};

verus! {

/// Unicode `White_Space`, the characters that `char::is_whitespace` accepts.
pub open spec fn is_white_space(c: char) -> bool {
    let u = c as u32;
    ||| 0x09 <= u <= 0x0D
    ||| u == 0x20 || u == 0x85 || u == 0xA0 || u == 0x1680
    ||| 0x2000 <= u <= 0x200A
    ||| u == 0x2028 || u == 0x2029 || u == 0x202F || u == 0x205F || u == 0x3000
}

/// `s` without its leading white space.
pub open spec fn trim_start(s: Seq<char>) -> Seq<char>
    decreases s.len(),
{
    if s.len() > 0 && is_white_space(s[0]) {
        trim_start(s.drop_first())
    } else {
        s
    }
}

/// `s` without its trailing white space.
pub open spec fn trim_end(s: Seq<char>) -> Seq<char>
    decreases s.len(),
{
    if s.len() > 0 && is_white_space(s.last()) {
        trim_end(s.drop_last())
    } else {
        s
    }
}

/// `s` without leading and trailing white space, as `str::trim` gives it.
pub open spec fn trimmed(s: Seq<char>) -> Seq<char> {
    trim_end(trim_start(s))
}

/// A line that the trace shows: not blank, and not a `--` comment.
pub open spec fn is_traced_code(code: Seq<char>) -> bool {
    code.len() > 0 && !(code.len() >= 2 && code[0] == '-' && code[1] == '-')
}

/// The trace message for the code `code` at line `line_num` of `file_name`.
pub open spec fn trace_message(file_name: Seq<char>, line_num: nat, code: Seq<char>) -> Seq<char> {
    "  -> ["@ + file_name + ":"@ + decimal_digits(line_num) + "] "@ + code
}

/// What the trace records when the script reaches line `line_num` (counted
/// from 1) of `lines`: the trimmed line, unless the number is out of range,
/// the line is blank or it is a comment.
pub open spec fn script_line_trace_spec(lines: Seq<Seq<char>>, file_name: Seq<char>, line_num: int) -> Option<
    Seq<char>,
> {
    if 0 < line_num <= lines.len() && is_traced_code(trimmed(lines[line_num - 1])) {
        Some(trace_message(file_name, line_num as nat, trimmed(lines[line_num - 1])))
    } else {
        None
    }
}

fn is_white_space_char(c: char) -> (r: bool)
    ensures
        r == is_white_space(c),
{
    let u = c as u32;
    (0x09 <= u && u <= 0x0D) || u == 0x20 || u == 0x85 || u == 0xA0 || u == 0x1680 || (0x2000 <= u && u
        <= 0x200A) || u == 0x2028 || u == 0x2029 || u == 0x202F || u == 0x205F || u == 0x3000
}

fn chars_of(s: &str) -> (v: Vec<char>)
    ensures
        v@ == s@,
{
    broadcast use vstd::string::axiom_spec_iter;

    let mut v: Vec<char> = Vec::new();
    for c in it: s.chars()
        invariant
            it.seq() == s@,
            v@ == s@.take(it.index() as int),
            it.index() <= s@.len(),
        ensures
            v@ == s@,
    {
        v.push(c);
        proof {
            assert(v@ =~= s@.take(it.index() as int + 1));
        }
    }
    v
}

/// Where the trimmed text of `s` starts and ends.
fn trim_bounds(s: &[char]) -> (r: (usize, usize))
    ensures
        r.0 <= r.1 <= s@.len(),
        s@.subrange(r.0 as int, r.1 as int) == trimmed(s@),
{
    let n = s.len();
    let mut i: usize = 0;
    assert(s@.subrange(0, n as int) =~= s@);
    while i < n && is_white_space_char(s[i])
        invariant
            i <= n == s@.len(),
            trim_start(s@) == trim_start(s@.subrange(i as int, n as int)),
        decreases n - i,
    {
        proof {
            let t = s@.subrange(i as int, n as int);
            assert(t.drop_first() =~= s@.subrange(i + 1, n as int));
        }
        i = i + 1;
    }
    proof {
        assert(trim_start(s@) == s@.subrange(i as int, n as int));
    }
    let mut j: usize = n;
    while j > i && is_white_space_char(s[j - 1])
        invariant
            i <= j <= n == s@.len(),
            trim_start(s@) == s@.subrange(i as int, n as int),
            trimmed(s@) == trim_end(s@.subrange(i as int, j as int)),
        decreases j - i,
    {
        proof {
            let t = s@.subrange(i as int, j as int);
            assert(t.drop_last() =~= s@.subrange(i as int, j - 1));
        }
        j = j - 1;
    }
    (i, j)
}

/// Appends the characters of `chars`.
fn push_chars(out: &mut String, chars: &[char], from: usize, to: usize)
    requires
        from <= to <= chars@.len(),
    ensures
        final(out)@ == old(out)@ + chars@.subrange(from as int, to as int),
{
    let mut k = from;
    while k < to
        invariant
            from <= k <= to <= chars@.len(),
            out@ == old(out)@ + chars@.subrange(from as int, k as int),
        decreases to - k,
    {
        push_char(out, chars[k]);
        proof {
            assert(out@ =~= old(out)@ + chars@.subrange(from as int, k + 1));
        }
        k = k + 1;
    }
}

/// The trace message of a script line hook: when the script reaches line
/// `line_num` (counted from 1) of `script_lines` in the file `file_name`,
/// the trimmed line is recorded, unless the line number is out of range,
/// the line is blank or it is a `--` comment.
pub fn script_line_trace(script_lines: &Vec<String>, file_name: &str, line_num: i32) -> (r: Option<String>)
    ensures
        r matches Some(m) ==> script_line_trace_spec(script_lines@.map_values(|l: String| l@), file_name@, line_num as int)
            == Some(m@),
        r is None ==> script_line_trace_spec(script_lines@.map_values(|l: String| l@), file_name@, line_num as int)
            is None,
{
    let ghost lines = script_lines@.map_values(|l: String| l@);
    if line_num <= 0 {
        return None;
    }
    let idx = (line_num - 1) as usize;
    if idx >= script_lines.len() {
        return None;
    }
    let line = chars_of(script_lines[idx].as_str());
    let (start, end) = trim_bounds(line.as_slice());
    let ghost code = trimmed(lines[idx as int]);
    assert(line@.subrange(start as int, end as int) == code);
    if end == start || (end - start >= 2 && line[start] == '-' && line[start + 1] == '-') {
        return None;
    }
    let mut out = "  -> [".to_owned();
    out.append(file_name);
    out.append(":");
    push_decimal(&mut out, line_num as usize);
    out.append("] ");
    push_chars(&mut out, line.as_slice(), start, end);
    proof {
        assert(out@ =~= trace_message(file_name@, line_num as nat, code));
    }
    Some(out)
}

proof fn lemma_trim_start(s: Seq<char>)
    ensures
        trim_start(s).len() <= s.len(),
        trim_start(s) == s.subrange(s.len() - trim_start(s).len(), s.len() as int),
        trim_start(s).len() > 0 ==> !is_white_space(trim_start(s)[0]),
        forall|k: int| 0 <= k < s.len() - trim_start(s).len() ==> is_white_space(#[trigger] s[k]),
    decreases s.len(),
{
    if s.len() > 0 && is_white_space(s[0]) {
        lemma_trim_start(s.drop_first());
        assert forall|k: int| 0 <= k < s.len() - trim_start(s).len() implies is_white_space(#[trigger] s[k]) by {
            if k > 0 {
                assert(s[k] == s.drop_first()[k - 1]);
            }
        }
        assert(s.drop_first().subrange(s.drop_first().len() - trim_start(s).len(), s.drop_first().len() as int)
            =~= s.subrange(s.len() - trim_start(s).len(), s.len() as int));
    } else {
        assert(s.subrange(0, s.len() as int) =~= s);
    }
}

proof fn lemma_trim_end(s: Seq<char>)
    ensures
        trim_end(s).len() <= s.len(),
        trim_end(s) == s.subrange(0, trim_end(s).len() as int),
        trim_end(s).len() > 0 ==> !is_white_space(trim_end(s).last()),
        forall|k: int| trim_end(s).len() <= k < s.len() ==> is_white_space(#[trigger] s[k]),
    decreases s.len(),
{
    if s.len() > 0 && is_white_space(s.last()) {
        lemma_trim_end(s.drop_last());
        assert forall|k: int| trim_end(s).len() <= k < s.len() implies is_white_space(#[trigger] s[k]) by {
            if k < s.len() - 1 {
                assert(s[k] == s.drop_last()[k]);
            }
        }
        assert(s.drop_last().subrange(0, trim_end(s).len() as int) =~= s.subrange(0, trim_end(s).len() as int));
    } else {
        assert(s.subrange(0, s.len() as int) =~= s);
    }
}

/// Trimming cuts white space, and only white space, off both ends: the
/// result is a piece of the line that neither starts nor ends with white
/// space, and everything cut away is white space. Tabs, line ends, spaces,
/// the no-break space and the ideographic space are white space; letters,
/// digits and `-` are not.
pub proof fn law_trimmed(s: Seq<char>)
    ensures
        exists|i: int, j: int|
            #![trigger s.subrange(i, j)]
            0 <= i <= j <= s.len() && trimmed(s) == s.subrange(i, j) && (forall|k: int|
                0 <= k < i ==> is_white_space(#[trigger] s[k])) && (forall|k: int|
                j <= k < s.len() ==> is_white_space(#[trigger] s[k])),
        trimmed(s).len() > 0 ==> !is_white_space(trimmed(s)[0]) && !is_white_space(trimmed(s).last()),
        (forall|k: int| 0 <= k < s.len() ==> !is_white_space(#[trigger] s[k])) ==> trimmed(s) == s,
        is_white_space(' ') && is_white_space('\t') && is_white_space('\n') && is_white_space('\r')
            && is_white_space('\u{A0}') && is_white_space('\u{3000}'),
        !is_white_space('a') && !is_white_space('Z') && !is_white_space('0') && !is_white_space('-'),
{
    let t = trim_start(s);
    lemma_trim_start(s);
    lemma_trim_end(t);
    let i = s.len() - t.len();
    let j = i + trim_end(t).len();
    assert(trim_end(t) =~= s.subrange(i, j));
    assert forall|k: int| j <= k < s.len() implies is_white_space(#[trigger] s[k]) by {
        assert(s[k] == t[k - i]);
    }
    if trim_end(t).len() > 0 {
        assert(trim_end(t)[0] == t[0]);
    }
    if forall|k: int| 0 <= k < s.len() ==> !is_white_space(#[trigger] s[k]) {
        if s.len() > 0 {
            assert(!is_white_space(s[0]));
        }
        assert(t == s);
        if t.len() > 0 {
            assert(!is_white_space(t[t.len() - 1]));
        }
        assert(trim_end(t) == t);
    }
}

} // verus!
