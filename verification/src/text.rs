//! Text primitives shared by every stage: widths, saturating column
//! arithmetic, decimal rendering, joining, and a few character-level rewrites.
//!
//! Text is modelled as `Seq<char>`; a width is the UTF-8 length of a text,
//! which is what `str::len` measures.

use vstd::prelude::*;
use vstd::utf8::encode_utf8;

verus! {

/// `String::push` of the standard library: the character is appended to the
/// end of the string and nothing else changes.
pub assume_specification[ std::string::String::push ](s: &mut String, c: char)
    ensures
        final(s)@ == old(s)@.push(c),
;

/// The width of a text: its length in UTF-8 bytes.
pub open spec fn width(s: Seq<char>) -> usize {
    encode_utf8(s).len() as usize
}

/// The width of a string slice.
pub fn text_width(s: &str) -> (w: usize)
    ensures
        w == width(s@),
{
    s.len()
}

/// Column addition that stops at the largest column a machine word can hold.
pub open spec fn sat_add(a: usize, b: usize) -> usize {
    if a + b > usize::MAX {
        usize::MAX
    } else {
        (a + b) as usize
    }
}

/// Column subtraction that stops at 0.
pub open spec fn sat_sub(a: usize, b: usize) -> usize {
    if a < b {
        0
    } else {
        (a - b) as usize
    }
}

pub fn sub_col(a: usize, b: usize) -> (r: usize)
    ensures
        r == sat_sub(a, b),
{
    a.saturating_sub(b)
}

/// Twice `a`, stopping at the largest column.
pub open spec fn sat_double(a: usize) -> usize {
    sat_add(a, a)
}

pub fn add_col(a: usize, b: usize) -> (r: usize)
    ensures
        r == sat_add(a, b),
{
    a.saturating_add(b)
}

pub fn double_col(a: usize) -> (r: usize)
    ensures
        r == sat_double(a),
{
    a.saturating_add(a)
}

/// Whether two string slices hold the same characters.
pub fn str_eq(a: &str, b: &str) -> (r: bool)
    ensures
        r == (a@ == b@),
{
    let x = a.to_owned();
    let y = b.to_owned();
    x == y
}

/// The characters of a string slice, in order.
pub fn to_chars(s: &str) -> (v: Vec<char>)
    ensures
        v@ == s@,
{
    let mut v: Vec<char> = Vec::new();
    for c in it: s.chars()
        invariant
            v@ == it.seq().take(it.index() as int),
            it.seq() == s@,
    {
        v.push(c);
    }
    v
}

/// Appends `v[from..to]` to `out`.
pub fn push_chars(out: &mut String, v: &Vec<char>, from: usize, to: usize)
    requires
        from <= to <= v.len(),
    ensures
        final(out)@ == old(out)@ + v@.subrange(from as int, to as int),
{
    let mut i: usize = from;
    while i < to
        invariant
            from <= i <= to <= v.len(),
            out@ == old(out)@ + v@.subrange(from as int, i as int),
        decreases to - i,
    {
        out.push(v[i]);
        i += 1;
        assert(v@.subrange(from as int, i as int) == v@.subrange(from as int, i - 1).push(
            v@[i - 1],
        ));
    }
}

/// The string made of `v[from..to]`.
pub fn string_of(v: &Vec<char>, from: usize, to: usize) -> (s: String)
    requires
        from <= to <= v.len(),
    ensures
        s@ == v@.subrange(from as int, to as int),
{
    let mut s = String::new();
    push_chars(&mut s, v, from, to);
    s
}

/// A run of `n` spaces.
pub open spec fn spaces_text(n: nat) -> Seq<char> {
    Seq::new(n, |i: int| ' ')
}

pub fn push_spaces(out: &mut String, n: usize)
    ensures
        final(out)@ == old(out)@ + spaces_text(n as nat),
{
    let mut i: usize = 0;
    while i < n
        invariant
            i <= n,
            out@ == old(out)@ + spaces_text(i as nat),
        decreases n - i,
    {
        out.push(' ');
        i += 1;
        assert(spaces_text(i as nat) == spaces_text((i - 1) as nat).push(' '));
    }
}

/// The decimal digit for `d`.
pub open spec fn digit_char(d: int) -> char {
    if d == 0 {
        '0'
    } else if d == 1 {
        '1'
    } else if d == 2 {
        '2'
    } else if d == 3 {
        '3'
    } else if d == 4 {
        '4'
    } else if d == 5 {
        '5'
    } else if d == 6 {
        '6'
    } else if d == 7 {
        '7'
    } else if d == 8 {
        '8'
    } else {
        '9'
    }
}

/// Decimal notation of a natural number, without leading zeros.
pub open spec fn nat_text(n: nat) -> Seq<char>
    decreases n,
{
    if n < 10 {
        seq![digit_char(n as int)]
    } else {
        nat_text(n / 10).push(digit_char((n % 10) as int))
    }
}

/// Decimal notation of an integer, with `-` in front of a negative one.
pub open spec fn int_text(n: int) -> Seq<char> {
    if n < 0 {
        seq!['-'] + nat_text((-n) as nat)
    } else {
        nat_text(n as nat)
    }
}

fn digit_of(d: u64) -> (c: char)
    requires
        d < 10,
    ensures
        c == digit_char(d as int),
{
    if d == 0 {
        '0'
    } else if d == 1 {
        '1'
    } else if d == 2 {
        '2'
    } else if d == 3 {
        '3'
    } else if d == 4 {
        '4'
    } else if d == 5 {
        '5'
    } else if d == 6 {
        '6'
    } else if d == 7 {
        '7'
    } else if d == 8 {
        '8'
    } else {
        '9'
    }
}

/// Appends the decimal notation of `n`.
pub fn push_nat(out: &mut String, n: u64)
    ensures
        final(out)@ == old(out)@ + nat_text(n as nat),
    decreases n,
{
    if n >= 10 {
        push_nat(out, n / 10);
    }
    out.push(digit_of(n % 10));
}

/// Appends the decimal notation of `n`.
pub fn push_int(out: &mut String, n: i64)
    ensures
        final(out)@ == old(out)@ + int_text(n as int),
{
    if n < 0 {
        out.push('-');
        let m: u64 = if n == i64::MIN {
            9223372036854775808u64
        } else {
            (-n) as u64
        };
        push_nat(out, m);
    } else {
        push_nat(out, n as u64);
    }
}

/// The decimal notation of `n`.
pub fn i64_text(n: i64) -> (s: String)
    ensures
        s@ == int_text(n as int),
{
    let mut s = String::new();
    push_int(&mut s, n);
    s
}

/// The first `n` of `items`, with `sep` between neighbours.
pub open spec fn join_text(items: Seq<Seq<char>>, sep: Seq<char>, n: int) -> Seq<char>
    decreases n,
{
    if n <= 0 {
        Seq::empty()
    } else if n == 1 {
        items[0]
    } else {
        join_text(items, sep, n - 1) + sep + items[n - 1]
    }
}

/// All of `items`, with `sep` between neighbours.
pub open spec fn join_all(items: Seq<Seq<char>>, sep: Seq<char>) -> Seq<char> {
    join_text(items, sep, items.len() as int)
}

/// The texts that a vector of strings holds.
pub open spec fn texts(v: Seq<String>) -> Seq<Seq<char>> {
    v.map_values(|s: String| s@)
}

/// Joins the strings with `sep` between neighbours.
pub fn join(items: &Vec<String>, sep: &str) -> (r: String)
    ensures
        r@ == join_all(texts(items@), sep@),
{
    let mut out = String::new();
    let mut i: usize = 0;
    while i < items.len()
        invariant
            i <= items.len(),
            out@ == join_text(texts(items@), sep@, i as int),
        decreases items.len() - i,
    {
        if i > 0 {
            out.append(sep);
        }
        out.append(items[i].as_str());
        i += 1;
    }
    out
}

/// `s` from index `i` on, with every `'` turned into `\'`.
pub open spec fn escape_quotes_from(s: Seq<char>, i: int) -> Seq<char>
    decreases s.len() - i,
{
    if i < 0 || i >= s.len() {
        Seq::empty()
    } else if s[i] == '\'' {
        seq!['\\', '\''] + escape_quotes_from(s, i + 1)
    } else {
        seq![s[i]] + escape_quotes_from(s, i + 1)
    }
}

/// `s` with every `'` turned into `\'`.
pub open spec fn escape_quotes(s: Seq<char>) -> Seq<char> {
    escape_quotes_from(s, 0)
}

/// Appends `s` with every `'` turned into `\'`.
pub fn push_escaped_quotes(out: &mut String, s: &str)
    ensures
        final(out)@ == old(out)@ + escape_quotes(s@),
{
    let cs = to_chars(s);
    let mut i: usize = 0;
    while i < cs.len()
        invariant
            i <= cs.len(),
            cs@ == s@,
            out@ + escape_quotes_from(s@, i as int) == old(out)@ + escape_quotes(s@),
        decreases cs.len() - i,
    {
        let ghost before = out@;
        if cs[i] == '\'' {
            out.push('\\');
            out.push('\'');
            assert(out@ == before + seq!['\\', '\'']);
        } else {
            out.push(cs[i]);
            assert(out@ == before + seq![cs@[i as int]]);
        }
        i += 1;
    }
}

/// `s` from index `i` on, with each pair `\` `from` turned into `to`,
/// scanning left to right.
pub open spec fn replace_escape_from(s: Seq<char>, from: char, to: char, i: int) -> Seq<char>
    decreases s.len() - i,
{
    if i < 0 || i >= s.len() {
        Seq::empty()
    } else if s[i] == '\\' && i + 1 < s.len() && s[i + 1] == from {
        seq![to] + replace_escape_from(s, from, to, i + 2)
    } else {
        seq![s[i]] + replace_escape_from(s, from, to, i + 1)
    }
}

/// `s` with each pair `\` `from` turned into `to`, scanning left to right.
pub open spec fn replace_escape(s: Seq<char>, from: char, to: char) -> Seq<char> {
    replace_escape_from(s, from, to, 0)
}

/// Turns each pair `\` `from` into `to`, scanning left to right.
pub fn replace_escape_in(s: &str, from: char, to: char) -> (r: String)
    ensures
        r@ == replace_escape(s@, from, to),
{
    let cs = to_chars(s);
    let mut out = String::new();
    let mut i: usize = 0;
    while i < cs.len()
        invariant
            i <= cs.len(),
            cs@ == s@,
            out@ + replace_escape_from(s@, from, to, i as int) == replace_escape(s@, from, to),
        decreases cs.len() - i,
    {
        let ghost before = out@;
        if cs[i] == '\\' && i + 1 < cs.len() && cs[i + 1] == from {
            out.push(to);
            assert(out@ == before + seq![to]);
            i += 2;
        } else {
            out.push(cs[i]);
            assert(out@ == before + seq![cs@[i as int]]);
            i += 1;
        }
    }
    out
}

/// The index just behind the last `.` among the first `n` characters of `s`,
/// or 0 where there is none.
pub open spec fn last_dot_end(s: Seq<char>, n: int) -> int
    decreases n,
{
    if n <= 0 {
        0
    } else if s[n - 1] == '.' {
        n
    } else {
        last_dot_end(s, n - 1)
    }
}

/// What follows the last `.` of `s`; all of `s` where it holds none.
pub open spec fn last_segment(s: Seq<char>) -> Seq<char> {
    s.subrange(last_dot_end(s, s.len() as int), s.len() as int)
}

/// What follows the last `.` of `s`; all of `s` where it holds none.
pub fn last_segment_of(s: &str) -> (r: String)
    ensures
        r@ == last_segment(s@),
{
    let cs = to_chars(s);
    let mut start: usize = 0;
    let mut i: usize = 0;
    while i < cs.len()
        invariant
            i <= cs.len(),
            cs@ == s@,
            start == last_dot_end(s@, i as int),
            start <= i,
        decreases cs.len() - i,
    {
        i += 1;
        if cs[i - 1] == '.' {
            start = i;
        }
    }
    string_of(&cs, start, cs.len())
}

/// The white space that trimming removes.
pub open spec fn is_space(c: char) -> bool {
    let u = c as u32;
    (0x09 <= u <= 0x0d) || u == 0x20 || u == 0x85 || u == 0xa0 || u == 0x1680 || (0x2000 <= u
        <= 0x200a) || u == 0x2028 || u == 0x2029 || u == 0x202f || u == 0x205f || u == 0x3000
}

pub fn is_space_char(c: char) -> (r: bool)
    ensures
        r == is_space(c),
{
    let u: u32 = c as u32;
    (0x09 <= u && u <= 0x0d) || u == 0x20 || u == 0x85 || u == 0xa0 || u == 0x1680 || (0x2000 <= u
        && u <= 0x200a) || u == 0x2028 || u == 0x2029 || u == 0x202f || u == 0x205f || u == 0x3000
}

/// The first index at or after `i` that holds no white space.
pub open spec fn trim_start_index(s: Seq<char>, i: int) -> int
    decreases s.len() - i,
{
    if i < 0 || i >= s.len() || !is_space(s[i]) {
        i
    } else {
        trim_start_index(s, i + 1)
    }
}

/// The least end `n >= lo` such that `s[n - 1]` is no white space, going down
/// from `n`.
pub open spec fn trim_end_index(s: Seq<char>, lo: int, n: int) -> int
    decreases n,
{
    if n <= lo || n <= 0 || n > s.len() || !is_space(s[n - 1]) {
        n
    } else {
        trim_end_index(s, lo, n - 1)
    }
}

/// `s` without the white space at its two ends.
pub open spec fn trimmed(s: Seq<char>) -> Seq<char> {
    let lo = trim_start_index(s, 0);
    let hi = trim_end_index(s, lo, s.len() as int);
    s.subrange(lo, hi)
}

/// `s` without the white space at its two ends.
pub fn trim_text(s: &str) -> (r: String)
    ensures
        r@ == trimmed(s@),
{
    let cs = to_chars(s);
    let mut lo: usize = 0;
    while lo < cs.len() && is_space_char(cs[lo])
        invariant
            lo <= cs.len(),
            cs@ == s@,
            trim_start_index(s@, lo as int) == trim_start_index(s@, 0),
        decreases cs.len() - lo,
    {
        lo += 1;
    }
    let mut hi: usize = cs.len();
    while hi > lo && is_space_char(cs[hi - 1])
        invariant
            lo <= hi <= cs.len(),
            cs@ == s@,
            trim_end_index(s@, lo as int, hi as int) == trim_end_index(
                s@,
                lo as int,
                s@.len() as int,
            ),
        decreases hi,
    {
        hi -= 1;
    }
    string_of(&cs, lo, hi)
}

/// Whether the text ends with a line feed.
pub open spec fn ends_with_newline(s: Seq<char>) -> bool {
    s.len() > 0 && s[s.len() - 1] == '\n'
}

/// Whether the text ends with a line feed.
pub fn has_final_newline(s: &str) -> (r: bool)
    ensures
        r == ends_with_newline(s@),
{
    let cs = to_chars(s);
    cs.len() > 0 && cs[cs.len() - 1] == '\n'
}

} // verus!
