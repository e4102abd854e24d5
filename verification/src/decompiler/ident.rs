//! Identifiers and version strings as the source text admits them.

use crate::text::to_chars;
use vstd::prelude::*;

verus! {

/// A character that may begin an identifier: an ASCII letter or one of
/// `_ - $ % @`.
pub open spec fn is_id_start(c: char) -> bool {
    let u = c as u32;
    (0x41 <= u <= 0x5a) || (0x61 <= u <= 0x7a) || c == '_' || c == '-' || c == '$' || c == '%'
        || c == '@'
}

/// A character that may continue an identifier: one that may begin it, a
/// dot, or an ASCII digit.
pub open spec fn is_id_rest(c: char) -> bool {
    let u = c as u32;
    is_id_start(c) || c == '.' || (0x30 <= u <= 0x39)
}

/// The language of identifiers: one starting character, then any number of
/// continuing characters.
pub open spec fn is_identifier(s: Seq<char>) -> bool {
    &&& s.len() > 0
    &&& is_id_start(s[0])
    &&& forall|i: int| 1 <= i < s.len() ==> is_id_rest(#[trigger] s[i])
}

/// The language of version strings: three runs of ASCII digits with a dot
/// between neighbours.
pub open spec fn is_version(s: Seq<char>) -> bool {
    exists|a: int, b: int|
        0 < a && a + 1 < b && b + 1 < s.len() && s[a] == '.' && s[b] == '.' && (forall|i: int|
            0 <= i < s.len() && i != a && i != b ==> is_digit(#[trigger] s[i]))
}

pub open spec fn is_digit(c: char) -> bool {
    let u = c as u32;
    0x30 <= u <= 0x39
}

/// The outcome of an identifier check: the identifier itself, or the
/// complaint about it.
pub open spec fn checked_id(s: Seq<char>) -> Result<Seq<char>, Seq<char>> {
    if is_identifier(s) {
        Ok(s)
    } else {
        Err("Invalid identifier: "@ + s)
    }
}

/// No text that starts with a digit is an identifier.
pub proof fn lemma_digit_start_refused(s: Seq<char>)
    requires
        s.len() > 0,
        is_digit(s[0]),
    ensures
        checked_id(s) == Err::<Seq<char>, Seq<char>>("Invalid identifier: "@ + s),
{
}

/// What stands in a result of text or complaint.
pub open spec fn result_view(r: Result<String, String>) -> Result<Seq<char>, Seq<char>> {
    match r {
        Ok(s) => Ok(s@),
        Err(e) => Err(e@),
    }
}

pub fn id_start_char(c: char) -> (r: bool)
    ensures
        r == is_id_start(c),
{
    let u: u32 = c as u32;
    (0x41 <= u && u <= 0x5a) || (0x61 <= u && u <= 0x7a) || c == '_' || c == '-' || c == '$' || c
        == '%' || c == '@'
}

pub fn id_rest_char(c: char) -> (r: bool)
    ensures
        r == is_id_rest(c),
{
    let u: u32 = c as u32;
    id_start_char(c) || c == '.' || (0x30 <= u && u <= 0x39)
}

pub fn digit_char_at(c: char) -> (r: bool)
    ensures
        r == is_digit(c),
{
    let u: u32 = c as u32;
    0x30 <= u && u <= 0x39
}

/// Whether `value` is an identifier.
pub fn is_valid_id(value: &str) -> (r: bool)
    ensures
        r == is_identifier(value@),
{
    let cs = to_chars(value);
    if cs.len() == 0 {
        return false;
    }
    if !id_start_char(cs[0]) {
        return false;
    }
    let mut i: usize = 1;
    while i < cs.len()
        invariant
            1 <= i <= cs.len(),
            cs@ == value@,
            forall|j: int| 1 <= j < i ==> is_id_rest(#[trigger] cs@[j]),
        decreases cs.len() - i,
    {
        if !id_rest_char(cs[i]) {
            return false;
        }
        i += 1;
    }
    true
}

/// Accepts an identifier and hands it back; anything else is refused with
/// `Invalid identifier: ` and the text.
pub fn check_id(value: &str) -> (r: Result<String, String>)
    ensures
        result_view(r) == checked_id(value@),
{
    if is_valid_id(value) {
        Ok(value.to_owned())
    } else {
        let mut e = "Invalid identifier: ".to_owned();
        e.append(value);
        Err(e)
    }
}

/// The end of the run of digits that starts at `i`.
pub open spec fn digits_end(s: Seq<char>, i: int) -> int
    decreases s.len() - i,
{
    if 0 <= i < s.len() && is_digit(s[i]) {
        digits_end(s, i + 1)
    } else {
        i
    }
}

pub proof fn lemma_digits_end(s: Seq<char>, i: int)
    requires
        0 <= i <= s.len(),
    ensures
        i <= digits_end(s, i) <= s.len(),
        forall|j: int| i <= j < digits_end(s, i) ==> is_digit(#[trigger] s[j]),
        digits_end(s, i) < s.len() ==> !is_digit(s[digits_end(s, i)]),
    decreases s.len() - i,
{
    if i < s.len() && is_digit(s[i]) {
        lemma_digits_end(s, i + 1);
    }
}

fn skip_digits(cs: &Vec<char>, from: usize) -> (to: usize)
    requires
        from <= cs.len(),
    ensures
        to == digits_end(cs@, from as int),
        from <= to <= cs.len(),
{
    let mut i: usize = from;
    proof {
        lemma_digits_end(cs@, from as int);
    }
    while i < cs.len() && digit_char_at(cs[i])
        invariant
            from <= i <= cs.len(),
            digits_end(cs@, i as int) == digits_end(cs@, from as int),
        decreases cs.len() - i,
    {
        i += 1;
    }
    i
}

/// Whether `value` is a version string: `major.minor.patch`, each part a run
/// of digits.
pub fn is_valid_version(value: &str) -> (r: bool)
    ensures
        r == is_version(value@),
{
    let cs = to_chars(value);
    let a = skip_digits(&cs, 0);
    proof {
        lemma_digits_end(cs@, 0);
    }
    if a == 0 || a >= cs.len() || cs[a] != '.' {
        proof {
            lemma_not_version_first(cs@);
        }
        return false;
    }
    let b = skip_digits(&cs, a + 1);
    proof {
        lemma_digits_end(cs@, a + 1);
    }
    if b == a + 1 || b >= cs.len() || cs[b] != '.' {
        proof {
            lemma_not_version_second(cs@);
        }
        return false;
    }
    let c = skip_digits(&cs, b + 1);
    proof {
        lemma_digits_end(cs@, b + 1);
    }
    if c == b + 1 || c < cs.len() {
        proof {
            lemma_not_version_third(cs@);
        }
        return false;
    }
    proof {
        let s = cs@;
        assert(!is_digit('.'));
        assert(0 < a && a + 1 < b && b + 1 < s.len() && s[a as int] == '.' && s[b as int] == '.');
        assert forall|i: int| 0 <= i < s.len() && i != a && i != b implies is_digit(
            #[trigger] s[i],
        ) by {}
    }
    true
}

/// In a version string the first run of digits is not empty and a dot
/// follows it.
pub proof fn lemma_not_version_first(s: Seq<char>)
    requires
        ({
            let a = digits_end(s, 0);
            a == 0 || a >= s.len() || s[a] != '.'
        }),
    ensures
        !is_version(s),
{
    lemma_digits_end(s, 0);
    let e = digits_end(s, 0);
    assert(!is_digit('.'));
    assert forall|a: int, b: int|
        !(0 < a && a + 1 < b && b + 1 < s.len() && s[a] == '.' && s[b] == '.' && (forall|i: int|
            0 <= i < s.len() && i != a && i != b ==> is_digit(#[trigger] s[i]))) by {
        if 0 < a && a + 1 < b && b + 1 < s.len() && s[a] == '.' && s[b] == '.' && (forall|i: int|
            0 <= i < s.len() && i != a && i != b ==> is_digit(#[trigger] s[i])) {
            lemma_digits_run(s, 0, a);
            assert(false);
        }
    }
}

/// A run of digits that starts at `from` and is followed by a dot ends at
/// that dot.
pub proof fn lemma_digits_run(s: Seq<char>, from: int, dot: int)
    requires
        0 <= from <= dot < s.len(),
        s[dot] == '.',
        forall|i: int| from <= i < dot ==> is_digit(#[trigger] s[i]),
    ensures
        digits_end(s, from) == dot,
    decreases dot - from,
{
    assert(!is_digit('.'));
    if from < dot {
        assert(is_digit(s[from]));
        lemma_digits_run(s, from + 1, dot);
    }
}

/// A run of digits that starts at `from` and reaches the end of the text
/// ends there.
pub proof fn lemma_digits_to_end(s: Seq<char>, from: int)
    requires
        0 <= from <= s.len(),
        forall|i: int| from <= i < s.len() ==> is_digit(#[trigger] s[i]),
    ensures
        digits_end(s, from) == s.len(),
    decreases s.len() - from,
{
    if from < s.len() {
        assert(is_digit(s[from]));
        lemma_digits_to_end(s, from + 1);
    }
}

/// In a version string the second run of digits is not empty and a dot
/// follows it.
pub proof fn lemma_not_version_second(s: Seq<char>)
    requires
        ({
            let a = digits_end(s, 0);
            let b = digits_end(s, a + 1);
            0 < a < s.len() && s[a] == '.' && (b == a + 1 || b >= s.len() || s[b] != '.')
        }),
    ensures
        !is_version(s),
{
    lemma_digits_end(s, 0);
    let e = digits_end(s, 0);
    lemma_digits_end(s, e + 1);
    assert(!is_digit('.'));
    assert forall|a: int, b: int|
        !(0 < a && a + 1 < b && b + 1 < s.len() && s[a] == '.' && s[b] == '.' && (forall|i: int|
            0 <= i < s.len() && i != a && i != b ==> is_digit(#[trigger] s[i]))) by {
        if 0 < a && a + 1 < b && b + 1 < s.len() && s[a] == '.' && s[b] == '.' && (forall|i: int|
            0 <= i < s.len() && i != a && i != b ==> is_digit(#[trigger] s[i])) {
            lemma_digits_run(s, 0, a);
            lemma_digits_run(s, a + 1, b);
            assert(false);
        }
    }
}

/// In a version string the third run of digits is not empty and ends the
/// text.
pub proof fn lemma_not_version_third(s: Seq<char>)
    requires
        ({
            let a = digits_end(s, 0);
            let b = digits_end(s, a + 1);
            let c = digits_end(s, b + 1);
            0 < a < s.len() && s[a] == '.' && a + 1 < b < s.len() && s[b] == '.' && (c == b + 1
                || c < s.len())
        }),
    ensures
        !is_version(s),
{
    lemma_digits_end(s, 0);
    let e = digits_end(s, 0);
    lemma_digits_end(s, e + 1);
    let f = digits_end(s, e + 1);
    lemma_digits_end(s, f + 1);
    assert(!is_digit('.'));
    assert forall|a: int, b: int|
        !(0 < a && a + 1 < b && b + 1 < s.len() && s[a] == '.' && s[b] == '.' && (forall|i: int|
            0 <= i < s.len() && i != a && i != b ==> is_digit(#[trigger] s[i]))) by {
        if 0 < a && a + 1 < b && b + 1 < s.len() && s[a] == '.' && s[b] == '.' && (forall|i: int|
            0 <= i < s.len() && i != a && i != b ==> is_digit(#[trigger] s[i])) {
            lemma_digits_run(s, 0, a);
            lemma_digits_run(s, a + 1, b);
            lemma_digits_to_end(s, b + 1);
            assert(false);
        }
    }
}

/// Hands a version string back. The shape `major.minor.patch` is looked for
/// and a text without it is let through all the same.
pub fn check_version(value: &str) -> (r: Result<String, String>)
    ensures
        result_view(r) == Ok::<Seq<char>, Seq<char>>(value@),
{
    if is_valid_version(value) {
        Ok(value.to_owned())
    } else {
        Ok(value.to_owned())
    }
}

} // verus!
