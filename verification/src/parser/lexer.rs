//! Characters, positions and the smallest pieces of the source text:
//! white space, comments, names, strings and numbers.

use crate::ast::model::{CommentModel, NodeModel, SymbolModel};
use crate::ast::{
    AstNodeEnum, BoolLiteral, Comment, DateLiteral, FloatLiteral, MultiLineStringLiteral,
    NullLiteral, NumberLiteral, Position, StringLiteral, Symbol, SymbolKind,
};
use crate::error::ParseError;
use crate::parser::grammar::{
    after_blank, after_digits, after_name, after_trivia, block_comment_at, block_comment_rest,
    char_after, char_at, comment_at, date_at, digit, digits_int, dotted_end, exponent_at,
    exponent_digits, fraction_at, has_whole_word, has_word, inside, integer_value,
    line_comment_rest, name_at, name_char, name_start, number_at, quoted_rest, read_char,
    read_comment, read_date, read_dotted, read_name, read_number, read_string,
    read_word_literal, refusal, span_of, step, steps, string_at, triple, triple_rest,
    version_call_at, Read,
};
use crate::text::{string_of, to_chars};
use vstd::prelude::*;

verus! {

/// A place in the text: the index of the next character with its line and
/// column, both counted from 1. Columns count characters.
#[derive(Debug, Clone, Copy)]
pub struct Cursor {
    pub pos: usize,
    pub line: usize,
    pub col: usize,
}

/// The outcome of reading one construct: what was read and the place behind
/// it, or the first error.
pub type Parsed<T> = Result<(T, Cursor), ParseError>;

/// Whether `b` stands at `a` or behind it, by line and column.
pub open spec fn ahead(a: Cursor, b: Cursor) -> bool {
    a.line < b.line || (a.line == b.line && a.col <= b.col)
}

/// Whether `b` is a place in the text at `a` or behind it.
pub open spec fn went(cs: Seq<char>, a: Cursor, b: Cursor) -> bool {
    a.pos <= b.pos <= cs.len() && ahead(a, b)
}

/// Whether `b` is a place in the text behind `a`.
pub open spec fn moved(cs: Seq<char>, a: Cursor, b: Cursor) -> bool {
    a.pos < b.pos <= cs.len() && ahead(a, b)
}

/// Whether a span starts at `a`.
pub open spec fn starts_at(p: Position, a: Cursor) -> bool {
    p.line == a.line && p.start == a.col
}

/// Whether a span ends at `b` or before it.
pub open spec fn ends_by(p: Position, b: Cursor) -> bool {
    p.end_line < b.line || (p.end_line == b.line && p.end <= b.col)
}

/// Whether what was read, or the error, is what the reading comes to.
pub open spec fn same_comment(r: Parsed<Comment>, m: Read<CommentModel>) -> bool {
    match r {
        Ok((x, c2)) => m == Read::Got(x.model(), c2),
        Err(e) => refusal(e, m),
    }
}

/// Whether what was read, or the error, is what the reading comes to.
pub open spec fn same_symbol(r: Parsed<Symbol>, m: Read<SymbolModel>) -> bool {
    match r {
        Ok((x, c2)) => m == Read::Got(x.model(), c2),
        Err(e) => refusal(e, m),
    }
}

/// Whether what was read, or the error, is what the reading comes to.
pub open spec fn same_node(r: Parsed<AstNodeEnum>, m: Read<NodeModel>) -> bool {
    match r {
        Ok((x, c2)) => m == Read::Got(x.model(), c2),
        Err(e) => refusal(e, m),
    }
}

/// The start of a text.
pub fn start_cursor() -> (c: Cursor)
    ensures
        c.pos == 0,
        c.line == 1,
        c.col == 1,
{
    Cursor { pos: 0, line: 1, col: 1 }
}

/// The next character, where there is one.
pub fn peek(cs: &Vec<char>, c: Cursor) -> (r: Option<char>)
    ensures
        r == char_at(cs@, c),
        r is Some ==> inside(cs@, c),
{
    if c.pos < cs.len() {
        Some(cs[c.pos])
    } else {
        None
    }
}

/// The character `k` places further, where there is one.
pub fn peek_at(cs: &Vec<char>, c: Cursor, k: usize) -> (r: Option<char>)
    ensures
        r == char_after(cs@, c, k as int),
{
    if c.pos < cs.len() && k < cs.len() - c.pos {
        Some(cs[c.pos + k])
    } else {
        None
    }
}

/// The place behind the next character: a line feed starts a new line.
/// Lines and columns are counted up to the largest machine word.
pub fn advance(cs: &Vec<char>, c: Cursor) -> (r: Cursor)
    requires
        c.pos < cs@.len(),
    ensures
        r == step(cs@, c),
        r.pos == c.pos + 1,
        ahead(c, r),
        inside(cs@, c),
{
    let n = cs.len();
    if cs[c.pos] == '\n' && c.line < usize::MAX {
        Cursor { pos: c.pos + 1, line: c.line + 1, col: 1 }
    } else {
        Cursor { pos: c.pos + 1, line: c.line, col: c.col.saturating_add(1) }
    }
}

/// The place `n` characters further.
pub fn advance_by(cs: &Vec<char>, c: Cursor, n: usize) -> (r: Cursor)
    requires
        c.pos + n <= cs@.len(),
    ensures
        r == steps(cs@, c, n as nat),
        r.pos == c.pos + n,
        ahead(c, r),
{
    let mut cur = c;
    let mut i: usize = 0;
    while i < n
        invariant
            i <= n,
            cur.pos == c.pos + i,
            ahead(c, cur),
            c.pos + n <= cs@.len(),
            steps(cs@, cur, (n - i) as nat) == steps(cs@, c, n as nat),
        decreases n - i,
    {
        cur = advance(cs, cur);
        i += 1;
    }
    cur
}

/// The span from one place to another.
pub fn span(from: Cursor, to: Cursor) -> (p: Position)
    ensures
        p == span_of(from, to),
        ahead(from, to) ==> p.consistent(),
{
    Position { line: from.line, end_line: to.line, start: from.col, end: to.col }
}

/// The words of a refusal: what the parser expected.
pub open spec fn expectation(what: Seq<char>) -> Seq<char> {
    "parsing error: expected "@ + what
}

/// Whether `e` is a refusal of the text from `c` on: a syntax error at `c` or
/// behind it that says what the parser expected there.
pub open spec fn refused(c: Cursor, e: ParseError) -> bool {
    e matches ParseError::SyntaxError { line, column, message } && (c.line < line || (c.line
        == line && c.col <= column)) && exists|what: Seq<char>|
        message@ == #[trigger] expectation(what)
}

/// A syntax error at a place: the parser expected something else there.
pub fn expected(c: Cursor, what: &str) -> (e: ParseError)
    ensures
        e matches ParseError::SyntaxError { line, column, message } && line == c.line && column
            == c.col && message@ == expectation(what@),
{
    let mut message = "parsing error: expected ".to_owned();
    message.append(what);
    ParseError::SyntaxError { line: c.line, column: c.col, message }
}

/// White space: space, tab, carriage return, line feed.
pub open spec fn is_blank_char(ch: char) -> bool {
    ch == ' ' || ch == '\t' || ch == '\r' || ch == '\n'
}

/// A text of white space only.
pub open spec fn blank_text(s: Seq<char>) -> bool {
    forall|i: int| 0 <= i < s.len() ==> is_blank_char(#[trigger] s[i])
}

/// White space: space, tab, carriage return, line feed.
pub fn is_blank(ch: char) -> (r: bool)
    ensures
        r == is_blank_char(ch),
{
    ch == ' ' || ch == '\t' || ch == '\r' || ch == '\n'
}

/// A character that may begin a name.
pub fn is_name_start(ch: char) -> (r: bool)
    ensures
        r == name_start(ch),
{
    let u: u32 = ch as u32;
    (0x41 <= u && u <= 0x5a) || (0x61 <= u && u <= 0x7a) || ch == '_' || u >= 0x80
}

/// A character that may continue a name.
pub fn is_name_char(ch: char) -> (r: bool)
    ensures
        r == name_char(ch),
{
    let u: u32 = ch as u32;
    is_name_start(ch) || (0x30 <= u && u <= 0x39)
}

/// An ASCII digit.
pub fn is_digit_char(ch: char) -> (r: bool)
    ensures
        r == digit(ch),
{
    let u: u32 = ch as u32;
    0x30 <= u && u <= 0x39
}

/// The place behind the white space at `c`.
pub fn skip_blank(cs: &Vec<char>, c: Cursor) -> (r: Cursor)
    requires
        c.pos <= cs@.len(),
    ensures
        r == after_blank(cs@, c),
        went(cs@, c, r),
        r.pos < cs@.len() ==> !is_blank_char(cs@[r.pos as int]),
{
    let mut cur = c;
    while cur.pos < cs.len() && is_blank(cs[cur.pos])
        invariant
            went(cs@, c, cur),
            after_blank(cs@, cur) == after_blank(cs@, c),
        decreases cs@.len() - cur.pos,
    {
        cur = advance(cs, cur);
    }
    cur
}

/// Whether the text at `c` goes on with `word`.
pub fn looking_at(cs: &Vec<char>, c: Cursor, word: &str) -> (r: bool)
    ensures
        r == has_word(cs@, c.pos as int, word@),
{
    let w = to_chars(word);
    if c.pos > cs.len() || w.len() > cs.len() - c.pos {
        return false;
    }
    let mut i: usize = 0;
    let n = cs.len();
    while i < w.len()
        invariant
            i <= w.len(),
            w@ == word@,
            c.pos + w.len() <= cs@.len(),
            cs@.len() == n,
            forall|j: int| 0 <= j < i ==> cs@[c.pos + j] == w@[j],
        decreases w.len() - i,
    {
        if cs[c.pos + i] != w[i] {
            assert(cs@.subrange(c.pos as int, c.pos + w@.len())[i as int] != w@[i as int]);
            return false;
        }
        i += 1;
    }
    assert(cs@.subrange(c.pos as int, c.pos + w@.len()) =~= w@);
    true
}

/// Whether the text at `c` goes on with the word `word`, which no name
/// character follows.
pub fn looking_at_word(cs: &Vec<char>, c: Cursor, word: &str) -> (r: bool)
    ensures
        r == has_whole_word(cs@, c, word@),
{
    if !looking_at(cs, c, word) {
        return false;
    }
    let n = to_chars(word).len();
    match peek_at(cs, c, n) {
        Some(ch) => !is_name_char(ch),
        None => true,
    }
}

/// Whether a comment starts at `c`: `#`, `//` or `/*`.
pub fn at_comment(cs: &Vec<char>, c: Cursor) -> (r: bool)
    ensures
        r == comment_at(cs@, c),
        r ==> c.pos < cs@.len(),
{
    match peek(cs, c) {
        Some('#') => true,
        Some('/') => match peek_at(cs, c, 1) {
            Some('/') => true,
            Some('*') => true,
            _ => false,
        },
        _ => false,
    }
}

/// Reads the comment at `c`. A line comment ends before the end of its
/// line; a block comment ends with `*/`, which has to be there.
pub fn parse_comment(cs: &Vec<char>, c: Cursor) -> (r: Parsed<Comment>)
    requires
        c.pos < cs@.len(),
    ensures
        same_comment(r, read_comment(cs@, c)),
        r matches Ok((x, c2)) ==> moved(cs@, c, c2) && x.spans_ok() && starts_at(x.position, c)
            && ends_by(x.position, c2),
        r matches Err(e) ==> refused(c, e),
{
    let block = cs[c.pos] == '/' && match peek_at(cs, c, 1) {
        Some('*') => true,
        _ => false,
    };
    assert(block == block_comment_at(cs@, c));
    let mut cur = advance(cs, c);
    if block {
        cur = advance(cs, cur);
        loop
            invariant_except_break
                block_comment_rest(cs@, c, cur) == read_comment(cs@, c),
            invariant
                moved(cs@, c, cur),
            ensures
                read_comment(cs@, c) == crate::parser::grammar::comment_from(cs@, c, cur),
            decreases cs@.len() - cur.pos,
        {
            if cur.pos >= cs.len() {
                return Err(expected(cur, "*/"));
            }
            if looking_at(cs, cur, "*/") {
                proof {
                    reveal_strlit("*/");
                }
                cur = advance_by(cs, cur, 2);
                break ;
            }
            cur = advance(cs, cur);
        }
    } else {
        while cur.pos < cs.len() && cs[cur.pos] != '\n' && cs[cur.pos] != '\r'
            invariant
                moved(cs@, c, cur),
                line_comment_rest(cs@, c, cur) == read_comment(cs@, c),
            decreases cs@.len() - cur.pos,
        {
            cur = advance(cs, cur);
        }
    }
    let value = string_of(cs, c.pos, cur.pos);
    Ok((Comment { position: span(c, cur), value }, cur))
}

/// The place behind the white space and comments at `c`. A block comment
/// that does not end is left where it starts.
pub fn skip_trivia(cs: &Vec<char>, c: Cursor) -> (r: Cursor)
    requires
        c.pos <= cs@.len(),
    ensures
        r == after_trivia(cs@, c),
        went(cs@, c, r),
{
    let mut cur = skip_blank(cs, c);
    let ghost mut from = c;
    while at_comment(cs, cur)
        invariant
            went(cs@, c, from),
            went(cs@, from, cur),
            cur == after_blank(cs@, from),
            after_trivia(cs@, from) == after_trivia(cs@, c),
        decreases cs@.len() - cur.pos,
    {
        match parse_comment(cs, cur) {
            Ok((_, next)) => {
                proof {
                    from = next;
                }
                cur = skip_blank(cs, next);
            },
            Err(_) => {
                return cur;
            },
        }
    }
    cur
}

/// Reads the character `ch` at `c`.
pub fn expect_char(cs: &Vec<char>, c: Cursor, ch: char, what: &str) -> (r: Result<
    Cursor,
    ParseError,
>)
    ensures
        match r {
            Ok(c2) => read_char(cs@, c, ch, what@) == Read::Got((), c2),
            Err(e) => refusal(e, read_char(cs@, c, ch, what@)),
        },
        r matches Ok(c2) ==> c2.pos == c.pos + 1 && moved(cs@, c, c2),
        r matches Err(e) ==> refused(c, e),
{
    match peek(cs, c) {
        Some(x) => {
            if x == ch {
                Ok(advance(cs, c))
            } else {
                Err(expected(c, what))
            }
        },
        None => Err(expected(c, what)),
    }
}

/// The place behind the name characters at `c`.
pub fn skip_name(cs: &Vec<char>, c: Cursor) -> (r: Cursor)
    requires
        c.pos <= cs@.len(),
    ensures
        r == after_name(cs@, c),
        went(cs@, c, r),
{
    let mut cur = c;
    while cur.pos < cs.len() && is_name_char(cs[cur.pos])
        invariant
            went(cs@, c, cur),
            after_name(cs@, cur) == after_name(cs@, c),
        decreases cs@.len() - cur.pos,
    {
        cur = advance(cs, cur);
    }
    cur
}

/// Whether a name starts at `c`.
pub fn at_name(cs: &Vec<char>, c: Cursor) -> (r: bool)
    ensures
        r == name_at(cs@, c),
        r ==> c.pos < cs@.len(),
{
    match peek(cs, c) {
        Some(ch) => is_name_start(ch),
        None => false,
    }
}

/// Reads a name at `c`: a starting character and the name characters that
/// follow it.
pub fn parse_name(cs: &Vec<char>, c: Cursor, kind: SymbolKind) -> (r: Parsed<Symbol>)
    ensures
        same_symbol(r, read_name(cs@, c, kind)),
        r matches Ok((x, c2)) ==> moved(cs@, c, c2) && x.spans_ok(),
        r matches Err(e) ==> refused(c, e),
{
    if !at_name(cs, c) {
        return Err(expected(c, "identifier"));
    }
    let end = skip_name(cs, advance(cs, c));
    let name = string_of(cs, c.pos, end.pos);
    Ok((Symbol { position: span(c, end), name, kind }, end))
}

/// Whether `.version(` stands at `c`.
pub fn at_version_call(cs: &Vec<char>, c: Cursor) -> (r: bool)
    ensures
        r == version_call_at(cs@, c),
{
    if !looking_at(cs, c, ".version") {
        return false;
    }
    proof {
        reveal_strlit(".version");
    }
    let after = skip_blank(cs, advance_by(cs, c, 8));
    match peek(cs, after) {
        Some('(') => true,
        _ => false,
    }
}

/// Reads a dotted name at `c`: names with dots between. Where `stop` is set,
/// the name ends before a `.version(`.
pub fn parse_dotted(cs: &Vec<char>, c: Cursor, kind: SymbolKind, stop: bool) -> (r: Parsed<Symbol>)
    ensures
        same_symbol(r, read_dotted(cs@, c, kind, stop)),
        r matches Ok((x, c2)) ==> moved(cs@, c, c2) && x.spans_ok(),
        r matches Err(e) ==> refused(c, e),
{
    if !at_name(cs, c) {
        return Err(expected(c, "identifier"));
    }
    let mut end = skip_name(cs, advance(cs, c));
    let ghost first = end;
    loop
        invariant
            moved(cs@, c, end),
            dotted_end(cs@, end, stop) == dotted_end(cs@, first, stop),
        ensures
            moved(cs@, c, end),
            end == dotted_end(cs@, first, stop),
        decreases cs@.len() - end.pos,
    {
        let dot = match peek(cs, end) {
            Some('.') => true,
            _ => false,
        };
        if !dot {
            break ;
        }
        if stop && at_version_call(cs, end) {
            break ;
        }
        let after = advance(cs, end);
        if !at_name(cs, after) {
            break ;
        }
        end = skip_name(cs, advance(cs, after));
    }
    let name = string_of(cs, c.pos, end.pos);
    Ok((Symbol { position: span(c, end), name, kind }, end))
}

/// Whether a string starts at `c`.
pub fn at_string(cs: &Vec<char>, c: Cursor) -> (r: bool)
    ensures
        r == string_at(cs@, c),
        r ==> c.pos < cs@.len(),
{
    match peek(cs, c) {
        Some('"') => true,
        Some('\'') => true,
        _ => false,
    }
}

/// Whether three quotes of the kind `quote` stand at `c`.
fn at_triple(cs: &Vec<char>, c: Cursor, quote: char) -> (r: bool)
    ensures
        r == has_word(cs@, c.pos as int, triple(quote)),
        r ==> c.pos + 3 <= cs@.len(),
{
    proof {
        reveal_strlit("\"\"\"");
        reveal_strlit("'''");
    }
    if quote == '"' {
        looking_at(cs, c, "\"\"\"")
    } else {
        looking_at(cs, c, "'''")
    }
}

/// Reads a string at `c`. Between triple quotes it may run over several
/// lines; between single or double quotes it stays on its line and a
/// backslash takes the next character with it. The value is what stands
/// between the quotes, as written.
pub fn parse_string(cs: &Vec<char>, c: Cursor) -> (r: Parsed<AstNodeEnum>)
    ensures
        same_node(r, read_string(cs@, c)),
        r matches Ok((x, c2)) ==> moved(cs@, c, c2) && x.spans_ok(),
        r matches Err(e) ==> refused(c, e),
{
    if !at_string(cs, c) {
        return Err(expected(c, "string"));
    }
    let quote = cs[c.pos];
    if at_triple(cs, c, quote) {
        let open = advance_by(cs, c, 3);
        let mut cur = open;
        loop
            invariant
                open.pos == c.pos + 3,
                open.pos <= cur.pos <= cs@.len(),
                ahead(c, cur),
                triple_rest(cs@, c, open, cur, quote) == read_string(cs@, c),
            decreases cs@.len() - cur.pos,
        {
            if cur.pos >= cs.len() {
                return Err(expected(c, "string"));
            }
            if at_triple(cs, cur, quote) {
                let end = advance_by(cs, cur, 3);
                let value = string_of(cs, open.pos, cur.pos);
                let literal = MultiLineStringLiteral { position: span(c, end), value };
                return Ok((AstNodeEnum::MultiLineStringLiteral(literal), end));
            }
            cur = advance(cs, cur);
        }
    } else {
        let open = advance(cs, c);
        let mut cur = open;
        loop
            invariant
                open.pos == c.pos + 1,
                open.pos <= cur.pos <= cs@.len(),
                ahead(c, cur),
                quoted_rest(cs@, c, open, cur, quote) == read_string(cs@, c),
            decreases cs@.len() - cur.pos,
        {
            if cur.pos >= cs.len() {
                return Err(expected(c, "string"));
            }
            let ch = cs[cur.pos];
            if ch == '\n' {
                return Err(expected(c, "string"));
            }
            if ch == quote {
                let end = advance(cs, cur);
                let value = string_of(cs, open.pos, cur.pos);
                let literal = StringLiteral { position: span(c, end), value };
                return Ok((AstNodeEnum::StringLiteral(literal), end));
            }
            cur = advance(cs, cur);
            if ch == '\\' && cur.pos < cs.len() && cs[cur.pos] != '\n' {
                cur = advance(cs, cur);
            }
        }
    }
}

/// The place behind the digits at `c`.
pub fn skip_digits(cs: &Vec<char>, c: Cursor) -> (r: Cursor)
    requires
        c.pos <= cs@.len(),
    ensures
        r == after_digits(cs@, c),
        went(cs@, c, r),
        forall|i: int| c.pos <= i < r.pos ==> digit(#[trigger] cs@[i]),
{
    let mut cur = c;
    while cur.pos < cs.len() && is_digit_char(cs[cur.pos])
        invariant
            went(cs@, c, cur),
            after_digits(cs@, cur) == after_digits(cs@, c),
            forall|i: int| c.pos <= i < cur.pos ==> digit(#[trigger] cs@[i]),
        decreases cs@.len() - cur.pos,
    {
        cur = advance(cs, cur);
    }
    cur
}

/// Whether a number starts at `c`: a digit, or `-` and a digit.
pub fn at_number(cs: &Vec<char>, c: Cursor) -> (r: bool)
    ensures
        r == number_at(cs@, c),
        r ==> c.pos < cs@.len(),
{
    match peek(cs, c) {
        Some('-') => match peek_at(cs, c, 1) {
            Some(d) => is_digit_char(d),
            None => false,
        },
        Some(d) => is_digit_char(d),
        None => false,
    }
}

/// More digits write no smaller a number.
pub proof fn lemma_digits_grow(cs: Seq<char>, from: int, a: int, b: int)
    requires
        0 <= from <= a <= b <= cs.len(),
        forall|i: int| from <= i < b ==> digit(#[trigger] cs[i]),
    ensures
        0 <= digits_int(cs, from, a) <= digits_int(cs, from, b),
    decreases b - from,
{
    if from < b {
        assert(digit(cs[b - 1]));
        if a < b {
            lemma_digits_grow(cs, from, a, b - 1);
        } else {
            lemma_digits_grow(cs, from, a - 1, b - 1);
        }
    }
}

/// The number that the digits `cs[from..to]` write, with a minus sign in
/// front where `negative` is set; `None` beyond 64 signed bits.
pub fn integer_of(cs: &Vec<char>, from: usize, to: usize, negative: bool) -> (r: Option<i64>)
    requires
        from <= to <= cs@.len(),
        forall|i: int| from <= i < to ==> digit(#[trigger] cs@[i]),
    ensures
        r == integer_value(cs@, from as int, to as int, negative),
{
    let mut value: i64 = 0;
    let mut i: usize = from;
    while i < to
        invariant
            from <= i <= to <= cs@.len(),
            forall|k: int| from <= k < to ==> digit(#[trigger] cs@[k]),
            value == -digits_int(cs@, from as int, i as int),
        decreases to - i,
    {
        assert(digit(cs@[i as int]));
        let u: u32 = cs[i] as u32;
        let d: i128 = (u - 0x30) as i128;
        let wide: i128 = (value as i128) * 10 - d;
        proof {
            lemma_digits_grow(cs@, from as int, i as int, i as int);
            lemma_digits_grow(cs@, from as int, i as int + 1, to as int);
        }
        if wide < i64::MIN as i128 {
            return None;
        }
        value = wide as i64;
        i += 1;
    }
    if negative {
        Some(value)
    } else if value == i64::MIN {
        None
    } else {
        Some(-value)
    }
}

/// Reads a number at `c`: an integer, or a float where a fraction or an
/// exponent follows the integer part.
pub fn parse_number(cs: &Vec<char>, c: Cursor) -> (r: Parsed<AstNodeEnum>)
    ensures
        same_node(r, read_number(cs@, c)),
        r matches Ok((x, c2)) ==> moved(cs@, c, c2) && x.spans_ok(),
        r matches Err(e) ==> refused(c, e),
{
    if !at_number(cs, c) {
        return Err(expected(c, "number"));
    }
    let negative = cs[c.pos] == '-';
    let digits = if negative {
        advance(cs, c)
    } else {
        c
    };
    let int_end = skip_digits(cs, digits);
    if int_end.pos == digits.pos {
        return Err(expected(c, "number"));
    }
    let fraction = match peek(cs, int_end) {
        Some('.') => match peek_at(cs, int_end, 1) {
            Some(d) => is_digit_char(d),
            None => false,
        },
        _ => false,
    };
    assert(fraction == fraction_at(cs@, int_end));
    let after_fraction = if fraction {
        skip_digits(cs, advance(cs, int_end))
    } else {
        int_end
    };
    let marked = match peek(cs, after_fraction) {
        Some('e') => true,
        Some('E') => true,
        _ => false,
    };
    let mut end = after_fraction;
    let mut exponent = false;
    if marked {
        let mut e = advance(cs, after_fraction);
        let signed = match peek(cs, e) {
            Some('+') => true,
            Some('-') => true,
            _ => false,
        };
        if signed {
            e = advance(cs, e);
        }
        assert(e == exponent_digits(cs@, after_fraction));
        let e_end = skip_digits(cs, e);
        if e_end.pos > e.pos {
            end = e_end;
            exponent = true;
        }
    }
    assert(exponent == exponent_at(cs@, after_fraction));
    let raw = string_of(cs, c.pos, end.pos);
    if fraction || exponent {
        let literal = FloatLiteral { position: span(c, end), raw };
        Ok((AstNodeEnum::FloatLiteral(literal), end))
    } else {
        match integer_of(cs, digits.pos, int_end.pos, negative) {
            Some(value) => {
                let literal = NumberLiteral { position: span(c, end), raw, value };
                Ok((AstNodeEnum::NumberLiteral(literal), end))
            },
            None => Err(expected(c, "integer within 64 bits")),
        }
    }
}

/// Reads one of the words `true`, `false`, `null` at `c`, where one stands
/// there.
pub fn parse_word_literal(cs: &Vec<char>, c: Cursor) -> (r: Option<(AstNodeEnum, Cursor)>)
    ensures
        match r {
            Some((x, c2)) => read_word_literal(cs@, c) == Some((x.model(), c2)),
            None => read_word_literal(cs@, c) is None,
        },
        r matches Some((x, c2)) ==> moved(cs@, c, c2) && x.spans_ok(),
{
    if looking_at_word(cs, c, "true") {
        proof {
            reveal_strlit("true");
        }
        let end = advance_by(cs, c, 4);
        let literal = BoolLiteral { position: span(c, end), raw: "true".to_owned(), value: true };
        Some((AstNodeEnum::BoolLiteral(literal), end))
    } else if looking_at_word(cs, c, "false") {
        proof {
            reveal_strlit("false");
        }
        let end = advance_by(cs, c, 5);
        let literal = BoolLiteral { position: span(c, end), raw: "false".to_owned(), value: false };
        Some((AstNodeEnum::BoolLiteral(literal), end))
    } else if looking_at_word(cs, c, "null") {
        proof {
            reveal_strlit("null");
        }
        let end = advance_by(cs, c, 4);
        Some((AstNodeEnum::NullLiteral(NullLiteral { position: span(c, end) }), end))
    } else {
        None
    }
}

/// Whether `date(` stands at `c`.
pub fn at_date(cs: &Vec<char>, c: Cursor) -> (r: bool)
    ensures
        r == date_at(cs@, c),
        r ==> c.pos + 4 <= cs@.len(),
{
    if !looking_at_word(cs, c, "date") {
        return false;
    }
    proof {
        reveal_strlit("date");
    }
    let after = skip_blank(cs, advance_by(cs, c, 4));
    match peek(cs, after) {
        Some('(') => true,
        _ => false,
    }
}

/// Reads `date("...")` at `c`; the value is what stands between the quotes.
pub fn parse_date(cs: &Vec<char>, c: Cursor) -> (r: Parsed<AstNodeEnum>)
    requires
        c.pos + 4 <= cs@.len(),
    ensures
        same_node(r, read_date(cs@, c)),
        r matches Ok((x, c2)) ==> moved(cs@, c, c2) && x.spans_ok(),
        r matches Err(e) ==> refused(c, e),
{
    let open = skip_blank(cs, advance_by(cs, c, 4));
    let inner = match expect_char(cs, open, '(', "(") {
        Ok(n) => skip_trivia(cs, n),
        Err(e) => {
            return Err(e);
        },
    };
    let (text, after) = match parse_string(cs, inner) {
        Ok(x) => x,
        Err(e) => {
            return Err(e);
        },
    };
    let close = skip_trivia(cs, after);
    let end = match expect_char(cs, close, ')', ")") {
        Ok(n) => n,
        Err(e) => {
            return Err(e);
        },
    };
    let value = match text {
        AstNodeEnum::StringLiteral(s) => s.value,
        AstNodeEnum::MultiLineStringLiteral(s) => s.value,
        _ => String::new(),
    };
    Ok((AstNodeEnum::DateLiteral(DateLiteral { position: span(c, end), value }), end))
}

} // verus!
