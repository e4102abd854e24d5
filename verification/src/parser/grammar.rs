//! The language, piece by piece: what each construct is read as from a place
//! in a text, or where and why it is refused.
//!
//! Every function here is a definition. The functions that read text are
//! held to them.

use crate::ast::model::{
    AttrDefModel, BoolLiteralModel, ClosedIntervalModel, CommentModel, GraphDefModel,
    ImportItemModel, ImportModel, MixIntervalModel, ModuleModel, OpConfigModel, OpDefModel,
    OpInputModel, OpMetaModel, OpOutputModel, OpSpecItemModel, OpSpecModel, VarDefModel, ConditionBlockModel, ConditionDefModel,
    ConditionExprModel, ConditionStatementModel, DateLiteralModel, DictItemModel,
    DictStatementModel, FloatLiteralModel, ForLoopBlockModel, ListStatementModel,
    MultiLineStringLiteralModel, NodeAttrModel, NodeAttrValueModel, NodeBlockModel, NodeDefModel,
    NodeInputDefModel, NodeInputKeyDefModel, NodeInputKeyItemModel, NodeInputTupleModel,
    NodeInputValuesModel, NodeModel, NullLiteralModel, NumberLiteralModel, SetStatementModel,
    StringLiteralModel, SymbolModel, TupleStatementModel,
};
use crate::ast::{Position, SymbolKind};
use crate::error::ParseError;
use crate::parser::lexer::{expectation, is_blank_char, Cursor};
use crate::text::sat_add;
use vstd::prelude::*;

verus! {

/// What reading one construct comes to: what was read and the place behind
/// it, or the place of the refusal and what was expected there.
pub enum Read<T> {
    Got(T, Cursor),
    Refused(Cursor, Seq<char>),
}

/// Whether an error is the refusal that a reading comes to.
pub open spec fn refusal<T>(e: ParseError, m: Read<T>) -> bool {
    m matches Read::Refused(at, what) && e matches ParseError::SyntaxError {
        line,
        column,
        message,
    } && line == at.line && column == at.col && message@ == expectation(what)
}

/// The span from one place to another.
pub open spec fn span_of(from: Cursor, to: Cursor) -> Position {
    Position { line: from.line, end_line: to.line, start: from.col, end: to.col }
}

/// Whether a character stands at `c` that the text can step over.
pub open spec fn inside(cs: Seq<char>, c: Cursor) -> bool {
    c.pos < cs.len() && c.pos < usize::MAX
}

/// The character at `c`.
pub open spec fn char_at(cs: Seq<char>, c: Cursor) -> Option<char> {
    if c.pos < cs.len() {
        Some(cs[c.pos as int])
    } else {
        None
    }
}

/// The character `k` places behind `c`.
pub open spec fn char_after(cs: Seq<char>, c: Cursor, k: int) -> Option<char> {
    if 0 <= k && c.pos + k < cs.len() {
        Some(cs[c.pos + k])
    } else {
        None
    }
}

/// The place behind the character at `c`: a line feed starts a new line,
/// any other character a new column. Lines and columns are counted up to the
/// largest machine word.
pub open spec fn step(cs: Seq<char>, c: Cursor) -> Cursor {
    if cs[c.pos as int] == '\n' && c.line < usize::MAX {
        Cursor { pos: (c.pos + 1) as usize, line: (c.line + 1) as usize, col: 1 }
    } else {
        Cursor { pos: (c.pos + 1) as usize, line: c.line, col: sat_add(c.col, 1) }
    }
}

/// The place `n` characters behind `c`, or the end of the text.
pub open spec fn steps(cs: Seq<char>, c: Cursor, n: nat) -> Cursor
    decreases n,
{
    if n == 0 || !inside(cs, c) {
        c
    } else {
        steps(cs, step(cs, c), (n - 1) as nat)
    }
}

/// The place behind the white space at `c`.
pub open spec fn after_blank(cs: Seq<char>, c: Cursor) -> Cursor
    decreases cs.len() - c.pos,
{
    if inside(cs, c) && is_blank_char(cs[c.pos as int]) {
        after_blank(cs, step(cs, c))
    } else {
        c
    }
}

/// A character that may begin a name: an ASCII letter, `_`, or any
/// character beyond ASCII.
pub open spec fn name_start(ch: char) -> bool {
    let u = ch as u32;
    (0x41 <= u <= 0x5a) || (0x61 <= u <= 0x7a) || ch == '_' || u >= 0x80
}

/// A character that may continue a name: one that may begin it, or an ASCII
/// digit.
pub open spec fn name_char(ch: char) -> bool {
    let u = ch as u32;
    name_start(ch) || (0x30 <= u <= 0x39)
}

/// An ASCII digit.
pub open spec fn digit(ch: char) -> bool {
    let u = ch as u32;
    0x30 <= u <= 0x39
}

/// The place behind the name characters at `c`.
pub open spec fn after_name(cs: Seq<char>, c: Cursor) -> Cursor
    decreases cs.len() - c.pos,
{
    if inside(cs, c) && name_char(cs[c.pos as int]) {
        after_name(cs, step(cs, c))
    } else {
        c
    }
}

/// The place behind the digits at `c`.
pub open spec fn after_digits(cs: Seq<char>, c: Cursor) -> Cursor
    decreases cs.len() - c.pos,
{
    if inside(cs, c) && digit(cs[c.pos as int]) {
        after_digits(cs, step(cs, c))
    } else {
        c
    }
}

/// Whether the text goes on with `word` at index `i`.
pub open spec fn has_word(cs: Seq<char>, i: int, word: Seq<char>) -> bool {
    0 <= i && i + word.len() <= cs.len() && cs.subrange(i, i + word.len()) == word
}

/// Whether the text goes on at `c` with `word` and no name character behind
/// it.
pub open spec fn has_whole_word(cs: Seq<char>, c: Cursor, word: Seq<char>) -> bool {
    has_word(cs, c.pos as int, word) && match char_after(cs, c, word.len() as int) {
        Some(ch) => !name_char(ch),
        None => true,
    }
}

/// Whether a comment starts at `c`: `#`, `//` or `/*`.
pub open spec fn comment_at(cs: Seq<char>, c: Cursor) -> bool {
    match char_at(cs, c) {
        Some(ch) => ch == '#' || (ch == '/' && (char_after(cs, c, 1) == Some('/') || char_after(
            cs,
            c,
            1,
        ) == Some('*'))),
        None => false,
    }
}

/// Whether a block comment starts at `c`.
pub open spec fn block_comment_at(cs: Seq<char>, c: Cursor) -> bool {
    char_at(cs, c) == Some('/') && char_after(cs, c, 1) == Some('*')
}

/// The comment that started at `from`, with the text up to `c`.
pub open spec fn comment_from(cs: Seq<char>, from: Cursor, c: Cursor) -> Read<CommentModel> {
    Read::Got(
        CommentModel {
            position: span_of(from, c),
            value: cs.subrange(from.pos as int, c.pos as int),
        },
        c,
    )
}

/// The rest of a block comment that started at `from`: it runs up to the
/// first `*/`, which has to be there.
pub open spec fn block_comment_rest(cs: Seq<char>, from: Cursor, c: Cursor) -> Read<CommentModel>
    decreases cs.len() - c.pos,
{
    if !inside(cs, c) {
        Read::Refused(c, "*/"@)
    } else if has_word(cs, c.pos as int, "*/"@) {
        comment_from(cs, from, steps(cs, c, 2))
    } else {
        block_comment_rest(cs, from, step(cs, c))
    }
}

/// The rest of a line comment that started at `from`: it runs up to the end
/// of its line.
pub open spec fn line_comment_rest(cs: Seq<char>, from: Cursor, c: Cursor) -> Read<CommentModel>
    decreases cs.len() - c.pos,
{
    if inside(cs, c) && cs[c.pos as int] != '\n' && cs[c.pos as int] != '\r' {
        line_comment_rest(cs, from, step(cs, c))
    } else {
        comment_from(cs, from, c)
    }
}

/// The comment at `c`, with its delimiters.
pub open spec fn read_comment(cs: Seq<char>, c: Cursor) -> Read<CommentModel> {
    if block_comment_at(cs, c) {
        block_comment_rest(cs, c, step(cs, step(cs, c)))
    } else {
        line_comment_rest(cs, c, step(cs, c))
    }
}

/// The place behind the white space and comments at `c`. A block comment
/// that does not end is left where it starts.
pub open spec fn after_trivia(cs: Seq<char>, c: Cursor) -> Cursor
    decreases cs.len() - c.pos,
{
    let at = after_blank(cs, c);
    if comment_at(cs, at) {
        match read_comment(cs, at) {
            Read::Got(_, next) => if at.pos < next.pos <= cs.len() && c.pos <= at.pos {
                after_trivia(cs, next)
            } else {
                at
            },
            Read::Refused(_, _) => at,
        }
    } else {
        at
    }
}

/// The place behind the character `ch` at `c`, which has to stand there.
pub open spec fn read_char(cs: Seq<char>, c: Cursor, ch: char, what: Seq<char>) -> Read<()> {
    if char_at(cs, c) == Some(ch) {
        Read::Got((), step(cs, c))
    } else {
        Read::Refused(c, what)
    }
}

/// Whether a name starts at `c`.
pub open spec fn name_at(cs: Seq<char>, c: Cursor) -> bool {
    match char_at(cs, c) {
        Some(ch) => name_start(ch),
        None => false,
    }
}

/// The name from `from` to `to`.
pub open spec fn symbol_from(cs: Seq<char>, from: Cursor, to: Cursor, kind: SymbolKind) -> Read<
    SymbolModel,
> {
    Read::Got(
        SymbolModel {
            position: span_of(from, to),
            name: cs.subrange(from.pos as int, to.pos as int),
            kind,
        },
        to,
    )
}

/// A name at `c`: a starting character and the name characters behind it.
pub open spec fn read_name(cs: Seq<char>, c: Cursor, kind: SymbolKind) -> Read<SymbolModel> {
    if name_at(cs, c) {
        symbol_from(cs, c, after_name(cs, step(cs, c)), kind)
    } else {
        Read::Refused(c, "identifier"@)
    }
}

/// Whether `.version(` stands at `c`, with white space before the
/// parenthesis or without.
pub open spec fn version_call_at(cs: Seq<char>, c: Cursor) -> bool {
    has_word(cs, c.pos as int, ".version"@) && char_at(cs, after_blank(cs, steps(cs, c, 8)))
        == Some('(')
}

/// The end of a dotted name whose first segments end at `c`: as long as a dot
/// and a name follow, they belong to it; where `stop` is set, a `.version(`
/// does not.
pub open spec fn dotted_end(cs: Seq<char>, c: Cursor, stop: bool) -> Cursor
    decreases cs.len() - c.pos,
{
    if char_at(cs, c) == Some('.') && !(stop && version_call_at(cs, c)) && inside(cs, c) && name_at(
        cs,
        step(cs, c),
    ) && inside(cs, step(cs, c)) {
        let next = after_name(cs, step(cs, step(cs, c)));
        if c.pos < next.pos <= cs.len() {
            dotted_end(cs, next, stop)
        } else {
            c
        }
    } else {
        c
    }
}

/// A dotted name at `c`: names with dots between.
pub open spec fn read_dotted(cs: Seq<char>, c: Cursor, kind: SymbolKind, stop: bool) -> Read<
    SymbolModel,
> {
    if name_at(cs, c) {
        symbol_from(cs, c, dotted_end(cs, after_name(cs, step(cs, c)), stop), kind)
    } else {
        Read::Refused(c, "identifier"@)
    }
}

/// Whether a string starts at `c`.
pub open spec fn string_at(cs: Seq<char>, c: Cursor) -> bool {
    char_at(cs, c) == Some('"') || char_at(cs, c) == Some('\'')
}

/// Three quotes of one kind.
pub open spec fn triple(quote: char) -> Seq<char> {
    if quote == '"' {
        "\"\"\""@
    } else {
        "'''"@
    }
}

/// The rest of a string between triple quotes that started at `from` and
/// whose value starts at `open`: it runs up to the next three quotes, which
/// have to be there.
pub open spec fn triple_rest(cs: Seq<char>, from: Cursor, open: Cursor, c: Cursor, quote: char) -> Read<
    NodeModel,
>
    decreases cs.len() - c.pos,
{
    if !inside(cs, c) {
        Read::Refused(from, "string"@)
    } else if has_word(cs, c.pos as int, triple(quote)) {
        let end = steps(cs, c, 3);
        Read::Got(
            NodeModel::MultiLineStringLiteral(
                MultiLineStringLiteralModel {
                    position: span_of(from, end),
                    value: cs.subrange(open.pos as int, c.pos as int),
                },
            ),
            end,
        )
    } else {
        triple_rest(cs, from, open, step(cs, c), quote)
    }
}

/// The rest of a string between single or double quotes that started at
/// `from` and whose value starts at `open`: it runs up to the next quote on
/// its line, which has to be there; a backslash takes the next character
/// with it.
pub open spec fn quoted_rest(cs: Seq<char>, from: Cursor, open: Cursor, c: Cursor, quote: char) -> Read<
    NodeModel,
>
    decreases cs.len() - c.pos,
{
    if !inside(cs, c) || cs[c.pos as int] == '\n' {
        Read::Refused(from, "string"@)
    } else if cs[c.pos as int] == quote {
        let end = step(cs, c);
        Read::Got(
            NodeModel::StringLiteral(
                StringLiteralModel {
                    position: span_of(from, end),
                    value: cs.subrange(open.pos as int, c.pos as int),
                },
            ),
            end,
        )
    } else {
        let next = step(cs, c);
        if cs[c.pos as int] == '\\' && inside(cs, next) && cs[next.pos as int] != '\n' {
            quoted_rest(cs, from, open, step(cs, next), quote)
        } else {
            quoted_rest(cs, from, open, next, quote)
        }
    }
}

/// A string at `c`. The value is what stands between the quotes, as written.
pub open spec fn read_string(cs: Seq<char>, c: Cursor) -> Read<NodeModel> {
    if !string_at(cs, c) {
        Read::Refused(c, "string"@)
    } else if has_word(cs, c.pos as int, triple(cs[c.pos as int])) {
        triple_rest(cs, c, steps(cs, c, 3), steps(cs, c, 3), cs[c.pos as int])
    } else {
        quoted_rest(cs, c, step(cs, c), step(cs, c), cs[c.pos as int])
    }
}

/// Whether a number starts at `c`: a digit, or `-` and a digit.
pub open spec fn number_at(cs: Seq<char>, c: Cursor) -> bool {
    match char_at(cs, c) {
        Some(ch) => if ch == '-' {
            match char_after(cs, c, 1) {
                Some(d) => digit(d),
                None => false,
            }
        } else {
            digit(ch)
        },
        None => false,
    }
}

/// The number that the digits `cs[from..to]` write.
pub open spec fn digits_int(cs: Seq<char>, from: int, to: int) -> int
    decreases to - from,
{
    if to <= from {
        0
    } else {
        digits_int(cs, from, to - 1) * 10 + (cs[to - 1] as u32 - 0x30)
    }
}

/// The number that the digits `cs[from..to]` write, with a minus sign in
/// front where `negative` is set; `None` beyond 64 signed bits.
pub open spec fn integer_value(cs: Seq<char>, from: int, to: int, negative: bool) -> Option<i64> {
    let n = if negative {
        -digits_int(cs, from, to)
    } else {
        digits_int(cs, from, to)
    };
    if i64::MIN <= n <= i64::MAX {
        Some(n as i64)
    } else {
        None
    }
}

/// The place behind a fraction at `c`: a dot and the digits behind it, where
/// a digit follows the dot.
pub open spec fn after_fraction(cs: Seq<char>, c: Cursor) -> Cursor {
    if fraction_at(cs, c) {
        after_digits(cs, step(cs, c))
    } else {
        c
    }
}

/// Whether a fraction starts at `c`.
pub open spec fn fraction_at(cs: Seq<char>, c: Cursor) -> bool {
    char_at(cs, c) == Some('.') && match char_after(cs, c, 1) {
        Some(d) => digit(d),
        None => false,
    }
}

/// Whether an exponent starts at `c`: `e` or `E`, a sign or none, and at
/// least one digit.
pub open spec fn exponent_at(cs: Seq<char>, c: Cursor) -> bool {
    (char_at(cs, c) == Some('e') || char_at(cs, c) == Some('E')) && after_digits(
        cs,
        exponent_digits(cs, c),
    ).pos > exponent_digits(cs, c).pos
}

/// The place of the digits of an exponent that starts at `c`.
pub open spec fn exponent_digits(cs: Seq<char>, c: Cursor) -> Cursor {
    let e = step(cs, c);
    if char_at(cs, e) == Some('+') || char_at(cs, e) == Some('-') {
        step(cs, e)
    } else {
        e
    }
}

/// The place behind an exponent at `c`, where one starts there.
pub open spec fn after_exponent(cs: Seq<char>, c: Cursor) -> Cursor {
    if exponent_at(cs, c) {
        after_digits(cs, exponent_digits(cs, c))
    } else {
        c
    }
}

/// A number at `c`: an integer, or a float where a fraction or an exponent
/// follows the integer part. An integer has to fit in 64 signed bits.
pub open spec fn read_number(cs: Seq<char>, c: Cursor) -> Read<NodeModel> {
    if !number_at(cs, c) {
        Read::Refused(c, "number"@)
    } else {
        let negative = cs[c.pos as int] == '-';
        let digits = if negative {
            step(cs, c)
        } else {
            c
        };
        let int_end = after_digits(cs, digits);
        let end = after_exponent(cs, after_fraction(cs, int_end));
        let raw = cs.subrange(c.pos as int, end.pos as int);
        if int_end.pos == digits.pos {
            Read::Refused(c, "number"@)
        } else if fraction_at(cs, int_end) || exponent_at(cs, after_fraction(cs, int_end)) {
            Read::Got(
                NodeModel::FloatLiteral(FloatLiteralModel { position: span_of(c, end), raw }),
                end,
            )
        } else {
            match integer_value(cs, digits.pos as int, int_end.pos as int, negative) {
                Some(value) => Read::Got(
                    NodeModel::NumberLiteral(
                        NumberLiteralModel { position: span_of(c, end), raw, value },
                    ),
                    end,
                ),
                None => Read::Refused(c, "integer within 64 bits"@),
            }
        }
    }
}

/// One of the words `true`, `false`, `null` at `c`.
pub open spec fn read_word_literal(cs: Seq<char>, c: Cursor) -> Option<(NodeModel, Cursor)> {
    if has_whole_word(cs, c, "true"@) {
        let end = steps(cs, c, 4);
        Some(
            (
                NodeModel::BoolLiteral(
                    BoolLiteralModel { position: span_of(c, end), raw: "true"@, value: true },
                ),
                end,
            ),
        )
    } else if has_whole_word(cs, c, "false"@) {
        let end = steps(cs, c, 5);
        Some(
            (
                NodeModel::BoolLiteral(
                    BoolLiteralModel { position: span_of(c, end), raw: "false"@, value: false },
                ),
                end,
            ),
        )
    } else if has_whole_word(cs, c, "null"@) {
        let end = steps(cs, c, 4);
        Some((NodeModel::NullLiteral(NullLiteralModel { position: span_of(c, end) }), end))
    } else {
        None
    }
}

/// Whether `date(` stands at `c`, with white space before the parenthesis
/// or without.
pub open spec fn date_at(cs: Seq<char>, c: Cursor) -> bool {
    has_whole_word(cs, c, "date"@) && char_at(cs, after_blank(cs, steps(cs, c, 4))) == Some('(')
}

/// The characters of a string that was read.
pub open spec fn string_value(node: NodeModel) -> Seq<char> {
    match node {
        NodeModel::StringLiteral(s) => s.value,
        NodeModel::MultiLineStringLiteral(s) => s.value,
        _ => Seq::empty(),
    }
}

/// `date("...")` at `c`; the value is what stands between the quotes.
pub open spec fn read_date(cs: Seq<char>, c: Cursor) -> Read<NodeModel> {
    match read_char(cs, after_blank(cs, steps(cs, c, 4)), '(', "("@) {
        Read::Refused(at, what) => Read::Refused(at, what),
        Read::Got(_, open) => match read_string(cs, after_trivia(cs, open)) {
            Read::Refused(at, what) => Read::Refused(at, what),
            Read::Got(text, after) => match read_char(cs, after_trivia(cs, after), ')', ")"@) {
                Read::Refused(at, what) => Read::Refused(at, what),
                Read::Got(_, end) => Read::Got(
                    NodeModel::DateLiteral(
                        DateLiteralModel { position: span_of(c, end), value: string_value(text) },
                    ),
                    end,
                ),
            },
        },
    }
}

/// Whether `b` lies behind `a` in the text.
pub open spec fn onward(cs: Seq<char>, a: Cursor, b: Cursor) -> bool {
    a.pos < b.pos <= cs.len()
}

/// What the grammar gives where a part that was read did not move in the
/// text: the reading stops there, so that the grammar's recursion ends.
pub open spec fn stuck<T>(c: Cursor) -> Read<T> {
    Read::Refused(c, "progress"@)
}

/// A value at `c`: a string, a number, `true`, `false`, `null`, a date, a
/// list between brackets, a tuple between parentheses, a dictionary or a set
/// between braces, or a dotted name, which is a symbol of the given kind.
pub open spec fn read_value(cs: Seq<char>, c: Cursor, kind: SymbolKind) -> Read<NodeModel>
    decreases cs.len() - c.pos, 2nat,
{
    if string_at(cs, c) {
        read_string(cs, c)
    } else if number_at(cs, c) {
        read_number(cs, c)
    } else {
        match read_word_literal(cs, c) {
            Some((x, c2)) => Read::Got(x, c2),
            None => if date_at(cs, c) {
                read_date(cs, c)
            } else if char_at(cs, c) == Some('[') {
                match read_items(cs, c, ']', kind) {
                    Read::Got(items, end) => Read::Got(
                        NodeModel::ListStatement(
                            ListStatementModel { position: span_of(c, end), items },
                        ),
                        end,
                    ),
                    Read::Refused(at, what) => Read::Refused(at, what),
                }
            } else if char_at(cs, c) == Some('(') {
                match read_items(cs, c, ')', kind) {
                    Read::Got(items, end) => Read::Got(
                        NodeModel::TupleStatement(
                            TupleStatementModel { position: span_of(c, end), items },
                        ),
                        end,
                    ),
                    Read::Refused(at, what) => Read::Refused(at, what),
                }
            } else if char_at(cs, c) == Some('{') {
                read_braced(cs, c, kind)
            } else if name_at(cs, c) {
                match read_dotted(cs, c, kind, false) {
                    Read::Got(s, end) => Read::Got(NodeModel::Symbol(s), end),
                    Read::Refused(at, what) => Read::Refused(at, what),
                }
            } else {
                Read::Refused(c, "value"@)
            },
        }
    }
}

/// The values between the delimiter at `c` and `close`, with commas between
/// neighbours. No comma stands behind the last value.
pub open spec fn read_items(cs: Seq<char>, c: Cursor, close: char, kind: SymbolKind) -> Read<
    Seq<NodeModel>,
>
    decreases cs.len() - c.pos, 1nat,
{
    let cur = after_trivia(cs, step(cs, c));
    if !inside(cs, c) || !onward(cs, c, cur) {
        stuck(c)
    } else if char_at(cs, cur) == Some(close) {
        Read::Got(Seq::empty(), step(cs, cur))
    } else {
        items_rest(cs, cur, close, kind, Seq::empty())
    }
}

/// The values from `cur` on up to `close`, behind the values `acc`.
pub open spec fn items_rest(
    cs: Seq<char>,
    cur: Cursor,
    close: char,
    kind: SymbolKind,
    acc: Seq<NodeModel>,
) -> Read<Seq<NodeModel>>
    decreases cs.len() - cur.pos, 3nat,
{
    match read_value(cs, cur, kind) {
        Read::Refused(at, what) => Read::Refused(at, what),
        Read::Got(value, next) => {
            let at = after_trivia(cs, next);
            if !onward(cs, cur, at) {
                stuck(cur)
            } else if char_at(cs, at) == Some(',') {
                let more = after_trivia(cs, step(cs, at));
                if !onward(cs, cur, more) {
                    stuck(cur)
                } else {
                    items_rest(cs, more, close, kind, acc.push(value))
                }
            } else if char_at(cs, at) == Some(close) {
                Read::Got(acc.push(value), step(cs, at))
            } else {
                Read::Refused(at, "comma or closing delimiter"@)
            }
        },
    }
}

/// What stands between the braces at `c`: a dictionary of `key: value`
/// pairs, or a set of values. Empty braces are a dictionary.
pub open spec fn read_braced(cs: Seq<char>, c: Cursor, kind: SymbolKind) -> Read<NodeModel>
    decreases cs.len() - c.pos, 1nat,
{
    let first_at = after_trivia(cs, step(cs, c));
    if !inside(cs, c) || !onward(cs, c, first_at) {
        stuck(c)
    } else if char_at(cs, first_at) == Some('}') {
        Read::Got(
            NodeModel::DictStatement(
                DictStatementModel { position: span_of(c, step(cs, first_at)), items: Seq::empty() },
            ),
            step(cs, first_at),
        )
    } else {
        match read_value(cs, first_at, kind) {
            Read::Refused(at, what) => Read::Refused(at, what),
            Read::Got(first, after_first) => {
                let cur = after_trivia(cs, after_first);
                if !onward(cs, c, cur) {
                    stuck(c)
                } else if char_at(cs, cur) == Some(':') {
                    dict_rest(cs, c, cur, kind, first, first_at, Seq::empty())
                } else {
                    set_rest(cs, c, cur, kind, seq![first])
                }
            },
        }
    }
}

/// The rest of a dictionary that started at `c`, from the colon at `cur` on:
/// the key that was read at `key_at` gets its value, and more pairs follow
/// commas up to the closing brace.
pub open spec fn dict_rest(
    cs: Seq<char>,
    c: Cursor,
    cur: Cursor,
    kind: SymbolKind,
    key: NodeModel,
    key_at: Cursor,
    acc: Seq<DictItemModel>,
) -> Read<NodeModel>
    decreases cs.len() - cur.pos, 3nat,
{
    match read_char(cs, cur, ':', ":"@) {
        Read::Refused(at, what) => Read::Refused(at, what),
        Read::Got(_, behind) => {
            let colon = after_trivia(cs, behind);
            if !onward(cs, cur, colon) {
                stuck(cur)
            } else {
                match read_value(cs, colon, kind) {
                    Read::Refused(at, what) => Read::Refused(at, what),
                    Read::Got(value, after) => {
                        let pairs = acc.push(
                            DictItemModel {
                                position: span_of(key_at, after),
                                key: Box::new(key),
                                value: Box::new(value),
                            },
                        );
                        let at = after_trivia(cs, after);
                        if !onward(cs, cur, at) {
                            stuck(cur)
                        } else if char_at(cs, at) == Some(',') {
                            let next_key = after_trivia(cs, step(cs, at));
                            if !onward(cs, cur, next_key) {
                                stuck(cur)
                            } else {
                                match read_value(cs, next_key, kind) {
                                    Read::Refused(at2, what) => Read::Refused(at2, what),
                                    Read::Got(k, after_key) => {
                                        let more = after_trivia(cs, after_key);
                                        if !onward(cs, cur, more) {
                                            stuck(cur)
                                        } else {
                                            dict_rest(cs, c, more, kind, k, next_key, pairs)
                                        }
                                    },
                                }
                            }
                        } else if char_at(cs, at) == Some('}') {
                            Read::Got(
                                NodeModel::DictStatement(
                                    DictStatementModel {
                                        position: span_of(c, step(cs, at)),
                                        items: pairs,
                                    },
                                ),
                                step(cs, at),
                            )
                        } else {
                            Read::Refused(at, "comma or }"@)
                        }
                    },
                }
            }
        },
    }
}

/// The rest of a set that started at `c`, from `cur` on, behind the values
/// `acc`: more values follow commas up to the closing brace.
pub open spec fn set_rest(
    cs: Seq<char>,
    c: Cursor,
    cur: Cursor,
    kind: SymbolKind,
    acc: Seq<NodeModel>,
) -> Read<NodeModel>
    decreases cs.len() - cur.pos, 3nat,
{
    if char_at(cs, cur) == Some(',') {
        let at = after_trivia(cs, step(cs, cur));
        if !inside(cs, cur) || !onward(cs, cur, at) {
            stuck(cur)
        } else {
            match read_value(cs, at, kind) {
                Read::Refused(at2, what) => Read::Refused(at2, what),
                Read::Got(value, after) => {
                    let more = after_trivia(cs, after);
                    if !onward(cs, cur, more) {
                        stuck(cur)
                    } else {
                        set_rest(cs, c, more, kind, acc.push(value))
                    }
                },
            }
        }
    } else if char_at(cs, cur) == Some('}') {
        Read::Got(
            NodeModel::SetStatement(
                SetStatementModel { position: span_of(c, step(cs, cur)), items: acc },
            ),
            step(cs, cur),
        )
    } else {
        Read::Refused(cur, "comma or }"@)
    }
}

/// Whether a dotted name stands at `c` that an opening parenthesis follows.
pub open spec fn call_at(cs: Seq<char>, c: Cursor) -> bool {
    name_at(cs, c) && match read_dotted(cs, c, SymbolKind::NodeName, false) {
        Read::Got(_, end) => char_at(cs, after_blank(cs, end)) == Some('('),
        Read::Refused(_, _) => false,
    }
}

/// Whether a name stands at `c` that a single `=` follows.
pub open spec fn key_at(cs: Seq<char>, c: Cursor) -> bool {
    name_at(cs, c) && char_at(cs, after_blank(cs, after_name(cs, c))) == Some('=') && char_after(
        cs,
        after_blank(cs, after_name(cs, c)),
        1,
    ) != Some('=')
}

/// Dotted names with commas between, at `c`.
pub open spec fn read_names(cs: Seq<char>, c: Cursor, kind: SymbolKind) -> Read<Seq<SymbolModel>> {
    match read_dotted(cs, c, kind, false) {
        Read::Refused(at, what) => Read::Refused(at, what),
        Read::Got(first, after) => names_rest(cs, after, kind, seq![first]),
    }
}

/// The names behind the names `acc`, which end at `end`: each follows a
/// comma.
pub open spec fn names_rest(cs: Seq<char>, end: Cursor, kind: SymbolKind, acc: Seq<SymbolModel>) -> Read<
    Seq<SymbolModel>,
>
    decreases cs.len() - end.pos,
{
    let comma = after_trivia(cs, end);
    if char_at(cs, comma) == Some(',') {
        match read_dotted(cs, after_trivia(cs, step(cs, comma)), kind, false) {
            Read::Refused(at, what) => Read::Refused(at, what),
            Read::Got(name, next) => if onward(cs, end, next) {
                names_rest(cs, next, kind, acc.push(name))
            } else {
                stuck(end)
            },
        }
    } else {
        Read::Got(acc, end)
    }
}

/// Whether a name stands at `c` that is none of the words of a value.
pub open spec fn plain_name_at(cs: Seq<char>, c: Cursor) -> bool {
    name_at(cs, c) && !has_whole_word(cs, c, "true"@) && !has_whole_word(cs, c, "false"@)
        && !has_whole_word(cs, c, "null"@) && !date_at(cs, c)
}

/// Whether names between parentheses stand at `c`.
pub open spec fn names_group_at(cs: Seq<char>, c: Cursor) -> bool {
    char_at(cs, c) == Some('(') && name_at(cs, after_trivia(cs, step(cs, c))) && !call_at(
        cs,
        after_trivia(cs, step(cs, c)),
    )
}

/// The value of a keyed input at `c`: a name or names between parentheses,
/// else any value.
#[verifier::opaque]
pub open spec fn read_input_value(cs: Seq<char>, c: Cursor) -> Read<NodeModel> {
    if plain_name_at(cs, c) {
        match read_dotted(cs, c, SymbolKind::NodeInput, false) {
            Read::Refused(at, what) => Read::Refused(at, what),
            Read::Got(name, end) => Read::Got(
                NodeModel::NodeInputValues(
                    NodeInputValuesModel { position: span_of(c, end), items: seq![name] },
                ),
                end,
            ),
        }
    } else if names_group_at(cs, c) {
        match read_names(cs, after_trivia(cs, step(cs, c)), SymbolKind::NodeInput) {
            Read::Refused(at, what) => Read::Refused(at, what),
            Read::Got(items, after) => match read_char(cs, after_trivia(cs, after), ')', ")"@) {
                Read::Refused(at, what) => Read::Refused(at, what),
                Read::Got(_, end) => Read::Got(
                    NodeModel::NodeInputValues(
                        NodeInputValuesModel { position: span_of(c, end), items },
                    ),
                    end,
                ),
            },
        }
    } else {
        read_value(cs, c, SymbolKind::NodeInput)
    }
}

/// The inputs between the parentheses at `c`: nothing, values in their
/// places, or `key=value` pairs.
pub open spec fn read_inputs(cs: Seq<char>, c: Cursor) -> Read<Option<NodeInputDefModel>> {
    match read_char(cs, c, '(', "("@) {
        Read::Refused(at, what) => Read::Refused(at, what),
        Read::Got(_, open) => {
            let cur = after_trivia(cs, open);
            if char_at(cs, cur) == Some(')') {
                Read::Got(None, step(cs, cur))
            } else if key_at(cs, cur) {
                key_inputs_rest(cs, c, cur, Seq::empty())
            } else {
                tuple_inputs_rest(cs, c, cur, Seq::empty())
            }
        },
    }
}

/// The keyed inputs from `cur` on, behind the inputs `acc`, of a list that
/// opened at `c`.
pub open spec fn key_inputs_rest(
    cs: Seq<char>,
    c: Cursor,
    cur: Cursor,
    acc: Seq<NodeInputKeyItemModel>,
) -> Read<Option<NodeInputDefModel>>
    decreases cs.len() - cur.pos,
{
    match read_name(cs, cur, SymbolKind::NodeInputKey) {
        Read::Refused(at, what) => Read::Refused(at, what),
        Read::Got(key, after_key) => match read_char(cs, after_trivia(cs, after_key), '=', "="@) {
            Read::Refused(at, what) => Read::Refused(at, what),
            Read::Got(_, behind) => match read_input_value(cs, after_trivia(cs, behind)) {
                Read::Refused(at, what) => Read::Refused(at, what),
                Read::Got(value, after) => {
                    let items = acc.push(
                        NodeInputKeyItemModel {
                            position: span_of(cur, after),
                            key,
                            value: Box::new(value),
                        },
                    );
                    let next = after_trivia(cs, after);
                    if char_at(cs, next) == Some(',') {
                        let more = after_trivia(cs, step(cs, next));
                        if onward(cs, cur, more) {
                            key_inputs_rest(cs, c, more, items)
                        } else {
                            stuck(cur)
                        }
                    } else if char_at(cs, next) == Some(')') {
                        Read::Got(
                            Some(
                                NodeInputDefModel::KeyValue(
                                    NodeInputKeyDefModel {
                                        position: span_of(c, step(cs, next)),
                                        items,
                                    },
                                ),
                            ),
                            step(cs, next),
                        )
                    } else {
                        Read::Refused(next, "comma or )"@)
                    }
                },
            },
        },
    }
}

/// The inputs in their places from `cur` on, behind the inputs `acc`, of a
/// list that opened at `c`.
pub open spec fn tuple_inputs_rest(cs: Seq<char>, c: Cursor, cur: Cursor, acc: Seq<NodeModel>) -> Read<
    Option<NodeInputDefModel>,
>
    decreases cs.len() - cur.pos,
{
    match read_value(cs, cur, SymbolKind::NodeInput) {
        Read::Refused(at, what) => Read::Refused(at, what),
        Read::Got(value, after) => {
            let items = acc.push(value);
            let next = after_trivia(cs, after);
            if char_at(cs, next) == Some(',') {
                let more = after_trivia(cs, step(cs, next));
                if onward(cs, cur, more) {
                    tuple_inputs_rest(cs, c, more, items)
                } else {
                    stuck(cur)
                }
            } else if char_at(cs, next) == Some(')') {
                Read::Got(
                    Some(
                        NodeInputDefModel::Tuple(
                            NodeInputTupleModel { position: span_of(c, step(cs, next)), items },
                        ),
                    ),
                    step(cs, next),
                )
            } else {
                Read::Refused(next, "comma or )"@)
            }
        },
    }
}

/// The kind of a name that stands alone between the parentheses of the
/// attribute `attr`.
pub open spec fn argument_kind_of(attr: Seq<char>) -> SymbolKind {
    if attr == "as"@ {
        SymbolKind::NodeAsName
    } else if attr == "depend"@ {
        SymbolKind::NodeDepend
    } else {
        SymbolKind::NodeAttr
    }
}

/// The kind of a key between the parentheses of the attribute `attr`.
pub open spec fn key_kind_of(attr: Seq<char>) -> SymbolKind {
    if attr == "property"@ {
        SymbolKind::NodeProperty
    } else {
        SymbolKind::NodeAttr
    }
}

/// One `key=value` pair between the parentheses of the attribute `attr`.
pub open spec fn read_keyed_argument(cs: Seq<char>, c: Cursor, attr: Seq<char>) -> Read<NodeModel> {
    match read_name(cs, c, key_kind_of(attr)) {
        Read::Refused(at, what) => Read::Refused(at, what),
        Read::Got(name, after_key) => match read_char(cs, after_trivia(cs, after_key), '=', "="@) {
            Read::Refused(at, what) => Read::Refused(at, what),
            Read::Got(_, behind) => match read_value(
                cs,
                after_trivia(cs, behind),
                SymbolKind::VarRef,
            ) {
                Read::Refused(at, what) => Read::Refused(at, what),
                Read::Got(value, after) => Read::Got(
                    NodeModel::AttrDef(
                        AttrDefModel {
                            position: span_of(c, after),
                            name,
                            value: Box::new(value),
                            condition: None,
                            else_value: None,
                        },
                    ),
                    after,
                ),
            },
        },
    }
}

/// What the arguments of an attribute are: one string or one name as such,
/// anything else as a list.
pub open spec fn attr_value_of(keyed: bool, items: Seq<NodeModel>) -> NodeAttrValueModel {
    if !keyed && items.len() == 1 {
        match items[0] {
            NodeModel::StringLiteral(s) => NodeAttrValueModel::String(s),
            NodeModel::Symbol(s) => NodeAttrValueModel::Symbol(s),
            _ => NodeAttrValueModel::List(items),
        }
    } else {
        NodeAttrValueModel::List(items)
    }
}

/// What stands between the parentheses at `c` behind the attribute `attr`:
/// `key=value` pairs, one string, one name, or values.
pub open spec fn read_arguments(cs: Seq<char>, c: Cursor, attr: Seq<char>) -> Read<
    NodeAttrValueModel,
> {
    match read_char(cs, c, '(', "("@) {
        Read::Refused(at, what) => Read::Refused(at, what),
        Read::Got(_, open) => {
            let cur = after_trivia(cs, open);
            if char_at(cs, cur) == Some(')') {
                Read::Got(NodeAttrValueModel::List(Seq::empty()), step(cs, cur))
            } else {
                arguments_rest(cs, cur, attr, key_at(cs, cur), Seq::empty())
            }
        },
    }
}

/// The arguments from `cur` on, behind the arguments `acc`.
pub open spec fn arguments_rest(
    cs: Seq<char>,
    cur: Cursor,
    attr: Seq<char>,
    keyed: bool,
    acc: Seq<NodeModel>,
) -> Read<NodeAttrValueModel>
    decreases cs.len() - cur.pos,
{
    let item = if keyed {
        read_keyed_argument(cs, cur, attr)
    } else {
        read_value(cs, cur, argument_kind_of(attr))
    };
    match item {
        Read::Refused(at, what) => Read::Refused(at, what),
        Read::Got(x, after) => {
            let items = acc.push(x);
            let next = after_trivia(cs, after);
            if char_at(cs, next) == Some(',') {
                let more = after_trivia(cs, step(cs, next));
                if onward(cs, cur, more) {
                    arguments_rest(cs, more, attr, keyed, items)
                } else {
                    stuck(cur)
                }
            } else if char_at(cs, next) == Some(')') {
                Read::Got(attr_value_of(keyed, items), step(cs, next))
            } else {
                Read::Refused(next, "comma or )"@)
            }
        },
    }
}

/// Whether a chained attribute starts at `c`: a dot and a name.
pub open spec fn attribute_at(cs: Seq<char>, c: Cursor) -> bool {
    char_at(cs, c) == Some('.') && match char_after(cs, c, 1) {
        Some(ch) => name_start(ch),
        None => false,
    }
}

/// The place behind the character at `c`, or `c` at the end of the text.
pub open spec fn past(cs: Seq<char>, c: Cursor) -> Cursor {
    if c.pos < cs.len() {
        step(cs, c)
    } else {
        c
    }
}

/// Whether `ref(graph)` stands at `c`.
#[verifier::opaque]
pub open spec fn ref_at(cs: Seq<char>, c: Cursor) -> bool {
    has_whole_word(cs, c, "ref"@) && char_at(cs, after_blank(cs, after_name(cs, c))) == Some('(')
        && match read_dotted(
        cs,
        after_trivia(cs, past(cs, after_blank(cs, after_name(cs, c)))),
        SymbolKind::RefGraphName,
        false,
    ) {
        Read::Got(_, end) => char_at(cs, after_trivia(cs, end)) == Some(')'),
        Read::Refused(_, _) => false,
    }
}

/// The callee of a call at `c` and the place of its inputs: a dotted name,
/// or `ref(graph)`.
#[verifier::opaque]
pub open spec fn read_callee(cs: Seq<char>, c: Cursor) -> Read<SymbolModel> {
    if ref_at(cs, c) {
        match read_dotted(
            cs,
            after_trivia(cs, past(cs, after_blank(cs, after_name(cs, c)))),
            SymbolKind::RefGraphName,
            false,
        ) {
            Read::Refused(at, what) => Read::Refused(at, what),
            Read::Got(name, after) => match read_char(cs, after_trivia(cs, after), ')', ")"@) {
                Read::Refused(at, what) => Read::Refused(at, what),
                Read::Got(_, behind) => Read::Got(name, after_blank(cs, behind)),
            },
        }
    } else {
        match read_dotted(cs, c, SymbolKind::NodeName, false) {
            Read::Refused(at, what) => Read::Refused(at, what),
            Read::Got(name, after) => Read::Got(name, after_blank(cs, after)),
        }
    }
}

/// A call at `c`: the callee, the inputs between parentheses, and the
/// chained attributes, which may stand on lines of their own.
pub open spec fn read_node_block(cs: Seq<char>, c: Cursor) -> Read<NodeBlockModel> {
    match read_callee(cs, c) {
        Read::Refused(at, what) => Read::Refused(at, what),
        Read::Got(name, inputs_at) => match read_inputs(cs, inputs_at) {
            Read::Refused(at, what) => Read::Refused(at, what),
            Read::Got(inputs, after) => chain_rest(cs, c, name, inputs, after, Seq::empty()),
        },
    }
}

/// The chained attributes behind the call that started at `c` and ends, so
/// far, at `end` with the attributes `acc`.
pub open spec fn chain_rest(
    cs: Seq<char>,
    c: Cursor,
    name: SymbolModel,
    inputs: Option<NodeInputDefModel>,
    end: Cursor,
    acc: Seq<NodeAttrModel>,
) -> Read<NodeBlockModel>
    decreases cs.len() - end.pos,
{
    let dot = after_trivia(cs, end);
    if !attribute_at(cs, dot) {
        Read::Got(
            NodeBlockModel {
                position: span_of(c, end),
                name,
                inputs,
                attrs: if acc.len() > 0 {
                    Some(acc)
                } else {
                    None
                },
            },
            end,
        )
    } else {
        match read_name(cs, step(cs, dot), SymbolKind::NodeAttrName) {
            Read::Refused(at, what) => Read::Refused(at, what),
            Read::Got(attr, after_name) => match read_arguments(
                cs,
                after_blank(cs, after_name),
                attr.name,
            ) {
                Read::Refused(at, what) => Read::Refused(at, what),
                Read::Got(value, after) => if onward(cs, end, after) {
                    chain_rest(
                        cs,
                        c,
                        name,
                        inputs,
                        after,
                        acc.push(NodeAttrModel { position: span_of(dot, after), name: attr, value }),
                    )
                } else {
                    stuck(end)
                },
            },
        }
    }
}

/// The comparison operator at `c`: `==`, `!=`, `>=`, `<=`, `>` or `<`.
pub open spec fn operator_of(cs: Seq<char>, c: Cursor) -> Option<(Seq<char>, Cursor)> {
    if has_word(cs, c.pos as int, "=="@) {
        Some(("=="@, steps(cs, c, 2)))
    } else if has_word(cs, c.pos as int, "!="@) {
        Some(("!="@, steps(cs, c, 2)))
    } else if has_word(cs, c.pos as int, ">="@) {
        Some((">="@, steps(cs, c, 2)))
    } else if has_word(cs, c.pos as int, "<="@) {
        Some(("<="@, steps(cs, c, 2)))
    } else if has_word(cs, c.pos as int, ">"@) {
        Some((">"@, steps(cs, c, 1)))
    } else if has_word(cs, c.pos as int, "<"@) {
        Some(("<"@, steps(cs, c, 1)))
    } else {
        None
    }
}

/// An operand at `c`: a call, else a value.
pub open spec fn read_operand(cs: Seq<char>, c: Cursor) -> Read<NodeModel> {
    if call_at(cs, c) {
        match read_node_block(cs, c) {
            Read::Refused(at, what) => Read::Refused(at, what),
            Read::Got(block, end) => Read::Got(NodeModel::NodeBlock(block), end),
        }
    } else {
        read_value(cs, c, SymbolKind::VarRef)
    }
}

/// Whether a conditional goes on at `c`, behind its first operand: with a
/// comparison operator or with `?`.
pub open spec fn condition_at(cs: Seq<char>, c: Cursor) -> bool {
    char_at(cs, c) == Some('?') || operator_of(cs, c) is Some
}

/// What a conditional tests, behind its first operand, which started at
/// `from`, and the place of the `?`: a comparison with a second operand, or
/// the first operand itself where it is a call.
#[verifier::opaque]
pub open spec fn read_tested(cs: Seq<char>, from: Cursor, first: NodeModel, c: Cursor) -> Read<
    ConditionExprModel,
> {
    let at = after_trivia(cs, c);
    match operator_of(cs, at) {
        Some((operator, after_op)) => match read_operand(cs, after_trivia(cs, after_op)) {
            Read::Refused(at2, what) => Read::Refused(at2, what),
            Read::Got(right, after) => Read::Got(
                ConditionExprModel::Statement(
                    Box::new(
                        ConditionStatementModel {
                            position: span_of(from, after),
                            left_operand: Box::new(first),
                            right_operand: Box::new(right),
                            operator,
                        },
                    ),
                ),
                after_trivia(cs, after),
            ),
        },
        None => match first {
            NodeModel::NodeBlock(block) => Read::Got(ConditionExprModel::Block(block), at),
            _ => Read::Refused(at, "comparison"@),
        },
    }
}

/// The rest of a conditional behind its first operand, which started at
/// `from` and ended at `c`: the comparison, `?`, and the two branches with
/// `:` between. A branch may be a conditional itself.
pub open spec fn read_condition(cs: Seq<char>, from: Cursor, first: NodeModel, c: Cursor) -> Read<
    ConditionBlockModel,
>
    decreases cs.len() - c.pos, 0nat,
{
    match read_tested(cs, from, first, c) {
        Read::Refused(at, what) => Read::Refused(at, what),
        Read::Got(condition, question) => match read_char(cs, question, '?', "?"@) {
            Read::Refused(at, what) => Read::Refused(at, what),
            Read::Got(_, behind) => {
                let true_at = after_trivia(cs, behind);
                if !onward(cs, c, true_at) {
                    stuck(c)
                } else {
                    match read_branch(cs, true_at) {
                        Read::Refused(at, what) => Read::Refused(at, what),
                        Read::Got(true_branch, after_true) => match read_char(
                            cs,
                            after_trivia(cs, after_true),
                            ':',
                            ":"@,
                        ) {
                            Read::Refused(at, what) => Read::Refused(at, what),
                            Read::Got(_, behind2) => {
                                let false_at = after_trivia(cs, behind2);
                                if !onward(cs, c, false_at) {
                                    stuck(c)
                                } else {
                                    match read_branch(cs, false_at) {
                                        Read::Refused(at, what) => Read::Refused(at, what),
                                        Read::Got(false_branch, end) => Read::Got(
                                            ConditionBlockModel {
                                                position: span_of(from, end),
                                                condition: Box::new(condition),
                                                true_branch: Box::new(true_branch),
                                                false_branch: Box::new(false_branch),
                                            },
                                            end,
                                        ),
                                    }
                                }
                            },
                        },
                    }
                }
            },
        },
    }
}

/// A branch of a conditional at `c`: an operand, or a conditional.
pub open spec fn read_branch(cs: Seq<char>, c: Cursor) -> Read<NodeModel>
    decreases cs.len() - c.pos, 1nat,
{
    match read_operand(cs, c) {
        Read::Refused(at, what) => Read::Refused(at, what),
        Read::Got(first, after) => if condition_at(cs, after_trivia(cs, after)) {
            if !onward(cs, c, after) {
                stuck(c)
            } else {
                match read_condition(cs, c, first, after) {
                    Read::Refused(at, what) => Read::Refused(at, what),
                    Read::Got(block, end) => Read::Got(NodeModel::ConditionBlock(block), end),
                }
            }
        } else {
            Read::Got(first, after)
        },
    }
}

/// Whether a for-loop starts at `c`: `[` and a call.
pub open spec fn for_loop_at(cs: Seq<char>, c: Cursor) -> bool {
    char_at(cs, c) == Some('[') && call_at(cs, after_trivia(cs, step(cs, c)))
}

/// A test at `c`: an operand, or two operands with a comparison operator
/// between.
pub open spec fn read_test(cs: Seq<char>, c: Cursor) -> Read<NodeModel> {
    match read_operand(cs, c) {
        Read::Refused(at, what) => Read::Refused(at, what),
        Read::Got(left, after) => match operator_of(cs, after_trivia(cs, after)) {
            Some((operator, after_op)) => match read_operand(cs, after_trivia(cs, after_op)) {
                Read::Refused(at, what) => Read::Refused(at, what),
                Read::Got(right, end) => Read::Got(
                    NodeModel::ConditionStatement(
                        ConditionStatementModel {
                            position: span_of(c, end),
                            left_operand: Box::new(left),
                            right_operand: Box::new(right),
                            operator,
                        },
                    ),
                    end,
                ),
            },
            None => Read::Got(left, after),
        },
    }
}

/// The filter of a for-loop at `c` and the place behind it: `if` and a test,
/// or nothing.
pub open spec fn read_filter(cs: Seq<char>, c: Cursor) -> Read<Option<Box<NodeModel>>> {
    if has_whole_word(cs, c, "if"@) {
        match read_test(cs, after_trivia(cs, steps(cs, c, 2))) {
            Read::Refused(at, what) => Read::Refused(at, what),
            Read::Got(test, after) => Read::Got(Some(Box::new(test)), after_trivia(cs, after)),
        }
    } else {
        Read::Got(None, c)
    }
}

/// A for-loop at `c`: `[call for outputs in inputs if condition]`.
#[verifier::opaque]
pub open spec fn read_for_loop(cs: Seq<char>, c: Cursor) -> Read<ForLoopBlockModel> {
    match read_node_block(cs, after_trivia(cs, step(cs, c))) {
        Read::Refused(at, what) => Read::Refused(at, what),
        Read::Got(node, after_node) => {
            let for_at = after_trivia(cs, after_node);
            if !has_whole_word(cs, for_at, "for"@) {
                Read::Refused(for_at, "for"@)
            } else {
                match read_names(
                    cs,
                    after_trivia(cs, steps(cs, for_at, 3)),
                    SymbolKind::ForLoopOutputs,
                ) {
                    Read::Refused(at, what) => Read::Refused(at, what),
                    Read::Got(outputs, after_outputs) => {
                        let in_at = after_trivia(cs, after_outputs);
                        if !has_whole_word(cs, in_at, "in"@) {
                            Read::Refused(in_at, "in"@)
                        } else {
                            match read_dotted(
                                cs,
                                after_trivia(cs, steps(cs, in_at, 2)),
                                SymbolKind::ForLoopInputs,
                                false,
                            ) {
                                Read::Refused(at, what) => Read::Refused(at, what),
                                Read::Got(inputs, after_inputs) => match read_filter(
                                    cs,
                                    after_trivia(cs, after_inputs),
                                ) {
                                    Read::Refused(at, what) => Read::Refused(at, what),
                                    Read::Got(condition, close) => match read_char(
                                        cs,
                                        close,
                                        ']',
                                        "]"@,
                                    ) {
                                        Read::Refused(at, what) => Read::Refused(at, what),
                                        Read::Got(_, end) => Read::Got(
                                            ForLoopBlockModel {
                                                position: span_of(c, end),
                                                inputs,
                                                outputs,
                                                node,
                                                condition,
                                            },
                                            end,
                                        ),
                                    },
                                },
                            }
                        }
                    },
                }
            }
        },
    }
}

/// What stands behind a value: a condition and the value for the case that
/// it does not hold.
pub struct Guard {
    pub condition: Option<Box<NodeModel>>,
    pub else_value: Option<Box<NodeModel>>,
}

/// `if condition else value` behind a value that ended at `c`, as far as it
/// is there.
#[verifier::opaque]
pub open spec fn read_if_else(cs: Seq<char>, c: Cursor) -> Read<Guard> {
    let if_at = after_trivia(cs, c);
    if !has_whole_word(cs, if_at, "if"@) {
        Read::Got(Guard { condition: None, else_value: None }, c)
    } else {
        match read_value(cs, after_trivia(cs, steps(cs, if_at, 2)), SymbolKind::VarRef) {
            Read::Refused(at, what) => Read::Refused(at, what),
            Read::Got(condition, after) => {
                let else_at = after_trivia(cs, after);
                if !has_whole_word(cs, else_at, "else"@) {
                    Read::Got(Guard { condition: Some(Box::new(condition)), else_value: None }, after)
                } else {
                    match read_value(
                        cs,
                        after_trivia(cs, steps(cs, else_at, 4)),
                        SymbolKind::VarRef,
                    ) {
                        Read::Refused(at, what) => Read::Refused(at, what),
                        Read::Got(other, end) => Read::Got(
                            Guard {
                                condition: Some(Box::new(condition)),
                                else_value: Some(Box::new(other)),
                            },
                            end,
                        ),
                    }
                }
            },
        }
    }
}

/// The `;` that ends a statement that ended at `c`.
pub open spec fn read_end(cs: Seq<char>, c: Cursor) -> Read<()> {
    read_char(cs, after_trivia(cs, c), ';', ";"@)
}

/// A symbol as a property of a graph.
pub open spec fn as_property(name: SymbolModel) -> SymbolModel {
    SymbolModel { kind: SymbolKind::GraphProperty, ..name }
}

/// A statement of a graph that assigns a for-loop to the outputs that were
/// read from `c` on.
#[verifier::opaque]
pub open spec fn read_loop_statement(
    cs: Seq<char>,
    c: Cursor,
    outputs: Seq<SymbolModel>,
    at: Cursor,
) -> Read<NodeModel> {
    if outputs.len() != 1 {
        Read::Refused(c, "one output"@)
    } else {
        match read_for_loop(cs, at) {
            Read::Refused(at2, what) => Read::Refused(at2, what),
            Read::Got(block, after) => match read_end(cs, after) {
                Read::Refused(at2, what) => Read::Refused(at2, what),
                Read::Got(_, end) => Read::Got(
                    NodeModel::AttrDef(
                        AttrDefModel {
                            position: span_of(c, end),
                            name: outputs[0],
                            value: Box::new(NodeModel::ForLoopBlock(block)),
                            condition: None,
                            else_value: None,
                        },
                    ),
                    end,
                ),
            },
        }
    }
}

/// A statement of a graph that assigns the value `value`, which ended at
/// `after`, to the one name that was read from `c` on: a property.
#[verifier::opaque]
pub open spec fn read_property(
    cs: Seq<char>,
    c: Cursor,
    outputs: Seq<SymbolModel>,
    value: NodeModel,
    after: Cursor,
) -> Read<NodeModel> {
    if outputs.len() != 1 {
        Read::Refused(c, "one name"@)
    } else {
        match read_if_else(cs, after) {
            Read::Refused(at, what) => Read::Refused(at, what),
            Read::Got(guard, behind) => match read_end(cs, behind) {
                Read::Refused(at, what) => Read::Refused(at, what),
                Read::Got(_, end) => Read::Got(
                    NodeModel::AttrDef(
                        AttrDefModel {
                            position: span_of(c, end),
                            name: as_property(outputs[0]),
                            value: Box::new(value),
                            condition: guard.condition,
                            else_value: guard.else_value,
                        },
                    ),
                    end,
                ),
            },
        }
    }
}

/// A statement of a graph that assigns a conditional to the outputs that
/// were read from `c` on; its first operand started at `at` and ended at
/// `after`.
#[verifier::opaque]
pub open spec fn read_conditional_statement(
    cs: Seq<char>,
    c: Cursor,
    outputs: Seq<SymbolModel>,
    at: Cursor,
    first: NodeModel,
    after: Cursor,
) -> Read<NodeModel> {
    match read_condition(cs, at, first, after) {
        Read::Refused(at2, what) => Read::Refused(at2, what),
        Read::Got(block, behind) => match read_end(cs, behind) {
            Read::Refused(at2, what) => Read::Refused(at2, what),
            Read::Got(_, end) => Read::Got(
                NodeModel::ConditionDef(
                    ConditionDefModel { position: span_of(c, end), outputs, value: Box::new(block) },
                ),
                end,
            ),
        },
    }
}

/// A statement of a graph that assigns the call `block`, which ended at
/// `after`, to the outputs that were read from `c` on: a node definition.
#[verifier::opaque]
pub open spec fn read_node_statement(
    cs: Seq<char>,
    c: Cursor,
    outputs: Seq<SymbolModel>,
    block: NodeBlockModel,
    after: Cursor,
) -> Read<NodeModel> {
    match read_end(cs, after) {
        Read::Refused(at, what) => Read::Refused(at, what),
        Read::Got(_, end) => Read::Got(
            NodeModel::NodeDef(NodeDefModel { position: span_of(c, end), outputs, value: block }),
            end,
        ),
    }
}

/// The rest of a statement of a graph behind the first operand of its right
/// side, which started at `at` and ended at `after`: a conditional where one
/// goes on there, else a node definition for a call and a property for a
/// value.
pub open spec fn read_assigned(
    cs: Seq<char>,
    c: Cursor,
    outputs: Seq<SymbolModel>,
    at: Cursor,
    first: NodeModel,
    after: Cursor,
) -> Read<NodeModel> {
    if condition_at(cs, after_trivia(cs, after)) {
        read_conditional_statement(cs, c, outputs, at, first, after)
    } else {
        match first {
            NodeModel::NodeBlock(block) => read_node_statement(cs, c, outputs, block, after),
            _ => read_property(cs, c, outputs, first, after),
        }
    }
}

/// One statement of a graph at `c`: outputs, `=`, and a call, a conditional,
/// a for-loop or a value, then `;`. A call defines a node, a conditional a
/// conditional node; a for-loop and a value are attributes of the one name
/// left of the `=`.
#[verifier::opaque]
pub open spec fn read_graph_statement(cs: Seq<char>, c: Cursor) -> Read<NodeModel> {
    match read_names(cs, c, SymbolKind::NodeOutput) {
        Read::Refused(at, what) => Read::Refused(at, what),
        Read::Got(outputs, after_outputs) => match read_char(
            cs,
            after_trivia(cs, after_outputs),
            '=',
            "="@,
        ) {
            Read::Refused(at, what) => Read::Refused(at, what),
            Read::Got(_, behind) => {
                let at = after_trivia(cs, behind);
                if for_loop_at(cs, at) {
                    read_loop_statement(cs, c, outputs, at)
                } else {
                    match read_operand(cs, at) {
                        Read::Refused(at2, what) => Read::Refused(at2, what),
                        Read::Got(first, after) => read_assigned(cs, c, outputs, at, first, after),
                    }
                }
            },
        }
    }
}

/// `.version(value)` at `c`, as far as it is there.
pub open spec fn read_version(cs: Seq<char>, c: Cursor) -> Read<Option<Box<NodeModel>>> {
    if !version_call_at(cs, c) {
        Read::Got(None, c)
    } else {
        match read_char(cs, after_blank(cs, steps(cs, c, 8)), '(', "("@) {
            Read::Refused(at, what) => Read::Refused(at, what),
            Read::Got(_, open) => match read_value(cs, after_trivia(cs, open), SymbolKind::VarRef) {
                Read::Refused(at, what) => Read::Refused(at, what),
                Read::Got(value, after) => match read_char(cs, after_trivia(cs, after), ')', ")"@) {
                    Read::Refused(at, what) => Read::Refused(at, what),
                    Read::Got(_, end) => Read::Got(Some(Box::new(value)), end),
                },
            },
        }
    }
}

/// The name that a block goes by, with its version.
pub struct Alias {
    pub alias: Option<SymbolModel>,
    pub version: Option<Box<NodeModel>>,
}

/// `as name` behind a block that ended at `c`, as far as it is there;
/// comments may stand in front of it. With `versioned` set, `.version(value)`
/// may follow the name.
#[verifier::opaque]
pub open spec fn read_alias(cs: Seq<char>, c: Cursor, kind: SymbolKind, versioned: bool) -> Read<
    Alias,
> {
    let as_at = after_trivia(cs, c);
    if !has_whole_word(cs, as_at, "as"@) {
        Read::Got(Alias { alias: None, version: None }, c)
    } else {
        match read_dotted(cs, after_trivia(cs, steps(cs, as_at, 2)), kind, true) {
            Read::Refused(at, what) => Read::Refused(at, what),
            Read::Got(alias, after) => if versioned {
                match read_version(cs, after) {
                    Read::Refused(at, what) => Read::Refused(at, what),
                    Read::Got(version, end) => Read::Got(
                        Alias { alias: Some(alias), version },
                        end,
                    ),
                }
            } else {
                Read::Got(Alias { alias: Some(alias), version: None }, after)
            },
        }
    }
}

/// The place behind a `;` that follows the white space at `c`, or `c` where
/// there is none.
pub open spec fn after_semicolon(cs: Seq<char>, c: Cursor) -> Cursor {
    if char_at(cs, after_blank(cs, c)) == Some(';') {
        step(cs, after_blank(cs, c))
    } else {
        c
    }
}

/// An import at `c`, which stands at the word `import`: paths with their
/// aliases and commas between, then `;`.
pub open spec fn read_import(cs: Seq<char>, c: Cursor) -> Read<NodeModel> {
    import_rest(cs, c, after_trivia(cs, steps(cs, c, 6)), Seq::empty())
}

/// The items of an import from `cur` on, behind the items `acc`.
pub open spec fn import_rest(cs: Seq<char>, c: Cursor, cur: Cursor, acc: Seq<ImportItemModel>) -> Read<
    NodeModel,
>
    decreases cs.len() - cur.pos,
{
    match read_dotted(cs, cur, SymbolKind::ImportName, false) {
        Read::Refused(at, what) => Read::Refused(at, what),
        Read::Got(path, after_path) => match read_alias(
            cs,
            after_path,
            SymbolKind::ImportAsName,
            false,
        ) {
            Read::Refused(at, what) => Read::Refused(at, what),
            Read::Got(named, after) => {
                let items = acc.push(
                    ImportItemModel { position: span_of(cur, after), path, alias: named.alias },
                );
                let next = after_trivia(cs, after);
                if char_at(cs, next) == Some(',') {
                    let more = after_trivia(cs, step(cs, next));
                    if onward(cs, cur, more) {
                        import_rest(cs, c, more, items)
                    } else {
                        stuck(cur)
                    }
                } else if char_at(cs, next) == Some(';') {
                    Read::Got(
                        NodeModel::Import(ImportModel { position: span_of(c, after), items }),
                        step(cs, next),
                    )
                } else {
                    Read::Refused(next, "comma or ;"@)
                }
            },
        },
    }
}

/// One attribute at `c`: `name = value if condition else other`, without the
/// `;` behind it.
#[verifier::opaque]
pub open spec fn read_attribute(cs: Seq<char>, c: Cursor, kind: SymbolKind) -> Read<AttrDefModel> {
    match read_name(cs, c, kind) {
        Read::Refused(at, what) => Read::Refused(at, what),
        Read::Got(name, after_name) => match read_char(cs, after_trivia(cs, after_name), '=', "="@) {
            Read::Refused(at, what) => Read::Refused(at, what),
            Read::Got(_, behind) => match read_value(
                cs,
                after_trivia(cs, behind),
                SymbolKind::VarRef,
            ) {
                Read::Refused(at, what) => Read::Refused(at, what),
                Read::Got(value, after_value) => match read_if_else(cs, after_value) {
                    Read::Refused(at, what) => Read::Refused(at, what),
                    Read::Got(guard, end) => Read::Got(
                        AttrDefModel {
                            position: span_of(c, end),
                            name,
                            value: Box::new(value),
                            condition: guard.condition,
                            else_value: guard.else_value,
                        },
                        end,
                    ),
                },
            },
        },
    }
}

/// A variable block at `c`, which stands at the word `var`: attributes and
/// comments between braces, then the alias and a `;`, each as far as it is
/// there.
pub open spec fn read_var(cs: Seq<char>, c: Cursor) -> Read<NodeModel> {
    match read_char(cs, after_trivia(cs, steps(cs, c, 3)), '{', "{"@) {
        Read::Refused(at, what) => Read::Refused(at, what),
        Read::Got(_, open) => var_rest(cs, c, open, Seq::empty()),
    }
}

/// The body of a variable block from `cur` on, behind the children `acc`.
pub open spec fn var_rest(cs: Seq<char>, c: Cursor, cur: Cursor, acc: Seq<NodeModel>) -> Read<
    NodeModel,
>
    decreases cs.len() - cur.pos,
{
    let at = after_blank(cs, cur);
    if comment_at(cs, at) {
        match read_comment(cs, at) {
            Read::Refused(at2, what) => Read::Refused(at2, what),
            Read::Got(comment, next) => if onward(cs, cur, next) {
                var_rest(cs, c, next, acc.push(NodeModel::Comment(comment)))
            } else {
                stuck(cur)
            },
        }
    } else if char_at(cs, at) == Some('}') {
        match read_alias(cs, step(cs, at), SymbolKind::VarAsName, false) {
            Read::Refused(at2, what) => Read::Refused(at2, what),
            Read::Got(named, end) => Read::Got(
                NodeModel::VarDef(
                    VarDefModel { position: span_of(c, end), children: acc, alias: named.alias },
                ),
                after_semicolon(cs, end),
            ),
        }
    } else {
        match read_attribute(cs, at, SymbolKind::VarAttr) {
            Read::Refused(at2, what) => Read::Refused(at2, what),
            Read::Got(attr, after) => match read_end(cs, after) {
                Read::Refused(at2, what) => Read::Refused(at2, what),
                Read::Got(_, next) => if onward(cs, cur, next) {
                    var_rest(cs, c, next, acc.push(NodeModel::AttrDef(attr)))
                } else {
                    stuck(cur)
                },
            },
        }
    }
}

/// The template that a graph is made from.
pub struct Template {
    pub graph: Option<SymbolModel>,
    pub version: Option<Box<NodeModel>>,
}

/// The template of a graph at `c` and the place of the opening brace:
/// `: name.version(value)`, as far as it is there.
#[verifier::opaque]
pub open spec fn read_template(cs: Seq<char>, c: Cursor) -> Read<Template> {
    if char_at(cs, c) == Some(':') {
        match read_dotted(cs, after_trivia(cs, step(cs, c)), SymbolKind::GraphTemplate, true) {
            Read::Refused(at, what) => Read::Refused(at, what),
            Read::Got(template, after) => match read_version(cs, after) {
                Read::Refused(at, what) => Read::Refused(at, what),
                Read::Got(version, behind) => Read::Got(
                    Template { graph: Some(template), version },
                    after_trivia(cs, behind),
                ),
            },
        }
    } else {
        Read::Got(Template { graph: None, version: None }, c)
    }
}

/// A graph block at `c`, which stands at the word `graph`: the template, the
/// statements and comments between braces, then the alias with its version
/// and a `;`, each as far as it is there.
pub open spec fn read_graph(cs: Seq<char>, c: Cursor) -> Read<GraphDefModel> {
    match read_template(cs, after_trivia(cs, steps(cs, c, 5))) {
        Read::Refused(at, what) => Read::Refused(at, what),
        Read::Got(template, open) => match read_char(cs, open, '{', "{"@) {
            Read::Refused(at, what) => Read::Refused(at, what),
            Read::Got(_, cur) => graph_rest(cs, c, template, cur, Seq::empty()),
        },
    }
}

/// The body of a graph block from `cur` on, behind the children `acc`.
pub open spec fn graph_rest(
    cs: Seq<char>,
    c: Cursor,
    template: Template,
    cur: Cursor,
    acc: Seq<NodeModel>,
) -> Read<GraphDefModel>
    decreases cs.len() - cur.pos,
{
    let at = after_blank(cs, cur);
    if comment_at(cs, at) {
        match read_comment(cs, at) {
            Read::Refused(at2, what) => Read::Refused(at2, what),
            Read::Got(comment, next) => if onward(cs, cur, next) {
                graph_rest(cs, c, template, next, acc.push(NodeModel::Comment(comment)))
            } else {
                stuck(cur)
            },
        }
    } else if char_at(cs, at) == Some('}') {
        match read_alias(cs, step(cs, at), SymbolKind::GraphAsName, true) {
            Read::Refused(at2, what) => Read::Refused(at2, what),
            Read::Got(named, end) => Read::Got(
                GraphDefModel {
                    position: span_of(c, end),
                    children: acc,
                    alias: named.alias,
                    version: named.version,
                    template_graph: template.graph,
                    template_version: template.version,
                },
                after_semicolon(cs, end),
            ),
        }
    } else {
        match read_graph_statement(cs, at) {
            Read::Refused(at2, what) => Read::Refused(at2, what),
            Read::Got(statement, next) => if onward(cs, cur, next) {
                graph_rest(cs, c, template, next, acc.push(statement))
            } else {
                stuck(cur)
            },
        }
    }
}

/// The bound of an interval at `c`, where a number stands there. It has to
/// be an integer.
pub open spec fn read_bound(cs: Seq<char>, c: Cursor) -> Read<Option<NumberLiteralModel>> {
    if !number_at(cs, c) {
        Read::Got(None, c)
    } else {
        match read_number(cs, c) {
            Read::Refused(at, what) => Read::Refused(at, what),
            Read::Got(NodeModel::NumberLiteral(n), end) => Read::Got(Some(n), end),
            Read::Got(_, _) => Read::Refused(c, "integer"@),
        }
    }
}

/// The interval with these bounds: closed at both ends where both
/// delimiters close, else with each end closed or open.
pub open spec fn interval_of(
    position: Position,
    closed_left: bool,
    low: Option<NumberLiteralModel>,
    closed_right: bool,
    high: Option<NumberLiteralModel>,
) -> NodeModel {
    if closed_left && closed_right {
        NodeModel::ClosedInterval(ClosedIntervalModel { position, ge: low, le: high })
    } else {
        NodeModel::MixInterval(
            MixIntervalModel {
                position,
                ge: if closed_left {
                    low
                } else {
                    None
                },
                gt: if closed_left {
                    None
                } else {
                    low
                },
                le: if closed_right {
                    high
                } else {
                    None
                },
                lt: if closed_right {
                    None
                } else {
                    high
                },
            },
        )
    }
}

/// An interval at `c`, which stands at its opening delimiter: two bounds
/// with a comma between; `[` and `]` close an end, `(` and `)` leave it
/// open.
#[verifier::opaque]
pub open spec fn read_interval(cs: Seq<char>, c: Cursor) -> Read<NodeModel> {
    match read_bound(cs, after_trivia(cs, step(cs, c))) {
        Read::Refused(at, what) => Read::Refused(at, what),
        Read::Got(low, after_low) => match read_char(cs, after_trivia(cs, after_low), ',', ","@) {
            Read::Refused(at, what) => Read::Refused(at, what),
            Read::Got(_, behind) => match read_bound(cs, after_trivia(cs, behind)) {
                Read::Refused(at, what) => Read::Refused(at, what),
                Read::Got(high, after_high) => {
                    let close = after_trivia(cs, after_high);
                    if char_at(cs, close) == Some(']') || char_at(cs, close) == Some(')') {
                        Read::Got(
                            interval_of(
                                span_of(c, step(cs, close)),
                                char_at(cs, c) == Some('['),
                                low,
                                char_at(cs, close) == Some(']'),
                                high,
                            ),
                            step(cs, close),
                        )
                    } else {
                        Read::Refused(close, "] or )"@)
                    }
                },
            },
        }
    }
}

/// The value of the item `name` of a specification at `c`: an interval for
/// `length` and `range` where a bracket or a parenthesis opens it, else any
/// value.
pub open spec fn read_spec_value(cs: Seq<char>, c: Cursor, name: Seq<char>) -> Read<NodeModel> {
    if (name == "length"@ || name == "range"@) && (char_at(cs, c) == Some('[') || char_at(cs, c)
        == Some('(')) {
        read_interval(cs, c)
    } else {
        read_value(cs, c, SymbolKind::OpSpecDtype)
    }
}

/// Whether the items of a specification stand at `c` between parentheses.
pub open spec fn spec_list_at(cs: Seq<char>, c: Cursor) -> bool {
    char_at(cs, c) == Some('(') && key_at(cs, after_trivia(cs, step(cs, c)))
}

/// One specification at `c`: `name: value;` or `name:(key=value, ..);`. A
/// value alone is the item `dtype`.
pub open spec fn read_spec(cs: Seq<char>, c: Cursor, kind: SymbolKind) -> Read<OpSpecModel> {
    match read_name(cs, c, kind) {
        Read::Refused(at, what) => Read::Refused(at, what),
        Read::Got(name, after_name) => match read_char(cs, after_trivia(cs, after_name), ':', ":"@) {
            Read::Refused(at, what) => Read::Refused(at, what),
            Read::Got(_, behind) => {
                let cur = after_trivia(cs, behind);
                if spec_list_at(cs, cur) {
                    spec_items_rest(cs, c, name, after_trivia(cs, step(cs, cur)), Seq::empty())
                } else {
                    match read_value(cs, cur, SymbolKind::OpSpecDtype) {
                        Read::Refused(at, what) => Read::Refused(at, what),
                        Read::Got(value, after) => spec_close(
                            cs,
                            c,
                            name,
                            seq![
                                OpSpecItemModel {
                                    position: span_of(cur, after),
                                    name: "dtype"@,
                                    value: Box::new(value),
                                },
                            ],
                            after,
                        ),
                    }
                }
            },
        },
    }
}

/// The `;` behind the items of a specification, which end at `cur`.
pub open spec fn spec_close(
    cs: Seq<char>,
    c: Cursor,
    name: SymbolModel,
    items: Seq<OpSpecItemModel>,
    cur: Cursor,
) -> Read<OpSpecModel> {
    match read_end(cs, cur) {
        Read::Refused(at, what) => Read::Refused(at, what),
        Read::Got(_, end) => Read::Got(
            OpSpecModel { position: span_of(c, end), name, items: Some(items) },
            end,
        ),
    }
}

/// The items of a specification from `cur` on, behind the items `acc`.
pub open spec fn spec_items_rest(
    cs: Seq<char>,
    c: Cursor,
    name: SymbolModel,
    cur: Cursor,
    acc: Seq<OpSpecItemModel>,
) -> Read<OpSpecModel>
    decreases cs.len() - cur.pos,
{
    match read_name(cs, cur, SymbolKind::OpSpecDtype) {
        Read::Refused(at, what) => Read::Refused(at, what),
        Read::Got(key, after_key) => match read_char(cs, after_trivia(cs, after_key), '=', "="@) {
            Read::Refused(at, what) => Read::Refused(at, what),
            Read::Got(_, behind) => match read_spec_value(cs, after_trivia(cs, behind), key.name) {
                Read::Refused(at, what) => Read::Refused(at, what),
                Read::Got(value, after) => {
                    let items = acc.push(
                        OpSpecItemModel {
                            position: span_of(cur, after),
                            name: key.name,
                            value: Box::new(value),
                        },
                    );
                    let next = after_trivia(cs, after);
                    if char_at(cs, next) == Some(',') {
                        let more = after_trivia(cs, step(cs, next));
                        if onward(cs, cur, more) {
                            spec_items_rest(cs, c, name, more, items)
                        } else {
                            stuck(cur)
                        }
                    } else if char_at(cs, next) == Some(')') {
                        spec_close(cs, c, name, items, step(cs, next))
                    } else {
                        Read::Refused(next, "comma or )"@)
                    }
                },
            },
        },
    }
}

/// The specifications and comments of a section from `cur` on up to the
/// closing brace, behind the children `acc`.
pub open spec fn specs_rest(cs: Seq<char>, cur: Cursor, kind: SymbolKind, acc: Seq<NodeModel>) -> Read<
    Seq<NodeModel>,
>
    decreases cs.len() - cur.pos,
{
    let at = after_blank(cs, cur);
    if comment_at(cs, at) {
        match read_comment(cs, at) {
            Read::Refused(at2, what) => Read::Refused(at2, what),
            Read::Got(comment, next) => if onward(cs, cur, next) {
                specs_rest(cs, next, kind, acc.push(NodeModel::Comment(comment)))
            } else {
                stuck(cur)
            },
        }
    } else if char_at(cs, at) == Some('}') {
        Read::Got(acc, step(cs, at))
    } else {
        match read_spec(cs, at, kind) {
            Read::Refused(at2, what) => Read::Refused(at2, what),
            Read::Got(spec, next) => if onward(cs, cur, next) {
                specs_rest(cs, next, kind, acc.push(NodeModel::OpSpec(spec)))
            } else {
                stuck(cur)
            },
        }
    }
}

/// The attributes of a meta section from `cur` on up to the closing brace,
/// behind the attributes `acc`. Comments are passed over.
pub open spec fn metas_rest(cs: Seq<char>, cur: Cursor, acc: Seq<AttrDefModel>) -> Read<
    Seq<AttrDefModel>,
>
    decreases cs.len() - cur.pos,
{
    let at = after_trivia(cs, cur);
    if char_at(cs, at) == Some('}') {
        Read::Got(acc, step(cs, at))
    } else {
        match read_attribute(cs, at, SymbolKind::OpMetaAttr) {
            Read::Refused(at2, what) => Read::Refused(at2, what),
            Read::Got(attr, after) => match read_end(cs, after) {
                Read::Refused(at2, what) => Read::Refused(at2, what),
                Read::Got(_, next) => if onward(cs, cur, next) {
                    metas_rest(cs, next, acc.push(attr))
                } else {
                    stuck(cur)
                },
            },
        }
    }
}

/// The section of specifications called `word` whose body starts at `body`.
pub open spec fn read_spec_section(cs: Seq<char>, c: Cursor, word: Seq<char>, body: Cursor) -> Read<
    NodeModel,
> {
    if word == "input"@ {
        match specs_rest(cs, body, SymbolKind::OpInputAttr, Seq::empty()) {
            Read::Refused(at, what) => Read::Refused(at, what),
            Read::Got(children, end) => Read::Got(
                NodeModel::OpInput(OpInputModel { position: span_of(c, end), children }),
                after_semicolon(cs, end),
            ),
        }
    } else if word == "output"@ {
        match specs_rest(cs, body, SymbolKind::OpOutputAttr, Seq::empty()) {
            Read::Refused(at, what) => Read::Refused(at, what),
            Read::Got(children, end) => Read::Got(
                NodeModel::OpOutput(OpOutputModel { position: span_of(c, end), children }),
                after_semicolon(cs, end),
            ),
        }
    } else if word == "config"@ {
        match specs_rest(cs, body, SymbolKind::OpConfigAttr, Seq::empty()) {
            Read::Refused(at, what) => Read::Refused(at, what),
            Read::Got(children, end) => Read::Got(
                NodeModel::OpConfig(OpConfigModel { position: span_of(c, end), children }),
                after_semicolon(cs, end),
            ),
        }
    } else {
        Read::Refused(c, "meta, input, output or config"@)
    }
}

/// One section of an operation at `c`: `meta`, `input`, `output` or `config`
/// with its braces, and a `;` as far as it is there.
pub open spec fn read_section(cs: Seq<char>, c: Cursor) -> Read<NodeModel> {
    match read_name(cs, c, SymbolKind::Unknown) {
        Read::Refused(at, what) => Read::Refused(at, what),
        Read::Got(word, after_word) => match read_char(cs, after_trivia(cs, after_word), '{', "{"@) {
            Read::Refused(at, what) => Read::Refused(at, what),
            Read::Got(_, body) => if word.name == "meta"@ {
                match metas_rest(cs, body, Seq::empty()) {
                    Read::Refused(at, what) => Read::Refused(at, what),
                    Read::Got(children, end) => Read::Got(
                        NodeModel::OpMeta(OpMetaModel { position: span_of(c, end), children }),
                        after_semicolon(cs, end),
                    ),
                }
            } else {
                read_spec_section(cs, c, word.name, body)
            },
        },
    }
}

/// The version of an operation: the characters of a string or the name of a
/// symbol.
pub open spec fn op_version(version: Option<Box<NodeModel>>) -> Option<Seq<char>> {
    match version {
        Some(v) => match *v {
            NodeModel::StringLiteral(s) => Some(s.value),
            NodeModel::Symbol(s) => Some(s.name),
            _ => None,
        },
        None => None,
    }
}

/// An operation block at `c`, which stands at the word `op`: sections and
/// comments between braces, then the alias with its version and a `;`, each
/// as far as it is there.
pub open spec fn read_op(cs: Seq<char>, c: Cursor) -> Read<NodeModel> {
    match read_char(cs, after_trivia(cs, steps(cs, c, 2)), '{', "{"@) {
        Read::Refused(at, what) => Read::Refused(at, what),
        Read::Got(_, open) => op_rest(cs, c, open, Seq::empty()),
    }
}

/// The body of an operation block from `cur` on, behind the children `acc`.
pub open spec fn op_rest(cs: Seq<char>, c: Cursor, cur: Cursor, acc: Seq<NodeModel>) -> Read<
    NodeModel,
>
    decreases cs.len() - cur.pos,
{
    let at = after_blank(cs, cur);
    if comment_at(cs, at) {
        match read_comment(cs, at) {
            Read::Refused(at2, what) => Read::Refused(at2, what),
            Read::Got(comment, next) => if onward(cs, cur, next) {
                op_rest(cs, c, next, acc.push(NodeModel::Comment(comment)))
            } else {
                stuck(cur)
            },
        }
    } else if char_at(cs, at) == Some('}') {
        match read_alias(cs, step(cs, at), SymbolKind::OpAsName, true) {
            Read::Refused(at2, what) => Read::Refused(at2, what),
            Read::Got(named, end) => Read::Got(
                NodeModel::OpDef(
                    OpDefModel {
                        position: span_of(c, end),
                        children: acc,
                        alias: named.alias,
                        version: op_version(named.version),
                    },
                ),
                after_semicolon(cs, end),
            ),
        }
    } else {
        match read_section(cs, at) {
            Read::Refused(at2, what) => Read::Refused(at2, what),
            Read::Got(section, next) => if onward(cs, cur, next) {
                op_rest(cs, c, next, acc.push(section))
            } else {
                stuck(cur)
            },
        }
    }
}

/// One statement of a module at `c`: a comment, an import, or a variable,
/// graph or operation block.
#[verifier::opaque]
pub open spec fn read_statement(cs: Seq<char>, c: Cursor) -> Read<NodeModel> {
    if comment_at(cs, c) {
        match read_comment(cs, c) {
            Read::Refused(at, what) => Read::Refused(at, what),
            Read::Got(comment, next) => Read::Got(NodeModel::Comment(comment), next),
        }
    } else if has_whole_word(cs, c, "import"@) {
        read_import(cs, c)
    } else if has_whole_word(cs, c, "var"@) {
        read_var(cs, c)
    } else if has_whole_word(cs, c, "graph"@) {
        match read_graph(cs, c) {
            Read::Refused(at, what) => Read::Refused(at, what),
            Read::Got(graph, next) => Read::Got(NodeModel::GraphDef(graph), next),
        }
    } else if has_whole_word(cs, c, "op"@) {
        read_op(cs, c)
    } else {
        Read::Refused(c, "import, var, graph or op"@)
    }
}

/// The span of a module with these children: from the start of the first
/// child to the end of the last one; a module without children stands at the
/// start of the text.
pub open spec fn module_span(children: Seq<NodeModel>) -> Position {
    if children.len() == 0 {
        Position { line: 1, end_line: 1, start: 1, end: 1 }
    } else {
        Position {
            line: children[0].position().line,
            end_line: children[children.len() - 1].position().end_line,
            start: children[0].position().start,
            end: children[children.len() - 1].position().end,
        }
    }
}

/// The statements of a module from `cur` on up to the end of the text,
/// behind the children `acc`.
pub open spec fn module_rest(cs: Seq<char>, cur: Cursor, acc: Seq<NodeModel>) -> Read<ModuleModel>
    decreases cs.len() - cur.pos,
{
    let at = after_blank(cs, cur);
    if at.pos >= cs.len() {
        Read::Got(ModuleModel { position: module_span(acc), children: acc }, at)
    } else {
        match read_statement(cs, at) {
            Read::Refused(at2, what) => Read::Refused(at2, what),
            Read::Got(child, next) => if onward(cs, cur, next) {
                module_rest(cs, next, acc.push(child))
            } else {
                stuck(cur)
            },
        }
    }
}

/// What a text is read as: the module of its statements, or the first
/// refusal.
pub open spec fn read_module(cs: Seq<char>) -> Read<ModuleModel> {
    module_rest(cs, Cursor { pos: 0, line: 1, col: 1 }, Seq::empty())
}

} // verus!
