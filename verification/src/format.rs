//! Renders a syntax tree as source text.

pub mod buffer;

use crate::ast::model::{
    ConditionDefModel, ForLoopBlockModel,
    lemma_model_kind,
    attr_defs_view, attrs_view, boxed_view, dict_items_view, import_items_view, key_items_view,
    nodes_view, spec_items_view, symbol_model, symbols_view, AttrDefModel, ClosedIntervalModel,
    ConditionBlockModel, ConditionExprModel, ConditionStatementModel, DictItemModel,
    DictStatementModel, ImportItemModel, MixIntervalModel, NodeAttrModel, NodeAttrValueModel,
    NodeBlockModel, NodeDefModel, NodeInputDefModel, NodeInputKeyItemModel, NodeModel,
    OpSpecItemModel, SymbolModel,
};
use crate::ast::{
    AstNodeEnum, AttrDef, ClosedInterval, Comment, ConditionBlock, ConditionDef, ConditionExpr, ConditionStatement, DictStatement, ForLoopBlock, GraphDef, Import, ListStatement, MixInterval, Module, NodeAttr, NodeAttrValue, NodeBlock, NodeDef, NodeInputDef, NodeInputKeyItem, OpConfig, OpDef, OpInput, OpMeta, OpOutput, OpSpec, OpSpecItem, Position, RefDef, SetStatement, Symbol, SymbolKind, TupleStatement, VarDef,
};
use crate::format::buffer::{dedented, line_end, pad};
use crate::text::{
    add_col, ends_with_newline, has_final_newline, join, join_all, push_spaces, sat_add,
    spaces_text, str_eq, text_width, texts, to_chars, width,
};
use crate::compiler::symbol_names;
use crate::error::ParseError;
use crate::parser::grammar::{
    after_blank, char_after, has_word, inside, name_char, name_start, quoted_rest, read_module,
    read_string, refusal, step, steps, string_at, triple, triple_rest, Read,
};
use crate::parser::lexer::{
    blank_text, is_blank_char, is_name_char, is_name_start, refused, Cursor,
};
use vstd::prelude::*;

verus! {

/// The formatter: the size of one indentation step, the column limit, and a
/// column from which [`Formatter::need_line`] measures.
#[derive(Debug)]
pub struct Formatter {
    pub indent: usize,
    pub max_col: usize,
    pub cur_col: usize,
}

/// The comment that follows the child at `index` on its line: the next
/// child, where it is a comment on line `cur_end` and the child is no
/// comment itself. Without indentation every comment that follows such a
/// child stands behind it.
pub open spec fn inline_comment(indent: usize, children: Seq<NodeModel>, index: int, cur_end: usize) -> Option<
    Seq<char>,
> {
    if 0 <= index && index + 1 < children.len() && !(children[index] is Comment) {
        match children[index + 1] {
            NodeModel::Comment(c) => if c.position.line == cur_end || indent == 0 {
                Some(c.value)
            } else {
                None
            },
            _ => None,
        }
    } else {
        None
    }
}

/// The line on which a node ends.
pub open spec fn end_line_of(node: NodeModel) -> usize {
    node.position().end_line
}

/// Text so far, and whether the next child is a comment that has been
/// written already.
pub struct ListState {
    pub text: Seq<char>,
    pub skip: bool,
}

/// A statement list after its first `n` children: each child is followed by
/// the comment that stands on its last line, which is then passed over, or
/// by the end of the line where another child follows and the child is no
/// comment itself.
pub open spec fn list_steps(indent: usize, max_col: usize, children: Seq<NodeModel>, bi: usize, n: int) -> ListState
    decreases children, n,
{
    if n <= 0 || n > children.len() {
        ListState { text: Seq::empty(), skip: false }
    } else {
        let prev = list_steps(indent, max_col, children, bi, n - 1);
        if prev.skip {
            ListState { text: prev.text, skip: false }
        } else {
            let t = node_text(indent, max_col, children[n - 1], bi);
            match inline_comment(indent, children, n - 1, end_line_of(children[n - 1])) {
                Some(c) => ListState { text: prev.text + t + " "@ + c + "\n"@, skip: true },
                None => ListState {
                    text: prev.text + t + (if n < children.len() && !(children[n
                        - 1] is Comment) {
                        line_end(indent)
                    } else {
                        Seq::empty()
                    }),
                    skip: false,
                },
            }
        }
    }
}

/// A statement list.
pub open spec fn list_text(indent: usize, max_col: usize, children: Seq<NodeModel>, bi: usize) -> Seq<char>
    decreases children, children.len() + 1,
{
    list_steps(indent, max_col, children, bi, children.len() as int).text
}

/// A block between braces: the name and `{` on a line of their own, after an
/// empty line unless the block starts the text, the body one step further
/// in, and `}` back at the indentation of the block.
pub open spec fn brace_frame(
    indent: usize,
    name: Seq<char>,
    body: Seq<char>,
    has_children: bool,
    bi: usize,
    first: bool,
) -> Seq<char> {
    (if first {
        Seq::empty()
    } else {
        line_end(indent)
    }) + pad(indent, bi) + name + " {"@ + line_end(indent) + (if has_children {
        body + (if ends_with_newline(body) {
            Seq::empty()
        } else {
            line_end(indent)
        })
    } else {
        Seq::empty()
    }) + pad(
        indent,
        if has_children {
            dedented(sat_add(bi, indent), indent)
        } else {
            bi
        },
    ) + "}"@
}

/// A block of statements between braces.
pub open spec fn brace_text(
    indent: usize, max_col: usize,
    name: Seq<char>,
    children: Seq<NodeModel>,
    bi: usize,
    first: bool,
) -> Seq<char>
    decreases children, children.len() + 2,
{
    brace_frame(
        indent,
        name,
        list_text(indent, max_col, children, sat_add(bi, indent)),
        children.len() > 0,
        bi,
        first,
    )
}

/// What stands in front of an item of a collection.
pub open spec fn item_lead(indent: usize, bi: usize, wrap: bool) -> Seq<char> {
    if wrap {
        pad(indent, sat_add(bi, indent))
    } else {
        Seq::empty()
    }
}

/// What stands behind an item of a collection.
pub open spec fn item_tail(indent: usize, wrap: bool, more: bool) -> Seq<char> {
    if more {
        if wrap {
            ","@ + line_end(indent)
        } else {
            ", "@
        }
    } else {
        Seq::empty()
    }
}

/// The first `n` pieces of a collection: each on a line of its own, one
/// step further in, where the collection is wrapped, and a comma between
/// neighbours.
pub open spec fn laid_steps(indent: usize, pieces: Seq<Seq<char>>, bi: usize, wrap: bool, n: int) -> Seq<
    char,
>
    decreases n,
{
    if n <= 0 || n > pieces.len() {
        Seq::empty()
    } else {
        laid_steps(indent, pieces, bi, wrap, n - 1) + item_lead(indent, bi, wrap) + pieces[n - 1]
            + item_tail(indent, wrap, n < pieces.len())
    }
}

/// Whether a collection is wrapped: indentation is on, and its one-line
/// form, written at column `bi`, would pass the column limit.
pub open spec fn wraps(indent: usize, max_col: usize, bi: usize, w: usize) -> bool {
    indent > 0 && sat_add(bi, w) > max_col
}

/// The width of a collection on one line.
pub open spec fn line_width(start: Seq<char>, end: Seq<char>, line: Seq<char>) -> usize {
    sat_add(sat_add(width(start), width(line)), width(end))
}

/// A collection between its delimiters: on one line with `, ` between the
/// pieces where that stays within the column limit or indentation is off,
/// else one piece per line with a comma behind all but the last, and the
/// closing delimiter on a line of its own.
pub open spec fn laid_text(
    indent: usize,
    max_col: usize,
    start: Seq<char>,
    end: Seq<char>,
    pieces: Seq<Seq<char>>,
    bi: usize,
) -> Seq<char> {
    let line = laid_steps(indent, pieces, bi, false, pieces.len() as int);
    if pieces.len() == 0 {
        start + end
    } else if wraps(indent, max_col, bi, line_width(start, end, line)) {
        start + line_end(indent) + laid_steps(indent, pieces, bi, true, pieces.len() as int)
            + line_end(indent) + pad(indent, dedented(sat_add(bi, indent), indent)) + end
    } else {
        start + line + end
    }
}

/// The texts of the items of a collection.
pub open spec fn item_texts(indent: usize, max_col: usize, items: Seq<NodeModel>, bi: usize) -> Seq<
    Seq<char>,
>
    decreases items, 0nat,
{
    Seq::new(
        items.len(),
        |i: int|
            if 0 <= i < items.len() {
                node_text(indent, max_col, items[i], bi)
            } else {
                Seq::empty()
            },
    )
}

/// A list, tuple or set.
pub open spec fn seq_text(
    indent: usize,
    max_col: usize,
    start: Seq<char>,
    end: Seq<char>,
    items: Seq<NodeModel>,
    bi: usize,
) -> Seq<char>
    decreases items, 1nat,
{
    laid_text(indent, max_col, start, end, item_texts(indent, max_col, items, bi), bi)
}

/// One pair of a dictionary: `key: value`.
pub open spec fn dict_item_text(indent: usize, max_col: usize, item: DictItemModel, bi: usize) -> Seq<
    char,
>
    decreases item, 0nat,
{
    node_text(indent, max_col, *item.key, bi) + ": "@ + node_text(indent, max_col, *item.value, bi)
}

/// The texts of the pairs of a dictionary.
pub open spec fn pair_texts(indent: usize, max_col: usize, items: Seq<DictItemModel>, bi: usize) -> Seq<
    Seq<char>,
>
    decreases items, 0nat,
{
    Seq::new(
        items.len(),
        |i: int|
            if 0 <= i < items.len() {
                dict_item_text(indent, max_col, items[i], bi)
            } else {
                Seq::empty()
            },
    )
}

/// A dictionary.
pub open spec fn dict_text(indent: usize, max_col: usize, dict: DictStatementModel, bi: usize) -> Seq<
    char,
>
    decreases dict, 0nat,
{
    laid_text(indent, max_col, "{"@, "}"@, pair_texts(indent, max_col, dict.items, bi), bi)
}

/// Whether `quote` stands in a text with no backslash before it that takes
/// it, from index `i` on.
pub open spec fn closes(value: Seq<char>, quote: char, i: int) -> bool
    decreases value.len() - i,
{
    if i < 0 || i >= value.len() {
        false
    } else if value[i] == quote {
        true
    } else if value[i] == '\\' && i + 1 < value.len() && value[i + 1] != '\n' {
        closes(value, quote, i + 2)
    } else {
        closes(value, quote, i + 1)
    }
}

/// The quote that a string is written between: a double quote, unless one
/// stands free in the string.
pub open spec fn quote_of(value: Seq<char>) -> char {
    if closes(value, '"', 0) {
        '\''
    } else {
        '"'
    }
}

/// A string between its quotes.
pub open spec fn string_text(value: Seq<char>) -> Seq<char> {
    seq![quote_of(value)] + value + seq![quote_of(value)]
}

/// Whether three double quotes in a row stand in the text.
pub open spec fn has_triple(value: Seq<char>) -> bool {
    exists|i: int|
        0 <= i && i + 2 < value.len() && #[trigger] value[i] == '"' && value[i + 1] == '"' && value[i
            + 2] == '"'
}

/// Whether a string of several lines cannot stand between double quotes:
/// three of them stand in it, or it ends with one.
pub open spec fn needs_single(value: Seq<char>) -> bool {
    has_triple(value) || (value.len() > 0 && value[value.len() - 1] == '"')
}

/// A string of several lines between three quotes: double quotes, unless
/// the string cannot stand between them.
pub open spec fn long_string_text(value: Seq<char>) -> Seq<char> {
    if needs_single(value) {
        "'''"@ + value + "'''"@
    } else {
        "\"\"\""@ + value + "\"\"\""@
    }
}

/// Whether a text is a name: it starts as a name does and goes on in the
/// characters of names and dots.
pub open spec fn is_name(s: Seq<char>) -> bool {
    s.len() > 0 && name_start(s[0]) && forall|i: int|
        0 <= i < s.len() ==> name_char(#[trigger] s[i]) || s[i] == '.'
}

/// The version of an operation as it is written: a name as it is, anything
/// else as a string.
pub open spec fn op_version_text(version: Option<Seq<char>>) -> Option<Seq<char>> {
    match version {
        Some(v) => Some(
            if is_name(v) {
                v
            } else {
                string_text(v)
            },
        ),
        None => None,
    }
}

/// One argument of a chained attribute: `key=value` for a keyed one, else
/// the value.
pub open spec fn argument_text(indent: usize, max_col: usize, item: NodeModel, bi: usize) -> Seq<char>
    decreases item, 4nat,
{
    match item {
        NodeModel::AttrDef(a) => a.name.name + "="@ + node_text(indent, max_col, *a.value, bi),
        _ => node_text(indent, max_col, item, bi),
    }
}

/// The first `n` arguments with `, ` between neighbours.
pub open spec fn plain_steps(indent: usize, max_col: usize, items: Seq<NodeModel>, bi: usize, n: int) -> Seq<char>
    decreases items, n,
{
    if n <= 0 || n > items.len() {
        Seq::empty()
    } else {
        plain_steps(indent, max_col, items, bi, n - 1) + argument_text(indent, max_col, items[n - 1], bi) + (if n
            < items.len() {
            ", "@
        } else {
            Seq::empty()
        })
    }
}

/// The first `n` positional inputs with `, ` between neighbours.
pub open spec fn tuple_steps(indent: usize, max_col: usize, items: Seq<NodeModel>, n: int) -> Seq<char>
    decreases items, n,
{
    if n <= 0 || n > items.len() {
        Seq::empty()
    } else {
        tuple_steps(indent, max_col, items, n - 1) + node_text(indent, max_col, items[n - 1], 0) + (if n
            < items.len() {
            ", "@
        } else {
            Seq::empty()
        })
    }
}

/// One keyed input: `key=name` for one name, `key=(a, b)` for a list of
/// names, `key=value` for any other value.
pub open spec fn key_item_text(indent: usize, max_col: usize, item: NodeInputKeyItemModel) -> Seq<char>
    decreases item, 0nat,
{
    match *item.value {
        NodeModel::NodeInputValues(v) => if v.items.len() == 1 {
            item.key.name + "="@ + v.items[0].name
        } else {
            item.key.name + "=("@ + join_all(symbol_names(v.items), ", "@) + ")"@
        },
        _ => item.key.name + "="@ + node_text(indent, max_col, *item.value, 0),
    }
}

/// The first `n` keyed inputs with `, ` between neighbours.
pub open spec fn key_steps(indent: usize, max_col: usize, items: Seq<NodeInputKeyItemModel>, n: int) -> Seq<char>
    decreases items, n,
{
    if n <= 0 || n > items.len() {
        Seq::empty()
    } else {
        key_steps(indent, max_col, items, n - 1) + key_item_text(indent, max_col, items[n - 1]) + (if n
            < items.len() {
            ", "@
        } else {
            Seq::empty()
        })
    }
}

/// The inputs of a call.
pub open spec fn inputs_text(indent: usize, max_col: usize, inputs: NodeInputDefModel) -> Seq<char>
    decreases inputs, 0nat,
{
    match inputs {
        NodeInputDefModel::Tuple(t) => tuple_steps(indent, max_col, t.items, t.items.len() as int),
        NodeInputDefModel::KeyValue(kv) => key_steps(indent, max_col, kv.items, kv.items.len() as int),
    }
}

/// The value of a chained attribute: a name, a string between quotes, or
/// its arguments one after the other.
pub open spec fn attr_value_text(indent: usize, max_col: usize, value: NodeAttrValueModel, bi: usize) -> Seq<char>
    decreases value, 0nat,
{
    match value {
        NodeAttrValueModel::Symbol(s) => s.name,
        NodeAttrValueModel::String(s) => string_text(s.value),
        NodeAttrValueModel::List(items) => plain_steps(indent, max_col, items, bi, items.len() as int),
    }
}

/// The first `n` chained attributes: `.name(value)` each.
pub open spec fn chain_steps(indent: usize, max_col: usize, attrs: Seq<NodeAttrModel>, bi: usize, n: int) -> Seq<char>
    decreases attrs, n,
{
    if n <= 0 || n > attrs.len() {
        Seq::empty()
    } else {
        chain_steps(indent, max_col, attrs, bi, n - 1) + "."@ + attrs[n - 1].name.name + "("@
            + attr_value_text(indent, max_col, attrs[n - 1].value, bi) + ")"@
    }
}

/// The inputs of a call where it has any.
pub open spec fn optional_inputs(indent: usize, max_col: usize, inputs: Option<NodeInputDefModel>) -> Seq<char>
    decreases inputs, 0nat,
{
    match inputs {
        Some(i) => inputs_text(indent, max_col, i),
        None => Seq::empty(),
    }
}

/// The chained attributes of a call where it has any.
pub open spec fn optional_chain(indent: usize, max_col: usize, attrs: Option<Seq<NodeAttrModel>>, bi: usize) -> Seq<char>
    decreases attrs, 0nat,
{
    match attrs {
        Some(a) => chain_steps(indent, max_col, a, bi, a.len() as int),
        None => Seq::empty(),
    }
}

/// A call: `name(inputs)`, or `ref(name)(inputs)` where the name is not that
/// of a node, then the chained attributes.
pub open spec fn block_text(indent: usize, max_col: usize, block: NodeBlockModel, bi: usize) -> Seq<char>
    decreases block, 1nat,
{
    (if block.name.kind == SymbolKind::NodeName {
        block.name.name + "("@ + optional_inputs(indent, max_col, block.inputs) + ")"@
    } else {
        "ref("@ + block.name.name + ")("@ + optional_inputs(indent, max_col, block.inputs) + ")"@
    }) + optional_chain(indent, max_col, block.attrs, bi)
}

/// A comparison: `left operator right`.
pub open spec fn statement_text(indent: usize, max_col: usize, stmt: ConditionStatementModel, bi: usize) -> Seq<char>
    decreases stmt, 0nat,
{
    node_text(indent, max_col, *stmt.left_operand, bi) + " "@ + stmt.operator + " "@ + node_text(
        indent, max_col,
        *stmt.right_operand,
        bi,
    )
}

/// What a conditional tests.
pub open spec fn condition_expr_text(indent: usize, max_col: usize, expr: ConditionExprModel, bi: usize) -> Seq<char>
    decreases expr, 0nat,
{
    match expr {
        ConditionExprModel::Statement(stmt) => statement_text(indent, max_col, *stmt, bi),
        ConditionExprModel::Block(block) => block_text(indent, max_col, block, bi),
    }
}

/// A conditional: `condition ? a : b`.
pub open spec fn condition_text(indent: usize, max_col: usize, cond: ConditionBlockModel, bi: usize) -> Seq<char>
    decreases cond, 0nat,
{
    condition_expr_text(indent, max_col, *cond.condition, bi) + " ? "@ + node_text(
        indent, max_col,
        *cond.true_branch,
        bi,
    ) + " : "@ + node_text(indent, max_col, *cond.false_branch, bi)
}

/// An attribute: `name = value;`.
pub open spec fn attr_text(indent: usize, max_col: usize, attr: AttrDefModel, bi: usize) -> Seq<char>
    decreases attr, 1nat,
{
    pad(indent, bi) + attr.name.name + " = "@ + node_text(indent, max_col, *attr.value, bi)
        + guard_text(indent, max_col, attr, bi) + ";"@
}

/// What follows the value of an attribute: ` if condition` and
/// ` else value`, each as far as it is there.
pub open spec fn guard_text(indent: usize, max_col: usize, attr: AttrDefModel, bi: usize) -> Seq<char>
    decreases attr, 0nat,
{
    (match attr.condition {
        Some(c) => " if "@ + node_text(indent, max_col, *c, bi),
        None => Seq::empty(),
    }) + (match attr.else_value {
        Some(v) => " else "@ + node_text(indent, max_col, *v, bi),
        None => Seq::empty(),
    })
}

/// A for-loop: `[call for outputs in inputs if condition]`.
pub open spec fn for_loop_text(indent: usize, max_col: usize, block: ForLoopBlockModel, bi: usize) -> Seq<
    char,
>
    decreases block, 2nat,
{
    "["@ + block_text(indent, max_col, block.node, bi) + " for "@ + join_all(
        symbol_names(block.outputs),
        ", "@,
    ) + " in "@ + block.inputs.name + (match block.condition {
        Some(c) => " if "@ + node_text(indent, max_col, *c, bi),
        None => Seq::empty(),
    }) + "]"@
}

/// A conditional definition: the outputs with `, ` between, ` = `, the
/// conditional, `;`.
pub open spec fn condition_def_text(indent: usize, max_col: usize, def: ConditionDefModel, bi: usize) -> Seq<
    char,
>
    decreases def, 1nat,
{
    pad(indent, bi) + join_all(symbol_names(def.outputs), ", "@) + " = "@ + condition_text(
        indent,
        max_col,
        *def.value,
        bi,
    ) + ";"@
}

/// Whether a block starts the text: it stands at the start of the first
/// line.
pub open spec fn starts_text(position: Position) -> bool {
    position.line == 1 && position.start == 1
}

/// The first `n` attributes of a meta section, one per line.
pub open spec fn meta_steps(indent: usize, max_col: usize, attrs: Seq<AttrDefModel>, bi: usize, n: int) -> Seq<char>
    decreases attrs, n,
{
    if n <= 0 || n > attrs.len() {
        Seq::empty()
    } else {
        meta_steps(indent, max_col, attrs, bi, n - 1) + attr_text(indent, max_col, attrs[n - 1], bi) + (if n
            < attrs.len() {
            line_end(indent)
        } else {
            Seq::empty()
        })
    }
}

/// The first `n` items of a specification: `name=value` with `, ` between
/// neighbours.
pub open spec fn spec_steps(indent: usize, max_col: usize, items: Seq<OpSpecItemModel>, bi: usize, n: int) -> Seq<char>
    decreases items, n,
{
    if n <= 0 || n > items.len() {
        Seq::empty()
    } else {
        spec_steps(indent, max_col, items, bi, n - 1) + items[n - 1].name + "="@ + node_text(
            indent, max_col,
            *items[n - 1].value,
            bi,
        ) + (if n < items.len() {
            ", "@
        } else {
            Seq::empty()
        })
    }
}

/// The items of a specification: the item `dtype` alone as its value,
/// anything else as `name=value` items between parentheses.
pub open spec fn spec_items_text(indent: usize, max_col: usize, items: Option<Seq<OpSpecItemModel>>, bi: usize) -> Seq<
    char,
>
    decreases items, 0nat,
{
    match items {
        Some(v) => if v.len() == 1 && v[0].name == "dtype"@ {
            node_text(indent, max_col, *v[0].value, bi) + ";"@
        } else {
            "("@ + spec_steps(indent, max_col, v, bi, v.len() as int) + ");"@
        },
        None => Seq::empty(),
    }
}

/// The first `n` items of an import: `path as alias` with `, ` between
/// neighbours.
pub open spec fn import_steps(items: Seq<ImportItemModel>, n: int) -> Seq<char>
    decreases n,
{
    if n <= 0 || n > items.len() {
        Seq::empty()
    } else {
        import_steps(items, n - 1) + items[n - 1].path.name + (match items[n - 1].alias {
            Some(a) => " as "@ + a.name,
            None => Seq::empty(),
        }) + (if n < items.len() {
            ", "@
        } else {
            Seq::empty()
        })
    }
}

/// ` as alias` and the version between the parentheses of `.version(..)`.
pub open spec fn alias_text(alias: Option<SymbolModel>, version: Option<Seq<char>>) -> Seq<char> {
    match alias {
        Some(a) => " as "@ + a.name + (match version {
            Some(v) => ".version("@ + v + ")"@,
            None => Seq::empty(),
        }),
        None => Seq::empty(),
    }
}

/// The version of a graph as text.
pub open spec fn graph_version(indent: usize, max_col: usize, version: Option<Box<NodeModel>>, bi: usize) -> Option<
    Seq<char>,
>
    decreases version, 0nat,
{
    match version {
        Some(v) => Some(node_text(indent, max_col, *v, bi)),
        None => None,
    }
}

/// A closed interval: `[ge` and `le]` with `, ` between, as far as they are
/// there.
pub open spec fn closed_interval_text(interval: ClosedIntervalModel) -> Seq<char> {
    match (interval.ge, interval.le) {
        (Some(ge), Some(le)) => "["@ + ge.raw + ", "@ + le.raw + "]"@,
        (Some(ge), None) => "["@ + ge.raw,
        (None, Some(le)) => le.raw + "]"@,
        (None, None) => Seq::empty(),
    }
}

/// The lower end of an interval: `[ge`, else `(gt`, else `(`.
pub open spec fn mix_left(interval: MixIntervalModel) -> Seq<char> {
    match interval.ge {
        Some(ge) => "["@ + ge.raw,
        None => match interval.gt {
            Some(gt) => "("@ + gt.raw,
            None => "("@,
        },
    }
}

/// The upper end of an interval: `le]`, else `lt)`, else `)`.
pub open spec fn mix_right(interval: MixIntervalModel) -> Seq<char> {
    match interval.le {
        Some(le) => le.raw + "]"@,
        None => match interval.lt {
            Some(lt) => lt.raw + ")"@,
            None => ")"@,
        },
    }
}

/// A node definition: the outputs with `, ` between, ` = `, the call, `;`.
pub open spec fn node_def_text(indent: usize, max_col: usize, node: NodeDefModel, bi: usize) -> Seq<char>
    decreases node, 2nat,
{
    (if node.outputs.len() > 0 {
        pad(indent, bi)
    } else {
        Seq::empty()
    }) + join_all(symbol_names(node.outputs), ", "@) + " = "@ + block_text(
        indent, max_col,
        node.value,
        bi,
    ) + ";"@
}

/// A node as source text, indented by `bi`. Numbers and truth values stand
/// as they were written, strings between quotes, dates as `date("...")`;
/// statements end with `;`; blocks stand between braces. A node that is only
/// part of another construct renders as nothing on its own.
pub open spec fn node_text(indent: usize, max_col: usize, ast: NodeModel, bi: usize) -> Seq<char>
    decreases ast, 3nat,
{
    match ast {
        NodeModel::Module(n) => list_text(indent, max_col, n.children, bi),
        NodeModel::Comment(n) => pad(indent, bi) + n.value + "\n"@,
        NodeModel::Symbol(n) => n.name,
        NodeModel::StringLiteral(n) => string_text(n.value),
        NodeModel::MultiLineStringLiteral(n) => long_string_text(n.value),
        NodeModel::NumberLiteral(n) => n.raw,
        NodeModel::FloatLiteral(n) => n.raw,
        NodeModel::BoolLiteral(n) => n.raw,
        NodeModel::DateTimeLiteral(n) => n.raw,
        NodeModel::DateLiteral(n) => "date("@ + string_text(n.value) + ")"@,
        NodeModel::NullLiteral(_) => "null"@,
        NodeModel::Import(n) => pad(indent, bi) + "import "@ + import_steps(
            n.items,
            n.items.len() as int,
        ) + ";"@,
        NodeModel::AttrDef(n) => attr_text(indent, max_col, n, bi),
        NodeModel::RefDef(n) => pad(indent, bi) + n.name.name + " = "@ + n.value.name + ";"@,
        NodeModel::VarDef(n) => brace_text(
            indent, max_col,
            "var"@,
            n.children,
            bi,
            starts_text(n.position),
        ) + (match n.alias {
            Some(a) => " as "@ + a.name + ";"@,
            None => ";"@,
        }),
        NodeModel::GraphDef(n) => brace_text(
            indent, max_col,
            "graph"@,
            n.children,
            bi,
            starts_text(n.position),
        ) + alias_text(n.alias, graph_version(indent, max_col, n.version, bi)) + ";"@,
        NodeModel::NodeDef(n) => node_def_text(indent, max_col, n, bi),
        NodeModel::OpDef(n) => brace_text(indent, max_col, "op"@, n.children, bi, starts_text(n.position))
            + alias_text(n.alias, op_version_text(n.version)) + ";"@,
        NodeModel::OpMeta(n) => brace_frame(
            indent,
            "meta"@,
            meta_steps(indent, max_col, n.children, sat_add(bi, indent), n.children.len() as int),
            n.children.len() > 0,
            bi,
            true,
        ) + ";"@,
        NodeModel::OpInput(n) => brace_text(indent, max_col, "input"@, n.children, bi, true) + ";"@,
        NodeModel::OpOutput(n) => brace_text(indent, max_col, "output"@, n.children, bi, true) + ";"@,
        NodeModel::OpConfig(n) => brace_text(indent, max_col, "config"@, n.children, bi, true) + ";"@,
        NodeModel::OpSpec(n) => pad(indent, bi) + n.name.name + ": "@ + spec_items_text(
            indent, max_col,
            n.items,
            bi,
        ),
        NodeModel::DictStatement(n) => dict_text(indent, max_col, n, bi),
        NodeModel::ListStatement(n) => seq_text(indent, max_col, "["@, "]"@, n.items, bi),
        NodeModel::TupleStatement(n) => seq_text(indent, max_col, "("@, ")"@, n.items, bi),
        NodeModel::SetStatement(n) => seq_text(indent, max_col, "{"@, "}"@, n.items, bi),
        NodeModel::ClosedInterval(n) => closed_interval_text(n),
        NodeModel::MixInterval(n) => mix_left(n) + ", "@ + mix_right(n),
        NodeModel::NodeBlock(n) => block_text(indent, max_col, n, bi),
        NodeModel::ConditionBlock(n) => condition_text(indent, max_col, n, bi),
        NodeModel::ConditionStatement(n) => statement_text(indent, max_col, n, bi),
        NodeModel::ForLoopBlock(n) => for_loop_text(indent, max_col, n, bi),
        NodeModel::ConditionDef(n) => condition_def_text(indent, max_col, n, bi),
        _ => Seq::empty(),
    }
}

/// The width of a value as it was written; 0 for a value that is made of
/// other values.
pub open spec fn value_width(ast: NodeModel) -> usize {
    match ast {
        NodeModel::NumberLiteral(n) => width(n.raw),
        NodeModel::FloatLiteral(n) => width(n.raw),
        NodeModel::BoolLiteral(n) => width(n.raw),
        NodeModel::StringLiteral(n) => width(n.value),
        NodeModel::MultiLineStringLiteral(n) => width(n.value),
        NodeModel::Symbol(n) => width(n.name),
        NodeModel::NullLiteral(_) => 4,
        NodeModel::DateLiteral(n) => width(n.value),
        _ => 0,
    }
}

fn pad_of(indent: usize, current: usize) -> (r: String)
    ensures
        r@ == pad(indent, current),
{
    let mut s = String::new();
    if indent > 0 && current > 0 {
        push_spaces(&mut s, current);
        assert(s@ =~= spaces_text(current as nat));
    }
    s
}

fn line_end_of(indent: usize) -> (r: String)
    ensures
        r@ == line_end(indent),
{
    if indent > 0 {
        "\n".to_owned()
    } else {
        String::new()
    }
}

fn dedent_of(current: usize, indent: usize) -> (r: usize)
    ensures
        r == dedented(current, indent),
{
    if current >= indent {
        current - indent
    } else {
        current
    }
}

fn symbol_texts(symbols: &Vec<Symbol>) -> (r: Vec<String>)
    ensures
        texts(r@) == symbol_names(symbols_view(symbols@)),
{
    let mut out: Vec<String> = Vec::new();
    let mut i: usize = 0;
    while i < symbols.len()
        invariant
            i <= symbols.len(),
            out@.len() == i,
            forall|j: int| 0 <= j < i ==> out@[j]@ == symbols@[j].name@,
        decreases symbols.len() - i,
    {
        out.push(symbols[i].name.clone());
        i += 1;
    }
    assert(texts(out@) =~= symbol_names(symbols_view(symbols@)));
    out
}

fn alias_part(alias: &Option<Symbol>, version: Option<String>) -> (r: String)
    ensures
        r@ == alias_text(symbol_model(*alias), crate::compiler::ir::text_of(version)),
{
    match alias {
        Some(a) => {
            let mut out = " as ".to_owned();
            out.append(a.name.as_str());
            let v = match version {
                Some(v) => {
                    let mut s = ".version(".to_owned();
                    s.append(v.as_str());
                    s.append(")");
                    s
                },
                None => String::new(),
            };
            out.append(v.as_str());
            out
        },
        None => String::new(),
    }
}

/// Whether a block starts the text.
fn starts_the_text(position: &Position) -> (r: bool)
    ensures
        r == starts_text(*position),
{
    position.line == 1 && position.start == 1
}

/// Whether `quote` stands free in the text.
fn stands_free(value: &str, quote: char) -> (r: bool)
    ensures
        r == closes(value@, quote, 0),
{
    let cs = to_chars(value);
    let mut i: usize = 0;
    while i < cs.len()
        invariant
            i <= cs.len(),
            cs@ == value@,
            closes(cs@, quote, i as int) == closes(cs@, quote, 0),
        decreases cs.len() - i,
    {
        if cs[i] == quote {
            return true;
        }
        if cs[i] == '\\' && i + 1 < cs.len() && cs[i + 1] != '\n' {
            i += 2;
        } else {
            i += 1;
        }
    }
    false
}

/// A string between its quotes.
pub fn quoted_string(value: &str) -> (r: String)
    ensures
        r@ == string_text(value@),
{
    let quote = if stands_free(value, '"') {
        '\''
    } else {
        '"'
    };
    let mut out = String::new();
    out.push(quote);
    out.append(value);
    out.push(quote);
    out
}

/// Whether a string of several lines cannot stand between double quotes.
fn wants_single(value: &str) -> (r: bool)
    ensures
        r == needs_single(value@),
{
    let cs = to_chars(value);
    if cs.len() > 0 && cs[cs.len() - 1] == '"' {
        return true;
    }
    if cs.len() < 3 {
        return false;
    }
    let last = cs.len() - 2;
    let mut i: usize = 0;
    while i < last
        invariant
            cs@ == value@,
            3 <= cs@.len() <= usize::MAX,
            last + 2 == cs@.len(),
            i <= last,
            forall|j: int|
                0 <= j < i && j + 2 < cs@.len() ==> !(#[trigger] cs@[j] == '"' && cs@[j + 1] == '"'
                    && cs@[j + 2] == '"'),
        decreases last - i,
    {
        if cs[i] == '"' && cs[i + 1] == '"' && cs[i + 2] == '"' {
            return true;
        }
        i += 1;
    }
    false
}

/// A string of several lines between three quotes.
pub fn long_string(value: &str) -> (r: String)
    ensures
        r@ == long_string_text(value@),
{
    let mut out = if wants_single(value) {
        "'''".to_owned()
    } else {
        "\"\"\"".to_owned()
    };
    let close = out.clone();
    out.append(value);
    out.append(close.as_str());
    out
}

/// Whether the text is a name.
fn is_name_text(value: &str) -> (r: bool)
    ensures
        r == is_name(value@),
{
    let cs = to_chars(value);
    if cs.len() == 0 || !is_name_start(cs[0]) {
        return false;
    }
    let mut i: usize = 0;
    while i < cs.len()
        invariant
            i <= cs.len(),
            cs@ == value@,
            forall|j: int| 0 <= j < i ==> name_char(#[trigger] cs@[j]) || cs@[j] == '.',
        decreases cs.len() - i,
    {
        if !(is_name_char(cs[i]) || cs[i] == '.') {
            return false;
        }
        i += 1;
    }
    true
}

impl Formatter {
    /// A formatter that measures from column 0.
    pub fn new(indent: usize, max_col: usize) -> (r: Self)
        ensures
            r.indent == indent,
            r.max_col == max_col,
            r.cur_col == 0,
    {
        Formatter { indent, max_col, cur_col: 0 }
    }

    /// A tree as source text, indented by `begin_indent`.
    pub fn format(&self, ast: &AstNodeEnum, begin_indent: usize) -> (r: String)
        ensures
            r@ == node_text(self.indent, self.max_col, ast.model(), begin_indent),
    {
        self.format_node(ast, begin_indent)
    }

    /// A node as source text.
    #[verifier::rlimit(60)]
    pub fn format_node(&self, ast: &AstNodeEnum, begin_indent: usize) -> (r: String)
        ensures
            r@ == node_text(self.indent, self.max_col, ast.model(), begin_indent),
        decreases ast, 3nat,
    {
        match ast {
            AstNodeEnum::Module(node) => self.format_module(node, begin_indent),
            AstNodeEnum::Comment(node) => self.format_comment(node, begin_indent),
            AstNodeEnum::Symbol(node) => node.name.clone(),
            AstNodeEnum::StringLiteral(node) => quoted_string(node.value.as_str()),
            AstNodeEnum::MultiLineStringLiteral(node) => long_string(node.value.as_str()),
            AstNodeEnum::NumberLiteral(node) => node.raw.clone(),
            AstNodeEnum::FloatLiteral(node) => node.raw.clone(),
            AstNodeEnum::BoolLiteral(node) => node.raw.clone(),
            AstNodeEnum::DateTimeLiteral(node) => node.raw.clone(),
            AstNodeEnum::DateLiteral(node) => {
                let mut out = "date(".to_owned();
                out.append(quoted_string(node.value.as_str()).as_str());
                out.append(")");
                out
            },
            AstNodeEnum::NullLiteral(_) => "null".to_owned(),
            AstNodeEnum::Import(node) => self.format_import(node, begin_indent),
            AstNodeEnum::AttrDef(node) => self.format_attr_def(node, begin_indent),
            AstNodeEnum::RefDef(node) => self.format_ref_def(node, begin_indent),
            AstNodeEnum::VarDef(node) => self.format_var_def(node, begin_indent),
            AstNodeEnum::GraphDef(node) => self.format_graph_def(node, begin_indent),
            AstNodeEnum::NodeDef(node) => self.format_node_def(node, begin_indent),
            AstNodeEnum::OpDef(node) => self.format_op_def(node, begin_indent),
            AstNodeEnum::OpMeta(node) => self.format_op_meta(node, begin_indent),
            AstNodeEnum::OpInput(node) => self.format_op_input(node, begin_indent),
            AstNodeEnum::OpOutput(node) => self.format_op_output(node, begin_indent),
            AstNodeEnum::OpConfig(node) => self.format_op_config(node, begin_indent),
            AstNodeEnum::OpSpec(node) => self.format_op_spec(node, begin_indent),
            AstNodeEnum::DictStatement(node) => self.format_dict_statement(node, begin_indent),
            AstNodeEnum::ListStatement(node) => self.format_list_statement(node, begin_indent),
            AstNodeEnum::TupleStatement(node) => self.format_tuple_statement(node, begin_indent),
            AstNodeEnum::SetStatement(node) => self.format_set_statement(node, begin_indent),
            AstNodeEnum::ClosedInterval(node) => self.format_closed_interval(node, begin_indent),
            AstNodeEnum::MixInterval(node) => self.format_mix_interval(node, begin_indent),
            AstNodeEnum::NodeBlock(node) => self.format_node_block(node, begin_indent),
            AstNodeEnum::ConditionBlock(node) => self.format_condition_block(node, begin_indent),
            AstNodeEnum::ConditionStatement(node) => self.format_condition_statement(
                node,
                begin_indent,
            ),
            AstNodeEnum::ForLoopBlock(node) => self.format_for_loop(node, begin_indent),
            AstNodeEnum::ConditionDef(node) => self.format_condition_def(node, begin_indent),
            _ => String::new(),
        }
    }

    /// The statements of a module.
    pub fn format_module(&self, module: &Module, begin_indent: usize) -> (r: String)
        ensures
            r@ == list_text(self.indent, self.max_col, nodes_view(module.children@), begin_indent),
        decreases module, 0nat,
    {
        self.format_list_with_comment(&module.children, begin_indent)
    }

    /// A comment on a line of its own.
    pub fn format_comment(&self, comment: &Comment, begin_indent: usize) -> (r: String)
        ensures
            r@ == pad(self.indent, begin_indent) + comment.value@ + "\n"@,
    {
        let mut out = pad_of(self.indent, begin_indent);
        out.append(comment.value.as_str());
        out.append("\n");
        out
    }

    /// An import statement.
    pub fn format_import(&self, import: &Import, begin_indent: usize) -> (r: String)
        ensures
            r@ == pad(self.indent, begin_indent) + "import "@ + import_steps(
                import_items_view(import.items@),
                import.items@.len() as int,
            ) + ";"@,
    {
        let mut items = String::new();
        let mut i: usize = 0;
        while i < import.items.len()
            invariant
                i <= import.items.len(),
                items@ == import_steps(import_items_view(import.items@), i as int),
            decreases import.items.len() - i,
        {
            let ghost prev = items@;
            let item = &import.items[i];
            let mut piece = item.path.name.clone();
            match &item.alias {
                Some(alias) => {
                    let mut a = " as ".to_owned();
                    a.append(alias.name.as_str());
                    piece.append(a.as_str());
                },
                None => {
                    assert(piece@ =~= piece@ + Seq::<char>::empty());
                },
            }
            if i + 1 < import.items.len() {
                piece.append(", ");
            } else {
                assert(piece@ =~= piece@ + Seq::<char>::empty());
            }
            items.append(piece.as_str());
            i += 1;
            assert(items@ =~= import_steps(import_items_view(import.items@), i as int));
        }
        let mut out = pad_of(self.indent, begin_indent);
        out.append("import ");
        out.append(items.as_str());
        out.append(";");
        out
    }

    /// An attribute.
    pub fn format_attr_def(&self, attr: &AttrDef, begin_indent: usize) -> (r: String)
        ensures
            r@ == attr_text(self.indent, self.max_col, attr.model(), begin_indent),
        decreases attr, 1nat,
    {
        let mut out = pad_of(self.indent, begin_indent);
        out.append(attr.name.name.as_str());
        out.append(" = ");
        let value_str = self.format_node(&*attr.value, begin_indent);
        out.append(value_str.as_str());
        let mut guard = String::new();
        match &attr.condition {
            Some(c) => {
                guard.append(" if ");
                guard.append(self.format_node(&**c, begin_indent).as_str());
            },
            None => {},
        }
        match &attr.else_value {
            Some(v) => {
                guard.append(" else ");
                guard.append(self.format_node(&**v, begin_indent).as_str());
            },
            None => {},
        }
        assert(guard@ =~= guard_text(self.indent, self.max_col, attr.model(), begin_indent));
        out.append(guard.as_str());
        out.append(";");
        out
    }

    /// A for-loop.
    pub fn format_for_loop(&self, block: &ForLoopBlock, begin_indent: usize) -> (r: String)
        ensures
            r@ == for_loop_text(self.indent, self.max_col, block.model(), begin_indent),
        decreases block, 2nat,
    {
        let mut out = "[".to_owned();
        out.append(self.format_node_block(&block.node, begin_indent).as_str());
        out.append(" for ");
        let names = symbol_texts(&block.outputs);
        out.append(join(&names, ", ").as_str());
        out.append(" in ");
        out.append(block.inputs.name.as_str());
        match &block.condition {
            Some(c) => {
                out.append(" if ");
                out.append(self.format_node(&**c, begin_indent).as_str());
            },
            None => {},
        }
        out.append("]");
        assert(out@ =~= for_loop_text(self.indent, self.max_col, block.model(), begin_indent));
        out
    }

    /// A conditional definition.
    pub fn format_condition_def(&self, def: &ConditionDef, begin_indent: usize) -> (r: String)
        ensures
            r@ == condition_def_text(self.indent, self.max_col, def.model(), begin_indent),
        decreases def, 1nat,
    {
        let mut out = pad_of(self.indent, begin_indent);
        let names = symbol_texts(&def.outputs);
        out.append(join(&names, ", ").as_str());
        out.append(" = ");
        out.append(self.format_condition_block(&*def.value, begin_indent).as_str());
        out.append(";");
        out
    }

    /// A reference.
    pub fn format_ref_def(&self, ref_def: &RefDef, begin_indent: usize) -> (r: String)
        ensures
            r@ == pad(self.indent, begin_indent) + ref_def.name.name@ + " = "@
                + ref_def.value.name@ + ";"@,
    {
        let mut out = pad_of(self.indent, begin_indent);
        out.append(ref_def.name.name.as_str());
        out.append(" = ");
        out.append(ref_def.value.name.as_str());
        out.append(";");
        out
    }

    /// A variable block.
    pub fn format_var_def(&self, var: &VarDef, begin_indent: usize) -> (r: String)
        ensures
            r@ == node_text(self.indent, self.max_col, NodeModel::VarDef(var.model()), begin_indent),
        decreases var, 0nat,
    {
        let mut out = self.format_brace("var", &var.children, begin_indent, starts_the_text(&var.position));
        match &var.alias {
            Some(alias) => {
                let mut a = " as ".to_owned();
                a.append(alias.name.as_str());
                a.append(";");
                out.append(a.as_str());
            },
            None => {
                out.append(";");
            },
        }
        out
    }

    /// A graph block.
    pub fn format_graph_def(&self, graph: &GraphDef, begin_indent: usize) -> (r: String)
        ensures
            r@ == node_text(self.indent, self.max_col, NodeModel::GraphDef(graph.model()), begin_indent),
        decreases graph, 0nat,
    {
        let mut out = self.format_brace(
            "graph",
            &graph.children,
            begin_indent,
            starts_the_text(&graph.position),
        );
        let version = match &graph.version {
            Some(v) => Some(self.format_value(&**v, begin_indent)),
            None => None,
        };
        let a = alias_part(&graph.alias, version);
        out.append(a.as_str());
        out.append(";");
        out
    }

    /// A node definition.
    pub fn format_node_def(&self, node: &NodeDef, begin_indent: usize) -> (r: String)
        ensures
            r@ == node_def_text(self.indent, self.max_col, node.model(), begin_indent),
        decreases node, 2nat,
    {
        let mut out = if node.outputs.len() > 0 {
            pad_of(self.indent, begin_indent)
        } else {
            String::new()
        };
        let names = symbol_texts(&node.outputs);
        out.append(join(&names, ", ").as_str());
        out.append(" = ");
        let value_str = self.format_node_block(&node.value, begin_indent);
        out.append(value_str.as_str());
        out.append(";");
        out
    }

    /// A call.
    pub fn format_node_block(&self, node: &NodeBlock, begin_indent: usize) -> (r: String)
        ensures
            r@ == block_text(self.indent, self.max_col, node.model(), begin_indent),
        decreases node, 1nat,
    {
        let inputs = match &node.inputs {
            Some(inputs) => self.format_node_inputs(inputs),
            None => String::new(),
        };
        let mut out = if node.name.kind == SymbolKind::NodeName {
            let mut h = node.name.name.clone();
            h.append("(");
            h.append(inputs.as_str());
            h.append(")");
            h
        } else {
            let mut h = "ref(".to_owned();
            h.append(node.name.name.as_str());
            h.append(")(");
            h.append(inputs.as_str());
            h.append(")");
            h
        };
        let chain = match &node.attrs {
            Some(attrs) => self.format_chain(attrs, begin_indent),
            None => String::new(),
        };
        out.append(chain.as_str());
        out
    }

    /// The inputs of a call.
    pub fn format_node_inputs(&self, inputs: &NodeInputDef) -> (r: String)
        ensures
            r@ == inputs_text(self.indent, self.max_col, inputs.model()),
        decreases inputs, 0nat,
    {
        match inputs {
            NodeInputDef::Tuple(tuple) => self.format_tuple_inputs(&tuple.items),
            NodeInputDef::KeyValue(key_def) => self.format_key_inputs(&key_def.items),
        }
    }

    /// The chained attributes of a call.
    #[verifier::rlimit(60)]
    fn format_chain(&self, attrs: &Vec<NodeAttr>, begin_indent: usize) -> (r: String)
        ensures
            r@ == chain_steps(self.indent, self.max_col, attrs_view(attrs@), begin_indent, attrs@.len() as int),
        decreases attrs, attrs@.len() + 1,
    {
        let mut c = String::new();
        let mut i: usize = 0;
        while i < attrs.len()
            invariant
                i <= attrs.len(),
                c@ == chain_steps(self.indent, self.max_col, attrs_view(attrs@), begin_indent, i as int),
            decreases attrs.len() - i,
        {
            let attr = &attrs[i];
            let mut piece = ".".to_owned();
            piece.append(attr.name.name.as_str());
            piece.append("(");
            let attr_value = self.format_node_attr_value(&attr.value, begin_indent);
            piece.append(attr_value.as_str());
            piece.append(")");
            c.append(piece.as_str());
            i += 1;
            assert(c@ =~= chain_steps(self.indent, self.max_col, attrs_view(attrs@), begin_indent, i as int));
        }
        c
    }

    /// Positional inputs.
    fn format_tuple_inputs(&self, items: &Vec<Box<AstNodeEnum>>) -> (r: String)
        ensures
            r@ == tuple_steps(self.indent, self.max_col, boxed_view(items@), items@.len() as int),
        decreases items, items@.len() + 1,
    {
        let mut out = String::new();
        let mut i: usize = 0;
        while i < items.len()
            invariant
                i <= items.len(),
                out@ == tuple_steps(self.indent, self.max_col, boxed_view(items@), i as int),
            decreases items.len() - i,
        {
            let mut piece = self.format_value(&*items[i], 0);
            if i + 1 < items.len() {
                piece.append(", ");
            } else {
                assert(piece@ =~= piece@ + Seq::<char>::empty());
            }
            out.append(piece.as_str());
            i += 1;
            assert(out@ =~= tuple_steps(self.indent, self.max_col, boxed_view(items@), i as int));
        }
        out
    }

    /// Keyed inputs.
    fn format_key_inputs(&self, items: &Vec<NodeInputKeyItem>) -> (r: String)
        ensures
            r@ == key_steps(self.indent, self.max_col, key_items_view(items@), items@.len() as int),
        decreases items, items@.len() + 1,
    {
        let mut out = String::new();
        let mut i: usize = 0;
        while i < items.len()
            invariant
                i <= items.len(),
                out@ == key_steps(self.indent, self.max_col, key_items_view(items@), i as int),
            decreases items.len() - i,
        {
            let mut piece = self.format_key_item(&items[i]);
            if i + 1 < items.len() {
                piece.append(", ");
            } else {
                assert(piece@ =~= piece@ + Seq::<char>::empty());
            }
            out.append(piece.as_str());
            i += 1;
            assert(out@ =~= key_steps(self.indent, self.max_col, key_items_view(items@), i as int));
        }
        out
    }

    /// One argument of a chained attribute.
    fn format_argument(&self, item: &AstNodeEnum, begin_indent: usize) -> (r: String)
        ensures
            r@ == argument_text(self.indent, self.max_col, item.model(), begin_indent),
        decreases item, 5nat,
    {
        match item {
            AstNodeEnum::AttrDef(a) => {
                let mut out = a.name.name.clone();
                out.append("=");
                out.append(self.format_value(&*a.value, begin_indent).as_str());
                out
            },
            other => {
                proof {
                    lemma_model_kind(*other);
                }
                self.format_value(other, begin_indent)
            },
        }
    }

    /// Arguments with `, ` between neighbours.
    fn format_plain_list(&self, items: &Vec<AstNodeEnum>, begin_indent: usize) -> (r: String)
        ensures
            r@ == plain_steps(self.indent, self.max_col, nodes_view(items@), begin_indent, items@.len() as int),
        decreases items, items@.len() + 1,
    {
        let mut body = String::new();
        let mut i: usize = 0;
        while i < items.len()
            invariant
                i <= items.len(),
                body@ == plain_steps(self.indent, self.max_col, nodes_view(items@), begin_indent, i as int),
            decreases items.len() - i,
        {
            let mut piece = self.format_argument(&items[i], begin_indent);
            if i + 1 < items.len() {
                piece.append(", ");
            } else {
                assert(piece@ =~= piece@ + Seq::<char>::empty());
            }
            body.append(piece.as_str());
            i += 1;
            assert(body@ =~= plain_steps(self.indent, self.max_col, nodes_view(items@), begin_indent, i as int));
        }
        body
    }

    /// The items of a specification with `, ` between neighbours.
    fn format_spec_items(&self, items: &Vec<OpSpecItem>, begin_indent: usize) -> (r: String)
        ensures
            r@ == spec_steps(self.indent, self.max_col, spec_items_view(items@), begin_indent, items@.len() as int),
        decreases items, items@.len() + 1,
    {
        let mut body = String::new();
        let mut i: usize = 0;
        while i < items.len()
            invariant
                i <= items.len(),
                body@ == spec_steps(self.indent, self.max_col, spec_items_view(items@), begin_indent, i as int),
            decreases items.len() - i,
        {
            let mut piece = items[i].name.clone();
            piece.append("=");
            piece.append(self.format_value(&*items[i].value, begin_indent).as_str());
            if i + 1 < items.len() {
                piece.append(", ");
            } else {
                assert(piece@ =~= piece@ + Seq::<char>::empty());
            }
            body.append(piece.as_str());
            i += 1;
            assert(body@ =~= spec_steps(self.indent, self.max_col, spec_items_view(items@), begin_indent, i as int));
        }
        body
    }

    /// One keyed input.
    fn format_key_item(&self, item: &NodeInputKeyItem) -> (r: String)
        ensures
            r@ == key_item_text(self.indent, self.max_col, item.model()),
        decreases item, 0nat,
    {
        let mut out = item.key.name.clone();
        match &*item.value {
            AstNodeEnum::NodeInputValues(values) => {
                if values.items.len() == 1 {
                    out.append("=");
                    out.append(values.items[0].name.as_str());
                } else {
                    out.append("=(");
                    let names = symbol_texts(&values.items);
                    out.append(join(&names, ", ").as_str());
                    out.append(")");
                }
            },
            other => {
                out.append("=");
                out.append(self.format_value(other, 0).as_str());
            },
        }
        out
    }

    /// The value of a chained attribute.
    pub fn format_node_attr_value(&self, value: &NodeAttrValue, begin_indent: usize) -> (r: String)
        ensures
            r@ == attr_value_text(self.indent, self.max_col, value.model(), begin_indent),
        decreases value, 0nat,
    {
        match value {
            NodeAttrValue::Symbol(sym) => sym.name.clone(),
            NodeAttrValue::String(str_lit) => quoted_string(str_lit.value.as_str()),
            NodeAttrValue::List(items) => self.format_plain_list(items, begin_indent),
        }
    }

    /// A conditional.
    pub fn format_condition_block(&self, cond: &ConditionBlock, begin_indent: usize) -> (r: String)
        ensures
            r@ == condition_text(self.indent, self.max_col, cond.model(), begin_indent),
        decreases cond, 0nat,
    {
        let mut out = match &*cond.condition {
            ConditionExpr::Statement(stmt) => self.format_condition_statement(
                &**stmt,
                begin_indent,
            ),
            ConditionExpr::Block(block) => self.format_node_block(block, begin_indent),
        };
        out.append(" ? ");
        out.append(self.format_value(&*cond.true_branch, begin_indent).as_str());
        out.append(" : ");
        out.append(self.format_value(&*cond.false_branch, begin_indent).as_str());
        out
    }

    /// A comparison.
    pub fn format_condition_statement(&self, stmt: &ConditionStatement, begin_indent: usize) -> (r:
        String)
        ensures
            r@ == statement_text(self.indent, self.max_col, stmt.model(), begin_indent),
        decreases stmt, 0nat,
    {
        let mut out = self.format_value(&*stmt.left_operand, begin_indent);
        out.append(" ");
        out.append(stmt.operator.as_str());
        out.append(" ");
        out.append(self.format_value(&*stmt.right_operand, begin_indent).as_str());
        out
    }

    /// An operation block.
    pub fn format_op_def(&self, op: &OpDef, begin_indent: usize) -> (r: String)
        ensures
            r@ == node_text(self.indent, self.max_col, NodeModel::OpDef(op.model()), begin_indent),
        decreases op, 1nat,
    {
        self.format_brace_as_version(op, "op", begin_indent)
    }

    /// The meta section of an operation.
    pub fn format_op_meta(&self, meta: &OpMeta, begin_indent: usize) -> (r: String)
        ensures
            r@ == node_text(self.indent, self.max_col, NodeModel::OpMeta(meta.model()), begin_indent),
        decreases meta, 0nat,
    {
        let inner = add_col(begin_indent, self.indent);
        let attrs = &meta.children;
        let mut body = String::new();
        let mut i: usize = 0;
        while i < attrs.len()
            invariant
                i <= attrs.len(),
                body@ == meta_steps(self.indent, self.max_col, attr_defs_view(attrs@), inner, i as int),
                *attrs == meta.children,
            decreases attrs.len() - i,
        {
            let mut piece = self.format_attr_def(&attrs[i], inner);
            if i + 1 < attrs.len() {
                piece.append(line_end_of(self.indent).as_str());
            } else {
                assert(piece@ =~= piece@ + Seq::<char>::empty());
            }
            body.append(piece.as_str());
            i += 1;
            assert(body@ =~= meta_steps(self.indent, self.max_col, attr_defs_view(attrs@), inner, i as int));
        }
        let mut out = self.frame("meta", body.as_str(), attrs.len() > 0, begin_indent, true);
        out.append(";");
        out
    }

    /// The input section of an operation.
    pub fn format_op_input(&self, input: &OpInput, begin_indent: usize) -> (r: String)
        ensures
            r@ == node_text(self.indent, self.max_col, NodeModel::OpInput(input.model()), begin_indent),
        decreases input, 0nat,
    {
        self.format_brace_end("input", &input.children, begin_indent, true)
    }

    /// The output section of an operation.
    pub fn format_op_output(&self, output: &OpOutput, begin_indent: usize) -> (r: String)
        ensures
            r@ == node_text(self.indent, self.max_col, NodeModel::OpOutput(output.model()), begin_indent),
        decreases output, 0nat,
    {
        self.format_brace_end("output", &output.children, begin_indent, true)
    }

    /// The config section of an operation.
    pub fn format_op_config(&self, config: &OpConfig, begin_indent: usize) -> (r: String)
        ensures
            r@ == node_text(self.indent, self.max_col, NodeModel::OpConfig(config.model()), begin_indent),
        decreases config, 0nat,
    {
        self.format_brace_end("config", &config.children, begin_indent, true)
    }

    /// One specification of a section.
    pub fn format_op_spec(&self, spec: &OpSpec, begin_indent: usize) -> (r: String)
        ensures
            r@ == node_text(self.indent, self.max_col, NodeModel::OpSpec(spec.model()), begin_indent),
        decreases spec, 0nat,
    {
        let mut out = pad_of(self.indent, begin_indent);
        out.append(spec.name.name.as_str());
        out.append(": ");
        let items_text = match &spec.items {
            Some(items) => {
                if items.len() == 1 && str_eq(items[0].name.as_str(), "dtype") {
                    let mut t = self.format_value(&*items[0].value, begin_indent);
                    t.append(";");
                    t
                } else {
                    let body = self.format_spec_items(items, begin_indent);
                    let mut t = "(".to_owned();
                    t.append(body.as_str());
                    t.append(");");
                    t
                }
            },
            None => String::new(),
        };
        out.append(items_text.as_str());
        out
    }

    /// A dictionary.
    pub fn format_dict_statement(&self, dict: &DictStatement, begin_indent: usize) -> (r: String)
        ensures
            r@ == dict_text(self.indent, self.max_col, dict.model(), begin_indent),
        decreases dict, 0nat,
    {
        let items = &dict.items;
        let mut pieces: Vec<String> = Vec::new();
        let mut i: usize = 0;
        while i < items.len()
            invariant
                i <= items.len(),
                pieces@.len() == i,
                *items == dict.items,
                forall|j: int|
                    0 <= j < i ==> (#[trigger] pieces@[j])@ == dict_item_text(
                        self.indent,
                        self.max_col,
                        dict_items_view(items@)[j],
                        begin_indent,
                    ),
            decreases items.len() - i,
        {
            let mut pair = self.format_value(&*items[i].key, begin_indent);
            pair.append(": ");
            pair.append(self.format_value(&*items[i].value, begin_indent).as_str());
            pieces.push(pair);
            i += 1;
        }
        assert(texts(pieces@) =~= pair_texts(
            self.indent,
            self.max_col,
            dict_items_view(items@),
            begin_indent,
        ));
        self.lay_out("{", "}", &pieces, begin_indent)
    }

    /// What stands behind an item of a collection.
    fn tail(&self, wrap: bool, more: bool) -> (r: String)
        ensures
            r@ == item_tail(self.indent, wrap, more),
    {
        if more {
            if wrap {
                let mut t = ",".to_owned();
                t.append(line_end_of(self.indent).as_str());
                t
            } else {
                ", ".to_owned()
            }
        } else {
            String::new()
        }
    }

    /// The first pieces of a collection, on one line or one per line.
    fn lay_pieces(&self, pieces: &Vec<String>, begin_indent: usize, wrap: bool) -> (r: String)
        ensures
            r@ == laid_steps(self.indent, texts(pieces@), begin_indent, wrap, pieces@.len() as int),
    {
        let lead = if wrap {
            pad_of(self.indent, add_col(begin_indent, self.indent))
        } else {
            String::new()
        };
        let mut body = String::new();
        let mut i: usize = 0;
        while i < pieces.len()
            invariant
                i <= pieces.len(),
                lead@ == item_lead(self.indent, begin_indent, wrap),
                body@ == laid_steps(self.indent, texts(pieces@), begin_indent, wrap, i as int),
            decreases pieces.len() - i,
        {
            body.append(lead.as_str());
            body.append(pieces[i].as_str());
            body.append(self.tail(wrap, i + 1 < pieces.len()).as_str());
            i += 1;
            assert(body@ =~= laid_steps(self.indent, texts(pieces@), begin_indent, wrap, i as int));
        }
        body
    }

    /// A collection between its delimiters: on one line where that stays
    /// within the column limit, else one piece per line.
    pub fn lay_out(&self, start: &str, end: &str, pieces: &Vec<String>, begin_indent: usize) -> (r:
        String)
        ensures
            r@ == laid_text(self.indent, self.max_col, start@, end@, texts(pieces@), begin_indent),
    {
        let mut out = start.to_owned();
        if pieces.len() == 0 {
            out.append(end);
            return out;
        }
        let line = self.lay_pieces(pieces, begin_indent, false);
        let w = add_col(add_col(text_width(start), text_width(line.as_str())), text_width(end));
        if self.indent > 0 && add_col(begin_indent, w) > self.max_col {
            let body = self.lay_pieces(pieces, begin_indent, true);
            out.append(line_end_of(self.indent).as_str());
            out.append(body.as_str());
            out.append(line_end_of(self.indent).as_str());
            let back = dedent_of(add_col(begin_indent, self.indent), self.indent);
            out.append(pad_of(self.indent, back).as_str());
            out.append(end);
        } else {
            out.append(line.as_str());
            out.append(end);
        }
        out
    }

    /// A list.
    pub fn format_list_statement(&self, list: &ListStatement, begin_indent: usize) -> (r: String)
        ensures
            r@ == seq_text(self.indent, self.max_col, "["@, "]"@, nodes_view(list.items@), begin_indent),
        decreases list, 0nat,
    {
        self.format_sequence("[", "]", &list.items, begin_indent)
    }

    /// A tuple.
    pub fn format_tuple_statement(&self, tuple: &TupleStatement, begin_indent: usize) -> (r: String)
        ensures
            r@ == seq_text(self.indent, self.max_col, "("@, ")"@, nodes_view(tuple.items@), begin_indent),
        decreases tuple, 0nat,
    {
        self.format_sequence("(", ")", &tuple.items, begin_indent)
    }

    /// A set.
    pub fn format_set_statement(&self, set: &SetStatement, begin_indent: usize) -> (r: String)
        ensures
            r@ == seq_text(self.indent, self.max_col, "{"@, "}"@, nodes_view(set.items@), begin_indent),
        decreases set, 0nat,
    {
        self.format_sequence("{", "}", &set.items, begin_indent)
    }

    /// A closed interval.
    pub fn format_closed_interval(&self, interval: &ClosedInterval, _begin_indent: usize) -> (r:
        String)
        ensures
            r@ == closed_interval_text(interval.model()),
    {
        let mut parts: Vec<String> = Vec::new();
        match &interval.ge {
            Some(ge) => {
                let mut s = "[".to_owned();
                s.append(ge.raw.as_str());
                parts.push(s);
            },
            None => {},
        }
        match &interval.le {
            Some(le) => {
                let mut s = le.raw.clone();
                s.append("]");
                parts.push(s);
            },
            None => {},
        }
        let out = join(&parts, ", ");
        proof {
            let t = texts(parts@);
            assert(t.len() == parts@.len());
            if parts@.len() == 2 {
                assert(t[0] == parts@[0]@ && t[1] == parts@[1]@);
                assert(crate::text::join_text(t, ", "@, 2) == crate::text::join_text(t, ", "@, 1)
                    + ", "@ + t[1]);
                assert(out@ =~= closed_interval_text(interval.model()));
            } else if parts@.len() == 1 {
                assert(t[0] == parts@[0]@);
            }
        }
        out
    }

    /// An interval whose ends are each closed or open.
    pub fn format_mix_interval(&self, interval: &MixInterval, _begin_indent: usize) -> (r: String)
        ensures
            r@ == mix_left(interval.model()) + ", "@ + mix_right(interval.model()),
    {
        let mut out = match &interval.ge {
            Some(ge) => {
                let mut s = "[".to_owned();
                s.append(ge.raw.as_str());
                s
            },
            None => match &interval.gt {
                Some(gt) => {
                    let mut s = "(".to_owned();
                    s.append(gt.raw.as_str());
                    s
                },
                None => "(".to_owned(),
            },
        };
        let right = match &interval.le {
            Some(le) => {
                let mut s = le.raw.clone();
                s.append("]");
                s
            },
            None => match &interval.lt {
                Some(lt) => {
                    let mut s = lt.raw.clone();
                    s.append(")");
                    s
                },
                None => ")".to_owned(),
            },
        };
        out.append(", ");
        out.append(right.as_str());
        out
    }

    /// A value as source text.
    pub fn format_value(&self, ast: &AstNodeEnum, begin_indent: usize) -> (r: String)
        ensures
            r@ == node_text(self.indent, self.max_col, ast.model(), begin_indent),
        decreases ast, 4nat,
    {
        self.format_node(ast, begin_indent)
    }

    /// A list, tuple or set between its delimiters.
    pub fn format_sequence(
        &self,
        start: &str,
        end: &str,
        items: &Vec<AstNodeEnum>,
        begin_indent: usize,
    ) -> (r: String)
        ensures
            r@ == seq_text(
                self.indent,
                self.max_col,
                start@,
                end@,
                nodes_view(items@),
                begin_indent,
            ),
        decreases items, items@.len() + 1,
    {
        let mut pieces: Vec<String> = Vec::new();
        let mut i: usize = 0;
        while i < items.len()
            invariant
                i <= items.len(),
                pieces@.len() == i,
                forall|j: int|
                    0 <= j < i ==> (#[trigger] pieces@[j])@ == node_text(
                        self.indent,
                        self.max_col,
                        nodes_view(items@)[j],
                        begin_indent,
                    ),
            decreases items.len() - i,
        {
            pieces.push(self.format_value(&items[i], begin_indent));
            i += 1;
        }
        assert(texts(pieces@) =~= item_texts(
            self.indent,
            self.max_col,
            nodes_view(items@),
            begin_indent,
        ));
        self.lay_out(start, end, &pieces, begin_indent)
    }

    /// The frame of a block around its body.
    fn frame(&self, name: &str, body: &str, has_children: bool, begin_indent: usize, is_first_line: bool) -> (r:
        String)
        ensures
            r@ == brace_frame(
                self.indent,
                name@,
                body@,
                has_children,
                begin_indent,
                is_first_line,
            ),
    {
        let mut out = if is_first_line {
            String::new()
        } else {
            line_end_of(self.indent)
        };
        out.append(pad_of(self.indent, begin_indent).as_str());
        out.append(name);
        out.append(" {");
        out.append(line_end_of(self.indent).as_str());
        let mut current = begin_indent;
        let inner = if has_children {
            current = dedent_of(add_col(begin_indent, self.indent), self.indent);
            let mut b = body.to_owned();
            if has_final_newline(body) {
                assert(b@ =~= b@ + Seq::<char>::empty());
            } else {
                b.append(line_end_of(self.indent).as_str());
            }
            b
        } else {
            String::new()
        };
        out.append(inner.as_str());
        out.append(pad_of(self.indent, current).as_str());
        out.append("}");
        out
    }

    /// A block of statements between braces.
    pub fn format_brace(
        &self,
        name: &str,
        children: &Vec<AstNodeEnum>,
        begin_indent: usize,
        is_first_line: bool,
    ) -> (r: String)
        ensures
            r@ == brace_text(self.indent, self.max_col, name@, nodes_view(children@), begin_indent, is_first_line),
        decreases children, children@.len() + 2,
    {
        let body = if children.len() > 0 {
            self.format_list_with_comment(children, add_col(begin_indent, self.indent))
        } else {
            String::new()
        };
        proof {
            if children@.len() == 0 {
                assert(brace_frame(self.indent, name@, body@, false, begin_indent, is_first_line)
                    == brace_frame(
                    self.indent,
                    name@,
                    list_text(self.indent, self.max_col, nodes_view(children@), sat_add(begin_indent, self.indent)),
                    false,
                    begin_indent,
                    is_first_line,
                ));
            }
        }
        self.frame(name, body.as_str(), children.len() > 0, begin_indent, is_first_line)
    }

    /// An operation block with its alias and version.
    pub fn format_brace_as_version(&self, node: &OpDef, name: &str, begin_indent: usize) -> (r:
        String)
        ensures
            r@ == brace_text(
                self.indent, self.max_col,
                name@,
                nodes_view(node.children@),
                begin_indent,
                starts_text(node.position),
            ) + alias_text(
                symbol_model(node.alias),
                op_version_text(crate::compiler::ir::text_of(node.version)),
            ) + ";"@,
        decreases node, 0nat,
    {
        let mut out = self.format_brace(
            name,
            &node.children,
            begin_indent,
            starts_the_text(&node.position),
        );
        let version = match &node.version {
            Some(v) => if is_name_text(v.as_str()) {
                Some(v.clone())
            } else {
                Some(quoted_string(v.as_str()))
            },
            None => None,
        };
        let a = alias_part(&node.alias, version);
        out.append(a.as_str());
        out.append(";");
        out
    }

    /// A block of statements between braces with `;` behind it.
    pub fn format_brace_end(
        &self,
        name: &str,
        children: &Vec<AstNodeEnum>,
        begin_indent: usize,
        is_first_line: bool,
    ) -> (r: String)
        ensures
            r@ == brace_text(self.indent, self.max_col, name@, nodes_view(children@), begin_indent, is_first_line) + ";"@,
        decreases children, children@.len() + 3,
    {
        let mut out = self.format_brace(name, children, begin_indent, is_first_line);
        out.append(";");
        out
    }

    /// A statement list with the comments that stand at the ends of lines.
    #[verifier::rlimit(60)]
    pub fn format_list_with_comment(&self, children: &Vec<AstNodeEnum>, begin_indent: usize) -> (r:
        String)
        ensures
            r@ == list_text(self.indent, self.max_col, nodes_view(children@), begin_indent),
        decreases children, children@.len() + 1,
    {
        let mut out = String::new();
        let mut next_comment = false;
        let mut index: usize = 0;
        while index < children.len()
            invariant
                index <= children.len(),
                out@ == list_steps(self.indent, self.max_col, nodes_view(children@), begin_indent, index as int).text,
                next_comment == list_steps(self.indent, self.max_col, nodes_view(children@), begin_indent, index as int).skip,
            decreases children.len() - index,
        {
            let ghost prev = list_steps(self.indent, self.max_col, nodes_view(children@), begin_indent, index as int);
            if next_comment {
                next_comment = false;
            } else {
                let child = &children[index];
                let cur_end = crate::ast::AstNode::position(child).end_line;
                let mut piece = self.format_node(child, begin_indent);
                match self.get_inline_comment(index, cur_end, children) {
                    Some(comment) => {
                        piece.append(" ");
                        piece.append(comment.as_str());
                        piece.append("\n");
                        next_comment = true;
                    },
                    None => {
                        let is_comment = match child {
                            AstNodeEnum::Comment(_) => true,
                            _ => false,
                        };
                        if index + 1 < children.len() && !is_comment {
                            piece.append(line_end_of(self.indent).as_str());
                        } else {
                            assert(piece@ =~= piece@ + Seq::<char>::empty());
                        }
                    },
                }
                out.append(piece.as_str());
            }
            index += 1;
            assert(out@ =~= list_steps(self.indent, self.max_col, nodes_view(children@), begin_indent, index as int).text);
        }
        out
    }

    /// The comment that follows the child at `index` on its line.
    pub fn get_inline_comment(&self, index: usize, cur_end: usize, children: &Vec<AstNodeEnum>) -> (r:
        Option<String>)
        ensures
            crate::compiler::ir::text_of(r) == inline_comment(
                self.indent,
                nodes_view(children@),
                index as int,
                cur_end,
            ),
    {
        if index < children.len() && index + 1 < children.len() {
            proof {
                lemma_model_kind(children@[index as int]);
            }
            let behind_comment = match &children[index] {
                AstNodeEnum::Comment(_) => true,
                _ => false,
            };
            if !behind_comment {
                match &children[index + 1] {
                    AstNodeEnum::Comment(comment) => {
                        if comment.position.line == cur_end || self.indent == 0 {
                            return Some(comment.value.clone());
                        }
                    },
                    _ => {},
                }
            }
        }
        None
    }

    /// The width of a value as it was written.
    pub fn value_length(&self, ast: &AstNodeEnum) -> (r: usize)
        ensures
            r == value_width(ast.model()),
    {
        match ast {
            AstNodeEnum::NumberLiteral(n) => text_width(n.raw.as_str()),
            AstNodeEnum::FloatLiteral(n) => text_width(n.raw.as_str()),
            AstNodeEnum::BoolLiteral(n) => text_width(n.raw.as_str()),
            AstNodeEnum::StringLiteral(n) => text_width(n.value.as_str()),
            AstNodeEnum::MultiLineStringLiteral(n) => text_width(n.value.as_str()),
            AstNodeEnum::Symbol(n) => text_width(n.name.as_str()),
            AstNodeEnum::NullLiteral(_) => 4,
            AstNodeEnum::DateLiteral(n) => text_width(n.value.as_str()),
            _ => 0,
        }
    }

    /// Whether the value, written at the formatter's column, would pass the
    /// column limit while indentation is on.
    pub fn need_line(&self, ast: &AstNodeEnum) -> (r: bool)
        ensures
            r == (sat_add(self.cur_col, value_width(ast.model())) > self.max_col && self.indent > 0),
    {
        add_col(self.cur_col, self.value_length(ast)) > self.max_col && self.indent > 0
    }

}

/// Whether a string reads back from between the quote `q`, from index `i`
/// on: no line feed and no free `q` stands in it, and no backslash at its end
/// takes the closing quote.
pub open spec fn reads_back(value: Seq<char>, q: char, i: int) -> bool
    decreases value.len() - i,
{
    if i < 0 || i > value.len() {
        false
    } else if i == value.len() {
        true
    } else if value[i] == '\n' || value[i] == q {
        false
    } else if value[i] == '\\' && i + 1 == value.len() {
        false
    } else if value[i] == '\\' && value[i + 1] != '\n' {
        reads_back(value, q, i + 2)
    } else {
        reads_back(value, q, i + 1)
    }
}

/// The grammar reads the rest of a string up to its closing quote.
pub proof fn lemma_quoted_rest_reads(
    cs: Seq<char>,
    from: Cursor,
    open: Cursor,
    c: Cursor,
    q: char,
    v: Seq<char>,
    i: int,
)
    requires
        cs.len() <= usize::MAX,
        q != '\n',
        0 <= i <= v.len(),
        open.pos + v.len() < cs.len(),
        cs.subrange(open.pos as int, open.pos + v.len()) == v,
        cs[open.pos + v.len()] == q,
        c.pos == open.pos + i,
        reads_back(v, q, i),
    ensures
        quoted_rest(cs, from, open, c, q) matches Read::Got(NodeModel::StringLiteral(s), end)
            && s.value == v && end.pos == open.pos + v.len() + 1,
    decreases v.len() - i,
{
    assert(inside(cs, c));
    if i == v.len() {
        assert(cs[c.pos as int] == q);
        assert(cs.subrange(open.pos as int, c.pos as int) == v);
    } else {
        assert(cs[c.pos as int] == cs.subrange(open.pos as int, open.pos + v.len())[i]);
        assert(cs[c.pos as int] == v[i]);
        let next = step(cs, c);
        assert(next.pos == c.pos + 1);
        if v[i] == '\\' {
            assert(i + 1 < v.len());
            assert(cs[next.pos as int] == cs.subrange(open.pos as int, open.pos + v.len())[i + 1]);
            assert(cs[next.pos as int] == v[i + 1]);
            assert(inside(cs, next));
            if v[i + 1] != '\n' {
                let after = step(cs, next);
                assert(after.pos == c.pos + 2);
                lemma_quoted_rest_reads(cs, from, open, after, q, v, i + 2);
            } else {
                lemma_quoted_rest_reads(cs, from, open, next, q, v, i + 1);
            }
        } else {
            lemma_quoted_rest_reads(cs, from, open, next, q, v, i + 1);
        }
    }
}

/// A string that the formatter has written is read back as that string:
/// where the text of a string literal stands at `c` and the string reads
/// back from between its quote, the grammar reads a string literal with the
/// same value there and ends behind the closing quote.
pub proof fn lemma_string_reads_back(cs: Seq<char>, c: Cursor, v: Seq<char>)
    requires
        cs.len() <= usize::MAX,
        reads_back(v, quote_of(v), 0),
        has_word(cs, c.pos as int, string_text(v)),
        v.len() == 0 ==> char_after(cs, c, 2) != Some(quote_of(v)),
    ensures
        read_string(cs, c) matches Read::Got(NodeModel::StringLiteral(s), end) && s.value == v
            && end.pos == c.pos + v.len() + 2,
{
    let q = quote_of(v);
    let t = string_text(v);
    assert(t.len() == v.len() + 2);
    let part = cs.subrange(c.pos as int, c.pos + t.len());
    assert(part == t);
    assert(cs[c.pos as int] == part[0]);
    assert(cs[c.pos as int] == q);
    assert(cs[c.pos + v.len() + 1] == part[v.len() as int + 1]);
    assert(cs[c.pos + v.len() + 1] == q);
    assert(string_at(cs, c));
    let open = step(cs, c);
    assert(open.pos == c.pos + 1);
    assert(cs.subrange(open.pos as int, open.pos + v.len()) =~= v) by {
        assert forall|k: int| 0 <= k < v.len() implies cs[open.pos + k] == v[k] by {
            assert(cs[c.pos + 1 + k] == part[1 + k]);
        }
    }
    assert(!has_word(cs, c.pos as int, triple(q))) by {
        reveal_strlit("\"\"\"");
        reveal_strlit("'''");
        assert(triple(q).len() == 3);
        if has_word(cs, c.pos as int, triple(q)) {
            let three = cs.subrange(c.pos as int, c.pos + 3);
            assert(three == triple(q));
            assert(three[1] == q);
            assert(three[2] == q);
            assert(cs[c.pos + 1] == q);
            assert(cs[c.pos + 2] == q);
            if v.len() > 0 {
                assert(cs[open.pos as int] == v[0]);
            }
        }
    }
    lemma_quoted_rest_reads(cs, c, open, open, q, v, 0);
}

/// A string that reads back from between a quote holds no free quote of
/// that kind.
pub proof fn lemma_reads_back_is_closed(v: Seq<char>, q: char, i: int)
    requires
        reads_back(v, q, i),
    ensures
        !closes(v, q, i),
    decreases v.len() - i,
{
    if i < v.len() {
        if v[i] == '\\' && i + 1 < v.len() && v[i + 1] != '\n' {
            lemma_reads_back_is_closed(v, q, i + 2);
        } else {
            lemma_reads_back_is_closed(v, q, i + 1);
        }
    }
}

/// A string that reads back from between one quote reads back from between
/// another that does not stand free in it.
pub proof fn lemma_reads_back_other_quote(v: Seq<char>, q: char, other: char, i: int)
    requires
        reads_back(v, q, i),
        !closes(v, other, i),
    ensures
        reads_back(v, other, i),
    decreases v.len() - i,
{
    if i < v.len() {
        if v[i] == '\\' && i + 1 < v.len() && v[i + 1] != '\n' {
            lemma_reads_back_other_quote(v, q, other, i + 2);
        } else {
            lemma_reads_back_other_quote(v, q, other, i + 1);
        }
    }
}

/// What the grammar reads between quotes, from `c` on, reads back from
/// between the same quote.
pub proof fn lemma_quoted_rest_value(cs: Seq<char>, from: Cursor, open: Cursor, c: Cursor, q: char)
    requires
        cs.len() <= usize::MAX,
        open.pos <= c.pos,
        quoted_rest(cs, from, open, c, q) is Got,
    ensures
        quoted_rest(cs, from, open, c, q) matches Read::Got(NodeModel::StringLiteral(s), end)
            && c.pos < end.pos <= cs.len() && s.value == cs.subrange(
            open.pos as int,
            end.pos - 1,
        ) && reads_back(s.value, q, c.pos - open.pos),
    decreases cs.len() - c.pos,
{
    assert(inside(cs, c) && cs[c.pos as int] != '\n');
    if cs[c.pos as int] == q {
    } else {
        let next = step(cs, c);
        assert(next.pos == c.pos + 1);
        let i = c.pos - open.pos;
        if cs[c.pos as int] == '\\' && inside(cs, next) && cs[next.pos as int] != '\n' {
            let after = step(cs, next);
            assert(after.pos == c.pos + 2);
            lemma_quoted_rest_value(cs, from, open, after, q);
            let v = quoted_rest(cs, from, open, after, q)->Got_0->StringLiteral_0.value;
            assert(v[i] == cs[c.pos as int]);
            assert(v[i + 1] == cs[next.pos as int]);
        } else {
            lemma_quoted_rest_value(cs, from, open, next, q);
            let v = quoted_rest(cs, from, open, next, q)->Got_0->StringLiteral_0.value;
            assert(v[i] == cs[c.pos as int]);
            if cs[c.pos as int] == '\\' {
                assert(inside(cs, next));
                assert(v[i + 1] == cs[next.pos as int]);
            }
        }
    }
}

/// A string that the grammar has read between single or double quotes is
/// one that reads back from between the quote that the formatter writes it
/// in: with `lemma_string_reads_back`, what is read as a string and written
/// again is read as the same string.
pub proof fn lemma_read_string_reads_back(cs: Seq<char>, c: Cursor)
    requires
        cs.len() <= usize::MAX,
        read_string(cs, c) matches Read::Got(NodeModel::StringLiteral(_), _),
    ensures
        read_string(cs, c) matches Read::Got(NodeModel::StringLiteral(s), _) && reads_back(
            s.value,
            quote_of(s.value),
            0,
        ),
{
    let q = cs[c.pos as int];
    assert(q == '"' || q == '\'');
    if has_word(cs, c.pos as int, triple(q)) {
        lemma_triple_is_long(cs, c, steps(cs, c, 3), steps(cs, c, 3), q);
    } else {
        let open = step(cs, c);
        lemma_quoted_rest_value(cs, c, open, open, q);
        let v = quoted_rest(cs, c, open, open, q)->Got_0->StringLiteral_0.value;
        lemma_reads_back_is_closed(v, q, 0);
        if q == '\'' && !closes(v, '"', 0) {
            lemma_reads_back_other_quote(v, q, '"', 0);
        }
    }
}

/// A string between triple quotes is read as a string of several lines.
pub proof fn lemma_triple_is_long(cs: Seq<char>, from: Cursor, open: Cursor, c: Cursor, q: char)
    ensures
        !(triple_rest(cs, from, open, c, q) matches Read::Got(NodeModel::StringLiteral(_), _)),
    decreases cs.len() - c.pos,
{
    if inside(cs, c) && !has_word(cs, c.pos as int, triple(q)) {
        lemma_triple_is_long(cs, from, open, step(cs, c), q);
    }
}

/// A string literal keeps its value through formatting: where the grammar
/// reads a string between single or double quotes in one text, and the text
/// that the formatter writes for it stands at `at` in another, the grammar
/// reads a string with the same value there. An empty string has to be
/// followed by something other than its quote.
pub proof fn lemma_string_round_trip(
    cs: Seq<char>,
    c: Cursor,
    indent: usize,
    max_col: usize,
    bi: usize,
    out: Seq<char>,
    at: Cursor,
)
    requires
        cs.len() <= usize::MAX,
        out.len() <= usize::MAX,
        read_string(cs, c) matches Read::Got(NodeModel::StringLiteral(s), _) && has_word(
            out,
            at.pos as int,
            node_text(indent, max_col, NodeModel::StringLiteral(s), bi),
        ) && (s.value.len() == 0 ==> char_after(out, at, 2) != Some(quote_of(s.value))),
    ensures
        read_string(cs, c) matches Read::Got(NodeModel::StringLiteral(s), _) && (read_string(
            out,
            at,
        ) matches Read::Got(NodeModel::StringLiteral(t), _) && t.value == s.value),
{
    lemma_read_string_reads_back(cs, c);
    let s = read_string(cs, c)->Got_0->StringLiteral_0;
    assert(node_text(indent, max_col, NodeModel::StringLiteral(s), bi) == string_text(s.value));
    lemma_string_reads_back(out, at, s.value);
}

/// The text that formatting gives for a source text that is read: the text
/// of the module that the grammar reads from it.
pub open spec fn formatted_text(content: Seq<char>, indent: usize, max_col: usize) -> Option<
    Seq<char>,
> {
    match read_module(content) {
        Read::Got(m, _) => Some(node_text(indent, max_col, NodeModel::Module(m), 0)),
        Read::Refused(_, _) => None,
    }
}

/// What formatting a source text comes to: its formatted text, or the
/// refusal of the text.
pub open spec fn formatted(
    content: Seq<char>,
    indent: usize,
    max_col: usize,
    r: Result<String, ParseError>,
) -> bool {
    match r {
        Ok(text) => formatted_text(content, indent, max_col) == Some(text@),
        Err(e) => refusal(e, read_module(content)),
    }
}

/// White space up to the end of a text is passed over as a whole.
pub proof fn lemma_blank_to_end(cs: Seq<char>, c: Cursor)
    requires
        blank_text(cs),
        cs.len() <= usize::MAX,
        c.pos <= cs.len(),
    ensures
        after_blank(cs, c).pos == cs.len(),
    decreases cs.len() - c.pos,
{
    if c.pos < cs.len() {
        assert(is_blank_char(cs[c.pos as int]));
        lemma_blank_to_end(cs, step(cs, c));
    }
}

/// Formatting a blank text gives the empty text, and formatting the empty
/// text gives the empty text again: on blank texts, formatting twice is
/// formatting once.
pub proof fn lemma_blank_text_formats_once(content: Seq<char>, indent: usize, max_col: usize)
    requires
        blank_text(content),
        content.len() <= usize::MAX,
    ensures
        formatted_text(content, indent, max_col) == Some(Seq::<char>::empty()),
        formatted_text(Seq::<char>::empty(), indent, max_col) == Some(Seq::<char>::empty()),
{
    let start = Cursor { pos: 0, line: 1, col: 1 };
    let none = Seq::<NodeModel>::empty();
    lemma_blank_to_end(content, start);
    lemma_blank_to_end(Seq::<char>::empty(), start);
    assert(list_steps(indent, max_col, none, 0, 0).text == Seq::<char>::empty());
    assert(list_text(indent, max_col, none, 0) == Seq::<char>::empty());
}

/// Reads source text and renders it again, indented by steps of `indent`
/// and with collections wrapped where they would pass column `max_col`.
/// A text that is read comes back as the text of its module; a text that is
/// not read is refused with the parser's syntax error.
pub fn format_from_data(content: &str, indent: usize, max_col: usize) -> (r: Result<
    String,
    ParseError,
>)
    ensures
        formatted(content@, indent, max_col, r),
        r matches Err(e) ==> refused(Cursor { pos: 0, line: 1, col: 1 }, e),
        blank_text(content@) ==> (r matches Ok(text) && text@ == Seq::<char>::empty()),
{
    let options = crate::parser::ParseOptions {
        ast: true,
        symbol: false,
        error: false,
        tracking: true,
        debug: false,
    };
    match crate::parser::parse_gos(content, options) {
        Ok(parsed) => {
            let formatter = Formatter::new(indent, max_col);
            let text = formatter.format(&parsed, 0);
            proof {
                if blank_text(content@) {
                    let m = parsed->Module_0;
                    assert(list_steps(indent, max_col, nodes_view(m.children@), 0, 0).text == Seq::<char>::empty());
                    assert(list_text(indent, max_col, nodes_view(m.children@), 0) == Seq::<char>::empty());
                }
            }
            Ok(text)
        },
        Err(e) => Err(e),
    }
}

} // verus!
