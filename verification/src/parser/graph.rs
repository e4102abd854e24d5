//! Calls, node definitions, conditionals and for-loops as they stand inside
//! a graph.

use crate::ast::model::{
    attrs_view, boxed_view, key_items_view, lemma_attrs_view_empty, lemma_attrs_view_push,
    lemma_boxed_view_empty, lemma_boxed_view_push, lemma_key_items_view_empty,
    lemma_key_items_view_push, lemma_nodes_view_empty, lemma_nodes_view_push,
    lemma_symbols_view_empty, lemma_symbols_view_push, nodes_view, symbols_view,
    ConditionBlockModel, ConditionExprModel, ForLoopBlockModel, NodeAttrValueModel,
    NodeBlockModel, NodeInputDefModel, NodeModel, SymbolModel,
};
use crate::ast::spans::{attrs_ok, boxed_ok, key_items_ok, nodes_ok, symbols_ok};
use crate::ast::{
    AstNodeEnum, AttrDef, ConditionBlock, ConditionDef, ConditionExpr, ConditionStatement,
    ForLoopBlock, NodeAttr, NodeAttrValue, NodeBlock, NodeDef, NodeInputDef, NodeInputKeyDef,
    NodeInputKeyItem, NodeInputTuple, NodeInputValues, Symbol, SymbolKind,
};
use crate::error::ParseError;
use crate::parser::grammar::{
    argument_kind_of, arguments_rest, attr_value_of, attribute_at,
    call_at, chain_rest, condition_at, for_loop_at, key_at, key_inputs_rest, key_kind_of,
    names_group_at, names_rest, operator_of, past, read_arguments, read_branch,
    read_callee, read_condition, read_end, read_filter, read_for_loop, read_graph_statement,
    read_if_else, read_input_value, read_inputs, read_keyed_argument, read_loop_statement,
    read_names, read_node_block, read_operand, read_property, read_test, read_tested, ref_at,
    refusal, tuple_inputs_rest, Guard, Read,
};
use crate::parser::lexer::{
    advance, advance_by, ahead, at_date, at_name, expect_char, expected, looking_at,
    looking_at_word, moved, parse_dotted, parse_name, peek, peek_at, refused, same_node,
    same_symbol, skip_blank, skip_name, skip_trivia, span, went, Cursor, Parsed,
};
use crate::parser::values::parse_value;
use crate::text::str_eq;
use vstd::prelude::*;

verus! {

/// The value of an optional node.
pub open spec fn boxed_model(x: Option<Box<AstNodeEnum>>) -> Option<Box<NodeModel>> {
    match x {
        Some(b) => Some(Box::new((*b).model())),
        None => None,
    }
}

/// Whether the names that were read, or the error, are what the reading
/// comes to.
pub open spec fn same_symbols(r: Parsed<Vec<Symbol>>, m: Read<Seq<SymbolModel>>) -> bool {
    match r {
        Ok((x, c2)) => m == Read::Got(symbols_view(x@), c2),
        Err(e) => refusal(e, m),
    }
}

/// The value of optional inputs.
pub open spec fn inputs_model_of(x: Option<NodeInputDef>) -> Option<NodeInputDefModel> {
    match x {
        Some(v) => Some(v.model()),
        None => None,
    }
}

/// Whether the inputs that were read, or the error, are what the reading
/// comes to.
pub open spec fn same_inputs(r: Parsed<Option<NodeInputDef>>, m: Read<Option<NodeInputDefModel>>) -> bool {
    match r {
        Ok((x, c2)) => m == Read::Got(inputs_model_of(x), c2),
        Err(e) => refusal(e, m),
    }
}

/// Whether the arguments that were read, or the error, are what the reading
/// comes to.
pub open spec fn same_arguments(r: Parsed<NodeAttrValue>, m: Read<NodeAttrValueModel>) -> bool {
    match r {
        Ok((x, c2)) => m == Read::Got(x.model(), c2),
        Err(e) => refusal(e, m),
    }
}

/// Whether the call that was read, or the error, is what the reading comes
/// to.
pub open spec fn same_block(r: Parsed<NodeBlock>, m: Read<NodeBlockModel>) -> bool {
    match r {
        Ok((x, c2)) => m == Read::Got(x.model(), c2),
        Err(e) => refusal(e, m),
    }
}

/// Whether the conditional that was read, or the error, is what the reading
/// comes to.
pub open spec fn same_condition(r: Parsed<ConditionBlock>, m: Read<ConditionBlockModel>) -> bool {
    match r {
        Ok((x, c2)) => m == Read::Got(x.model(), c2),
        Err(e) => refusal(e, m),
    }
}

/// Whether the test that was read, or the error, is what the reading comes
/// to.
pub open spec fn same_tested(r: Parsed<ConditionExpr>, m: Read<ConditionExprModel>) -> bool {
    match r {
        Ok((x, c2)) => m == Read::Got(x.model(), c2),
        Err(e) => refusal(e, m),
    }
}

/// Whether the for-loop that was read, or the error, is what the reading
/// comes to.
pub open spec fn same_for_loop(r: Parsed<ForLoopBlock>, m: Read<ForLoopBlockModel>) -> bool {
    match r {
        Ok((x, c2)) => m == Read::Got(x.model(), c2),
        Err(e) => refusal(e, m),
    }
}

/// Whether the optional node that was read, or the error, is what the
/// reading comes to.
pub open spec fn same_optional(r: Parsed<Option<Box<AstNodeEnum>>>, m: Read<Option<Box<NodeModel>>>) -> bool {
    match r {
        Ok((x, c2)) => m == Read::Got(boxed_model(x), c2),
        Err(e) => refusal(e, m),
    }
}

/// Whether a name stands at `c` that an opening parenthesis follows.
pub fn at_call(cs: &Vec<char>, c: Cursor) -> (r: bool)
    ensures
        r == call_at(cs@, c),
        r ==> c.pos < cs@.len(),
{
    if !at_name(cs, c) {
        return false;
    }
    match parse_dotted(cs, c, SymbolKind::NodeName, false) {
        Ok((_, end)) => match peek(cs, skip_blank(cs, end)) {
            Some('(') => true,
            _ => false,
        },
        Err(_) => false,
    }
}

/// Whether a name stands at `c` that a single `=` follows.
pub fn at_key(cs: &Vec<char>, c: Cursor) -> (r: bool)
    ensures
        r == key_at(cs@, c),
        r ==> c.pos < cs@.len(),
{
    if !at_name(cs, c) {
        return false;
    }
    let end = skip_blank(cs, skip_name(cs, c));
    match peek(cs, end) {
        Some('=') => match peek_at(cs, end, 1) {
            Some('=') => false,
            _ => true,
        },
        _ => false,
    }
}

/// Reads names with commas between at `c`.
pub fn parse_names(cs: &Vec<char>, c: Cursor, kind: SymbolKind) -> (r: Parsed<Vec<Symbol>>)
    ensures
        same_symbols(r, read_names(cs@, c, kind)),
        r matches Ok((x, c2)) ==> moved(cs@, c, c2) && symbols_ok(x@) && x@.len() > 0,
        r matches Err(e) ==> refused(c, e),
{
    let mut names: Vec<Symbol> = Vec::new();
    let (first, after) = match parse_dotted(cs, c, kind, false) {
        Ok(x) => x,
        Err(e) => {
            return Err(e);
        },
    };
    proof {
        lemma_symbols_view_empty();
        lemma_symbols_view_push(names@, first);
        assert(Seq::<SymbolModel>::empty().push(first.model()) =~= seq![first.model()]);
    }
    names.push(first);
    let mut end = after;
    loop
        invariant
            moved(cs@, c, end),
            symbols_ok(names@),
            names@.len() > 0,
            names_rest(cs@, end, kind, symbols_view(names@)) == read_names(cs@, c, kind),
        decreases cs@.len() - end.pos,
    {
        let comma = skip_trivia(cs, end);
        match peek(cs, comma) {
            Some(',') => {
                let at = skip_trivia(cs, advance(cs, comma));
                match parse_dotted(cs, at, kind, false) {
                    Ok((s, next)) => {
                        proof {
                            lemma_symbols_view_push(names@, s);
                        }
                        names.push(s);
                        end = next;
                    },
                    Err(e) => {
                        return Err(e);
                    },
                }
            },
            _ => {
                return Ok((names, end));
            },
        }
    }
}

/// Reads the value of a keyed input at `c`: a name or names between
/// parentheses, else any value.
pub fn parse_input_value(cs: &Vec<char>, c: Cursor) -> (r: Parsed<AstNodeEnum>)
    ensures
        same_node(r, read_input_value(cs@, c)),
        r matches Ok((x, c2)) ==> moved(cs@, c, c2) && x.spans_ok(),
        r matches Err(e) ==> refused(c, e),
{
    proof {
        reveal(read_input_value);
    }
    let plain_name = at_name(cs, c) && !looking_at_word(cs, c, "true") && !looking_at_word(
        cs,
        c,
        "false",
    ) && !looking_at_word(cs, c, "null") && !at_date(cs, c);
    if plain_name {
        return match parse_dotted(cs, c, SymbolKind::NodeInput, false) {
            Ok((s, end)) => {
                let mut items: Vec<Symbol> = Vec::new();
                proof {
                    lemma_symbols_view_empty();
                    lemma_symbols_view_push(items@, s);
                    assert(Seq::<SymbolModel>::empty().push(s.model()) =~= seq![s.model()]);
                }
                items.push(s);
                let values = NodeInputValues { position: span(c, end), items };
                Ok((AstNodeEnum::NodeInputValues(values), end))
            },
            Err(e) => Err(e),
        };
    }
    let open = match peek(cs, c) {
        Some('(') => true,
        _ => false,
    };
    if open {
        let inner = skip_trivia(cs, advance(cs, c));
        if at_name(cs, inner) && !at_call(cs, inner) {
            let (items, after) = match parse_names(cs, inner, SymbolKind::NodeInput) {
                Ok(x) => x,
                Err(e) => {
                    return Err(e);
                },
            };
            let close = skip_trivia(cs, after);
            return match expect_char(cs, close, ')', ")") {
                Ok(end) => {
                    let values = NodeInputValues { position: span(c, end), items };
                    Ok((AstNodeEnum::NodeInputValues(values), end))
                },
                Err(e) => Err(e),
            };
        }
    }
    assert(!names_group_at(cs@, c));
    parse_value(cs, c, SymbolKind::NodeInput)
}

/// Reads the inputs between the parentheses at `c`: nothing, values in
/// their places, or `key=value` pairs.
pub fn parse_inputs(cs: &Vec<char>, c: Cursor) -> (r: Parsed<Option<NodeInputDef>>)
    ensures
        same_inputs(r, read_inputs(cs@, c)),
        r matches Ok((x, c2)) ==> moved(cs@, c, c2) && (x is Some ==> x->0.spans_ok()),
        r matches Err(e) ==> refused(c, e),
{
    let open = match expect_char(cs, c, '(', "(") {
        Ok(n) => n,
        Err(e) => {
            return Err(e);
        },
    };
    let mut cur = skip_trivia(cs, open);
    match peek(cs, cur) {
        Some(')') => {
            return Ok((None, advance(cs, cur)));
        },
        _ => {},
    }
    if at_key(cs, cur) {
        let mut items: Vec<NodeInputKeyItem> = Vec::new();
        proof {
            lemma_key_items_view_empty();
        }
        loop
            invariant
                moved(cs@, c, cur),
                key_items_ok(items@),
                key_inputs_rest(cs@, c, cur, key_items_view(items@)) == read_inputs(cs@, c),
            decreases cs@.len() - cur.pos,
        {
            let (key, after_key) = match parse_name(cs, cur, SymbolKind::NodeInputKey) {
                Ok(x) => x,
                Err(e) => {
                    return Err(e);
                },
            };
            let eq = skip_trivia(cs, after_key);
            let value_at = match expect_char(cs, eq, '=', "=") {
                Ok(n) => skip_trivia(cs, n),
                Err(e) => {
                    return Err(e);
                },
            };
            let (value, after) = match parse_input_value(cs, value_at) {
                Ok(x) => x,
                Err(e) => {
                    return Err(e);
                },
            };
            let item = NodeInputKeyItem { position: span(cur, after), key, value: Box::new(value) };
            assert(item.spans_ok());
            proof {
                lemma_key_items_view_push(items@, item);
            }
            items.push(item);
            let next = skip_trivia(cs, after);
            match peek(cs, next) {
                Some(',') => {
                    cur = skip_trivia(cs, advance(cs, next));
                },
                Some(')') => {
                    let end = advance(cs, next);
                    let keyed = NodeInputKeyDef { position: span(c, end), items };
                    return Ok((Some(NodeInputDef::KeyValue(keyed)), end));
                },
                _ => {
                    return Err(expected(next, "comma or )"));
                },
            }
        }
    } else {
        let mut items: Vec<Box<AstNodeEnum>> = Vec::new();
        proof {
            lemma_boxed_view_empty();
        }
        loop
            invariant
                moved(cs@, c, cur),
                boxed_ok(items@),
                tuple_inputs_rest(cs@, c, cur, boxed_view(items@)) == read_inputs(cs@, c),
            decreases cs@.len() - cur.pos,
        {
            let (value, after) = match parse_value(cs, cur, SymbolKind::NodeInput) {
                Ok(x) => x,
                Err(e) => {
                    return Err(e);
                },
            };
            let boxed = Box::new(value);
            proof {
                lemma_boxed_view_push(items@, boxed);
            }
            items.push(boxed);
            let next = skip_trivia(cs, after);
            match peek(cs, next) {
                Some(',') => {
                    cur = skip_trivia(cs, advance(cs, next));
                },
                Some(')') => {
                    let end = advance(cs, next);
                    let tuple = NodeInputTuple { position: span(c, end), items };
                    return Ok((Some(NodeInputDef::Tuple(tuple)), end));
                },
                _ => {
                    return Err(expected(next, "comma or )"));
                },
            }
        }
    }
}

/// The kind of a name that stands alone between the parentheses of the
/// attribute `attr`.
fn argument_kind(attr: &str) -> (r: SymbolKind)
    ensures
        r == argument_kind_of(attr@),
{
    if str_eq(attr, "as") {
        SymbolKind::NodeAsName
    } else if str_eq(attr, "depend") {
        SymbolKind::NodeDepend
    } else {
        SymbolKind::NodeAttr
    }
}

/// The kind of a key between the parentheses of the attribute `attr`.
fn key_kind(attr: &str) -> (r: SymbolKind)
    ensures
        r == key_kind_of(attr@),
{
    if str_eq(attr, "property") {
        SymbolKind::NodeProperty
    } else {
        SymbolKind::NodeAttr
    }
}

/// Reads one `key=value` pair between the parentheses of the attribute
/// `attr`.
pub fn parse_keyed_argument(cs: &Vec<char>, c: Cursor, attr: &str) -> (r: Parsed<AstNodeEnum>)
    ensures
        same_node(r, read_keyed_argument(cs@, c, attr@)),
        r matches Ok((x, c2)) ==> moved(cs@, c, c2) && x.spans_ok(),
        r matches Err(e) ==> refused(c, e),
{
    let (name, after_key) = match parse_name(cs, c, key_kind(attr)) {
        Ok(x) => x,
        Err(e) => {
            return Err(e);
        },
    };
    let eq = skip_trivia(cs, after_key);
    let value_at = match expect_char(cs, eq, '=', "=") {
        Ok(n) => skip_trivia(cs, n),
        Err(e) => {
            return Err(e);
        },
    };
    let (value, after) = match parse_value(cs, value_at, SymbolKind::VarRef) {
        Ok(x) => x,
        Err(e) => {
            return Err(e);
        },
    };
    let attr_def = AttrDef {
        position: span(c, after),
        name,
        value: Box::new(value),
        condition: None,
        else_value: None,
    };
    assert(attr_def.spans_ok());
    Ok((AstNodeEnum::AttrDef(attr_def), after))
}

/// What the arguments of an attribute are: one string or one name as such,
/// anything else as a list.
fn attr_value(keyed: bool, items: Vec<AstNodeEnum>) -> (r: NodeAttrValue)
    requires
        nodes_ok(items@),
    ensures
        r.model() == attr_value_of(keyed, nodes_view(items@)),
        r.spans_ok(),
{
    let mut items = items;
    let ghost all = items@;
    if !keyed && items.len() == 1 {
        let only = items.remove(0);
        assert(only == all[0]);
        assert(nodes_view(all)[0] == only.model());
        match only {
            AstNodeEnum::StringLiteral(s) => NodeAttrValue::String(s),
            AstNodeEnum::Symbol(s) => NodeAttrValue::Symbol(s),
            other => {
                let mut one: Vec<AstNodeEnum> = Vec::new();
                one.push(other);
                assert(one@ =~= all);
                NodeAttrValue::List(one)
            },
        }
    } else {
        NodeAttrValue::List(items)
    }
}

/// Reads what stands between the parentheses at `c` behind the attribute
/// `attr`: `key=value` pairs, one string, one name, or values.
pub fn parse_arguments(cs: &Vec<char>, c: Cursor, attr: &str) -> (r: Parsed<NodeAttrValue>)
    ensures
        same_arguments(r, read_arguments(cs@, c, attr@)),
        r matches Ok((x, c2)) ==> moved(cs@, c, c2) && x.spans_ok(),
        r matches Err(e) ==> refused(c, e),
{
    let open = match expect_char(cs, c, '(', "(") {
        Ok(n) => n,
        Err(e) => {
            return Err(e);
        },
    };
    let mut cur = skip_trivia(cs, open);
    let mut items: Vec<AstNodeEnum> = Vec::new();
    proof {
        lemma_nodes_view_empty();
    }
    match peek(cs, cur) {
        Some(')') => {
            return Ok((NodeAttrValue::List(items), advance(cs, cur)));
        },
        _ => {},
    }
    let keyed = at_key(cs, cur);
    loop
        invariant
            moved(cs@, c, cur),
            nodes_ok(items@),
            arguments_rest(cs@, cur, attr@, keyed, nodes_view(items@)) == read_arguments(
                cs@,
                c,
                attr@,
            ),
        decreases cs@.len() - cur.pos,
    {
        let read = if keyed {
            parse_keyed_argument(cs, cur, attr)
        } else {
            parse_value(cs, cur, argument_kind(attr))
        };
        let (item, after) = match read {
            Ok(x) => x,
            Err(e) => {
                return Err(e);
            },
        };
        proof {
            lemma_nodes_view_push(items@, item);
        }
        items.push(item);
        let next = skip_trivia(cs, after);
        match peek(cs, next) {
            Some(',') => {
                cur = skip_trivia(cs, advance(cs, next));
            },
            Some(')') => {
                let end = advance(cs, next);
                return Ok((attr_value(keyed, items), end));
            },
            _ => {
                return Err(expected(next, "comma or )"));
            },
        }
    }
}

/// Whether a chained attribute starts at `c`: a dot and a name.
pub fn at_attribute(cs: &Vec<char>, c: Cursor) -> (r: bool)
    ensures
        r == attribute_at(cs@, c),
        r ==> c.pos + 1 < cs@.len(),
{
    match peek(cs, c) {
        Some('.') => match peek_at(cs, c, 1) {
            Some(ch) => crate::parser::lexer::is_name_start(ch),
            None => false,
        },
        _ => false,
    }
}

/// The place behind the next character, or `c` at the end of the text.
fn skip(cs: &Vec<char>, c: Cursor) -> (r: Cursor)
    requires
        c.pos <= cs@.len(),
    ensures
        r == past(cs@, c),
        went(cs@, c, r),
{
    if c.pos < cs.len() {
        advance(cs, c)
    } else {
        c
    }
}

/// Whether `ref(graph)` stands at `c`.
pub fn at_ref(cs: &Vec<char>, c: Cursor) -> (r: bool)
    ensures
        r == ref_at(cs@, c),
        r ==> c.pos < cs@.len(),
{
    proof {
        reveal(ref_at);
    }
    if !looking_at_word(cs, c, "ref") {
        return false;
    }
    proof {
        reveal_strlit("ref");
    }
    if c.pos > cs.len() {
        return false;
    }
    let open = skip_blank(cs, skip_name(cs, c));
    match peek(cs, open) {
        Some('(') => match parse_dotted(
            cs,
            skip_trivia(cs, skip(cs, open)),
            SymbolKind::RefGraphName,
            false,
        ) {
            Ok((_, e)) => match peek(cs, skip_trivia(cs, e)) {
                Some(')') => true,
                _ => false,
            },
            Err(_) => false,
        },
        _ => false,
    }
}

/// Reads the callee of a call at `c` and finds the place of its inputs.
pub fn parse_callee(cs: &Vec<char>, c: Cursor) -> (r: Parsed<Symbol>)
    ensures
        same_symbol(r, read_callee(cs@, c)),
        r matches Ok((x, c2)) ==> moved(cs@, c, c2) && x.spans_ok(),
        r matches Err(e) ==> refused(c, e),
{
    proof {
        reveal(read_callee);
    }
    if at_ref(cs, c) {
        let open = skip_blank(cs, skip_name(cs, c));
        let at = skip_trivia(cs, skip(cs, open));
        let (name, after) = match parse_dotted(cs, at, SymbolKind::RefGraphName, false) {
            Ok(x) => x,
            Err(e) => {
                return Err(e);
            },
        };
        let close = skip_trivia(cs, after);
        match expect_char(cs, close, ')', ")") {
            Ok(n) => Ok((name, skip_blank(cs, n))),
            Err(e) => Err(e),
        }
    } else {
        match parse_dotted(cs, c, SymbolKind::NodeName, false) {
            Ok((name, after)) => Ok((name, skip_blank(cs, after))),
            Err(e) => Err(e),
        }
    }
}

/// Reads a call at `c`: the callee, or `ref(graph)`, the inputs between
/// parentheses, and the chained attributes, which may stand on lines of
/// their own.
pub fn parse_node_block(cs: &Vec<char>, c: Cursor) -> (r: Parsed<NodeBlock>)
    ensures
        same_block(r, read_node_block(cs@, c)),
        r matches Ok((x, c2)) ==> moved(cs@, c, c2) && x.spans_ok(),
        r matches Err(e) ==> refused(c, e),
{
    let (name, inputs_at) = match parse_callee(cs, c) {
        Ok(x) => x,
        Err(e) => {
            return Err(e);
        },
    };
    let (inputs, after_inputs) = match parse_inputs(cs, inputs_at) {
        Ok(x) => x,
        Err(e) => {
            return Err(e);
        },
    };
    let ghost inputs_model = inputs_model_of(inputs);
    let mut end = after_inputs;
    let mut attrs: Vec<NodeAttr> = Vec::new();
    proof {
        lemma_attrs_view_empty();
    }
    loop
        invariant_except_break
            chain_rest(cs@, c, name.model(), inputs_model, end, attrs_view(attrs@))
                == read_node_block(cs@, c),
        invariant
            moved(cs@, c, end),
            attrs_ok(attrs@),
        ensures
            read_node_block(cs@, c) == Read::Got(
                NodeBlockModel {
                    position: crate::parser::grammar::span_of(c, end),
                    name: name.model(),
                    inputs: inputs_model,
                    attrs: if attrs_view(attrs@).len() > 0 {
                        Some(attrs_view(attrs@))
                    } else {
                        None
                    },
                },
                end,
            ),
        decreases cs@.len() - end.pos,
    {
        let dot = skip_trivia(cs, end);
        if !at_attribute(cs, dot) {
            break ;
        }
        let (attr_name, after_name) = match parse_name(
            cs,
            advance(cs, dot),
            SymbolKind::NodeAttrName,
        ) {
            Ok(x) => x,
            Err(e) => {
                return Err(e);
            },
        };
        let args_at = skip_blank(cs, after_name);
        let (value, after) = match parse_arguments(cs, args_at, attr_name.name.as_str()) {
            Ok(x) => x,
            Err(e) => {
                return Err(e);
            },
        };
        let attr = NodeAttr { position: span(dot, after), name: attr_name, value, offset: None };
        assert(attr.spans_ok());
        proof {
            lemma_attrs_view_push(attrs@, attr);
        }
        attrs.push(attr);
        end = after;
    }
    proof {
        lemma_attrs_view_push(attrs@, arbitrary());
    }
    let attrs = if attrs.len() > 0 {
        Some(attrs)
    } else {
        None
    };
    Ok((NodeBlock { position: span(c, end), name, inputs, attrs }, end))
}

/// The comparison operator at `c`, where one stands there.
pub fn operator_at(cs: &Vec<char>, c: Cursor) -> (r: Option<(String, Cursor)>)
    ensures
        match r {
            Some((op, c2)) => operator_of(cs@, c) == Some((op@, c2)),
            None => operator_of(cs@, c) is None,
        },
        r matches Some((_, c2)) ==> moved(cs@, c, c2),
{
    proof {
        reveal_strlit("==");
        reveal_strlit("!=");
        reveal_strlit(">=");
        reveal_strlit("<=");
        reveal_strlit(">");
        reveal_strlit("<");
    }
    if looking_at(cs, c, "==") {
        Some(("==".to_owned(), advance_by(cs, c, 2)))
    } else if looking_at(cs, c, "!=") {
        Some(("!=".to_owned(), advance_by(cs, c, 2)))
    } else if looking_at(cs, c, ">=") {
        Some((">=".to_owned(), advance_by(cs, c, 2)))
    } else if looking_at(cs, c, "<=") {
        Some(("<=".to_owned(), advance_by(cs, c, 2)))
    } else if looking_at(cs, c, ">") {
        Some((">".to_owned(), advance_by(cs, c, 1)))
    } else if looking_at(cs, c, "<") {
        Some(("<".to_owned(), advance_by(cs, c, 1)))
    } else {
        None
    }
}

/// Reads an operand at `c`: a call, else a value.
pub fn parse_operand(cs: &Vec<char>, c: Cursor) -> (r: Parsed<AstNodeEnum>)
    ensures
        same_node(r, read_operand(cs@, c)),
        r matches Ok((x, c2)) ==> moved(cs@, c, c2) && x.spans_ok(),
        r matches Err(e) ==> refused(c, e),
{
    if at_call(cs, c) {
        match parse_node_block(cs, c) {
            Ok((b, end)) => Ok((AstNodeEnum::NodeBlock(b), end)),
            Err(e) => Err(e),
        }
    } else {
        parse_value(cs, c, SymbolKind::VarRef)
    }
}

/// Whether a conditional goes on at `c`, behind its first operand: with a
/// comparison operator or with `?`.
pub fn at_condition(cs: &Vec<char>, c: Cursor) -> (r: bool)
    ensures
        r == condition_at(cs@, c),
{
    match peek(cs, c) {
        Some('?') => true,
        _ => operator_at(cs, c).is_some(),
    }
}

/// Reads what a conditional tests, behind its first operand, which started
/// at `from` and ended at `c`, and finds the place of the `?`.
pub fn parse_tested(cs: &Vec<char>, from: Cursor, first: AstNodeEnum, c: Cursor) -> (r: Parsed<
    ConditionExpr,
>)
    requires
        from.pos < c.pos <= cs@.len(),
        ahead(from, c),
        first.spans_ok(),
    ensures
        same_tested(r, read_tested(cs@, from, first.model(), c)),
        r matches Ok((x, c2)) ==> went(cs@, c, c2) && x.spans_ok(),
        r matches Err(e) ==> refused(c, e),
{
    proof {
        reveal(read_tested);
    }
    let at = skip_trivia(cs, c);
    match operator_at(cs, at) {
        Some((operator, after_op)) => {
            let (right, after) = match parse_operand(cs, skip_trivia(cs, after_op)) {
                Ok(x) => x,
                Err(e) => {
                    return Err(e);
                },
            };
            let statement = ConditionStatement {
                position: span(from, after),
                left_operand: Box::new(first),
                right_operand: Box::new(right),
                operator,
            };
            assert(statement.spans_ok());
            let test = ConditionExpr::Statement(Box::new(statement));
            assert(test.spans_ok());
            Ok((test, skip_trivia(cs, after)))
        },
        None => match first {
            AstNodeEnum::NodeBlock(b) => {
                let test = ConditionExpr::Block(b);
                assert(test.spans_ok());
                Ok((test, at))
            },
            _ => Err(expected(at, "comparison")),
        },
    }
}

/// Reads the rest of a conditional behind its first operand, which started
/// at `from` and ended at `c`: the comparison, `?`, and the two branches
/// with `:` between. A branch may be a conditional itself.
pub fn parse_condition(cs: &Vec<char>, from: Cursor, first: AstNodeEnum, c: Cursor) -> (r: Parsed<
    ConditionBlock,
>)
    requires
        from.pos < c.pos <= cs@.len(),
        ahead(from, c),
        first.spans_ok(),
    ensures
        same_condition(r, read_condition(cs@, from, first.model(), c)),
        r matches Ok((x, c2)) ==> moved(cs@, c, c2) && x.spans_ok(),
        r matches Err(e) ==> refused(c, e),
    decreases cs@.len() - c.pos, 0nat,
{
    let (condition, question) = match parse_tested(cs, from, first, c) {
        Ok(x) => x,
        Err(e) => {
            return Err(e);
        },
    };
    let true_at = match expect_char(cs, question, '?', "?") {
        Ok(n) => skip_trivia(cs, n),
        Err(e) => {
            return Err(e);
        },
    };
    let (true_branch, after_true) = match parse_branch(cs, true_at) {
        Ok(x) => x,
        Err(e) => {
            return Err(e);
        },
    };
    let colon = skip_trivia(cs, after_true);
    let false_at = match expect_char(cs, colon, ':', ":") {
        Ok(n) => skip_trivia(cs, n),
        Err(e) => {
            return Err(e);
        },
    };
    let (false_branch, end) = match parse_branch(cs, false_at) {
        Ok(x) => x,
        Err(e) => {
            return Err(e);
        },
    };
    let block = ConditionBlock {
        position: span(from, end),
        condition: Box::new(condition),
        true_branch: Box::new(true_branch),
        false_branch: Box::new(false_branch),
    };
    assert(block.spans_ok());
    Ok((block, end))
}

/// Reads a branch of a conditional at `c`: an operand, or a conditional.
pub fn parse_branch(cs: &Vec<char>, c: Cursor) -> (r: Parsed<AstNodeEnum>)
    ensures
        same_node(r, read_branch(cs@, c)),
        r matches Ok((x, c2)) ==> moved(cs@, c, c2) && x.spans_ok(),
        r matches Err(e) ==> refused(c, e),
    decreases cs@.len() - c.pos, 1nat,
{
    let (first, after) = match parse_operand(cs, c) {
        Ok(x) => x,
        Err(e) => {
            return Err(e);
        },
    };
    if at_condition(cs, skip_trivia(cs, after)) {
        match parse_condition(cs, c, first, after) {
            Ok((b, end)) => Ok((AstNodeEnum::ConditionBlock(b), end)),
            Err(e) => Err(e),
        }
    } else {
        Ok((first, after))
    }
}

/// Whether a for-loop starts at `c`: `[` and a call.
pub fn at_for_loop(cs: &Vec<char>, c: Cursor) -> (r: bool)
    ensures
        r == for_loop_at(cs@, c),
        r ==> c.pos < cs@.len(),
{
    match peek(cs, c) {
        Some('[') => at_call(cs, skip_trivia(cs, advance(cs, c))),
        _ => false,
    }
}

/// Reads a test at `c`: an operand, or two operands with a comparison
/// operator between.
pub fn parse_test(cs: &Vec<char>, c: Cursor) -> (r: Parsed<AstNodeEnum>)
    ensures
        same_node(r, read_test(cs@, c)),
        r matches Ok((x, c2)) ==> moved(cs@, c, c2) && x.spans_ok(),
        r matches Err(e) ==> refused(c, e),
{
    let (left, after) = match parse_operand(cs, c) {
        Ok(x) => x,
        Err(e) => {
            return Err(e);
        },
    };
    match operator_at(cs, skip_trivia(cs, after)) {
        Some((operator, after_op)) => {
            match parse_operand(cs, skip_trivia(cs, after_op)) {
                Ok((right, end)) => {
                    let statement = ConditionStatement {
                        position: span(c, end),
                        left_operand: Box::new(left),
                        right_operand: Box::new(right),
                        operator,
                    };
                    assert(statement.spans_ok());
                    Ok((AstNodeEnum::ConditionStatement(statement), end))
                },
                Err(e) => Err(e),
            }
        },
        None => Ok((left, after)),
    }
}

/// Reads the filter of a for-loop at `c` and finds the place behind it.
pub fn parse_filter(cs: &Vec<char>, c: Cursor) -> (r: Parsed<Option<Box<AstNodeEnum>>>)
    requires
        c.pos <= cs@.len(),
    ensures
        same_optional(r, read_filter(cs@, c)),
        r matches Ok((x, c2)) ==> went(cs@, c, c2) && (x is Some ==> (*x->0).spans_ok()),
        r matches Err(e) ==> refused(c, e),
{
    if looking_at_word(cs, c, "if") {
        proof {
            reveal_strlit("if");
        }
        let cond_at = skip_trivia(cs, advance_by(cs, c, 2));
        match parse_test(cs, cond_at) {
            Ok((cond, after_cond)) => Ok((Some(Box::new(cond)), skip_trivia(cs, after_cond))),
            Err(e) => Err(e),
        }
    } else {
        Ok((None, c))
    }
}

/// Reads a for-loop at `c`: `[call for outputs in inputs if condition]`.
pub fn parse_for_loop(cs: &Vec<char>, c: Cursor) -> (r: Parsed<ForLoopBlock>)
    requires
        c.pos < cs@.len(),
    ensures
        same_for_loop(r, read_for_loop(cs@, c)),
        r matches Ok((x, c2)) ==> moved(cs@, c, c2) && x.spans_ok(),
        r matches Err(e) ==> refused(c, e),
{
    proof {
        reveal(read_for_loop);
    }
    let call_at = skip_trivia(cs, advance(cs, c));
    let (node, after_node) = match parse_node_block(cs, call_at) {
        Ok(x) => x,
        Err(e) => {
            return Err(e);
        },
    };
    let for_at = skip_trivia(cs, after_node);
    if !looking_at_word(cs, for_at, "for") {
        return Err(expected(for_at, "for"));
    }
    proof {
        reveal_strlit("for");
    }
    let outputs_at = skip_trivia(cs, advance_by(cs, for_at, 3));
    let (outputs, after_outputs) = match parse_names(cs, outputs_at, SymbolKind::ForLoopOutputs) {
        Ok(x) => x,
        Err(e) => {
            return Err(e);
        },
    };
    let in_at = skip_trivia(cs, after_outputs);
    if !looking_at_word(cs, in_at, "in") {
        return Err(expected(in_at, "in"));
    }
    proof {
        reveal_strlit("in");
    }
    let inputs_at = skip_trivia(cs, advance_by(cs, in_at, 2));
    let (inputs, after_inputs) = match parse_dotted(
        cs,
        inputs_at,
        SymbolKind::ForLoopInputs,
        false,
    ) {
        Ok(x) => x,
        Err(e) => {
            return Err(e);
        },
    };
    let (condition, close) = match parse_filter(cs, skip_trivia(cs, after_inputs)) {
        Ok(x) => x,
        Err(e) => {
            return Err(e);
        },
    };
    match expect_char(cs, close, ']', "]") {
        Ok(end) => {
            let block = ForLoopBlock {
                position: span(c, end),
                inputs,
                outputs,
                node,
                condition,
                offset: None,
            };
            assert(block.spans_ok());
            Ok((block, end))
        },
        Err(e) => Err(e),
    }
}

/// Whether the condition and the other value that were read, or the error,
/// are what the reading comes to.
pub open spec fn same_guard(
    r: Result<(Option<Box<AstNodeEnum>>, Option<Box<AstNodeEnum>>, Cursor), ParseError>,
    m: Read<Guard>,
) -> bool {
    match r {
        Ok((a, b, c2)) => m == Read::Got(
            Guard { condition: boxed_model(a), else_value: boxed_model(b) },
            c2,
        ),
        Err(e) => refusal(e, m),
    }
}

/// Reads `if condition else value` behind a value, as far as it is there.
pub fn parse_if_else(cs: &Vec<char>, c: Cursor) -> (r: Result<
    (Option<Box<AstNodeEnum>>, Option<Box<AstNodeEnum>>, Cursor),
    ParseError,
>)
    requires
        c.pos <= cs@.len(),
    ensures
        same_guard(r, read_if_else(cs@, c)),
        r matches Ok((a, b, c2)) ==> went(cs@, c, c2) && (a is Some ==> (*a->0).spans_ok()) && (b
            is Some ==> (*b->0).spans_ok()),
        r matches Err(e) ==> refused(c, e),
{
    proof {
        reveal(read_if_else);
    }
    let if_at = skip_trivia(cs, c);
    if !looking_at_word(cs, if_at, "if") {
        return Ok((None, None, c));
    }
    proof {
        reveal_strlit("if");
    }
    let cond_at = skip_trivia(cs, advance_by(cs, if_at, 2));
    let (cond, after_cond) = match parse_value(cs, cond_at, SymbolKind::VarRef) {
        Ok(x) => x,
        Err(e) => {
            return Err(e);
        },
    };
    let else_at = skip_trivia(cs, after_cond);
    if !looking_at_word(cs, else_at, "else") {
        return Ok((Some(Box::new(cond)), None, after_cond));
    }
    proof {
        reveal_strlit("else");
    }
    let other_at = skip_trivia(cs, advance_by(cs, else_at, 4));
    match parse_value(cs, other_at, SymbolKind::VarRef) {
        Ok((other, end)) => Ok((Some(Box::new(cond)), Some(Box::new(other)), end)),
        Err(e) => Err(e),
    }
}

/// Reads the `;` that ends a statement that ended at `c`.
pub fn parse_end(cs: &Vec<char>, c: Cursor) -> (r: Result<Cursor, ParseError>)
    requires
        c.pos <= cs@.len(),
    ensures
        match r {
            Ok(c2) => read_end(cs@, c) == Read::Got((), c2),
            Err(e) => refusal(e, read_end(cs@, c)),
        },
        r matches Ok(c2) ==> moved(cs@, c, c2),
        r matches Err(e) ==> refused(c, e),
{
    expect_char(cs, skip_trivia(cs, c), ';', ";")
}

/// Reads the statement that assigns the for-loop at `at` to the outputs that
/// were read from `c` on.
fn parse_loop_statement(cs: &Vec<char>, c: Cursor, outputs: Vec<Symbol>, at: Cursor) -> (r: Parsed<
    AstNodeEnum,
>)
    requires
        moved(cs@, c, at),
        at.pos < cs@.len(),
        symbols_ok(outputs@),
    ensures
        same_node(r, read_loop_statement(cs@, c, symbols_view(outputs@), at)),
        r matches Ok((x, c2)) ==> moved(cs@, c, c2) && x.spans_ok(),
        r matches Err(e) ==> refused(c, e),
{
    proof {
        reveal(read_loop_statement);
    }
    let mut outputs = outputs;
    let ghost all = outputs@;
    proof {
        lemma_symbols_view_push(all, arbitrary());
    }
    if outputs.len() != 1 {
        return Err(expected(c, "one output"));
    }
    let (block, after) = match parse_for_loop(cs, at) {
        Ok(x) => x,
        Err(e) => {
            return Err(e);
        },
    };
    let end = match parse_end(cs, after) {
        Ok(n) => n,
        Err(e) => {
            return Err(e);
        },
    };
    let name = outputs.remove(0);
    assert(name == all[0]);
    assert(symbols_view(all)[0] == name.model());
    let ghost block_model = block.model();
    let value = AstNodeEnum::ForLoopBlock(block);
    assert(value.spans_ok());
    assert(value.model() == NodeModel::ForLoopBlock(block_model));
    let attr = AttrDef {
        position: span(c, end),
        name,
        value: Box::new(value),
        condition: None,
        else_value: None,
    };
    assert(attr.spans_ok());
    assert(attr.model().value == Box::new(NodeModel::ForLoopBlock(block_model)));
    Ok((AstNodeEnum::AttrDef(attr), end))
}

/// Reads the rest of the statement that assigns the value `value`, which
/// ended at `after`, to the one name that was read from `c` on.
fn parse_property(
    cs: &Vec<char>,
    c: Cursor,
    outputs: Vec<Symbol>,
    value: AstNodeEnum,
    after: Cursor,
) -> (r: Parsed<AstNodeEnum>)
    requires
        moved(cs@, c, after),
        symbols_ok(outputs@),
        value.spans_ok(),
    ensures
        same_node(r, read_property(cs@, c, symbols_view(outputs@), value.model(), after)),
        r matches Ok((x, c2)) ==> moved(cs@, c, c2) && x.spans_ok(),
        r matches Err(e) ==> refused(c, e),
{
    proof {
        reveal(read_property);
    }
    let mut outputs = outputs;
    let ghost all = outputs@;
    proof {
        lemma_symbols_view_push(all, arbitrary());
    }
    if outputs.len() != 1 {
        return Err(expected(c, "one name"));
    }
    let (condition, else_value, behind) = match parse_if_else(cs, after) {
        Ok(x) => x,
        Err(e) => {
            return Err(e);
        },
    };
    let end = match parse_end(cs, behind) {
        Ok(n) => n,
        Err(e) => {
            return Err(e);
        },
    };
    let mut name = outputs.remove(0);
    assert(name == all[0]);
    assert(symbols_view(all)[0] == name.model());
    name.set_kind(SymbolKind::GraphProperty);
    let attr = AttrDef { position: span(c, end), name, value: Box::new(value), condition, else_value };
    assert(attr.spans_ok());
    Ok((AstNodeEnum::AttrDef(attr), end))
}

/// Reads one statement of a graph at `c`: outputs, `=`, and a call, a
/// conditional, a for-loop or a value, then `;`. A call defines a node; a
/// value sets a property.
pub fn parse_graph_statement(cs: &Vec<char>, c: Cursor) -> (r: Parsed<AstNodeEnum>)
    ensures
        same_node(r, read_graph_statement(cs@, c)),
        r matches Ok((x, c2)) ==> moved(cs@, c, c2) && x.spans_ok(),
        r matches Err(e) ==> refused(c, e),
{
    proof {
        reveal(read_graph_statement);
    }
    let (outputs, after_outputs) = match parse_names(cs, c, SymbolKind::NodeOutput) {
        Ok(x) => x,
        Err(e) => {
            return Err(e);
        },
    };
    let eq = skip_trivia(cs, after_outputs);
    let rhs_at = match expect_char(cs, eq, '=', "=") {
        Ok(n) => skip_trivia(cs, n),
        Err(e) => {
            return Err(e);
        },
    };
    if at_for_loop(cs, rhs_at) {
        return parse_loop_statement(cs, c, outputs, rhs_at);
    }
    let (first, after_first) = match parse_operand(cs, rhs_at) {
        Ok(x) => x,
        Err(e) => {
            return Err(e);
        },
    };
    parse_assigned(cs, c, outputs, rhs_at, first, after_first)
}

/// Reads the rest of the statement that assigns a conditional to the outputs
/// that were read from `c` on.
fn parse_conditional_statement(
    cs: &Vec<char>,
    c: Cursor,
    outputs: Vec<Symbol>,
    at: Cursor,
    first: AstNodeEnum,
    after: Cursor,
) -> (r: Parsed<AstNodeEnum>)
    requires
        moved(cs@, c, at),
        moved(cs@, at, after),
        symbols_ok(outputs@),
        first.spans_ok(),
    ensures
        same_node(
            r,
            crate::parser::grammar::read_conditional_statement(
                cs@,
                c,
                symbols_view(outputs@),
                at,
                first.model(),
                after,
            ),
        ),
        r matches Ok((x, c2)) ==> moved(cs@, c, c2) && x.spans_ok(),
        r matches Err(e) ==> refused(c, e),
{
    proof {
        reveal(crate::parser::grammar::read_conditional_statement);
    }
    let (block, behind) = match parse_condition(cs, at, first, after) {
        Ok(x) => x,
        Err(e) => {
            return Err(e);
        },
    };
    let end = match parse_end(cs, behind) {
        Ok(n) => n,
        Err(e) => {
            return Err(e);
        },
    };
    let def = ConditionDef { position: span(c, end), outputs, value: Box::new(block) };
    assert(def.spans_ok());
    Ok((AstNodeEnum::ConditionDef(def), end))
}

/// Reads the rest of the statement that assigns a call to the outputs that
/// were read from `c` on.
fn parse_node_statement(
    cs: &Vec<char>,
    c: Cursor,
    outputs: Vec<Symbol>,
    block: NodeBlock,
    after: Cursor,
) -> (r: Parsed<AstNodeEnum>)
    requires
        moved(cs@, c, after),
        symbols_ok(outputs@),
        block.spans_ok(),
    ensures
        same_node(
            r,
            crate::parser::grammar::read_node_statement(
                cs@,
                c,
                symbols_view(outputs@),
                block.model(),
                after,
            ),
        ),
        r matches Ok((x, c2)) ==> moved(cs@, c, c2) && x.spans_ok(),
        r matches Err(e) ==> refused(c, e),
{
    proof {
        reveal(crate::parser::grammar::read_node_statement);
    }
    let end = match parse_end(cs, after) {
        Ok(n) => n,
        Err(e) => {
            return Err(e);
        },
    };
    let def = NodeDef { position: span(c, end), outputs, value: block };
    assert(def.spans_ok());
    Ok((AstNodeEnum::NodeDef(def), end))
}

/// Reads the rest of a statement behind the first operand of its right
/// side.
fn parse_assigned(
    cs: &Vec<char>,
    c: Cursor,
    outputs: Vec<Symbol>,
    at: Cursor,
    first: AstNodeEnum,
    after: Cursor,
) -> (r: Parsed<AstNodeEnum>)
    requires
        moved(cs@, c, at),
        moved(cs@, at, after),
        symbols_ok(outputs@),
        first.spans_ok(),
    ensures
        same_node(
            r,
            crate::parser::grammar::read_assigned(
                cs@,
                c,
                symbols_view(outputs@),
                at,
                first.model(),
                after,
            ),
        ),
        r matches Ok((x, c2)) ==> moved(cs@, c, c2) && x.spans_ok(),
        r matches Err(e) ==> refused(c, e),
{
    if at_condition(cs, skip_trivia(cs, after)) {
        return parse_conditional_statement(cs, c, outputs, at, first, after);
    }
    match first {
        AstNodeEnum::NodeBlock(block) => parse_node_statement(cs, c, outputs, block, after),
        value => parse_property(cs, c, outputs, value, after),
    }
}

} // verus!
