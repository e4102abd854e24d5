//! The statements of a module: imports and the variable, graph and
//! operation blocks.

use crate::ast::model::{
    attr_defs_view, import_items_view, lemma_attr_defs_view_empty, lemma_attr_defs_view_push,
    lemma_import_items_view_empty, lemma_import_items_view_push, lemma_model_position,
    lemma_nodes_view_empty, lemma_nodes_view_push, lemma_spec_items_view_empty,
    lemma_spec_items_view_push, nodes_view, spec_items_view, symbol_model, AttrDefModel,
    GraphDefModel, ModuleModel, NumberLiteralModel, OpSpecModel,
};
use crate::ast::spans::{attr_defs_ok, import_items_ok, nodes_ok, spec_items_ok};
use crate::ast::{
    AstNode, AstNodeEnum, AttrDef, ClosedInterval, GraphDef, Import, ImportItem, MixInterval,
    Module, NumberLiteral, OpConfig, OpDef, OpInput, OpMeta, OpOutput, OpSpec, OpSpecItem,
    Position, Symbol, SymbolKind, VarDef,
};
use crate::error::ParseError;
use crate::parser::grammar::{
    after_semicolon, graph_rest, import_rest, interval_of, metas_rest, module_rest, module_span,
    op_rest, op_version, read_alias, read_attribute, read_bound, read_graph, read_import,
    read_interval, read_module, read_op, read_section, read_spec, read_spec_section,
    read_spec_value, read_statement, read_template, read_var, read_version, refusal, spec_close,
    spec_items_rest, spec_list_at, specs_rest, var_rest, Alias, Read, Template,
};
use crate::parser::graph::{
    at_key, boxed_model, parse_end, parse_graph_statement, parse_if_else, same_optional,
};
use crate::parser::lexer::{
    advance, advance_by, ahead, at_comment, at_number, at_version_call, blank_text, ends_by,
    expect_char, expected, looking_at_word, moved, parse_comment, parse_dotted, parse_name,
    parse_number, peek, refused, same_node, skip_blank, skip_trivia, span, start_cursor,
    starts_at, went, Cursor, Parsed,
};
use crate::parser::values::{parse_value, same_nodes};
use crate::text::str_eq;
use vstd::prelude::*;

verus! {

/// Whether the alias and the version that were read, or the error, are what
/// the reading comes to.
pub open spec fn same_alias(
    r: Result<(Option<Symbol>, Option<Box<AstNodeEnum>>, Cursor), ParseError>,
    m: Read<Alias>,
) -> bool {
    match r {
        Ok((a, b, c2)) => m == Read::Got(
            Alias { alias: symbol_model(a), version: boxed_model(b) },
            c2,
        ),
        Err(e) => refusal(e, m),
    }
}

/// Whether the attribute that was read, or the error, is what the reading
/// comes to.
pub open spec fn same_attribute(r: Parsed<AttrDef>, m: Read<AttrDefModel>) -> bool {
    match r {
        Ok((x, c2)) => m == Read::Got(x.model(), c2),
        Err(e) => refusal(e, m),
    }
}

/// Whether the graph that was read, or the error, is what the reading comes
/// to.
pub open spec fn same_graph(r: Parsed<GraphDef>, m: Read<GraphDefModel>) -> bool {
    match r {
        Ok((x, c2)) => m == Read::Got(x.model(), c2),
        Err(e) => refusal(e, m),
    }
}

/// Whether the specification that was read, or the error, is what the
/// reading comes to.
pub open spec fn same_spec(r: Parsed<OpSpec>, m: Read<OpSpecModel>) -> bool {
    match r {
        Ok((x, c2)) => m == Read::Got(x.model(), c2),
        Err(e) => refusal(e, m),
    }
}

/// Whether the attributes that were read, or the error, are what the
/// reading comes to.
pub open spec fn same_attributes(r: Parsed<Vec<AttrDef>>, m: Read<Seq<AttrDefModel>>) -> bool {
    match r {
        Ok((x, c2)) => m == Read::Got(attr_defs_view(x@), c2),
        Err(e) => refusal(e, m),
    }
}

/// Whether the bound that was read, or the error, is what the reading comes
/// to.
pub open spec fn same_bound(r: Parsed<Option<NumberLiteral>>, m: Read<Option<NumberLiteralModel>>) -> bool {
    match r {
        Ok((x, c2)) => m == Read::Got(
            match x {
                Some(n) => Some(n.model()),
                None => None,
            },
            c2,
        ),
        Err(e) => refusal(e, m),
    }
}

/// Reads `.version(value)` at `c`, as far as it is there.
pub fn parse_version(cs: &Vec<char>, c: Cursor) -> (r: Parsed<Option<Box<AstNodeEnum>>>)
    requires
        c.pos <= cs@.len(),
    ensures
        same_optional(r, read_version(cs@, c)),
        r matches Ok((x, c2)) ==> went(cs@, c, c2) && (x is Some ==> (*x->0).spans_ok()),
        r matches Err(e) ==> refused(c, e),
{
    if !at_version_call(cs, c) {
        return Ok((None, c));
    }
    proof {
        reveal_strlit(".version");
    }
    let open = skip_blank(cs, advance_by(cs, c, 8));
    let value_at = match expect_char(cs, open, '(', "(") {
        Ok(n) => skip_trivia(cs, n),
        Err(e) => {
            return Err(e);
        },
    };
    let (value, after) = match parse_value(cs, value_at, SymbolKind::VarRef) {
        Ok(x) => x,
        Err(e) => {
            return Err(e);
        },
    };
    match expect_char(cs, skip_trivia(cs, after), ')', ")") {
        Ok(end) => Ok((Some(Box::new(value)), end)),
        Err(e) => Err(e),
    }
}

/// Reads `as name` behind a block, as far as it is there; comments may stand
/// in front of it. With `versioned` set, `.version(value)` may follow the
/// name.
pub fn parse_alias(cs: &Vec<char>, c: Cursor, kind: SymbolKind, versioned: bool) -> (r: Result<
    (Option<Symbol>, Option<Box<AstNodeEnum>>, Cursor),
    ParseError,
>)
    requires
        c.pos <= cs@.len(),
    ensures
        same_alias(r, read_alias(cs@, c, kind, versioned)),
        r matches Ok((a, b, c2)) ==> went(cs@, c, c2) && (a is Some ==> a->0.spans_ok()) && (b is Some
            ==> (*b->0).spans_ok()),
        r matches Err(e) ==> refused(c, e),
{
    proof {
        reveal(read_alias);
    }
    let as_at = skip_trivia(cs, c);
    if !looking_at_word(cs, as_at, "as") {
        return Ok((None, None, c));
    }
    proof {
        reveal_strlit("as");
    }
    let name_at = skip_trivia(cs, advance_by(cs, as_at, 2));
    let (alias, after) = match parse_dotted(cs, name_at, kind, true) {
        Ok(x) => x,
        Err(e) => {
            return Err(e);
        },
    };
    if versioned {
        match parse_version(cs, after) {
            Ok((version, end)) => Ok((Some(alias), version, end)),
            Err(e) => Err(e),
        }
    } else {
        Ok((Some(alias), None, after))
    }
}

/// The place behind a `;` that follows the white space at `c`, or `c` where
/// there is none.
pub fn skip_semicolon(cs: &Vec<char>, c: Cursor) -> (r: Cursor)
    requires
        c.pos <= cs@.len(),
    ensures
        r == after_semicolon(cs@, c),
        went(cs@, c, r),
{
    let at = skip_blank(cs, c);
    match peek(cs, at) {
        Some(';') => advance(cs, at),
        _ => c,
    }
}

/// Reads an import at `c`, which stands at the word `import`.
pub fn parse_import(cs: &Vec<char>, c: Cursor) -> (r: Parsed<AstNodeEnum>)
    requires
        c.pos + 6 <= cs@.len(),
    ensures
        same_node(r, read_import(cs@, c)),
        r matches Ok((x, c2)) ==> moved(cs@, c, c2) && x.spans_ok() && starts_at(x.pos(), c)
            && ends_by(x.pos(), c2),
        r matches Err(e) ==> refused(c, e),
{
    let mut items: Vec<ImportItem> = Vec::new();
    let mut cur = skip_trivia(cs, advance_by(cs, c, 6));
    proof {
        lemma_import_items_view_empty();
    }
    loop
        invariant
            went(cs@, c, cur),
            import_items_ok(items@),
            import_rest(cs@, c, cur, import_items_view(items@)) == read_import(cs@, c),
        decreases cs@.len() - cur.pos,
    {
        let (path, after_path) = match parse_dotted(cs, cur, SymbolKind::ImportName, false) {
            Ok(x) => x,
            Err(e) => {
                return Err(e);
            },
        };
        let (alias, _, after) = match parse_alias(cs, after_path, SymbolKind::ImportAsName, false) {
            Ok(x) => x,
            Err(e) => {
                return Err(e);
            },
        };
        let item = ImportItem { position: span(cur, after), path, alias };
        assert(item.spans_ok());
        proof {
            lemma_import_items_view_push(items@, item);
        }
        items.push(item);
        let next = skip_trivia(cs, after);
        match peek(cs, next) {
            Some(',') => {
                cur = skip_trivia(cs, advance(cs, next));
            },
            Some(';') => {
                let end = advance(cs, next);
                let import = Import { position: span(c, after), items };
                assert(import.spans_ok());
                return Ok((AstNodeEnum::Import(import), end));
            },
            _ => {
                return Err(expected(next, "comma or ;"));
            },
        }
    }
}

/// Reads one attribute at `c`: `name = value if condition else other`,
/// without the `;` behind it.
pub fn parse_attribute(cs: &Vec<char>, c: Cursor, kind: SymbolKind) -> (r: Parsed<AttrDef>)
    ensures
        same_attribute(r, read_attribute(cs@, c, kind)),
        r matches Ok((x, c2)) ==> moved(cs@, c, c2) && x.spans_ok(),
        r matches Err(e) ==> refused(c, e),
{
    proof {
        reveal(read_attribute);
    }
    let (name, after_name) = match parse_name(cs, c, kind) {
        Ok(x) => x,
        Err(e) => {
            return Err(e);
        },
    };
    let eq = skip_trivia(cs, after_name);
    let value_at = match expect_char(cs, eq, '=', "=") {
        Ok(n) => skip_trivia(cs, n),
        Err(e) => {
            return Err(e);
        },
    };
    let (value, after_value) = match parse_value(cs, value_at, SymbolKind::VarRef) {
        Ok(x) => x,
        Err(e) => {
            return Err(e);
        },
    };
    match parse_if_else(cs, after_value) {
        Ok((condition, else_value, end)) => {
            let attr = AttrDef {
                position: span(c, end),
                name,
                value: Box::new(value),
                condition,
                else_value,
            };
            assert(attr.spans_ok());
            Ok((attr, end))
        },
        Err(e) => Err(e),
    }
}

/// Reads a variable block at `c`, which stands at the word `var`.
pub fn parse_var(cs: &Vec<char>, c: Cursor) -> (r: Parsed<AstNodeEnum>)
    requires
        c.pos + 3 <= cs@.len(),
    ensures
        same_node(r, read_var(cs@, c)),
        r matches Ok((x, c2)) ==> moved(cs@, c, c2) && x.spans_ok() && starts_at(x.pos(), c)
            && ends_by(x.pos(), c2),
        r matches Err(e) ==> refused(c, e),
{
    let open = skip_trivia(cs, advance_by(cs, c, 3));
    let mut cur = match expect_char(cs, open, '{', "{") {
        Ok(n) => n,
        Err(e) => {
            return Err(e);
        },
    };
    let mut children: Vec<AstNodeEnum> = Vec::new();
    proof {
        lemma_nodes_view_empty();
    }
    loop
        invariant
            moved(cs@, c, cur),
            nodes_ok(children@),
            var_rest(cs@, c, cur, nodes_view(children@)) == read_var(cs@, c),
        decreases cs@.len() - cur.pos,
    {
        let at = skip_blank(cs, cur);
        if at_comment(cs, at) {
            match parse_comment(cs, at) {
                Ok((comment, next)) => {
                    let child = AstNodeEnum::Comment(comment);
                    proof {
                        lemma_nodes_view_push(children@, child);
                    }
                    children.push(child);
                    cur = next;
                },
                Err(e) => {
                    return Err(e);
                },
            }
        } else {
            match peek(cs, at) {
                Some('}') => {
                    let (alias, _, end) = match parse_alias(
                        cs,
                        advance(cs, at),
                        SymbolKind::VarAsName,
                        false,
                    ) {
                        Ok(x) => x,
                        Err(e) => {
                            return Err(e);
                        },
                    };
                    let var = VarDef { position: span(c, end), children, alias, offset: None };
                    assert(var.spans_ok());
                    return Ok((AstNodeEnum::VarDef(var), skip_semicolon(cs, end)));
                },
                _ => {
                    let (attr, after) = match parse_attribute(cs, at, SymbolKind::VarAttr) {
                        Ok(x) => x,
                        Err(e) => {
                            return Err(e);
                        },
                    };
                    let child = AstNodeEnum::AttrDef(attr);
                    proof {
                        lemma_nodes_view_push(children@, child);
                    }
                    children.push(child);
                    cur = match parse_end(cs, after) {
                        Ok(n) => n,
                        Err(e) => {
                            return Err(e);
                        },
                    };
                },
            }
        }
    }
}

/// Whether the template that was read, or the error, is what the reading
/// comes to.
pub open spec fn same_template(
    r: Result<(Option<Symbol>, Option<Box<AstNodeEnum>>, Cursor), ParseError>,
    m: Read<Template>,
) -> bool {
    match r {
        Ok((a, b, c2)) => m == Read::Got(
            Template { graph: symbol_model(a), version: boxed_model(b) },
            c2,
        ),
        Err(e) => refusal(e, m),
    }
}

/// Reads the template of a graph at `c` and finds the place of the opening
/// brace.
pub fn parse_template(cs: &Vec<char>, c: Cursor) -> (r: Result<
    (Option<Symbol>, Option<Box<AstNodeEnum>>, Cursor),
    ParseError,
>)
    requires
        c.pos <= cs@.len(),
    ensures
        same_template(r, read_template(cs@, c)),
        r matches Ok((a, b, c2)) ==> went(cs@, c, c2) && (a is Some ==> a->0.spans_ok()) && (b is Some
            ==> (*b->0).spans_ok()),
        r matches Err(e) ==> refused(c, e),
{
    proof {
        reveal(read_template);
    }
    let templated = match peek(cs, c) {
        Some(':') => true,
        _ => false,
    };
    if templated {
        let name_at = skip_trivia(cs, advance(cs, c));
        let (template, after) = match parse_dotted(cs, name_at, SymbolKind::GraphTemplate, true) {
            Ok(x) => x,
            Err(e) => {
                return Err(e);
            },
        };
        match parse_version(cs, after) {
            Ok((version, behind)) => Ok((Some(template), version, skip_trivia(cs, behind))),
            Err(e) => Err(e),
        }
    } else {
        Ok((None, None, c))
    }
}

/// Reads a graph block at `c`, which stands at the word `graph`.
pub fn parse_graph(cs: &Vec<char>, c: Cursor) -> (r: Parsed<GraphDef>)
    requires
        c.pos + 5 <= cs@.len(),
    ensures
        same_graph(r, read_graph(cs@, c)),
        r matches Ok((x, c2)) ==> moved(cs@, c, c2) && x.spans_ok() && starts_at(x.position, c)
            && ends_by(x.position, c2),
        r matches Err(e) ==> refused(c, e),
{
    let (template_graph, template_version, open) = match parse_template(
        cs,
        skip_trivia(cs, advance_by(cs, c, 5)),
    ) {
        Ok(x) => x,
        Err(e) => {
            return Err(e);
        },
    };
    let ghost template = Template {
        graph: symbol_model(template_graph),
        version: boxed_model(template_version),
    };
    let mut cur = match expect_char(cs, open, '{', "{") {
        Ok(n) => n,
        Err(e) => {
            return Err(e);
        },
    };
    let mut children: Vec<AstNodeEnum> = Vec::new();
    proof {
        lemma_nodes_view_empty();
    }
    loop
        invariant
            moved(cs@, c, cur),
            nodes_ok(children@),
            template_graph is Some ==> template_graph->0.spans_ok(),
            template_version is Some ==> (*template_version->0).spans_ok(),
            template == (Template {
                graph: symbol_model(template_graph),
                version: boxed_model(template_version),
            }),
            graph_rest(cs@, c, template, cur, nodes_view(children@)) == read_graph(cs@, c),
        decreases cs@.len() - cur.pos,
    {
        let at = skip_blank(cs, cur);
        if at_comment(cs, at) {
            match parse_comment(cs, at) {
                Ok((comment, next)) => {
                    let child = AstNodeEnum::Comment(comment);
                    proof {
                        lemma_nodes_view_push(children@, child);
                    }
                    children.push(child);
                    cur = next;
                },
                Err(e) => {
                    return Err(e);
                },
            }
        } else {
            match peek(cs, at) {
                Some('}') => {
                    let (alias, version, end) = match parse_alias(
                        cs,
                        advance(cs, at),
                        SymbolKind::GraphAsName,
                        true,
                    ) {
                        Ok(x) => x,
                        Err(e) => {
                            return Err(e);
                        },
                    };
                    let graph = GraphDef {
                        position: span(c, end),
                        children,
                        alias,
                        version,
                        template_graph,
                        template_version,
                        offset: None,
                    };
                    assert(graph.spans_ok());
                    return Ok((graph, skip_semicolon(cs, end)));
                },
                _ => {
                    match parse_graph_statement(cs, at) {
                        Ok((statement, next)) => {
                            proof {
                                lemma_nodes_view_push(children@, statement);
                            }
                            children.push(statement);
                            cur = next;
                        },
                        Err(e) => {
                            return Err(e);
                        },
                    }
                },
            }
        }
    }
}

/// Reads the bound of an interval at `c`, where a number stands there.
pub fn parse_bound(cs: &Vec<char>, c: Cursor) -> (r: Parsed<Option<NumberLiteral>>)
    requires
        c.pos <= cs@.len(),
    ensures
        same_bound(r, read_bound(cs@, c)),
        r matches Ok((x, c2)) ==> went(cs@, c, c2) && (x is Some ==> x->0.spans_ok()),
        r matches Err(e) ==> refused(c, e),
{
    if !at_number(cs, c) {
        return Ok((None, c));
    }
    match parse_number(cs, c) {
        Ok((AstNodeEnum::NumberLiteral(n), end)) => Ok((Some(n), end)),
        Ok((_, _)) => Err(expected(c, "integer")),
        Err(e) => Err(e),
    }
}

/// The interval with these bounds.
fn interval(
    position: Position,
    closed_left: bool,
    low: Option<NumberLiteral>,
    closed_right: bool,
    high: Option<NumberLiteral>,
) -> (r: AstNodeEnum)
    requires
        position.consistent(),
        low is Some ==> low->0.spans_ok(),
        high is Some ==> high->0.spans_ok(),
    ensures
        r.model() == interval_of(
            position,
            closed_left,
            match low {
                Some(n) => Some(n.model()),
                None => None,
            },
            closed_right,
            match high {
                Some(n) => Some(n.model()),
                None => None,
            },
        ),
        r.spans_ok(),
{
    if closed_left && closed_right {
        let closed = ClosedInterval { position, ge: low, le: high };
        assert(closed.spans_ok());
        AstNodeEnum::ClosedInterval(closed)
    } else {
        let (ge, gt) = if closed_left {
            (low, None)
        } else {
            (None, low)
        };
        let (le, lt) = if closed_right {
            (high, None)
        } else {
            (None, high)
        };
        let mixed = MixInterval { position, ge, gt, le, lt };
        assert(mixed.spans_ok());
        AstNodeEnum::MixInterval(mixed)
    }
}

/// Reads an interval at `c`: two bounds with a comma between; `[` and `]`
/// close an end, `(` and `)` leave it open.
pub fn parse_interval(cs: &Vec<char>, c: Cursor) -> (r: Parsed<AstNodeEnum>)
    requires
        c.pos < cs@.len(),
    ensures
        same_node(r, read_interval(cs@, c)),
        r matches Ok((x, c2)) ==> moved(cs@, c, c2) && x.spans_ok(),
        r matches Err(e) ==> refused(c, e),
{
    proof {
        reveal(read_interval);
    }
    let closed_left = cs[c.pos] == '[';
    let low_at = skip_trivia(cs, advance(cs, c));
    let (low, after_low) = match parse_bound(cs, low_at) {
        Ok(x) => x,
        Err(e) => {
            return Err(e);
        },
    };
    let high_at = match expect_char(cs, skip_trivia(cs, after_low), ',', ",") {
        Ok(n) => skip_trivia(cs, n),
        Err(e) => {
            return Err(e);
        },
    };
    let (high, after_high) = match parse_bound(cs, high_at) {
        Ok(x) => x,
        Err(e) => {
            return Err(e);
        },
    };
    let close = skip_trivia(cs, after_high);
    let closed_right = match peek(cs, close) {
        Some(']') => true,
        Some(')') => false,
        _ => {
            return Err(expected(close, "] or )"));
        },
    };
    let end = advance(cs, close);
    Ok((interval(span(c, end), closed_left, low, closed_right, high), end))
}

/// Reads the value of the item `name` of a specification at `c`: an
/// interval for `length` and `range` where a bracket or parenthesis opens
/// it, else any value.
pub fn parse_spec_value(cs: &Vec<char>, c: Cursor, name: &str) -> (r: Parsed<AstNodeEnum>)
    ensures
        same_node(r, read_spec_value(cs@, c, name@)),
        r matches Ok((x, c2)) ==> moved(cs@, c, c2) && x.spans_ok(),
        r matches Err(e) ==> refused(c, e),
{
    let ranged = str_eq(name, "length") || str_eq(name, "range");
    let opens = match peek(cs, c) {
        Some('[') => true,
        Some('(') => true,
        _ => false,
    };
    if ranged && opens {
        parse_interval(cs, c)
    } else {
        parse_value(cs, c, SymbolKind::OpSpecDtype)
    }
}

/// Reads the `;` behind the items of a specification.
fn close_spec(cs: &Vec<char>, c: Cursor, name: Symbol, items: Vec<OpSpecItem>, cur: Cursor) -> (r:
    Parsed<OpSpec>)
    requires
        moved(cs@, c, cur),
        name.spans_ok(),
        spec_items_ok(items@),
    ensures
        same_spec(r, spec_close(cs@, c, name.model(), spec_items_view(items@), cur)),
        r matches Ok((x, c2)) ==> moved(cs@, c, c2) && x.spans_ok(),
        r matches Err(e) ==> refused(c, e),
{
    match parse_end(cs, cur) {
        Ok(end) => {
            let spec = OpSpec { position: span(c, end), name, items: Some(items) };
            assert(spec.spans_ok());
            Ok((spec, end))
        },
        Err(e) => Err(e),
    }
}

/// Reads one specification at `c`: `name: value;` or `name:(key=value, ..);`.
/// A value alone is the item `dtype`.
pub fn parse_spec(cs: &Vec<char>, c: Cursor, kind: SymbolKind) -> (r: Parsed<OpSpec>)
    ensures
        same_spec(r, read_spec(cs@, c, kind)),
        r matches Ok((x, c2)) ==> moved(cs@, c, c2) && x.spans_ok(),
        r matches Err(e) ==> refused(c, e),
{
    let (name, after_name) = match parse_name(cs, c, kind) {
        Ok(x) => x,
        Err(e) => {
            return Err(e);
        },
    };
    let start = match expect_char(cs, skip_trivia(cs, after_name), ':', ":") {
        Ok(n) => skip_trivia(cs, n),
        Err(e) => {
            return Err(e);
        },
    };
    let mut items: Vec<OpSpecItem> = Vec::new();
    proof {
        lemma_spec_items_view_empty();
    }
    let listed = match peek(cs, start) {
        Some('(') => at_key(cs, skip_trivia(cs, advance(cs, start))),
        _ => false,
    };
    assert(listed == spec_list_at(cs@, start));
    if listed {
        let mut cur = skip_trivia(cs, advance(cs, start));
        loop
            invariant
                moved(cs@, c, cur),
                name.spans_ok(),
                spec_items_ok(items@),
                spec_items_rest(cs@, c, name.model(), cur, spec_items_view(items@)) == read_spec(
                    cs@,
                    c,
                    kind,
                ),
            decreases cs@.len() - cur.pos,
        {
            let (key, after_key) = match parse_name(cs, cur, SymbolKind::OpSpecDtype) {
                Ok(x) => x,
                Err(e) => {
                    return Err(e);
                },
            };
            let value_at = match expect_char(cs, skip_trivia(cs, after_key), '=', "=") {
                Ok(n) => skip_trivia(cs, n),
                Err(e) => {
                    return Err(e);
                },
            };
            let (value, after) = match parse_spec_value(cs, value_at, key.name.as_str()) {
                Ok(x) => x,
                Err(e) => {
                    return Err(e);
                },
            };
            let item = OpSpecItem {
                position: span(cur, after),
                name: key.name,
                value: Box::new(value),
            };
            assert(item.spans_ok());
            proof {
                lemma_spec_items_view_push(items@, item);
            }
            items.push(item);
            let next = skip_trivia(cs, after);
            match peek(cs, next) {
                Some(',') => {
                    cur = skip_trivia(cs, advance(cs, next));
                },
                Some(')') => {
                    return close_spec(cs, c, name, items, advance(cs, next));
                },
                _ => {
                    return Err(expected(next, "comma or )"));
                },
            }
        }
    } else {
        let (value, after) = match parse_value(cs, start, SymbolKind::OpSpecDtype) {
            Ok(x) => x,
            Err(e) => {
                return Err(e);
            },
        };
        let item = OpSpecItem {
            position: span(start, after),
            name: "dtype".to_owned(),
            value: Box::new(value),
        };
        assert(item.spans_ok());
        proof {
            lemma_spec_items_view_push(items@, item);
            assert(spec_items_view(items@).push(item.model()) =~= seq![item.model()]);
        }
        items.push(item);
        close_spec(cs, c, name, items, after)
    }
}

/// Reads the specifications between the braces of a section; `c` stands
/// behind the opening brace.
pub fn parse_specs(cs: &Vec<char>, c: Cursor, kind: SymbolKind) -> (r: Parsed<Vec<AstNodeEnum>>)
    requires
        c.pos <= cs@.len(),
    ensures
        same_nodes(r, specs_rest(cs@, c, kind, Seq::empty())),
        r matches Ok((x, c2)) ==> moved(cs@, c, c2) && nodes_ok(x@),
        r matches Err(e) ==> refused(c, e),
{
    let mut children: Vec<AstNodeEnum> = Vec::new();
    let mut cur = c;
    proof {
        lemma_nodes_view_empty();
    }
    loop
        invariant
            went(cs@, c, cur),
            nodes_ok(children@),
            specs_rest(cs@, cur, kind, nodes_view(children@)) == specs_rest(
                cs@,
                c,
                kind,
                Seq::empty(),
            ),
        decreases cs@.len() - cur.pos,
    {
        let at = skip_blank(cs, cur);
        if at_comment(cs, at) {
            match parse_comment(cs, at) {
                Ok((comment, next)) => {
                    let child = AstNodeEnum::Comment(comment);
                    proof {
                        lemma_nodes_view_push(children@, child);
                    }
                    children.push(child);
                    cur = next;
                },
                Err(e) => {
                    return Err(e);
                },
            }
        } else {
            match peek(cs, at) {
                Some('}') => {
                    return Ok((children, advance(cs, at)));
                },
                _ => {
                    match parse_spec(cs, at, kind) {
                        Ok((spec, next)) => {
                            let child = AstNodeEnum::OpSpec(spec);
                            proof {
                                lemma_nodes_view_push(children@, child);
                            }
                            children.push(child);
                            cur = next;
                        },
                        Err(e) => {
                            return Err(e);
                        },
                    }
                },
            }
        }
    }
}

/// Reads the attributes between the braces of a meta section; `c` stands
/// behind the opening brace. Comments are passed over.
pub fn parse_metas(cs: &Vec<char>, c: Cursor) -> (r: Parsed<Vec<AttrDef>>)
    requires
        c.pos <= cs@.len(),
    ensures
        same_attributes(r, metas_rest(cs@, c, Seq::empty())),
        r matches Ok((x, c2)) ==> moved(cs@, c, c2) && attr_defs_ok(x@),
        r matches Err(e) ==> refused(c, e),
{
    let mut children: Vec<AttrDef> = Vec::new();
    let mut cur = c;
    proof {
        lemma_attr_defs_view_empty();
    }
    loop
        invariant
            went(cs@, c, cur),
            attr_defs_ok(children@),
            metas_rest(cs@, cur, attr_defs_view(children@)) == metas_rest(cs@, c, Seq::empty()),
        decreases cs@.len() - cur.pos,
    {
        let at = skip_trivia(cs, cur);
        match peek(cs, at) {
            Some('}') => {
                return Ok((children, advance(cs, at)));
            },
            _ => {
                let (attr, after) = match parse_attribute(cs, at, SymbolKind::OpMetaAttr) {
                    Ok(x) => x,
                    Err(e) => {
                        return Err(e);
                    },
                };
                proof {
                    lemma_attr_defs_view_push(children@, attr);
                }
                children.push(attr);
                cur = match parse_end(cs, after) {
                    Ok(n) => n,
                    Err(e) => {
                        return Err(e);
                    },
                };
            },
        }
    }
}

/// Reads the section of specifications called `word` whose body starts at
/// `body`.
fn parse_spec_section(cs: &Vec<char>, c: Cursor, word: &str, body: Cursor) -> (r: Parsed<AstNodeEnum>)
    requires
        moved(cs@, c, body),
    ensures
        same_node(r, read_spec_section(cs@, c, word@, body)),
        r matches Ok((x, c2)) ==> moved(cs@, c, c2) && x.spans_ok(),
        r matches Err(e) ==> refused(c, e),
{
    if str_eq(word, "input") {
        match parse_specs(cs, body, SymbolKind::OpInputAttr) {
            Ok((children, end)) => {
                let section = OpInput { position: span(c, end), children, offset: None };
                assert(section.spans_ok());
                Ok((AstNodeEnum::OpInput(section), skip_semicolon(cs, end)))
            },
            Err(e) => Err(e),
        }
    } else if str_eq(word, "output") {
        match parse_specs(cs, body, SymbolKind::OpOutputAttr) {
            Ok((children, end)) => {
                let section = OpOutput { position: span(c, end), children, offset: None };
                assert(section.spans_ok());
                Ok((AstNodeEnum::OpOutput(section), skip_semicolon(cs, end)))
            },
            Err(e) => Err(e),
        }
    } else if str_eq(word, "config") {
        match parse_specs(cs, body, SymbolKind::OpConfigAttr) {
            Ok((children, end)) => {
                let section = OpConfig { position: span(c, end), children, offset: None };
                assert(section.spans_ok());
                Ok((AstNodeEnum::OpConfig(section), skip_semicolon(cs, end)))
            },
            Err(e) => Err(e),
        }
    } else {
        Err(expected(c, "meta, input, output or config"))
    }
}

/// Reads one section of an operation at `c`: `meta`, `input`, `output` or
/// `config` with its braces.
pub fn parse_section(cs: &Vec<char>, c: Cursor) -> (r: Parsed<AstNodeEnum>)
    ensures
        same_node(r, read_section(cs@, c)),
        r matches Ok((x, c2)) ==> moved(cs@, c, c2) && x.spans_ok(),
        r matches Err(e) ==> refused(c, e),
{
    let (word, after_word) = match parse_name(cs, c, SymbolKind::Unknown) {
        Ok(x) => x,
        Err(e) => {
            return Err(e);
        },
    };
    let body = match expect_char(cs, skip_trivia(cs, after_word), '{', "{") {
        Ok(n) => n,
        Err(e) => {
            return Err(e);
        },
    };
    if str_eq(word.name.as_str(), "meta") {
        match parse_metas(cs, body) {
            Ok((children, end)) => {
                let section = OpMeta { position: span(c, end), children, offset: None };
                assert(section.spans_ok());
                Ok((AstNodeEnum::OpMeta(section), skip_semicolon(cs, end)))
            },
            Err(e) => Err(e),
        }
    } else {
        parse_spec_section(cs, c, word.name.as_str(), body)
    }
}

/// The version of an operation: the characters of a string or the name of
/// a symbol.
fn version_text(version: Option<Box<AstNodeEnum>>) -> (r: Option<String>)
    ensures
        crate::compiler::ir::text_of(r) == op_version(boxed_model(version)),
{
    match version {
        Some(v) => match *v {
            AstNodeEnum::StringLiteral(s) => Some(s.value),
            AstNodeEnum::Symbol(s) => Some(s.name),
            _ => None,
        },
        None => None,
    }
}

/// Reads an operation block at `c`, which stands at the word `op`.
pub fn parse_op(cs: &Vec<char>, c: Cursor) -> (r: Parsed<AstNodeEnum>)
    requires
        c.pos + 2 <= cs@.len(),
    ensures
        same_node(r, read_op(cs@, c)),
        r matches Ok((x, c2)) ==> moved(cs@, c, c2) && x.spans_ok() && starts_at(x.pos(), c)
            && ends_by(x.pos(), c2),
        r matches Err(e) ==> refused(c, e),
{
    let open = skip_trivia(cs, advance_by(cs, c, 2));
    let mut cur = match expect_char(cs, open, '{', "{") {
        Ok(n) => n,
        Err(e) => {
            return Err(e);
        },
    };
    let mut children: Vec<AstNodeEnum> = Vec::new();
    proof {
        lemma_nodes_view_empty();
    }
    loop
        invariant
            moved(cs@, c, cur),
            nodes_ok(children@),
            op_rest(cs@, c, cur, nodes_view(children@)) == read_op(cs@, c),
        decreases cs@.len() - cur.pos,
    {
        let at = skip_blank(cs, cur);
        if at_comment(cs, at) {
            match parse_comment(cs, at) {
                Ok((comment, next)) => {
                    let child = AstNodeEnum::Comment(comment);
                    proof {
                        lemma_nodes_view_push(children@, child);
                    }
                    children.push(child);
                    cur = next;
                },
                Err(e) => {
                    return Err(e);
                },
            }
        } else {
            match peek(cs, at) {
                Some('}') => {
                    let (alias, version, end) = match parse_alias(
                        cs,
                        advance(cs, at),
                        SymbolKind::OpAsName,
                        true,
                    ) {
                        Ok(x) => x,
                        Err(e) => {
                            return Err(e);
                        },
                    };
                    let op = OpDef {
                        position: span(c, end),
                        children,
                        alias,
                        version: version_text(version),
                        offset: None,
                    };
                    assert(op.spans_ok());
                    return Ok((AstNodeEnum::OpDef(op), skip_semicolon(cs, end)));
                },
                _ => {
                    match parse_section(cs, at) {
                        Ok((section, next)) => {
                            proof {
                                lemma_nodes_view_push(children@, section);
                            }
                            children.push(section);
                            cur = next;
                        },
                        Err(e) => {
                            return Err(e);
                        },
                    }
                },
            }
        }
    }
}

/// Reads one statement of a module at `c`, where the text goes on.
pub fn parse_statement(cs: &Vec<char>, c: Cursor) -> (r: Parsed<AstNodeEnum>)
    requires
        c.pos < cs@.len(),
    ensures
        same_node(r, read_statement(cs@, c)),
        r matches Ok((x, c2)) ==> moved(cs@, c, c2) && x.spans_ok() && starts_at(x.pos(), c)
            && ends_by(x.pos(), c2),
        r matches Err(e) ==> refused(c, e),
{
    proof {
        reveal(read_statement);
        reveal_strlit("import");
        reveal_strlit("var");
        reveal_strlit("graph");
        reveal_strlit("op");
    }
    if at_comment(cs, c) {
        match parse_comment(cs, c) {
            Ok((comment, next)) => Ok((AstNodeEnum::Comment(comment), next)),
            Err(e) => Err(e),
        }
    } else if looking_at_word(cs, c, "import") {
        parse_import(cs, c)
    } else if looking_at_word(cs, c, "var") {
        parse_var(cs, c)
    } else if looking_at_word(cs, c, "graph") {
        match parse_graph(cs, c) {
            Ok((g, next)) => Ok((AstNodeEnum::GraphDef(g), next)),
            Err(e) => Err(e),
        }
    } else if looking_at_word(cs, c, "op") {
        parse_op(cs, c)
    } else {
        Err(expected(c, "import, var, graph or op"))
    }
}

/// Whether the module that was read, or the error, is what the reading
/// comes to.
pub open spec fn same_module(r: Result<Module, ParseError>, m: Read<ModuleModel>) -> bool {
    match r {
        Ok(x) => m matches Read::Got(y, _) && y == x.model(),
        Err(e) => refusal(e, m),
    }
}

/// The span of a module with these children.
fn span_of_children(children: &Vec<AstNodeEnum>) -> (p: Position)
    ensures
        p == module_span(nodes_view(children@)),
{
    if children.len() == 0 {
        Position::new(1, 1, 1)
    } else {
        let first = children[0].position();
        let last = children[children.len() - 1].position();
        proof {
            lemma_model_position(children@[0]);
            lemma_model_position(children@[children@.len() - 1]);
        }
        Position { line: first.line, end_line: last.end_line, start: first.start, end: last.end }
    }
}

/// Reads a module: comments and statements up to the end of the text. The
/// module spans from the start of its first child to the end of its last
/// one; an empty module stands at the start of the text.
pub fn parse_module(cs: &Vec<char>) -> (r: Result<Module, ParseError>)
    ensures
        same_module(r, read_module(cs@)),
        r matches Ok(m) ==> m.spans_ok(),
        r matches Err(e) ==> refused(Cursor { pos: 0, line: 1, col: 1 }, e),
        blank_text(cs@) ==> (r matches Ok(m) && m.children@.len() == 0 && m.position == (Position {
            line: 1,
            end_line: 1,
            start: 1,
            end: 1,
        })),
{
    let mut children: Vec<AstNodeEnum> = Vec::new();
    let mut cur = start_cursor();
    let ghost mut first_at = cur;
    let ghost mut last_at = cur;
    proof {
        lemma_nodes_view_empty();
    }
    loop
        invariant_except_break
            module_rest(cs@, cur, nodes_view(children@)) == read_module(cs@),
        invariant
            cur.pos <= cs@.len(),
            nodes_ok(children@),
            ahead(Cursor { pos: 0, line: 1, col: 1 }, cur),
            children@.len() > 0 ==> starts_at(children@[0].pos(), first_at) && starts_at(
                children@[children@.len() - 1].pos(),
                last_at,
            ) && ahead(first_at, last_at) && ahead(last_at, cur),
            blank_text(cs@) ==> children@.len() == 0,
        ensures
            read_module(cs@) matches Read::Got(m, _) && m == (ModuleModel {
                position: module_span(nodes_view(children@)),
                children: nodes_view(children@),
            }),
        decreases cs@.len() - cur.pos,
    {
        let at = skip_blank(cs, cur);
        if at.pos >= cs.len() {
            break ;
        }
        let (child, next) = match parse_statement(cs, at) {
            Ok(x) => x,
            Err(e) => {
                return Err(e);
            },
        };
        proof {
            lemma_nodes_view_push(children@, child);
            if children@.len() == 0 {
                first_at = at;
            }
            last_at = at;
        }
        children.push(child);
        cur = next;
    }
    let position = span_of_children(&children);
    proof {
        if children@.len() > 0 {
            lemma_model_position(children@[0]);
            lemma_model_position(children@[children@.len() - 1]);
            assert(children@[children@.len() - 1].spans_ok());
            assert(children@[children@.len() - 1].pos().consistent()) by {
                lemma_span_of_node(children@[children@.len() - 1]);
            }
        }
    }
    Ok(Module { position, children })
}

/// A node whose spans are consistent has a consistent span itself.
pub proof fn lemma_span_of_node(x: AstNodeEnum)
    requires
        x.spans_ok(),
    ensures
        x.pos().consistent(),
{
    match x {
        AstNodeEnum::Module(node) => {},
        AstNodeEnum::Comment(node) => {},
        AstNodeEnum::Symbol(node) => {},
        AstNodeEnum::StringLiteral(node) => {},
        AstNodeEnum::MultiLineStringLiteral(node) => {},
        AstNodeEnum::NumberLiteral(node) => {},
        AstNodeEnum::FloatLiteral(node) => {},
        AstNodeEnum::BoolLiteral(node) => {},
        AstNodeEnum::DateTimeLiteral(node) => {},
        AstNodeEnum::DateLiteral(node) => {},
        AstNodeEnum::NullLiteral(node) => {},
        AstNodeEnum::DictStatement(node) => {},
        AstNodeEnum::DictItem(node) => {},
        AstNodeEnum::ListStatement(node) => {},
        AstNodeEnum::TupleStatement(node) => {},
        AstNodeEnum::SetStatement(node) => {},
        AstNodeEnum::Import(node) => {},
        AstNodeEnum::ImportItem(node) => {},
        AstNodeEnum::AttrDef(node) => {},
        AstNodeEnum::RefDef(node) => {},
        AstNodeEnum::VarDef(node) => {},
        AstNodeEnum::GraphDef(node) => {},
        AstNodeEnum::NodeDef(node) => {},
        AstNodeEnum::NodeBlock(node) => {},
        AstNodeEnum::NodeInputTuple(node) => {},
        AstNodeEnum::NodeInputKeyDef(node) => {},
        AstNodeEnum::NodeInputKeyItem(node) => {},
        AstNodeEnum::NodeInputValues(node) => {},
        AstNodeEnum::NodeAttr(node) => {},
        AstNodeEnum::ConditionDef(node) => {},
        AstNodeEnum::ConditionBlock(node) => {},
        AstNodeEnum::ConditionStatement(node) => {},
        AstNodeEnum::ForLoopBlock(node) => {},
        AstNodeEnum::OpDef(node) => {},
        AstNodeEnum::OpMeta(node) => {},
        AstNodeEnum::OpInput(node) => {},
        AstNodeEnum::OpOutput(node) => {},
        AstNodeEnum::OpConfig(node) => {},
        AstNodeEnum::OpSpec(node) => {},
        AstNodeEnum::OpSpecItem(node) => {},
        AstNodeEnum::ClosedInterval(node) => {},
        AstNodeEnum::MixInterval(node) => {},
    }
}

} // verus!
