//! Values: literals, names, lists, tuples, sets and dictionaries.

use crate::ast::model::{
    lemma_dict_items_view_empty, lemma_dict_items_view_push, lemma_nodes_view_empty,
    lemma_nodes_view_push, nodes_view, dict_items_view, NodeModel,
};
use crate::ast::spans::{dict_items_ok, nodes_ok};
use crate::ast::{
    AstNodeEnum, DictItem, DictStatement, ListStatement, SetStatement, SymbolKind, TupleStatement,
};
use crate::parser::grammar::{
    dict_rest, items_rest, read_braced, read_items, read_value, refusal, set_rest, Read,
};
use crate::parser::lexer::{
    advance, at_date, at_name, at_number, at_string, expect_char, expected, moved, parse_date,
    parse_dotted, parse_number, parse_string, parse_word_literal, peek, refused, same_node,
    skip_trivia, span, went, Cursor, Parsed,
};
use vstd::prelude::*;

verus! {

/// Whether the values that were read, or the error, are what the reading
/// comes to.
pub open spec fn same_nodes(r: Parsed<Vec<AstNodeEnum>>, m: Read<Seq<NodeModel>>) -> bool {
    match r {
        Ok((x, c2)) => m == Read::Got(nodes_view(x@), c2),
        Err(e) => refusal(e, m),
    }
}

/// Reads a value at `c`. A name becomes a symbol of the given kind.
pub fn parse_value(cs: &Vec<char>, c: Cursor, kind: SymbolKind) -> (r: Parsed<AstNodeEnum>)
    ensures
        same_node(r, read_value(cs@, c, kind)),
        r matches Ok((x, c2)) ==> moved(cs@, c, c2) && x.spans_ok(),
        r matches Err(e) ==> refused(c, e),
    decreases cs@.len() - c.pos, 1nat,
{
    if at_string(cs, c) {
        return parse_string(cs, c);
    }
    if at_number(cs, c) {
        return parse_number(cs, c);
    }
    match parse_word_literal(cs, c) {
        Some(x) => {
            return Ok(x);
        },
        None => {},
    }
    if at_date(cs, c) {
        return parse_date(cs, c);
    }
    match peek(cs, c) {
        Some('[') => {
            match parse_items(cs, c, ']', kind) {
                Ok((items, end)) => {
                    let list = ListStatement { position: span(c, end), items };
                    Ok((AstNodeEnum::ListStatement(list), end))
                },
                Err(e) => Err(e),
            }
        },
        Some('(') => {
            match parse_items(cs, c, ')', kind) {
                Ok((items, end)) => {
                    let tuple = TupleStatement { position: span(c, end), items };
                    Ok((AstNodeEnum::TupleStatement(tuple), end))
                },
                Err(e) => Err(e),
            }
        },
        Some('{') => parse_braced(cs, c, kind),
        _ => {
            if at_name(cs, c) {
                match parse_dotted(cs, c, kind, false) {
                    Ok((s, end)) => Ok((AstNodeEnum::Symbol(s), end)),
                    Err(e) => Err(e),
                }
            } else {
                Err(expected(c, "value"))
            }
        },
    }
}

/// Reads the values between the delimiter at `c` and `close`, with commas
/// between neighbours.
pub fn parse_items(cs: &Vec<char>, c: Cursor, close: char, kind: SymbolKind) -> (r: Parsed<
    Vec<AstNodeEnum>,
>)
    requires
        c.pos < cs@.len(),
    ensures
        same_nodes(r, read_items(cs@, c, close, kind)),
        r matches Ok((x, c2)) ==> moved(cs@, c, c2) && nodes_ok(x@),
        r matches Err(e) ==> refused(c, e),
    decreases cs@.len() - c.pos, 0nat,
{
    let mut items: Vec<AstNodeEnum> = Vec::new();
    let mut cur = skip_trivia(cs, advance(cs, c));
    proof {
        lemma_nodes_view_empty();
    }
    match peek(cs, cur) {
        Some(ch) => {
            if ch == close {
                return Ok((items, advance(cs, cur)));
            }
        },
        None => {},
    }
    loop
        invariant
            moved(cs@, c, cur),
            nodes_ok(items@),
            items_rest(cs@, cur, close, kind, nodes_view(items@)) == read_items(cs@, c, close, kind),
        decreases cs@.len() - cur.pos,
    {
        let (value, next) = match parse_value(cs, cur, kind) {
            Ok(x) => x,
            Err(e) => {
                return Err(e);
            },
        };
        proof {
            lemma_nodes_view_push(items@, value);
        }
        items.push(value);
        let at = skip_trivia(cs, next);
        match peek(cs, at) {
            Some(ch) => {
                if ch == ',' {
                    cur = skip_trivia(cs, advance(cs, at));
                } else if ch == close {
                    return Ok((items, advance(cs, at)));
                } else {
                    return Err(expected(at, "comma or closing delimiter"));
                }
            },
            None => {
                return Err(expected(at, "comma or closing delimiter"));
            },
        }
    }
}

/// Reads what stands between the braces at `c`: a dictionary of `key: value`
/// pairs, or a set of values. Empty braces are a dictionary.
pub fn parse_braced(cs: &Vec<char>, c: Cursor, kind: SymbolKind) -> (r: Parsed<AstNodeEnum>)
    requires
        c.pos < cs@.len(),
    ensures
        same_node(r, read_braced(cs@, c, kind)),
        r matches Ok((x, c2)) ==> moved(cs@, c, c2) && x.spans_ok(),
        r matches Err(e) ==> refused(c, e),
    decreases cs@.len() - c.pos, 0nat,
{
    let first_at = skip_trivia(cs, advance(cs, c));
    proof {
        lemma_nodes_view_empty();
        lemma_dict_items_view_empty();
    }
    match peek(cs, first_at) {
        Some('}') => {
            let end = advance(cs, first_at);
            let dict = DictStatement { position: span(c, end), items: Vec::new() };
            assert(dict_items_ok(dict.items@));
            assert(dict.spans_ok());
            return Ok((AstNodeEnum::DictStatement(dict), end));
        },
        _ => {},
    }
    let (first, after_first) = match parse_value(cs, first_at, kind) {
        Ok(x) => x,
        Err(e) => {
            return Err(e);
        },
    };
    let mut cur = skip_trivia(cs, after_first);
    let is_dict = match peek(cs, cur) {
        Some(':') => true,
        _ => false,
    };
    if is_dict {
        let mut pairs: Vec<DictItem> = Vec::new();
        let mut key = first;
        let mut key_at = first_at;
        loop
            invariant
                moved(cs@, c, cur),
                dict_items_ok(pairs@),
                key.spans_ok(),
                went(cs@, key_at, cur),
                dict_rest(cs@, c, cur, kind, key.model(), key_at, dict_items_view(pairs@))
                    == read_braced(cs@, c, kind),
            decreases cs@.len() - cur.pos,
        {
            let colon = match expect_char(cs, cur, ':', ":") {
                Ok(n) => skip_trivia(cs, n),
                Err(e) => {
                    return Err(e);
                },
            };
            let (value, after) = match parse_value(cs, colon, kind) {
                Ok(x) => x,
                Err(e) => {
                    return Err(e);
                },
            };
            let pair = DictItem {
                position: span(key_at, after),
                key: Box::new(key),
                value: Box::new(value),
            };
            assert(pair.spans_ok());
            proof {
                lemma_dict_items_view_push(pairs@, pair);
            }
            pairs.push(pair);
            assert(dict_items_ok(pairs@));
            let at = skip_trivia(cs, after);
            match peek(cs, at) {
                Some(',') => {
                    key_at = skip_trivia(cs, advance(cs, at));
                    let (k, after_key) = match parse_value(cs, key_at, kind) {
                        Ok(x) => x,
                        Err(e) => {
                            return Err(e);
                        },
                    };
                    key = k;
                    cur = skip_trivia(cs, after_key);
                },
                Some('}') => {
                    let end = advance(cs, at);
                    let dict = DictStatement { position: span(c, end), items: pairs };
                    assert(dict.spans_ok());
                    return Ok((AstNodeEnum::DictStatement(dict), end));
                },
                _ => {
                    return Err(expected(at, "comma or }"));
                },
            }
        }
    } else {
        let mut items: Vec<AstNodeEnum> = Vec::new();
        proof {
            lemma_nodes_view_push(items@, first);
        }
        items.push(first);
        loop
            invariant
                moved(cs@, c, cur),
                nodes_ok(items@),
                set_rest(cs@, c, cur, kind, nodes_view(items@)) == read_braced(cs@, c, kind),
            decreases cs@.len() - cur.pos,
        {
            match peek(cs, cur) {
                Some(',') => {
                    let at = skip_trivia(cs, advance(cs, cur));
                    let (value, after) = match parse_value(cs, at, kind) {
                        Ok(x) => x,
                        Err(e) => {
                            return Err(e);
                        },
                    };
                    proof {
                        lemma_nodes_view_push(items@, value);
                    }
                    items.push(value);
                    cur = skip_trivia(cs, after);
                },
                Some('}') => {
                    let end = advance(cs, cur);
                    let set = SetStatement { position: span(c, end), items };
                    return Ok((AstNodeEnum::SetStatement(set), end));
                },
                _ => {
                    return Err(expected(cur, "comma or }"));
                },
            }
        }
    }
}

} // verus!
