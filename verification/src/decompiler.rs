//! Renders the intermediate representation as source text.

pub mod graph;
pub mod ident;
pub mod node;
pub mod op;
pub mod options;
pub mod params;

use crate::decompiler::graph::{
    concat_results, decompile_graph, decompile_nodes, graph_text, lemma_concat_err, nodes_text,
};
use crate::decompiler::ident::result_view;
use crate::decompiler::op::{decompile_op, op_text};
use crate::decompiler::options::DecompileOptions;
use crate::json::{
    lemma_array_view, lemma_object_view, members_view, values_view, JsonMember, JsonModel,
    JsonValue, MemberModel,
};
use crate::text::{replace_escape, replace_escape_in};
use vstd::prelude::*;

verus! {

/// What a decompilation yields.
#[derive(Debug)]
pub enum DecompileResult {
    /// The source text.
    Text(String),
    /// The source text together with the data it was made from and the kind
    /// of document that the data came in.
    Structured { grl: String, std: JsonValue, source_json_kind: String },
}

/// A string with its escape sequences resolved, one kind after the other:
/// `\n`, `\t`, `\r`, `\\`, `\"`, `\'`.
pub open spec fn unescape_text(s: Seq<char>) -> Seq<char> {
    replace_escape(
        replace_escape(
            replace_escape(
                replace_escape(replace_escape(replace_escape(s, 'n', '\n'), 't', '\t'), 'r', '\r'),
                '\\',
                '\\',
            ),
            '"',
            '"',
        ),
        '\'',
        '\'',
    )
}

/// The data with the escape sequences of every string resolved. Keys stay as
/// they are.
pub open spec fn unescaped(v: JsonModel) -> JsonModel
    decreases v,
{
    match v {
        JsonModel::Object(members) => JsonModel::Object(
            Seq::new(
                members.len(),
                |i: int|
                    if 0 <= i < members.len() {
                        MemberModel { key: members[i].key, value: unescaped(members[i].value) }
                    } else {
                        MemberModel { key: Seq::empty(), value: JsonModel::Null }
                    },
            ),
        ),
        JsonModel::Array(items) => JsonModel::Array(
            Seq::new(
                items.len(),
                |i: int|
                    if 0 <= i < items.len() {
                        unescaped(items[i])
                    } else {
                        JsonModel::Null
                    },
            ),
        ),
        JsonModel::Text(s) => JsonModel::Text(unescape_text(s)),
        _ => v,
    }
}

fn unescape_string(s: &str) -> (r: String)
    ensures
        r@ == unescape_text(s@),
{
    let a = replace_escape_in(s, 'n', '\n');
    let b = replace_escape_in(a.as_str(), 't', '\t');
    let c = replace_escape_in(b.as_str(), 'r', '\r');
    let d = replace_escape_in(c.as_str(), '\\', '\\');
    let e = replace_escape_in(d.as_str(), '"', '"');
    replace_escape_in(e.as_str(), '\'', '\'')
}

fn unescape_items(items: &Vec<JsonValue>) -> (r: Vec<JsonValue>)
    ensures
        r@.len() == items@.len(),
        forall|j: int| 0 <= j < items@.len() ==> r@[j]@ == unescaped(items@[j]@),
    decreases items,
{
    let mut out: Vec<JsonValue> = Vec::new();
    let mut i: usize = 0;
    while i < items.len()
        invariant
            i <= items.len(),
            out@.len() == i,
            forall|j: int| 0 <= j < i ==> out@[j]@ == unescaped(items@[j]@),
        decreases items.len() - i,
    {
        let c = unescape_dfs(&items[i]);
        out.push(c);
        i += 1;
    }
    out
}

fn unescape_members(members: &Vec<JsonMember>) -> (r: Vec<JsonMember>)
    ensures
        r@.len() == members@.len(),
        forall|j: int|
            0 <= j < members@.len() ==> r@[j].key@ == members@[j].key@ && r@[j].value@ == unescaped(
                members@[j].value@,
            ),
    decreases members,
{
    let mut out: Vec<JsonMember> = Vec::new();
    let mut i: usize = 0;
    while i < members.len()
        invariant
            i <= members.len(),
            out@.len() == i,
            forall|j: int|
                0 <= j < i ==> out@[j].key@ == members@[j].key@ && out@[j].value@ == unescaped(
                    members@[j].value@,
                ),
        decreases members.len() - i,
    {
        let c = unescape_dfs(&members[i].value);
        out.push(JsonMember { key: members[i].key.clone(), value: c });
        i += 1;
    }
    out
}

/// Resolves the escape sequences of every string in the data.
pub fn unescape_dfs(value: &JsonValue) -> (r: JsonValue)
    ensures
        r@ == unescaped(value@),
    decreases value,
{
    match value {
        JsonValue::Object(members) => {
            let out = unescape_members(members);
            proof {
                lemma_object_view(*members);
                lemma_object_view(out);
                assert(members_view(out@) =~= unescaped(value@)->Object_0);
            }
            JsonValue::Object(out)
        },
        JsonValue::Array(items) => {
            let out = unescape_items(items);
            proof {
                lemma_array_view(*items);
                lemma_array_view(out);
                assert(values_view(out@) =~= unescaped(value@)->Array_0);
            }
            JsonValue::Array(out)
        },
        JsonValue::Text(s) => JsonValue::Text(unescape_string(s.as_str())),
        _ => value.deep_copy(),
    }
}

/// What separates two graphs, and two operations: an empty line.
pub open spec fn separator(i: int, n: int) -> Seq<char> {
    if i + 1 < n {
        "\n\n"@
    } else {
        Seq::empty()
    }
}

/// A rendered item followed by the separator where another item follows.
pub open spec fn separated(r: Result<Seq<char>, Seq<char>>, i: int, n: int) -> Result<
    Seq<char>,
    Seq<char>,
> {
    match r {
        Ok(t) => Ok(t + separator(i, n)),
        Err(e) => Err(e),
    }
}

/// The graphs, each followed by an empty line but the last.
pub open spec fn graph_results(graphs: Seq<JsonModel>, opts: DecompileOptions) -> Seq<
    Result<Seq<char>, Seq<char>>,
> {
    Seq::new(
        graphs.len(),
        |i: int| separated(graph_text(graphs[i], opts), i, graphs.len() as int),
    )
}

/// The operations, each followed by an empty line but the last.
pub open spec fn op_results(ops: Seq<JsonModel>, opts: DecompileOptions) -> Seq<
    Result<Seq<char>, Seq<char>>,
> {
    Seq::new(ops.len(), |i: int| separated(op_text(ops[i], opts), i, ops.len() as int))
}

/// The member `graphs`, which has to be an array where it is there.
pub open spec fn graphs_part(data: JsonModel, opts: DecompileOptions) -> Result<
    Seq<char>,
    Seq<char>,
> {
    match data.get("graphs"@) {
        Some(JsonModel::Array(graphs)) => concat_results(
            graph_results(graphs, opts),
            graphs.len() as int,
        ),
        Some(_) => Err("Graphs must be an array"@),
        None => Ok(Seq::empty()),
    }
}

/// The member `ops` where it is an array.
pub open spec fn ops_part(data: JsonModel, opts: DecompileOptions) -> Result<Seq<char>, Seq<char>> {
    match data.get("ops"@) {
        Some(JsonModel::Array(ops)) => concat_results(op_results(ops, opts), ops.len() as int),
        _ => Ok(Seq::empty()),
    }
}

/// The member `nodes` where it is an object: nodes outside any graph.
pub open spec fn nodes_part(data: JsonModel, opts: DecompileOptions) -> Result<
    Seq<char>,
    Seq<char>,
> {
    match data.get("nodes"@) {
        Some(JsonModel::Object(members)) => nodes_text(members, opts),
        _ => Ok(Seq::empty()),
    }
}

/// A document as source text: its graphs, then its operations, then its bare
/// nodes. The first complaint ends the work.
pub open spec fn std_text(data: JsonModel, opts: DecompileOptions) -> Result<Seq<char>, Seq<char>> {
    if !(data is Object) {
        Err("Decompile input must be a JSON object"@)
    } else {
        match graphs_part(data, opts) {
            Err(e) => Err(e),
            Ok(graphs) => match ops_part(data, opts) {
                Err(e) => Err(e),
                Ok(ops) => match nodes_part(data, opts) {
                    Err(e) => Err(e),
                    Ok(nodes) => Ok(graphs + ops + nodes),
                },
            },
        }
    }
}

fn decompile_graphs(graphs: &Vec<JsonValue>, opts: &DecompileOptions) -> (r: Result<String, String>)
    ensures
        result_view(r) == concat_results(
            graph_results(values_view(graphs@), *opts),
            graphs@.len() as int,
        ),
{
    let ghost vv = values_view(graphs@);
    let ghost results = graph_results(vv, *opts);
    let mut out = String::new();
    let mut i: usize = 0;
    while i < graphs.len()
        invariant
            i <= graphs.len(),
            vv == values_view(graphs@),
            results == graph_results(vv, *opts),
            concat_results(results, i as int) == Ok::<Seq<char>, Seq<char>>(out@),
        decreases graphs.len() - i,
    {
        match decompile_graph(&graphs[i], opts) {
            Ok(t) => {
                let mut piece = t;
                if i < graphs.len() - 1 {
                    piece.append("\n\n");
                } else {
                    assert(piece@ =~= piece@ + Seq::<char>::empty());
                }
                out.append(piece.as_str());
            },
            Err(e) => {
                proof {
                    lemma_concat_err(results, i as int, graphs.len() as int);
                }
                return Err(e);
            },
        }
        i += 1;
    }
    Ok(out)
}

fn decompile_ops(ops: &Vec<JsonValue>, opts: &DecompileOptions) -> (r: Result<String, String>)
    ensures
        result_view(r) == concat_results(op_results(values_view(ops@), *opts), ops@.len() as int),
{
    let ghost vv = values_view(ops@);
    let ghost results = op_results(vv, *opts);
    let mut out = String::new();
    let mut i: usize = 0;
    while i < ops.len()
        invariant
            i <= ops.len(),
            vv == values_view(ops@),
            results == op_results(vv, *opts),
            concat_results(results, i as int) == Ok::<Seq<char>, Seq<char>>(out@),
        decreases ops.len() - i,
    {
        match decompile_op(&ops[i], opts) {
            Ok(t) => {
                let mut piece = t;
                if i < ops.len() - 1 {
                    piece.append("\n\n");
                } else {
                    assert(piece@ =~= piece@ + Seq::<char>::empty());
                }
                out.append(piece.as_str());
            },
            Err(e) => {
                proof {
                    lemma_concat_err(results, i as int, ops.len() as int);
                }
                return Err(e);
            },
        }
        i += 1;
    }
    Ok(out)
}

/// A document as source text.
pub fn decompile_std(std_data: &JsonValue, opts: &DecompileOptions) -> (r: Result<String, String>)
    ensures
        result_view(r) == std_text(std_data@, *opts),
{
    if !std_data.is_object() {
        return Err("Decompile input must be a JSON object".to_owned());
    }
    let mut out = match std_data.get("graphs") {
        Some(graphs) => match graphs.as_array() {
            Some(items) => match decompile_graphs(items, opts) {
                Ok(t) => t,
                Err(e) => {
                    return Err(e);
                },
            },
            None => {
                return Err("Graphs must be an array".to_owned());
            },
        },
        None => String::new(),
    };
    let ops = match std_data.get("ops") {
        Some(v) => match v.as_array() {
            Some(items) => match decompile_ops(items, opts) {
                Ok(t) => t,
                Err(e) => {
                    return Err(e);
                },
            },
            None => String::new(),
        },
        None => String::new(),
    };
    out.append(ops.as_str());
    let nodes = match std_data.get("nodes") {
        Some(v) => match v.as_object() {
            Some(members) => match decompile_nodes(members, opts) {
                Ok(t) => t,
                Err(e) => {
                    return Err(e);
                },
            },
            None => String::new(),
        },
        None => String::new(),
    };
    out.append(nodes.as_str());
    Ok(out)
}

/// The options that were given, else indentation 4, column limit 100 and no
/// unescaping.
pub open spec fn options_or_default(options: Option<DecompileOptions>) -> DecompileOptions {
    match options {
        Some(o) => o,
        None => DecompileOptions { indent: 4, max_col: 100, unescape: false, keep_order: false },
    }
}

/// The source text of a document under the options: escape sequences are
/// resolved first where the options say so.
pub open spec fn decompiled_text(content: JsonModel, opts: DecompileOptions) -> Result<
    Seq<char>,
    Seq<char>,
> {
    std_text(
        if opts.unescape {
            unescaped(content)
        } else {
            content
        },
        opts,
    )
}

/// Decompiles a document. The result is the source text, or the first
/// complaint; nothing of the text is handed out beside a complaint.
pub fn decompile_from_data(content: JsonValue, options: Option<DecompileOptions>) -> (r: Result<
    DecompileResult,
    String,
>)
    ensures
        match r {
            Ok(DecompileResult::Text(text)) => decompiled_text(
                content@,
                options_or_default(options),
            ) == Ok::<Seq<char>, Seq<char>>(text@),
            Ok(_) => false,
            Err(e) => decompiled_text(content@, options_or_default(options)) == Err::<
                Seq<char>,
                Seq<char>,
            >(e@),
        },
{
    let opts = match options {
        Some(o) => o,
        None => DecompileOptions::default(),
    };
    let content = if opts.unescape {
        unescape_dfs(&content)
    } else {
        content
    };
    match decompile_std(&content, &opts) {
        Ok(text) => Ok(DecompileResult::Text(text)),
        Err(e) => Err(e),
    }
}

} // verus!
