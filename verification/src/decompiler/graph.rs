//! Graphs and the nodes inside them.

use crate::decompiler::ident::{check_id, check_version, checked_id, is_identifier, result_view};
use crate::decompiler::node::{node_text, NodeDecompiler};
use crate::decompiler::options::DecompileOptions;
use crate::decompiler::params::{indent, indent_text, params_render, ParamFormatter};
use crate::json::{members_view, JsonMember, JsonModel, JsonValue, MemberModel};
use vstd::prelude::*;

verus! {

/// The first complaint among the first `n` results; their texts one after
/// the other where there is none.
pub open spec fn concat_results(items: Seq<Result<Seq<char>, Seq<char>>>, n: int) -> Result<
    Seq<char>,
    Seq<char>,
>
    decreases n,
{
    if n <= 0 || n > items.len() {
        Ok(Seq::empty())
    } else {
        match concat_results(items, n - 1) {
            Err(e) => Err(e),
            Ok(t) => match items[n - 1] {
                Err(e) => Err(e),
                Ok(x) => Ok(t + x),
            },
        }
    }
}

/// A complaint that follows results without one is the complaint of every
/// longer run.
pub proof fn lemma_concat_err(items: Seq<Result<Seq<char>, Seq<char>>>, i: int, n: int)
    requires
        0 <= i < n <= items.len(),
        concat_results(items, i) is Ok,
        items[i] is Err,
    ensures
        concat_results(items, n) == Err::<Seq<char>, Seq<char>>(items[i]->Err_0),
    decreases n - i,
{
    if n > i + 1 {
        lemma_concat_err(items, i, n - 1);
    }
}

/// `.version('v')` where there is a version.
pub open spec fn version_suffix(v: Option<Seq<char>>) -> Seq<char> {
    match v {
        Some(x) => ".version('"@ + x + "')"@,
        None => Seq::empty(),
    }
}

/// `.version('v')` where there is a version.
pub fn version_suffix_of(v: Option<&str>) -> (r: String)
    ensures
        r@ == version_suffix(crate::json::opt_text(v)),
{
    match v {
        Some(x) => {
            match check_version(x) {
                Ok(checked) => {
                    let mut s = ".version('".to_owned();
                    s.append(checked.as_str());
                    s.append("')");
                    s
                },
                Err(_) => String::new(),
            }
        },
        None => String::new(),
    }
}

/// ` as name.version('v')` for an alias.
pub open spec fn alias_suffix(alias: Seq<char>, version: Option<Seq<char>>) -> Seq<char> {
    " as "@ + alias + version_suffix(version)
}

/// What follows a closing brace: the alias with its version where there is
/// an alias, which has to be an identifier.
pub open spec fn closing_alias(alias: Option<Seq<char>>, version: Option<Seq<char>>) -> Result<
    Seq<char>,
    Seq<char>,
> {
    match alias {
        Some(a) => if is_identifier(a) {
            Ok(alias_suffix(a, version))
        } else {
            checked_id(a)
        },
        None => Ok(Seq::empty()),
    }
}

/// What follows a closing brace.
pub fn closing_alias_of(alias: Option<&str>, version: Option<&str>) -> (r: Result<String, String>)
    ensures
        result_view(r) == closing_alias(crate::json::opt_text(alias), crate::json::opt_text(version)),
{
    match alias {
        Some(a) => {
            let checked = match check_id(a) {
                Ok(c) => c,
                Err(e) => {
                    return Err(e);
                },
            };
            let mut s = " as ".to_owned();
            s.append(checked.as_str());
            let v = version_suffix_of(version);
            s.append(v.as_str());
            Ok(s)
        },
        None => Ok(String::new()),
    }
}

/// The statements of the nodes of a graph, each by its key.
pub open spec fn node_results(members: Seq<MemberModel>, opts: DecompileOptions) -> Seq<
    Result<Seq<char>, Seq<char>>,
> {
    Seq::new(members.len(), |i: int| node_text(members[i].key, members[i].value, opts))
}

/// The nodes of a graph, one statement after the other.
pub open spec fn nodes_text(members: Seq<MemberModel>, opts: DecompileOptions) -> Result<
    Seq<char>,
    Seq<char>,
> {
    concat_results(node_results(members, opts), members.len() as int)
}

/// The nodes of a graph, one statement after the other.
pub fn decompile_nodes(members: &Vec<JsonMember>, opts: &DecompileOptions) -> (r: Result<
    String,
    String,
>)
    ensures
        result_view(r) == nodes_text(members_view(members@), *opts),
{
    let ghost mm = members_view(members@);
    let ghost results = node_results(mm, *opts);
    let mut out = String::new();
    let mut i: usize = 0;
    while i < members.len()
        invariant
            i <= members.len(),
            mm == members_view(members@),
            results == node_results(mm, *opts),
            concat_results(results, i as int) == Ok::<Seq<char>, Seq<char>>(out@),
        decreases members.len() - i,
    {
        let d = NodeDecompiler::new(members[i].key.as_str(), &members[i].value);
        match d.decompile(opts) {
            Ok(t) => {
                out.append(t.as_str());
            },
            Err(e) => {
                proof {
                    lemma_concat_err(results, i as int, members.len() as int);
                }
                return Err(e);
            },
        }
        i += 1;
    }
    Ok(out)
}

/// The first line of a graph: `graph {`, or `graph : template.version('v') {`
/// for a graph made from a template, whose name has to be an identifier.
pub open spec fn graph_header(graph: JsonModel) -> Result<Seq<char>, Seq<char>> {
    match graph.get_text("template_graph"@) {
        Some(tpl) => if is_identifier(tpl) {
            Ok(
                "graph : "@ + tpl + version_suffix(graph.get_text("template_version"@)) + " {"@,
            )
        } else {
            checked_id(tpl)
        },
        None => Ok("graph {"@),
    }
}

/// The properties of a graph: the member `properties`, or under its older
/// spelling `property`.
pub open spec fn graph_properties(graph: JsonModel) -> Option<JsonModel> {
    match graph.get("properties"@) {
        Some(p) => Some(p),
        None => graph.get("property"@),
    }
}

/// The properties line of a graph: the list on a line of its own, then `;`.
pub open spec fn properties_text(graph: JsonModel, opts: DecompileOptions) -> Seq<char> {
    match graph_properties(graph) {
        Some(p) => indent_text(opts.indent) + params_render(p, ',', opts.indent, opts).text + ";"@,
        None => Seq::empty(),
    }
}

/// The nodes of a graph where its member `nodes` is an object.
pub open spec fn graph_nodes(graph: JsonModel, opts: DecompileOptions) -> Result<
    Seq<char>,
    Seq<char>,
> {
    match graph.get("nodes"@) {
        Some(JsonModel::Object(members)) => nodes_text(members, opts),
        _ => Ok(Seq::empty()),
    }
}

/// The closing brace, on a line of its own where indentation is on.
pub open spec fn closing_brace(opts: DecompileOptions) -> Seq<char> {
    if opts.indent > 0 {
        "\n}"@
    } else {
        "}"@
    }
}

/// A graph: the header, the properties line, one line per node, the closing
/// brace with alias and version, and `;`.
#[verifier::opaque]
pub open spec fn graph_text(graph: JsonModel, opts: DecompileOptions) -> Result<
    Seq<char>,
    Seq<char>,
> {
    if !(graph is Object) {
        Err("Graph must be a JSON object"@)
    } else {
        match graph_header(graph) {
            Err(e) => Err(e),
            Ok(header) => match graph_nodes(graph, opts) {
                Err(e) => Err(e),
                Ok(nodes) => match closing_alias(
                    graph.get_text("as"@),
                    graph.get_text("version"@),
                ) {
                    Err(e) => Err(e),
                    Ok(alias) => Ok(
                        header + properties_text(graph, opts) + nodes + closing_brace(opts)
                            + alias + ";"@,
                    ),
                },
            },
        }
    }
}

fn header_part(graph: &JsonValue) -> (r: Result<String, String>)
    ensures
        result_view(r) == graph_header(graph@),
{
    match graph.get_str("template_graph") {
        Some(tpl) => {
            let checked = match check_id(tpl) {
                Ok(c) => c,
                Err(e) => {
                    return Err(e);
                },
            };
            let mut h = "graph : ".to_owned();
            h.append(checked.as_str());
            let v = version_suffix_of(graph.get_str("template_version"));
            h.append(v.as_str());
            h.append(" {");
            Ok(h)
        },
        None => Ok("graph {".to_owned()),
    }
}

fn properties_part(graph: &JsonValue, opts: &DecompileOptions) -> (r: String)
    ensures
        r@ == properties_text(graph@, *opts),
{
    let props = match graph.get("properties") {
        Some(p) => Some(p),
        None => graph.get("property"),
    };
    match props {
        Some(p) => {
            let mut out = String::new();
            indent(&mut out, opts.indent);
            let f = ParamFormatter::new(p, ',');
            let _ = f.format(&mut out, opts.indent, opts);
            out.append(";");
            assert(out@ =~= properties_text(graph@, *opts));
            out
        },
        None => String::new(),
    }
}

/// A graph as source text.
pub fn decompile_graph(graph: &JsonValue, opts: &DecompileOptions) -> (r: Result<String, String>)
    ensures
        result_view(r) == graph_text(graph@, *opts),
{
    proof {
        reveal(graph_text);
    }
    if !graph.is_object() {
        return Err("Graph must be a JSON object".to_owned());
    }
    let mut out = match header_part(graph) {
        Ok(h) => h,
        Err(e) => {
            return Err(e);
        },
    };
    let props = properties_part(graph, opts);
    out.append(props.as_str());
    let nodes = match graph.get("nodes") {
        Some(v) => match v.as_object() {
            Some(members) => match decompile_nodes(members, opts) {
                Ok(t) => t,
                Err(e) => {
                    return Err(e);
                },
            },
            None => String::new(),
        },
        None => String::new(),
    };
    out.append(nodes.as_str());
    if opts.indent > 0 {
        out.append("\n}");
    } else {
        out.append("}");
    }
    let alias = match closing_alias_of(graph.get_str("as"), graph.get_str("version")) {
        Ok(a) => a,
        Err(e) => {
            return Err(e);
        },
    };
    out.append(alias.as_str());
    out.append(";");
    Ok(out)
}

} // verus!
