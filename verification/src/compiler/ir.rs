//! The intermediate representation that the compiler emits, and the
//! mathematical values that its contracts speak of.
//!
//! A member that would hold an empty map or array is left out: absence, not
//! emptiness, says that there is no data.

use crate::json::{copy_members, members_view, JsonMember, MemberModel};
use crate::text::texts;
use vstd::prelude::*;

verus! {

/// One node of a graph.
#[derive(Debug, PartialEq)]
pub struct NodeDict {
    /// The operation that the node calls.
    pub op_name: Option<String>,
    /// The graph that the node refers to.
    pub ref_graph: Option<String>,
    pub version: Option<String>,
    pub outputs: Option<Vec<String>>,
    pub inputs: Option<Vec<String>>,
    pub depends: Option<Vec<String>>,
    /// The attributes of the node that have no member of their own.
    pub with: Option<Vec<JsonMember>>,
    pub properties: Option<Vec<JsonMember>>,
    pub alias: Option<String>,
    pub override_flag: Option<bool>,
    pub for_loop: Option<Vec<JsonMember>>,
}

/// One node of a graph under its key.
#[derive(Debug, PartialEq)]
pub struct NodeEntry {
    pub key: String,
    pub node: NodeDict,
}

/// One graph.
#[derive(Debug, PartialEq)]
pub struct GraphDict {
    pub properties: Option<Vec<JsonMember>>,
    /// The nodes under their keys, in the order of their first definition.
    pub nodes: Option<Vec<NodeEntry>>,
    pub alias: Option<String>,
    pub version: Option<String>,
    pub template_graph: Option<String>,
    pub template_version: Option<String>,
}

/// One specification of an operation under its name.
#[derive(Debug, PartialEq)]
pub struct SpecEntry {
    pub name: String,
    pub spec: Vec<JsonMember>,
}

/// One operation.
#[derive(Debug, PartialEq)]
pub struct OpDict {
    pub metas: Option<Vec<JsonMember>>,
    pub inputs: Option<Vec<SpecEntry>>,
    pub outputs: Option<Vec<SpecEntry>>,
    pub configs: Option<Vec<SpecEntry>>,
    /// The graph that the operation embeds.
    pub graph: Option<GraphDict>,
}

/// What a compilation yields.
#[derive(Debug, PartialEq)]
pub struct CompileResult {
    pub graphs: Option<Vec<GraphDict>>,
    pub ops: Option<Vec<OpDict>>,
    /// The variable table.
    pub vars: Option<Vec<JsonMember>>,
    pub gos_version: String,
    pub op_names: Option<Vec<String>>,
    pub subgraphs: Option<Vec<String>>,
}

/// The value of a node.
pub struct NodeModel {
    pub op_name: Option<Seq<char>>,
    pub ref_graph: Option<Seq<char>>,
    pub version: Option<Seq<char>>,
    pub outputs: Option<Seq<Seq<char>>>,
    pub inputs: Option<Seq<Seq<char>>>,
    pub depends: Option<Seq<Seq<char>>>,
    pub with: Option<Seq<MemberModel>>,
    pub properties: Option<Seq<MemberModel>>,
    pub alias: Option<Seq<char>>,
    pub override_flag: Option<bool>,
    pub for_loop: Option<Seq<MemberModel>>,
}

/// The value of a node under its key.
pub struct NodeEntryModel {
    pub key: Seq<char>,
    pub node: NodeModel,
}

/// The value of a graph.
pub struct GraphModel {
    pub properties: Option<Seq<MemberModel>>,
    pub nodes: Option<Seq<NodeEntryModel>>,
    pub alias: Option<Seq<char>>,
    pub version: Option<Seq<char>>,
    pub template_graph: Option<Seq<char>>,
    pub template_version: Option<Seq<char>>,
}

/// The value of a specification under its name.
pub struct SpecEntryModel {
    pub name: Seq<char>,
    pub spec: Seq<MemberModel>,
}

/// The value of an operation.
pub struct OpModel {
    pub metas: Option<Seq<MemberModel>>,
    pub inputs: Option<Seq<SpecEntryModel>>,
    pub outputs: Option<Seq<SpecEntryModel>>,
    pub configs: Option<Seq<SpecEntryModel>>,
    pub graph: Option<GraphModel>,
}

/// The value of a compilation.
pub struct CompileModel {
    pub graphs: Option<Seq<GraphModel>>,
    pub ops: Option<Seq<OpModel>>,
    pub vars: Option<Seq<MemberModel>>,
    pub gos_version: Seq<char>,
    pub op_names: Option<Seq<Seq<char>>>,
    pub subgraphs: Option<Seq<Seq<char>>>,
}

/// The characters of an optional string.
pub open spec fn text_of(s: Option<String>) -> Option<Seq<char>> {
    match s {
        Some(x) => Some(x@),
        None => None,
    }
}

/// The texts of an optional list of strings.
pub open spec fn texts_of(s: Option<Vec<String>>) -> Option<Seq<Seq<char>>> {
    match s {
        Some(x) => Some(texts(x@)),
        None => None,
    }
}

/// The values of an optional list of members.
pub open spec fn members_of(s: Option<Vec<JsonMember>>) -> Option<Seq<MemberModel>> {
    match s {
        Some(x) => Some(members_view(x@)),
        None => None,
    }
}

impl View for NodeDict {
    type V = NodeModel;

    open spec fn view(&self) -> NodeModel {
        NodeModel {
            op_name: text_of(self.op_name),
            ref_graph: text_of(self.ref_graph),
            version: text_of(self.version),
            outputs: texts_of(self.outputs),
            inputs: texts_of(self.inputs),
            depends: texts_of(self.depends),
            with: members_of(self.with),
            properties: members_of(self.properties),
            alias: text_of(self.alias),
            override_flag: self.override_flag,
            for_loop: members_of(self.for_loop),
        }
    }
}

/// The values of a list of nodes under their keys.
pub open spec fn nodes_view(nodes: Seq<NodeEntry>) -> Seq<NodeEntryModel> {
    Seq::new(nodes.len(), |i: int| NodeEntryModel { key: nodes[i].key@, node: nodes[i].node@ })
}

impl View for GraphDict {
    type V = GraphModel;

    open spec fn view(&self) -> GraphModel {
        GraphModel {
            properties: members_of(self.properties),
            nodes: match self.nodes {
                Some(n) => Some(nodes_view(n@)),
                None => None,
            },
            alias: text_of(self.alias),
            version: text_of(self.version),
            template_graph: text_of(self.template_graph),
            template_version: text_of(self.template_version),
        }
    }
}

/// The values of a list of specifications under their names.
pub open spec fn specs_view(specs: Seq<SpecEntry>) -> Seq<SpecEntryModel> {
    Seq::new(
        specs.len(),
        |i: int| SpecEntryModel { name: specs[i].name@, spec: members_view(specs[i].spec@) },
    )
}

/// The values of an optional list of specifications.
pub open spec fn specs_of(s: Option<Vec<SpecEntry>>) -> Option<Seq<SpecEntryModel>> {
    match s {
        Some(x) => Some(specs_view(x@)),
        None => None,
    }
}

impl View for OpDict {
    type V = OpModel;

    open spec fn view(&self) -> OpModel {
        OpModel {
            metas: members_of(self.metas),
            inputs: specs_of(self.inputs),
            outputs: specs_of(self.outputs),
            configs: specs_of(self.configs),
            graph: match self.graph {
                Some(g) => Some(g@),
                None => None,
            },
        }
    }
}

/// The values of a list of graphs.
pub open spec fn graphs_view(graphs: Seq<GraphDict>) -> Seq<GraphModel> {
    Seq::new(graphs.len(), |i: int| graphs[i]@)
}

/// The values of a list of operations.
pub open spec fn ops_view(ops: Seq<OpDict>) -> Seq<OpModel> {
    Seq::new(ops.len(), |i: int| ops[i]@)
}

impl View for CompileResult {
    type V = CompileModel;

    open spec fn view(&self) -> CompileModel {
        CompileModel {
            graphs: match self.graphs {
                Some(g) => Some(graphs_view(g@)),
                None => None,
            },
            ops: match self.ops {
                Some(o) => Some(ops_view(o@)),
                None => None,
            },
            vars: members_of(self.vars),
            gos_version: self.gos_version@,
            op_names: texts_of(self.op_names),
            subgraphs: texts_of(self.subgraphs),
        }
    }
}

/// The index of the first node with the key among the first `n`; `n` where
/// there is none.
pub open spec fn node_index(nodes: Seq<NodeEntryModel>, key: Seq<char>, n: int) -> int
    decreases n,
{
    if n <= 0 {
        0
    } else {
        let before = node_index(nodes, key, n - 1);
        if before < n - 1 {
            before
        } else if nodes[n - 1].key == key {
            n - 1
        } else {
            n
        }
    }
}

/// The nodes after `key` is set to `node`: the last write wins and a key
/// keeps the place of its first write.
pub open spec fn with_node(nodes: Seq<NodeEntryModel>, key: Seq<char>, node: NodeModel) -> Seq<
    NodeEntryModel,
> {
    let at = node_index(nodes, key, nodes.len() as int);
    if at < nodes.len() {
        nodes.update(at, NodeEntryModel { key, node })
    } else {
        nodes.push(NodeEntryModel { key, node })
    }
}

pub proof fn lemma_node_index_stays(nodes: Seq<NodeEntryModel>, key: Seq<char>, n: int, m: int)
    requires
        0 < n <= m <= nodes.len(),
        node_index(nodes, key, n) < n,
    ensures
        node_index(nodes, key, m) == node_index(nodes, key, n),
    decreases m - n,
{
    if n < m {
        lemma_node_index_stays(nodes, key, n, m - 1);
    }
}

/// Sets `key` to `node`.
pub fn set_node(nodes: &mut Vec<NodeEntry>, key: String, node: NodeDict)
    ensures
        nodes_view(final(nodes)@) == with_node(nodes_view(old(nodes)@), key@, node@),
{
    let ghost before = nodes_view(nodes@);
    let mut at: usize = 0;
    let mut found = false;
    while at < nodes.len() && !found
        invariant
            at <= nodes.len(),
            nodes_view(nodes@) == before,
            !found ==> node_index(before, key@, at as int) == at,
            found ==> at < nodes.len() && node_index(before, key@, before.len() as int) == at,
        decreases nodes.len() - at + if found { 0int } else { 1int },
    {
        if crate::text::str_eq(nodes[at].key.as_str(), key.as_str()) {
            proof {
                lemma_node_index_stays(before, key@, at as int + 1, before.len() as int);
            }
            found = true;
        } else {
            at += 1;
        }
    }
    if found {
        nodes.set(at, NodeEntry { key, node });
    } else {
        nodes.push(NodeEntry { key, node });
    }
    assert(nodes_view(nodes@) =~= with_node(before, key@, node@));
}

/// The index of the first specification with the name among the first `n`;
/// `n` where there is none.
pub open spec fn spec_index(specs: Seq<SpecEntryModel>, name: Seq<char>, n: int) -> int
    decreases n,
{
    if n <= 0 {
        0
    } else {
        let before = spec_index(specs, name, n - 1);
        if before < n - 1 {
            before
        } else if specs[n - 1].name == name {
            n - 1
        } else {
            n
        }
    }
}

/// The specifications after `name` is set to `spec`: the last write wins and
/// a name keeps the place of its first write.
pub open spec fn with_spec(specs: Seq<SpecEntryModel>, name: Seq<char>, spec: Seq<MemberModel>) -> Seq<
    SpecEntryModel,
> {
    let at = spec_index(specs, name, specs.len() as int);
    if at < specs.len() {
        specs.update(at, SpecEntryModel { name, spec })
    } else {
        specs.push(SpecEntryModel { name, spec })
    }
}

pub proof fn lemma_spec_index_stays(specs: Seq<SpecEntryModel>, name: Seq<char>, n: int, m: int)
    requires
        0 < n <= m <= specs.len(),
        spec_index(specs, name, n) < n,
    ensures
        spec_index(specs, name, m) == spec_index(specs, name, n),
    decreases m - n,
{
    if n < m {
        lemma_spec_index_stays(specs, name, n, m - 1);
    }
}

/// Sets `name` to `spec`.
pub fn set_spec(specs: &mut Vec<SpecEntry>, name: String, spec: Vec<JsonMember>)
    ensures
        specs_view(final(specs)@) == with_spec(specs_view(old(specs)@), name@, members_view(spec@)),
{
    let ghost before = specs_view(specs@);
    let mut at: usize = 0;
    let mut found = false;
    while at < specs.len() && !found
        invariant
            at <= specs.len(),
            specs_view(specs@) == before,
            !found ==> spec_index(before, name@, at as int) == at,
            found ==> at < specs.len() && spec_index(before, name@, before.len() as int) == at,
        decreases specs.len() - at + if found { 0int } else { 1int },
    {
        if crate::text::str_eq(specs[at].name.as_str(), name.as_str()) {
            proof {
                lemma_spec_index_stays(before, name@, at as int + 1, before.len() as int);
            }
            found = true;
        } else {
            at += 1;
        }
    }
    if found {
        specs.set(at, SpecEntry { name, spec });
    } else {
        specs.push(SpecEntry { name, spec });
    }
    assert(specs_view(specs@) =~= with_spec(before, name@, members_view(spec@)));
}

/// A copy of an optional string.
fn copy_text(s: &Option<String>) -> (r: Option<String>)
    ensures
        r == *s,
{
    match s {
        Some(x) => Some(x.clone()),
        None => None,
    }
}

/// A copy of an optional list of strings, with the same texts.
fn copy_texts(s: &Option<Vec<String>>) -> (r: Option<Vec<String>>)
    ensures
        texts_of(r) == texts_of(*s),
{
    match s {
        Some(v) => {
            let mut out: Vec<String> = Vec::new();
            let mut i: usize = 0;
            while i < v.len()
                invariant
                    i <= v.len(),
                    out@.len() == i,
                    forall|j: int| 0 <= j < i ==> out@[j] == v@[j],
                decreases v.len() - i,
            {
                out.push(v[i].clone());
                i += 1;
            }
            assert(texts(out@) =~= texts(v@));
            Some(out)
        },
        None => None,
    }
}

/// A copy of an optional list of members, with the same keys and values.
fn copy_member_list(s: &Option<Vec<JsonMember>>) -> (r: Option<Vec<JsonMember>>)
    ensures
        members_of(r) == members_of(*s),
{
    match s {
        Some(v) => Some(copy_members(v)),
        None => None,
    }
}

/// A copy of an optional list of specifications, with the same names and
/// values.
fn copy_specs(s: &Option<Vec<SpecEntry>>) -> (r: Option<Vec<SpecEntry>>)
    ensures
        specs_of(r) == specs_of(*s),
{
    match s {
        Some(v) => {
            let mut out: Vec<SpecEntry> = Vec::new();
            let mut i: usize = 0;
            while i < v.len()
                invariant
                    i <= v.len(),
                    out@.len() == i,
                    forall|j: int|
                        0 <= j < i ==> out@[j].name@ == v@[j].name@ && members_view(
                            (#[trigger] out@[j]).spec@,
                        ) == members_view(v@[j].spec@),
                decreases v.len() - i,
            {
                out.push(SpecEntry { name: v[i].name.clone(), spec: copy_members(&v[i].spec) });
                i += 1;
            }
            assert(specs_view(out@) =~= specs_view(v@));
            Some(out)
        },
        None => None,
    }
}

impl Clone for NodeDict {
    fn clone(&self) -> (r: Self)
        ensures
            r@ == self@,
    {
        NodeDict {
            op_name: copy_text(&self.op_name),
            ref_graph: copy_text(&self.ref_graph),
            version: copy_text(&self.version),
            outputs: copy_texts(&self.outputs),
            inputs: copy_texts(&self.inputs),
            depends: copy_texts(&self.depends),
            with: copy_member_list(&self.with),
            properties: copy_member_list(&self.properties),
            alias: copy_text(&self.alias),
            override_flag: self.override_flag,
            for_loop: copy_member_list(&self.for_loop),
        }
    }
}

impl Clone for NodeEntry {
    fn clone(&self) -> (r: Self)
        ensures
            r.key@ == self.key@,
            r.node@ == self.node@,
    {
        NodeEntry { key: self.key.clone(), node: self.node.clone() }
    }
}

impl Clone for GraphDict {
    fn clone(&self) -> (r: Self)
        ensures
            r@ == self@,
    {
        let nodes = match &self.nodes {
            Some(v) => {
                let mut out: Vec<NodeEntry> = Vec::new();
                let mut i: usize = 0;
                while i < v.len()
                    invariant
                        i <= v.len(),
                        out@.len() == i,
                        forall|j: int|
                            0 <= j < i ==> (#[trigger] out@[j]).key@ == v@[j].key@ && out@[j].node@
                                == v@[j].node@,
                    decreases v.len() - i,
                {
                    out.push(v[i].clone());
                    i += 1;
                }
                assert(nodes_view(out@) =~= nodes_view(v@));
                Some(out)
            },
            None => None,
        };
        GraphDict {
            properties: copy_member_list(&self.properties),
            nodes,
            alias: copy_text(&self.alias),
            version: copy_text(&self.version),
            template_graph: copy_text(&self.template_graph),
            template_version: copy_text(&self.template_version),
        }
    }
}

impl Clone for SpecEntry {
    fn clone(&self) -> (r: Self)
        ensures
            r.name@ == self.name@,
            members_view(r.spec@) == members_view(self.spec@),
    {
        SpecEntry { name: self.name.clone(), spec: copy_members(&self.spec) }
    }
}

impl Clone for OpDict {
    fn clone(&self) -> (r: Self)
        ensures
            r@ == self@,
    {
        OpDict {
            metas: copy_member_list(&self.metas),
            inputs: copy_specs(&self.inputs),
            outputs: copy_specs(&self.outputs),
            configs: copy_specs(&self.configs),
            graph: match &self.graph {
                Some(g) => Some(g.clone()),
                None => None,
            },
        }
    }
}

impl Clone for CompileResult {
    fn clone(&self) -> (r: Self)
        ensures
            r@ == self@,
    {
        let graphs = match &self.graphs {
            Some(v) => {
                let mut out: Vec<GraphDict> = Vec::new();
                let mut i: usize = 0;
                while i < v.len()
                    invariant
                        i <= v.len(),
                        out@.len() == i,
                        forall|j: int| 0 <= j < i ==> (#[trigger] out@[j])@ == v@[j]@,
                    decreases v.len() - i,
                {
                    out.push(v[i].clone());
                    i += 1;
                }
                assert(graphs_view(out@) =~= graphs_view(v@));
                Some(out)
            },
            None => None,
        };
        let ops = match &self.ops {
            Some(v) => {
                let mut out: Vec<OpDict> = Vec::new();
                let mut i: usize = 0;
                while i < v.len()
                    invariant
                        i <= v.len(),
                        out@.len() == i,
                        forall|j: int| 0 <= j < i ==> (#[trigger] out@[j])@ == v@[j]@,
                    decreases v.len() - i,
                {
                    out.push(v[i].clone());
                    i += 1;
                }
                assert(ops_view(out@) =~= ops_view(v@));
                Some(out)
            },
            None => None,
        };
        CompileResult {
            graphs,
            ops,
            vars: copy_member_list(&self.vars),
            gos_version: self.gos_version.clone(),
            op_names: copy_texts(&self.op_names),
            subgraphs: copy_texts(&self.subgraphs),
        }
    }
}

} // verus!
