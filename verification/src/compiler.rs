//! Compiles a syntax tree to the intermediate representation.

pub mod ir;
pub mod values;

use crate::ast::model::{
    attr_defs_view, attrs_view, boxed_view, key_items_view, nodes_view as tree_view, spec_items_view,
    lemma_model_kind, symbol_model, symbols_view, AttrDefModel, GraphDefModel, ModuleModel, NodeAttrModel,
    NodeAttrValueModel, NodeBlockModel, NodeDefModel, NodeInputDefModel, NodeInputKeyItemModel,
    NodeModel, OpDefModel, OpSpecItemModel, OpSpecModel, SymbolModel, VarDefModel,
};
use crate::ast::{
    AstNodeEnum, AttrDef, GraphDef, Module, NodeAttrValue, NodeBlock, NodeDef, NodeInputDef, OpDef, OpSpec, Symbol, VarDef,
};
use crate::compiler::ir::{
    graphs_view, nodes_view, ops_view, set_node, set_spec, specs_view, with_node, with_spec,
    CompileModel, CompileResult, GraphDict, GraphModel, NodeDict, NodeEntry, NodeEntryModel, OpDict, OpModel, SpecEntry, SpecEntryModel,
};
use crate::compiler::values::{
    convert_resolved, convert_value, convert_values, node_values, resolve_value, resolved,
    resolved_value, value_of,
};
use crate::error::{ParseError, ParseResult};
use crate::json::{
    lemma_array_view, members_view, set_member, with_member, JsonMember, JsonModel, JsonValue,
    MemberModel,
};
use crate::text::{nat_text, push_nat, str_eq, texts, trim_text, trimmed};
use vstd::prelude::*;

verus! {

/// What a caller can set for one compilation.
#[derive(Debug)]
pub struct CompileOptions {
    /// Whether the names of the operations are wanted.
    pub return_op_names: bool,
    /// Whether the subgraphs are wanted.
    pub return_subgraphs: bool,
    /// Whether members keep their order; they always do.
    pub keep_order: bool,
    /// The plugin that converts the result.
    pub plugin: Option<String>,
}

impl Clone for CompileOptions {
    fn clone(&self) -> (r: Self)
        ensures
            r == *self,
    {
        CompileOptions {
            return_op_names: self.return_op_names,
            return_subgraphs: self.return_subgraphs,
            keep_order: self.keep_order,
            plugin: match &self.plugin {
                Some(p) => Some(p.clone()),
                None => None,
            },
        }
    }
}

impl Default for CompileOptions {
    fn default() -> (r: Self)
        ensures
            !r.return_op_names,
            !r.return_subgraphs,
            !r.keep_order,
            r.plugin is None,
    {
        CompileOptions {
            return_op_names: false,
            return_subgraphs: false,
            keep_order: false,
            plugin: None,
        }
    }
}

/// The compiler.
pub struct Compiler {
    pub options: CompileOptions,
}

/// The version of the language that a result is marked with.
pub open spec fn gos_version() -> Seq<char> {
    "0.5.2"@
}

/// The names of a sequence of symbols.
pub open spec fn symbol_names(symbols: Seq<SymbolModel>) -> Seq<Seq<char>> {
    Seq::new(symbols.len(), |i: int| symbols[i].name)
}

/// The name of an optional symbol.
pub open spec fn symbol_name(s: Option<SymbolModel>) -> Option<Seq<char>> {
    match s {
        Some(x) => Some(x.name),
        None => None,
    }
}

/// The string that a node stands for: the value of a string literal or the
/// name of a symbol.
pub open spec fn string_value(node: NodeModel) -> Option<Seq<char>> {
    match node {
        NodeModel::StringLiteral(s) => Some(s.value),
        NodeModel::Symbol(s) => Some(s.name),
        _ => None,
    }
}

/// The string that an optional node stands for.
pub open spec fn optional_string(node: Option<Box<NodeModel>>) -> Option<Seq<char>> {
    match node {
        Some(b) => string_value(*b),
        None => None,
    }
}

/// The members where there are any.
pub open spec fn some_members(m: Seq<MemberModel>) -> Option<Seq<MemberModel>> {
    if m.len() > 0 {
        Some(m)
    } else {
        None
    }
}

/// The key of a variable: the trimmed name of the attribute, behind the
/// alias of the block and a dot where the block has an alias.
pub open spec fn var_key(var_def: VarDefModel, attr: AttrDefModel) -> Seq<char> {
    match var_def.alias {
        Some(a) => a.name + "."@ + trimmed(attr.name.name),
        None => trimmed(attr.name.name),
    }
}

/// The variable table after the first `n` children of a variable block:
/// each attribute sets its key to its value.
pub open spec fn vars_steps(var_def: VarDefModel, vars: Seq<MemberModel>, n: int) -> Seq<MemberModel>
    decreases n,
{
    if n <= 0 || n > var_def.children.len() {
        vars
    } else {
        let prev = vars_steps(var_def, vars, n - 1);
        match var_def.children[n - 1] {
            NodeModel::AttrDef(attr) => with_member(
                prev,
                var_key(var_def, attr),
                value_of(*attr.value),
            ),
            _ => prev,
        }
    }
}

/// The variable table after a variable block: its attributes, then, for a
/// block with an alias, the alias itself under `alias.as`.
pub open spec fn vars_after(var_def: VarDefModel, vars: Seq<MemberModel>) -> Seq<MemberModel> {
    let all = vars_steps(var_def, vars, var_def.children.len() as int);
    match var_def.alias {
        Some(a) => with_member(all, a.name + ".as"@, JsonModel::Text(a.name)),
        None => all,
    }
}

/// The name that an input stands for: the plain text of its value.
pub open spec fn input_name(node: NodeModel) -> Seq<char> {
    value_of(node).plain()
}

/// The names of positional inputs.
pub open spec fn tuple_inputs(items: Seq<NodeModel>) -> Seq<Seq<char>> {
    Seq::new(items.len(), |i: int| input_name(items[i]))
}

/// The names that one keyed input holds: those of a list of names, else the
/// one name that its value stands for.
pub open spec fn item_names(item: NodeInputKeyItemModel) -> Seq<Seq<char>> {
    match *item.value {
        NodeModel::NodeInputValues(v) => symbol_names(v.items),
        _ => seq![input_name(*item.value)],
    }
}

/// The names of the first `n` keyed inputs, one after the other.
pub open spec fn keyed_inputs(items: Seq<NodeInputKeyItemModel>, n: int) -> Seq<Seq<char>>
    decreases n,
{
    if n <= 0 || n > items.len() {
        Seq::empty()
    } else {
        keyed_inputs(items, n - 1) + item_names(items[n - 1])
    }
}

/// The inputs of a call, where it has any.
pub open spec fn node_inputs(block: NodeBlockModel) -> Option<Seq<Seq<char>>> {
    match block.inputs {
        None => None,
        Some(NodeInputDefModel::Tuple(t)) => Some(tuple_inputs(t.items)),
        Some(NodeInputDefModel::KeyValue(kv)) => Some(keyed_inputs(kv.items, kv.items.len() as int)),
    }
}

/// The value of a chained attribute.
pub open spec fn attr_value(v: NodeAttrValueModel) -> JsonModel {
    match v {
        NodeAttrValueModel::Symbol(s) => JsonModel::Text(s.name),
        NodeAttrValueModel::String(s) => JsonModel::Text(s.value),
        NodeAttrValueModel::List(items) => JsonModel::Array(node_values(items)),
    }
}

/// What the chained attributes of a node definition come to.
pub struct AttrState {
    pub version: Option<Seq<char>>,
    pub alias: Option<Seq<char>>,
    pub override_flag: Option<bool>,
    pub with: Seq<MemberModel>,
}

/// The first `n` chained attributes of a node definition: `version` and `as`
/// set the version and the alias where their value is a string, `override`
/// sets the flag where its value is a truth value, and every other attribute
/// sets its name among `with`.
pub open spec fn attr_steps(attrs: Seq<NodeAttrModel>, vars: Seq<MemberModel>, n: int) -> AttrState
    decreases n,
{
    if n <= 0 || n > attrs.len() {
        AttrState { version: None, alias: None, override_flag: None, with: Seq::empty() }
    } else {
        let prev = attr_steps(attrs, vars, n - 1);
        let r = resolved(attr_value(attrs[n - 1].value), vars);
        let name = attrs[n - 1].name.name;
        if name == "version"@ {
            AttrState { version: r.as_text(), ..prev }
        } else if name == "as"@ {
            AttrState { alias: r.as_text(), ..prev }
        } else if name == "override"@ {
            AttrState { override_flag: r.as_bool(), ..prev }
        } else {
            AttrState { with: with_member(prev.with, name, r), ..prev }
        }
    }
}

/// What the chained attributes of a call come to.
pub open spec fn attrs_state(block: NodeBlockModel, vars: Seq<MemberModel>) -> AttrState {
    match block.attrs {
        Some(attrs) => attr_steps(attrs, vars, attrs.len() as int),
        None => AttrState { version: None, alias: None, override_flag: None, with: Seq::empty() },
    }
}

/// A node definition: the operation, the outputs, the inputs, and what the
/// chained attributes come to.
pub open spec fn node_def_model(node_def: NodeDefModel, vars: Seq<MemberModel>) -> ir::NodeModel {
    let st = attrs_state(node_def.value, vars);
    ir::NodeModel {
        op_name: Some(node_def.value.name.name),
        ref_graph: None,
        version: st.version,
        outputs: Some(symbol_names(node_def.outputs)),
        inputs: node_inputs(node_def.value),
        depends: None,
        with: some_members(st.with),
        properties: None,
        alias: st.alias,
        override_flag: st.override_flag,
        for_loop: None,
    }
}

/// The first `n` chained attributes, each set under its name.
pub open spec fn with_steps(attrs: Seq<NodeAttrModel>, vars: Seq<MemberModel>, n: int) -> Seq<
    MemberModel,
>
    decreases n,
{
    if n <= 0 || n > attrs.len() {
        Seq::empty()
    } else {
        with_member(
            with_steps(attrs, vars, n - 1),
            attrs[n - 1].name.name,
            resolved(attr_value(attrs[n - 1].value), vars),
        )
    }
}

/// All chained attributes of a call as one map, where there are any.
pub open spec fn node_attributes(block: NodeBlockModel, vars: Seq<MemberModel>) -> Option<
    Seq<MemberModel>,
> {
    match block.attrs {
        Some(attrs) => some_members(with_steps(attrs, vars, attrs.len() as int)),
        None => None,
    }
}

/// The node that an attribute with a call for a value defines: its one
/// output is the name of the attribute, and all chained attributes go to
/// `with`.
pub open spec fn implicit_node(attr: AttrDefModel, block: NodeBlockModel, vars: Seq<MemberModel>) -> ir::NodeModel {
    ir::NodeModel {
        op_name: Some(block.name.name),
        ref_graph: None,
        version: None,
        outputs: Some(seq![attr.name.name]),
        inputs: node_inputs(block),
        depends: None,
        with: node_attributes(block, vars),
        properties: None,
        alias: None,
        override_flag: None,
        for_loop: None,
    }
}

/// The key of a node definition: its first output, or `node_` and the number
/// of nodes before it where it has no output.
pub open spec fn node_key(node_def: NodeDefModel, count: nat) -> Seq<char> {
    if node_def.outputs.len() > 0 {
        node_def.outputs[0].name
    } else {
        "node_"@ + nat_text(count)
    }
}

/// The properties and nodes of a graph.
pub struct GraphState {
    pub properties: Seq<MemberModel>,
    pub nodes: Seq<NodeEntryModel>,
}

/// The properties and nodes after the first `n` children of a graph: an
/// attribute with a call for a value defines a node, any other attribute
/// sets a property, and a node definition sets a node.
pub open spec fn graph_steps(graph: GraphDefModel, vars: Seq<MemberModel>, n: int) -> GraphState
    decreases n,
{
    if n <= 0 || n > graph.children.len() {
        GraphState { properties: Seq::empty(), nodes: Seq::empty() }
    } else {
        let prev = graph_steps(graph, vars, n - 1);
        match graph.children[n - 1] {
            NodeModel::AttrDef(attr) => match *attr.value {
                NodeModel::NodeBlock(block) => GraphState {
                    nodes: with_node(prev.nodes, attr.name.name, implicit_node(attr, block, vars)),
                    ..prev
                },
                _ => GraphState {
                    properties: with_member(
                        prev.properties,
                        attr.name.name,
                        resolved_value(*attr.value, vars),
                    ),
                    ..prev
                },
            },
            NodeModel::NodeDef(node_def) => GraphState {
                nodes: with_node(
                    prev.nodes,
                    node_key(node_def, prev.nodes.len()),
                    node_def_model(node_def, vars),
                ),
                ..prev
            },
            _ => prev,
        }
    }
}

/// A graph block under a variable table.
pub open spec fn graph_model(graph: GraphDefModel, vars: Seq<MemberModel>) -> GraphModel {
    let st = graph_steps(graph, vars, graph.children.len() as int);
    GraphModel {
        properties: some_members(st.properties),
        nodes: if st.nodes.len() > 0 {
            Some(st.nodes)
        } else {
            None
        },
        alias: symbol_name(graph.alias),
        version: optional_string(graph.version),
        template_graph: symbol_name(graph.template_graph),
        template_version: optional_string(graph.template_version),
    }
}

/// The members that the first `n` items of a specification make.
pub open spec fn spec_steps(items: Seq<OpSpecItemModel>, vars: Seq<MemberModel>, n: int) -> Seq<
    MemberModel,
>
    decreases n,
{
    if n <= 0 || n > items.len() {
        Seq::empty()
    } else {
        with_member(
            spec_steps(items, vars, n - 1),
            items[n - 1].name,
            resolved_value(*items[n - 1].value, vars),
        )
    }
}

/// The members of a specification.
pub open spec fn spec_members(spec: OpSpecModel, vars: Seq<MemberModel>) -> Seq<MemberModel> {
    match spec.items {
        Some(items) => spec_steps(items, vars, items.len() as int),
        None => Seq::empty(),
    }
}

/// A section after its first `n` children: each specification sets its name.
pub open spec fn section_steps(
    children: Seq<NodeModel>,
    specs: Seq<SpecEntryModel>,
    vars: Seq<MemberModel>,
    n: int,
) -> Seq<SpecEntryModel>
    decreases n,
{
    if n <= 0 || n > children.len() {
        specs
    } else {
        let prev = section_steps(children, specs, vars, n - 1);
        match children[n - 1] {
            NodeModel::OpSpec(spec) => with_spec(prev, spec.name.name, spec_members(spec, vars)),
            _ => prev,
        }
    }
}

/// The metas after the first `n` attributes of a meta section.
pub open spec fn meta_steps(
    attrs: Seq<AttrDefModel>,
    metas: Seq<MemberModel>,
    vars: Seq<MemberModel>,
    n: int,
) -> Seq<MemberModel>
    decreases n,
{
    if n <= 0 || n > attrs.len() {
        metas
    } else {
        with_member(
            meta_steps(attrs, metas, vars, n - 1),
            attrs[n - 1].name.name,
            resolved_value(*attrs[n - 1].value, vars),
        )
    }
}

/// The four maps of an operation.
pub struct OpState {
    pub metas: Seq<MemberModel>,
    pub inputs: Seq<SpecEntryModel>,
    pub outputs: Seq<SpecEntryModel>,
    pub configs: Seq<SpecEntryModel>,
}

/// The metas that the block itself gives: its alias under `as`, its version
/// under `version`.
pub open spec fn seed_metas(op: OpDefModel) -> Seq<MemberModel> {
    let a = match op.alias {
        Some(s) => with_member(Seq::empty(), "as"@, JsonModel::Text(s.name)),
        None => Seq::empty(),
    };
    match op.version {
        Some(v) => with_member(a, "version"@, JsonModel::Text(v)),
        None => a,
    }
}

/// The maps of an operation after its first `n` children.
pub open spec fn op_steps(op: OpDefModel, vars: Seq<MemberModel>, n: int) -> OpState
    decreases n,
{
    if n <= 0 || n > op.children.len() {
        OpState {
            metas: seed_metas(op),
            inputs: Seq::empty(),
            outputs: Seq::empty(),
            configs: Seq::empty(),
        }
    } else {
        let prev = op_steps(op, vars, n - 1);
        match op.children[n - 1] {
            NodeModel::OpMeta(m) => OpState {
                metas: meta_steps(m.children, prev.metas, vars, m.children.len() as int),
                ..prev
            },
            NodeModel::OpInput(s) => OpState {
                inputs: section_steps(s.children, prev.inputs, vars, s.children.len() as int),
                ..prev
            },
            NodeModel::OpOutput(s) => OpState {
                outputs: section_steps(s.children, prev.outputs, vars, s.children.len() as int),
                ..prev
            },
            NodeModel::OpConfig(s) => OpState {
                configs: section_steps(s.children, prev.configs, vars, s.children.len() as int),
                ..prev
            },
            _ => prev,
        }
    }
}

/// The specifications where there are any.
pub open spec fn some_specs(s: Seq<SpecEntryModel>) -> Option<Seq<SpecEntryModel>> {
    if s.len() > 0 {
        Some(s)
    } else {
        None
    }
}

/// An operation block under a variable table.
pub open spec fn op_model(op: OpDefModel, vars: Seq<MemberModel>) -> OpModel {
    let st = op_steps(op, vars, op.children.len() as int);
    OpModel {
        metas: some_members(st.metas),
        inputs: some_specs(st.inputs),
        outputs: some_specs(st.outputs),
        configs: some_specs(st.configs),
        graph: None,
    }
}

/// What a module has come to.
pub struct ModuleState {
    pub graphs: Seq<GraphModel>,
    pub ops: Seq<OpModel>,
    pub vars: Seq<MemberModel>,
}

/// A module after its first `n` statements, from left to right: a variable
/// block extends the variable table, and a graph or an operation is
/// compiled under the table as it stands then.
pub open spec fn module_steps(module: ModuleModel, n: int) -> ModuleState
    decreases n,
{
    if n <= 0 || n > module.children.len() {
        ModuleState { graphs: Seq::empty(), ops: Seq::empty(), vars: Seq::empty() }
    } else {
        let prev = module_steps(module, n - 1);
        match module.children[n - 1] {
            NodeModel::VarDef(v) => ModuleState { vars: vars_after(v, prev.vars), ..prev },
            NodeModel::GraphDef(g) => ModuleState {
                graphs: prev.graphs.push(graph_model(g, prev.vars)),
                ..prev
            },
            NodeModel::OpDef(o) => ModuleState { ops: prev.ops.push(op_model(o, prev.vars)), ..prev },
            _ => prev,
        }
    }
}

/// What a module compiles to.
pub open spec fn compiled(module: ModuleModel) -> CompileModel {
    let st = module_steps(module, module.children.len() as int);
    CompileModel {
        graphs: if st.graphs.len() > 0 {
            Some(st.graphs)
        } else {
            None
        },
        ops: if st.ops.len() > 0 {
            Some(st.ops)
        } else {
            None
        },
        vars: some_members(st.vars),
        gos_version: gos_version(),
        op_names: None,
        subgraphs: None,
    }
}

/// A module without statements compiles to a result without graphs,
/// operations and variables, marked with the version of the language.
pub proof fn lemma_empty_module(module: ModuleModel)
    requires
        module.children.len() == 0,
    ensures
        compiled(module) == (CompileModel {
            graphs: None,
            ops: None,
            vars: None,
            gos_version: "0.5.2"@,
            op_names: None,
            subgraphs: None,
        }),
{
}

/// What the compilation of a tree yields: the result for a module, a general
/// error for any other root.
pub open spec fn compile_outcome(ast: NodeModel) -> Result<CompileModel, Seq<char>> {
    match ast {
        NodeModel::Module(module) => Ok(compiled(module)),
        _ => Err("Expected Module as root AST node"@),
    }
}

/// What stands in the outcome of a compilation.
pub open spec fn outcome_view(r: ParseResult<CompileResult>) -> Result<CompileModel, Seq<char>> {
    match r {
        Ok(c) => Ok(c@),
        Err(ParseError::General { message }) => Err(message@),
        Err(e) => Err(e.text()),
    }
}

fn names_of(symbols: &Vec<Symbol>) -> (r: Vec<String>)
    ensures
        texts(r@) == symbol_names(symbols_view(symbols@)),
{
    let mut out: Vec<String> = Vec::new();
    let mut i: usize = 0;
    while i < symbols.len()
        invariant
            i <= symbols.len(),
            out@.len() == i,
            forall|j: int| 0 <= j < i ==> out@[j]@ == symbols@[j].name@,
        decreases symbols.len() - i,
    {
        out.push(symbols[i].name.clone());
        i += 1;
    }
    assert(texts(out@) =~= symbol_names(symbols_view(symbols@)));
    out
}

fn name_of(s: &Option<Symbol>) -> (r: Option<String>)
    ensures
        crate::compiler::ir::text_of(r) == symbol_name(symbol_model(*s)),
{
    match s {
        Some(x) => Some(x.name.clone()),
        None => None,
    }
}

fn some_if_any(m: Vec<JsonMember>) -> (r: Option<Vec<JsonMember>>)
    ensures
        crate::compiler::ir::members_of(r) == some_members(members_view(m@)),
{
    if m.len() > 0 {
        Some(m)
    } else {
        None
    }
}

fn some_specs_if_any(m: Vec<SpecEntry>) -> (r: Option<Vec<SpecEntry>>)
    ensures
        crate::compiler::ir::specs_of(r) == some_specs(specs_view(m@)),
{
    if m.len() > 0 {
        Some(m)
    } else {
        None
    }
}

impl Compiler {
    /// A compiler with the default options.
    pub fn new() -> (r: Self)
        ensures
            !r.options.return_op_names,
            !r.options.return_subgraphs,
            !r.options.keep_order,
            r.options.plugin is None,
    {
        Compiler { options: CompileOptions::default() }
    }

    /// A compiler with these options.
    pub fn with_options(options: CompileOptions) -> (r: Self)
        ensures
            r.options == options,
    {
        Compiler { options }
    }

    /// Compiles a tree, which has to be a module.
    pub fn compile(&self, ast: &AstNodeEnum) -> (r: ParseResult<CompileResult>)
        ensures
            outcome_view(r) == compile_outcome(ast.model()),
            r is Err ==> r->Err_0 is General,
    {
        match ast {
            AstNodeEnum::Module(module) => Ok(self.compile_module(module)),
            _ => {
                proof {
                    lemma_model_kind(*ast);
                }
                Err(ParseError::general("Expected Module as root AST node"))
            },
        }
    }

    /// Compiles the statements of a module from left to right.
    pub fn compile_module(&self, module: &Module) -> (r: CompileResult)
        ensures
            r@ == compiled(module.model()),
    {
        let mut graphs: Vec<GraphDict> = Vec::new();
        let mut ops: Vec<OpDict> = Vec::new();
        let mut vars: Vec<JsonMember> = Vec::new();
        let mut i: usize = 0;
        assert(graphs_view(graphs@) =~= module_steps(module.model(), 0).graphs);
        assert(ops_view(ops@) =~= module_steps(module.model(), 0).ops);
        assert(members_view(vars@) =~= module_steps(module.model(), 0).vars);
        while i < module.children.len()
            invariant
                i <= module.children.len(),
                graphs_view(graphs@) == module_steps(module.model(), i as int).graphs,
                ops_view(ops@) == module_steps(module.model(), i as int).ops,
                members_view(vars@) == module_steps(module.model(), i as int).vars,
            decreases module.children.len() - i,
        {
            let ghost prev = module_steps(module.model(), i as int);
            match &module.children[i] {
                AstNodeEnum::VarDef(var_def) => {
                    self.process_var_def(var_def, &mut vars);
                },
                AstNodeEnum::GraphDef(graph_def) => {
                    let g = self.convert_graph_def(graph_def, &vars);
                    graphs.push(g);
                    assert(graphs_view(graphs@) =~= prev.graphs.push(g@));
                },
                AstNodeEnum::OpDef(op_def) => {
                    let o = self.convert_op_def(op_def, &vars);
                    ops.push(o);
                    assert(ops_view(ops@) =~= prev.ops.push(o@));
                },
                _ => {},
            }
            i += 1;
        }
        CompileResult {
            graphs: if graphs.len() > 0 {
                Some(graphs)
            } else {
                None
            },
            ops: if ops.len() > 0 {
                Some(ops)
            } else {
                None
            },
            vars: some_if_any(vars),
            gos_version: "0.5.2".to_owned(),
            op_names: None,
            subgraphs: None,
        }
    }

    /// Puts the attributes of a variable block into the variable table.
    pub fn process_var_def(&self, var_def: &VarDef, vars: &mut Vec<JsonMember>)
        ensures
            members_view(final(vars)@) == vars_after(var_def.model(), members_view(old(vars)@)),
    {
        let ghost start = members_view(vars@);
        let mut i: usize = 0;
        while i < var_def.children.len()
            invariant
                i <= var_def.children.len(),
                members_view(vars@) == vars_steps(var_def.model(), start, i as int),
            decreases var_def.children.len() - i,
        {
            match &var_def.children[i] {
                AstNodeEnum::AttrDef(attr_def) => {
                    let name = trim_text(attr_def.name.name.as_str());
                    let key = match &var_def.alias {
                        Some(alias) => {
                            let mut k = alias.name.clone();
                            k.append(".");
                            k.append(name.as_str());
                            k
                        },
                        None => name,
                    };
                    let value = self.convert_ast_to_value(&*attr_def.value);
                    assert(var_def.model().children[i as int] == NodeModel::AttrDef(attr_def.model()));
                    set_member(vars, key, value);
                },
                _ => {
                    proof {
                        lemma_model_kind(var_def.children@[i as int]);
                    }
                },
            }
            i += 1;
        }
        match &var_def.alias {
            Some(alias) => {
                let mut k = alias.name.clone();
                k.append(".as");
                set_member(vars, k, JsonValue::Text(alias.name.clone()));
            },
            None => {},
        }
    }

    /// Compiles a graph block under the variable table.
    pub fn convert_graph_def(&self, graph_def: &GraphDef, vars: &Vec<JsonMember>) -> (r: GraphDict)
        ensures
            r@ == graph_model(graph_def.model(), members_view(vars@)),
    {
        let ghost vv = members_view(vars@);
        let mut properties: Vec<JsonMember> = Vec::new();
        let mut nodes: Vec<NodeEntry> = Vec::new();
        let mut i: usize = 0;
        assert(members_view(properties@) =~= graph_steps(graph_def.model(), vv, 0).properties);
        assert(nodes_view(nodes@) =~= graph_steps(graph_def.model(), vv, 0).nodes);
        while i < graph_def.children.len()
            invariant
                i <= graph_def.children.len(),
                vv == members_view(vars@),
                members_view(properties@) == graph_steps(graph_def.model(), vv, i as int).properties,
                nodes_view(nodes@) == graph_steps(graph_def.model(), vv, i as int).nodes,
            decreases graph_def.children.len() - i,
        {
            proof {
                lemma_model_kind(graph_def.children@[i as int]);
            }
            match &graph_def.children[i] {
                AstNodeEnum::AttrDef(attr_def) => {
                    proof {
                        lemma_model_kind(*attr_def.value);
                    }
                    match &*attr_def.value {
                        AstNodeEnum::NodeBlock(node_block) => {
                            let node_dict = NodeDict {
                                op_name: Some(node_block.name.name.clone()),
                                ref_graph: None,
                                version: None,
                                outputs: Some(self.single(attr_def.name.name.as_str())),
                                inputs: self.extract_node_inputs(node_block),
                                depends: None,
                                with: self.extract_node_attributes(node_block, vars),
                                properties: None,
                                alias: None,
                                override_flag: None,
                                for_loop: None,
                            };
                            set_node(&mut nodes, attr_def.name.name.clone(), node_dict);
                        },
                        _ => {
                            let value = convert_resolved(&*attr_def.value, vars);
                            set_member(&mut properties, attr_def.name.name.clone(), value);
                        },
                    }
                },
                AstNodeEnum::NodeDef(node_def) => {
                    let node_dict = self.convert_node_def(node_def, vars);
                    let key = if node_def.outputs.len() > 0 {
                        node_def.outputs[0].name.clone()
                    } else {
                        let mut k = "node_".to_owned();
                        push_nat(&mut k, nodes.len() as u64);
                        k
                    };
                    assert(nodes_view(nodes@).len() == nodes@.len());
                    set_node(&mut nodes, key, node_dict);
                },
                _ => {},
            }
            i += 1;
        }
        GraphDict {
            properties: some_if_any(properties),
            nodes: if nodes.len() > 0 {
                Some(nodes)
            } else {
                None
            },
            alias: name_of(&graph_def.alias),
            version: match &graph_def.version {
                Some(v) => self.extract_string_value(&**v),
                None => None,
            },
            template_graph: name_of(&graph_def.template_graph),
            template_version: match &graph_def.template_version {
                Some(v) => self.extract_string_value(&**v),
                None => None,
            },
        }
    }

    /// A list with one name.
    fn single(&self, name: &str) -> (r: Vec<String>)
        ensures
            texts(r@) == seq![name@],
    {
        let mut v: Vec<String> = Vec::new();
        v.push(name.to_owned());
        assert(texts(v@) =~= seq![name@]);
        v
    }

    /// The value of a chained attribute under the variable table.
    fn attr_resolved(&self, value: &NodeAttrValue, vars: &Vec<JsonMember>) -> (r: JsonValue)
        ensures
            r@ == resolved(attr_value(value.model()), members_view(vars@)),
    {
        let v = match value {
            NodeAttrValue::Symbol(symbol) => JsonValue::Text(symbol.name.clone()),
            NodeAttrValue::String(string_lit) => JsonValue::Text(string_lit.value.clone()),
            NodeAttrValue::List(list) => {
                let items = convert_values(list);
                proof {
                    lemma_array_view(items);
                }
                JsonValue::Array(items)
            },
        };
        resolve_value(&v, vars)
    }

    /// Compiles a node definition under the variable table.
    pub fn convert_node_def(&self, node_def: &NodeDef, vars: &Vec<JsonMember>) -> (r: NodeDict)
        ensures
            r@ == node_def_model(node_def.model(), members_view(vars@)),
    {
        let ghost vv = members_view(vars@);
        let mut version: Option<String> = None;
        let mut alias: Option<String> = None;
        let mut override_flag: Option<bool> = None;
        let mut with_props: Vec<JsonMember> = Vec::new();
        assert(members_view(with_props@) =~= Seq::<MemberModel>::empty());
        match &node_def.value.attrs {
            Some(attrs) => {
                let mut i: usize = 0;
                while i < attrs.len()
                    invariant
                        i <= attrs.len(),
                        vv == members_view(vars@),
                        crate::compiler::ir::text_of(version) == attr_steps(
                            attrs_view(attrs@),
                            vv,
                            i as int,
                        ).version,
                        crate::compiler::ir::text_of(alias) == attr_steps(attrs_view(attrs@), vv, i as int).alias,
                        override_flag == attr_steps(attrs_view(attrs@), vv, i as int).override_flag,
                        members_view(with_props@) == attr_steps(attrs_view(attrs@), vv, i as int).with,
                    decreases attrs.len() - i,
                {
                    let attr = &attrs[i];
                    let resolved_value = self.attr_resolved(&attr.value, vars);
                    let name = attr.name.name.as_str();
                    if str_eq(name, "version") {
                        version = self.value_to_string(&resolved_value);
                    } else if str_eq(name, "as") {
                        alias = self.value_to_string(&resolved_value);
                    } else if str_eq(name, "override") {
                        override_flag = self.value_to_bool(&resolved_value);
                    } else {
                        set_member(&mut with_props, attr.name.name.clone(), resolved_value);
                    }
                    i += 1;
                }
            },
            None => {},
        }
        NodeDict {
            op_name: Some(node_def.value.name.name.clone()),
            ref_graph: None,
            version,
            outputs: Some(names_of(&node_def.outputs)),
            inputs: self.extract_node_inputs(&node_def.value),
            depends: None,
            with: some_if_any(with_props),
            properties: None,
            alias,
            override_flag,
            for_loop: None,
        }
    }

    /// Compiles an operation block under the variable table.
    pub fn convert_op_def(&self, op_def: &OpDef, vars: &Vec<JsonMember>) -> (r: OpDict)
        ensures
            r@ == op_model(op_def.model(), members_view(vars@)),
    {
        let ghost vv = members_view(vars@);
        let mut metas: Vec<JsonMember> = Vec::new();
        let mut inputs: Vec<SpecEntry> = Vec::new();
        let mut outputs: Vec<SpecEntry> = Vec::new();
        let mut configs: Vec<SpecEntry> = Vec::new();
        assert(members_view(metas@) =~= Seq::<MemberModel>::empty());
        match &op_def.alias {
            Some(alias) => {
                set_member(&mut metas, "as".to_owned(), JsonValue::Text(alias.name.clone()));
            },
            None => {},
        }
        match &op_def.version {
            Some(version) => {
                set_member(&mut metas, "version".to_owned(), JsonValue::Text(version.clone()));
            },
            None => {},
        }
        assert(members_view(metas@) == seed_metas(op_def.model()));
        assert(specs_view(inputs@) =~= Seq::<SpecEntryModel>::empty());
        assert(specs_view(outputs@) =~= Seq::<SpecEntryModel>::empty());
        assert(specs_view(configs@) =~= Seq::<SpecEntryModel>::empty());
        let mut i: usize = 0;
        while i < op_def.children.len()
            invariant
                i <= op_def.children.len(),
                vv == members_view(vars@),
                members_view(metas@) == op_steps(op_def.model(), vv, i as int).metas,
                specs_view(inputs@) == op_steps(op_def.model(), vv, i as int).inputs,
                specs_view(outputs@) == op_steps(op_def.model(), vv, i as int).outputs,
                specs_view(configs@) == op_steps(op_def.model(), vv, i as int).configs,
            decreases op_def.children.len() - i,
        {
            proof {
                lemma_model_kind(op_def.children@[i as int]);
            }
            match &op_def.children[i] {
                AstNodeEnum::OpMeta(op_meta) => {
                    self.add_metas(&op_meta.children, &mut metas, vars);
                },
                AstNodeEnum::OpInput(op_input) => {
                    self.add_specs(&op_input.children, &mut inputs, vars);
                },
                AstNodeEnum::OpOutput(op_output) => {
                    self.add_specs(&op_output.children, &mut outputs, vars);
                },
                AstNodeEnum::OpConfig(op_config) => {
                    self.add_specs(&op_config.children, &mut configs, vars);
                },
                _ => {},
            }
            i += 1;
        }
        OpDict {
            metas: some_if_any(metas),
            inputs: some_specs_if_any(inputs),
            outputs: some_specs_if_any(outputs),
            configs: some_specs_if_any(configs),
            graph: None,
        }
    }

    /// Puts the attributes of a meta section into the metas.
    fn add_metas(&self, attrs: &Vec<AttrDef>, metas: &mut Vec<JsonMember>, vars: &Vec<JsonMember>)
        ensures
            members_view(final(metas)@) == meta_steps(
                attr_defs_view(attrs@),
                members_view(old(metas)@),
                members_view(vars@),
                attrs@.len() as int,
            ),
    {
        let ghost start = members_view(metas@);
        let mut i: usize = 0;
        while i < attrs.len()
            invariant
                i <= attrs.len(),
                members_view(metas@) == meta_steps(attr_defs_view(attrs@), start, members_view(vars@), i as int),
            decreases attrs.len() - i,
        {
            let value = convert_resolved(&*attrs[i].value, vars);
            set_member(metas, attrs[i].name.name.clone(), value);
            i += 1;
        }
    }

    /// Puts the specifications of a section into its map.
    fn add_specs(
        &self,
        children: &Vec<AstNodeEnum>,
        specs: &mut Vec<SpecEntry>,
        vars: &Vec<JsonMember>,
    )
        ensures
            specs_view(final(specs)@) == section_steps(
                tree_view(children@),
                specs_view(old(specs)@),
                members_view(vars@),
                children@.len() as int,
            ),
    {
        let ghost start = specs_view(specs@);
        let mut i: usize = 0;
        while i < children.len()
            invariant
                i <= children.len(),
                specs_view(specs@) == section_steps(
                    tree_view(children@),
                    start,
                    members_view(vars@),
                    i as int,
                ),
            decreases children.len() - i,
        {
            match &children[i] {
                AstNodeEnum::OpSpec(spec) => {
                    let spec_dict = self.convert_op_spec(spec, vars);
                    set_spec(specs, spec.name.name.clone(), spec_dict);
                },
                _ => {},
            }
            i += 1;
        }
    }

    /// The members of a specification under the variable table.
    pub fn convert_op_spec(&self, spec: &OpSpec, vars: &Vec<JsonMember>) -> (r: Vec<JsonMember>)
        ensures
            members_view(r@) == spec_members(spec.model(), members_view(vars@)),
    {
        let mut spec_dict: Vec<JsonMember> = Vec::new();
        assert(members_view(spec_dict@) =~= Seq::<MemberModel>::empty());
        match &spec.items {
            Some(items) => {
                let mut i: usize = 0;
                while i < items.len()
                    invariant
                        i <= items.len(),
                        members_view(spec_dict@) == spec_steps(
                            spec_items_view(items@),
                            members_view(vars@),
                            i as int,
                        ),
                    decreases items.len() - i,
                {
                    let value = convert_resolved(&*items[i].value, vars);
                    set_member(&mut spec_dict, items[i].name.clone(), value);
                    i += 1;
                }
            },
            None => {},
        }
        spec_dict
    }

    /// The value of a node.
    pub fn convert_ast_to_value(&self, node: &AstNodeEnum) -> (r: JsonValue)
        ensures
            r@ == value_of(node.model()),
    {
        convert_value(node)
    }

    /// The value with the variables of the table put in.
    pub fn resolve_variable_references(&self, value: &JsonValue, vars: &Vec<JsonMember>) -> (r:
        JsonValue)
        ensures
            r@ == resolved(value@, members_view(vars@)),
    {
        resolve_value(value, vars)
    }

    /// The string that a node stands for.
    pub fn extract_string_value(&self, node: &AstNodeEnum) -> (r: Option<String>)
        ensures
            crate::compiler::ir::text_of(r) == string_value(node.model()),
    {
        match node {
            AstNodeEnum::StringLiteral(s) => Some(s.value.clone()),
            AstNodeEnum::Symbol(s) => Some(s.name.clone()),
            _ => None,
        }
    }

    /// The characters of a string value.
    pub fn value_to_string(&self, value: &JsonValue) -> (r: Option<String>)
        ensures
            crate::compiler::ir::text_of(r) == value@.as_text(),
    {
        match value {
            JsonValue::Text(s) => Some(s.clone()),
            _ => None,
        }
    }

    /// The truth value of a boolean value.
    pub fn value_to_bool(&self, value: &JsonValue) -> (r: Option<bool>)
        ensures
            r == value@.as_bool(),
    {
        match value {
            JsonValue::Bool(b) => Some(*b),
            _ => None,
        }
    }

    /// The inputs of a call, where it has any.
    pub fn extract_node_inputs(&self, node_block: &NodeBlock) -> (r: Option<Vec<String>>)
        ensures
            crate::compiler::ir::texts_of(r) == node_inputs(node_block.model()),
    {
        match &node_block.inputs {
            Some(inputs) => match inputs {
                NodeInputDef::Tuple(tuple_inputs_) => {
                    let items = &tuple_inputs_.items;
                    let mut out: Vec<String> = Vec::new();
                    let mut i: usize = 0;
                    while i < items.len()
                        invariant
                            i <= items.len(),
                            out@.len() == i,
                            forall|j: int| 0 <= j < i ==> out@[j]@ == input_name((*items@[j]).model()),
                        decreases items.len() - i,
                    {
                        let v = convert_value(&*items[i]);
                        out.push(v.plain_text());
                        i += 1;
                    }
                    assert(texts(out@) =~= tuple_inputs(boxed_view(items@)));
                    Some(out)
                },
                NodeInputDef::KeyValue(kv_inputs) => {
                    let items = &kv_inputs.items;
                    let mut out: Vec<String> = Vec::new();
                    let mut i: usize = 0;
                    assert(texts(out@) =~= keyed_inputs(key_items_view(items@), 0));
                    while i < items.len()
                        invariant
                            i <= items.len(),
                            texts(out@) == keyed_inputs(key_items_view(items@), i as int),
                        decreases items.len() - i,
                    {
                        let ghost before = texts(out@);
                        match &*items[i].value {
                            AstNodeEnum::NodeInputValues(values) => {
                                let mut names = names_of(&values.items);
                                let ghost added = texts(names@);
                                out.append(&mut names);
                                assert(texts(out@) =~= before + added);
                            },
                            other => {
                                let v = convert_value(other);
                                out.push(v.plain_text());
                                assert(texts(out@) =~= before + seq![input_name(other.model())]);
                            },
                        }
                        i += 1;
                    }
                    Some(out)
                },
            },
            None => None,
        }
    }

    /// All chained attributes of a call as one map, where there are any.
    pub fn extract_node_attributes(&self, node_block: &NodeBlock, vars: &Vec<JsonMember>) -> (r:
        Option<Vec<JsonMember>>)
        ensures
            crate::compiler::ir::members_of(r) == node_attributes(node_block.model(), members_view(vars@)),
    {
        match &node_block.attrs {
            Some(attrs) => {
                let mut with_props: Vec<JsonMember> = Vec::new();
                let mut i: usize = 0;
                assert(members_view(with_props@) =~= with_steps(attrs_view(attrs@), members_view(vars@), 0));
                while i < attrs.len()
                    invariant
                        i <= attrs.len(),
                        members_view(with_props@) == with_steps(
                            attrs_view(attrs@),
                            members_view(vars@),
                            i as int,
                        ),
                    decreases attrs.len() - i,
                {
                    let resolved_value = self.attr_resolved(&attrs[i].value, vars);
                    set_member(&mut with_props, attrs[i].name.name.clone(), resolved_value);
                    i += 1;
                }
                some_if_any(with_props)
            },
            None => None,
        }
    }
}

impl Default for Compiler {
    fn default() -> (r: Self)
        ensures
            !r.options.return_op_names,
            !r.options.return_subgraphs,
            !r.options.keep_order,
            r.options.plugin is None,
    {
        Compiler::new()
    }
}

/// Compiles a tree with the default options.
pub fn compile_ast(ast: &AstNodeEnum) -> (r: ParseResult<CompileResult>)
    ensures
        outcome_view(r) == compile_outcome(ast.model()),
        r is Err ==> r->Err_0 is General,
{
    let compiler = Compiler::new();
    compiler.compile(ast)
}

/// Compiles a tree with these options. No option changes the result.
pub fn compile_ast_with_options(ast: &AstNodeEnum, options: CompileOptions) -> (r: ParseResult<
    CompileResult,
>)
    ensures
        outcome_view(r) == compile_outcome(ast.model()),
        r is Err ==> r->Err_0 is General,
{
    let compiler = Compiler::with_options(options);
    compiler.compile(ast)
}

} // verus!
