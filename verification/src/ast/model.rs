//! The mathematical values of the tree: every node with its strings as
//! sequences of characters and its lists as sequences of values.

use crate::ast::{
    AstNodeEnum, AttrDef, BoolLiteral, ClosedInterval, Comment, ConditionBlock, ConditionDef, ConditionStatement, DateLiteral, DateTimeLiteral, DictItem, DictStatement, FloatLiteral, ForLoopBlock, GraphDef, Import, ImportItem, ListStatement, MixInterval, Module, MultiLineStringLiteral, NodeAttr, NodeBlock, NodeDef, NodeInputKeyDef, NodeInputKeyItem, NodeInputTuple, NodeInputValues, NullLiteral, NumberLiteral, OpConfig, OpDef, OpInput, OpMeta, OpOutput, OpSpec, OpSpecItem, RefDef, RefGraphBlock, SetStatement, StringLiteral, Symbol, TupleStatement, VarDef, ConditionExpr, NodeAttrValue, NodeInputDef, Position, SymbolKind,
};
use vstd::prelude::*;

verus! {

/// The value of a node of this kind.
pub struct ModuleModel {
    pub position: Position,
    pub children: Seq<NodeModel>,
}

/// The value of a node of this kind.
pub struct CommentModel {
    pub position: Position,
    pub value: Seq<char>,
}

/// The value of a node of this kind.
pub struct SymbolModel {
    pub position: Position,
    pub name: Seq<char>,
    pub kind: SymbolKind,
}

/// The value of a node of this kind.
pub struct StringLiteralModel {
    pub position: Position,
    pub value: Seq<char>,
}

/// The value of a node of this kind.
pub struct MultiLineStringLiteralModel {
    pub position: Position,
    pub value: Seq<char>,
}

/// The value of a node of this kind.
pub struct NumberLiteralModel {
    pub position: Position,
    pub raw: Seq<char>,
    pub value: i64,
}

/// The value of a node of this kind.
pub struct FloatLiteralModel {
    pub position: Position,
    pub raw: Seq<char>,
}

/// The value of a node of this kind.
pub struct BoolLiteralModel {
    pub position: Position,
    pub raw: Seq<char>,
    pub value: bool,
}

/// The value of a node of this kind.
pub struct DateTimeLiteralModel {
    pub position: Position,
    pub raw: Seq<char>,
    pub seconds: i64,
    pub nanos: u32,
}

/// The value of a node of this kind.
pub struct DateLiteralModel {
    pub position: Position,
    pub value: Seq<char>,
}

/// The value of a node of this kind.
pub struct NullLiteralModel {
    pub position: Position,
}

/// The value of a node of this kind.
pub struct DictStatementModel {
    pub position: Position,
    pub items: Seq<DictItemModel>,
}

/// The value of a node of this kind.
pub struct DictItemModel {
    pub position: Position,
    pub key: Box<NodeModel>,
    pub value: Box<NodeModel>,
}

/// The value of a node of this kind.
pub struct ListStatementModel {
    pub position: Position,
    pub items: Seq<NodeModel>,
}

/// The value of a node of this kind.
pub struct TupleStatementModel {
    pub position: Position,
    pub items: Seq<NodeModel>,
}

/// The value of a node of this kind.
pub struct SetStatementModel {
    pub position: Position,
    pub items: Seq<NodeModel>,
}

/// The value of a node of this kind.
pub struct ImportModel {
    pub position: Position,
    pub items: Seq<ImportItemModel>,
}

/// The value of a node of this kind.
pub struct ImportItemModel {
    pub position: Position,
    pub path: SymbolModel,
    pub alias: Option<SymbolModel>,
}

/// The value of a node of this kind.
pub struct AttrDefModel {
    pub position: Position,
    pub name: SymbolModel,
    pub value: Box<NodeModel>,
    pub condition: Option<Box<NodeModel>>,
    pub else_value: Option<Box<NodeModel>>,
}

/// The value of a node of this kind.
pub struct RefDefModel {
    pub position: Position,
    pub name: SymbolModel,
    pub value: SymbolModel,
    pub condition: Option<Box<NodeModel>>,
    pub default: Option<Box<NodeModel>>,
}

/// The value of a node of this kind.
pub struct VarDefModel {
    pub position: Position,
    pub children: Seq<NodeModel>,
    pub alias: Option<SymbolModel>,
}

/// The value of a node of this kind.
pub struct GraphDefModel {
    pub position: Position,
    pub children: Seq<NodeModel>,
    pub alias: Option<SymbolModel>,
    pub version: Option<Box<NodeModel>>,
    pub template_graph: Option<SymbolModel>,
    pub template_version: Option<Box<NodeModel>>,
}

/// The value of a node of this kind.
pub struct NodeDefModel {
    pub position: Position,
    pub outputs: Seq<SymbolModel>,
    pub value: NodeBlockModel,
}

/// The value of a node of this kind.
pub struct NodeBlockModel {
    pub position: Position,
    pub name: SymbolModel,
    pub inputs: Option<NodeInputDefModel>,
    pub attrs: Option<Seq<NodeAttrModel>>,
}

/// The value of a node of this kind.
pub struct RefGraphBlockModel {
    pub position: Position,
    pub ref_name: SymbolModel,
    pub inputs: Option<NodeInputDefModel>,
    pub attrs: Option<Seq<NodeAttrModel>>,
}

/// The value of a node of this kind.
pub struct NodeInputTupleModel {
    pub position: Position,
    pub items: Seq<NodeModel>,
}

/// The value of a node of this kind.
pub struct NodeInputKeyDefModel {
    pub position: Position,
    pub items: Seq<NodeInputKeyItemModel>,
}

/// The value of a node of this kind.
pub struct NodeInputKeyItemModel {
    pub position: Position,
    pub key: SymbolModel,
    pub value: Box<NodeModel>,
}

/// The value of a node of this kind.
pub struct NodeInputValuesModel {
    pub position: Position,
    pub items: Seq<SymbolModel>,
}

/// The value of a node of this kind.
pub struct NodeAttrModel {
    pub position: Position,
    pub name: SymbolModel,
    pub value: NodeAttrValueModel,
}

/// The value of a node of this kind.
pub struct ConditionDefModel {
    pub position: Position,
    pub outputs: Seq<SymbolModel>,
    pub value: Box<ConditionBlockModel>,
}

/// The value of a node of this kind.
pub struct ConditionBlockModel {
    pub position: Position,
    pub condition: Box<ConditionExprModel>,
    pub true_branch: Box<NodeModel>,
    pub false_branch: Box<NodeModel>,
}

/// The value of a node of this kind.
pub struct ConditionStatementModel {
    pub position: Position,
    pub left_operand: Box<NodeModel>,
    pub right_operand: Box<NodeModel>,
    pub operator: Seq<char>,
}

/// The value of a node of this kind.
pub struct ForLoopBlockModel {
    pub position: Position,
    pub inputs: SymbolModel,
    pub outputs: Seq<SymbolModel>,
    pub node: NodeBlockModel,
    pub condition: Option<Box<NodeModel>>,
}

/// The value of a node of this kind.
pub struct OpDefModel {
    pub position: Position,
    pub children: Seq<NodeModel>,
    pub alias: Option<SymbolModel>,
    pub version: Option<Seq<char>>,
}

/// The value of a node of this kind.
pub struct OpMetaModel {
    pub position: Position,
    pub children: Seq<AttrDefModel>,
}

/// The value of a node of this kind.
pub struct OpInputModel {
    pub position: Position,
    pub children: Seq<NodeModel>,
}

/// The value of a node of this kind.
pub struct OpOutputModel {
    pub position: Position,
    pub children: Seq<NodeModel>,
}

/// The value of a node of this kind.
pub struct OpConfigModel {
    pub position: Position,
    pub children: Seq<NodeModel>,
}

/// The value of a node of this kind.
pub struct OpSpecModel {
    pub position: Position,
    pub name: SymbolModel,
    pub items: Option<Seq<OpSpecItemModel>>,
}

/// The value of a node of this kind.
pub struct OpSpecItemModel {
    pub position: Position,
    pub name: Seq<char>,
    pub value: Box<NodeModel>,
}

/// The value of a node of this kind.
pub struct ClosedIntervalModel {
    pub position: Position,
    pub ge: Option<NumberLiteralModel>,
    pub le: Option<NumberLiteralModel>,
}

/// The value of a node of this kind.
pub struct MixIntervalModel {
    pub position: Position,
    pub ge: Option<NumberLiteralModel>,
    pub gt: Option<NumberLiteralModel>,
    pub le: Option<NumberLiteralModel>,
    pub lt: Option<NumberLiteralModel>,
}

/// The value of the inputs of a call.
pub enum NodeInputDefModel {
    Tuple(NodeInputTupleModel),
    KeyValue(NodeInputKeyDefModel),
}

/// The value of the value of a chained attribute.
pub enum NodeAttrValueModel {
    Symbol(SymbolModel),
    String(StringLiteralModel),
    List(Seq<NodeModel>),
}

/// The value of what a conditional tests.
pub enum ConditionExprModel {
    Statement(Box<ConditionStatementModel>),
    Block(NodeBlockModel),
}

/// The value of any node.
pub enum NodeModel {
    Module(ModuleModel),
    Comment(CommentModel),
    Symbol(SymbolModel),
    StringLiteral(StringLiteralModel),
    MultiLineStringLiteral(MultiLineStringLiteralModel),
    NumberLiteral(NumberLiteralModel),
    FloatLiteral(FloatLiteralModel),
    BoolLiteral(BoolLiteralModel),
    DateTimeLiteral(DateTimeLiteralModel),
    DateLiteral(DateLiteralModel),
    NullLiteral(NullLiteralModel),
    DictStatement(DictStatementModel),
    DictItem(DictItemModel),
    ListStatement(ListStatementModel),
    TupleStatement(TupleStatementModel),
    SetStatement(SetStatementModel),
    Import(ImportModel),
    ImportItem(ImportItemModel),
    AttrDef(AttrDefModel),
    RefDef(RefDefModel),
    VarDef(VarDefModel),
    GraphDef(GraphDefModel),
    NodeDef(NodeDefModel),
    NodeBlock(NodeBlockModel),
    NodeInputTuple(NodeInputTupleModel),
    NodeInputKeyDef(NodeInputKeyDefModel),
    NodeInputKeyItem(NodeInputKeyItemModel),
    NodeInputValues(NodeInputValuesModel),
    NodeAttr(NodeAttrModel),
    ConditionDef(ConditionDefModel),
    ConditionBlock(ConditionBlockModel),
    ConditionStatement(ConditionStatementModel),
    ForLoopBlock(ForLoopBlockModel),
    OpDef(OpDefModel),
    OpMeta(OpMetaModel),
    OpInput(OpInputModel),
    OpOutput(OpOutputModel),
    OpConfig(OpConfigModel),
    OpSpec(OpSpecModel),
    OpSpecItem(OpSpecItemModel),
    ClosedInterval(ClosedIntervalModel),
    MixInterval(MixIntervalModel),
}

/// The values of a sequence of nodes.
pub open spec fn symbols_view(v: Seq<Symbol>) -> Seq<SymbolModel>
    decreases v,
{
    Seq::new(
        v.len(),
        |i: int|
            if 0 <= i < v.len() {
                v[i].model()
            } else {
                arbitrary()
            },
    )
}

/// The values of a sequence with one more node are the values with one
/// more value.
pub proof fn lemma_symbols_view_push(v: Seq<Symbol>, x: Symbol)
    ensures
        symbols_view(v.push(x)) == symbols_view(v).push(x.model()),
        symbols_view(v).len() == v.len(),
{
    assert(symbols_view(v.push(x)) =~= symbols_view(v).push(x.model()));
}

/// No nodes have no values.
pub proof fn lemma_symbols_view_empty()
    ensures
        symbols_view(Seq::<Symbol>::empty()) == Seq::<SymbolModel>::empty(),
{
    assert(symbols_view(Seq::<Symbol>::empty()) =~= Seq::<SymbolModel>::empty());
}

/// The values of a sequence of nodes.
pub open spec fn nodes_view(v: Seq<AstNodeEnum>) -> Seq<NodeModel>
    decreases v,
{
    Seq::new(
        v.len(),
        |i: int|
            if 0 <= i < v.len() {
                v[i].model()
            } else {
                arbitrary()
            },
    )
}

/// The values of a sequence with one more node are the values with one
/// more value.
pub proof fn lemma_nodes_view_push(v: Seq<AstNodeEnum>, x: AstNodeEnum)
    ensures
        nodes_view(v.push(x)) == nodes_view(v).push(x.model()),
        nodes_view(v).len() == v.len(),
{
    assert(nodes_view(v.push(x)) =~= nodes_view(v).push(x.model()));
}

/// No nodes have no values.
pub proof fn lemma_nodes_view_empty()
    ensures
        nodes_view(Seq::<AstNodeEnum>::empty()) == Seq::<NodeModel>::empty(),
{
    assert(nodes_view(Seq::<AstNodeEnum>::empty()) =~= Seq::<NodeModel>::empty());
}

/// The values of a sequence of nodes.
pub open spec fn boxed_view(v: Seq<Box<AstNodeEnum>>) -> Seq<NodeModel>
    decreases v,
{
    Seq::new(
        v.len(),
        |i: int|
            if 0 <= i < v.len() {
                (*v[i]).model()
            } else {
                arbitrary()
            },
    )
}

/// The values of a sequence with one more node are the values with one
/// more value.
pub proof fn lemma_boxed_view_push(v: Seq<Box<AstNodeEnum>>, x: Box<AstNodeEnum>)
    ensures
        boxed_view(v.push(x)) == boxed_view(v).push((*x).model()),
        boxed_view(v).len() == v.len(),
{
    assert(boxed_view(v.push(x)) =~= boxed_view(v).push((*x).model()));
}

/// No nodes have no values.
pub proof fn lemma_boxed_view_empty()
    ensures
        boxed_view(Seq::<Box<AstNodeEnum>>::empty()) == Seq::<NodeModel>::empty(),
{
    assert(boxed_view(Seq::<Box<AstNodeEnum>>::empty()) =~= Seq::<NodeModel>::empty());
}

/// The values of a sequence of nodes.
pub open spec fn dict_items_view(v: Seq<DictItem>) -> Seq<DictItemModel>
    decreases v,
{
    Seq::new(
        v.len(),
        |i: int|
            if 0 <= i < v.len() {
                v[i].model()
            } else {
                arbitrary()
            },
    )
}

/// The values of a sequence with one more node are the values with one
/// more value.
pub proof fn lemma_dict_items_view_push(v: Seq<DictItem>, x: DictItem)
    ensures
        dict_items_view(v.push(x)) == dict_items_view(v).push(x.model()),
        dict_items_view(v).len() == v.len(),
{
    assert(dict_items_view(v.push(x)) =~= dict_items_view(v).push(x.model()));
}

/// No nodes have no values.
pub proof fn lemma_dict_items_view_empty()
    ensures
        dict_items_view(Seq::<DictItem>::empty()) == Seq::<DictItemModel>::empty(),
{
    assert(dict_items_view(Seq::<DictItem>::empty()) =~= Seq::<DictItemModel>::empty());
}

/// The values of a sequence of nodes.
pub open spec fn import_items_view(v: Seq<ImportItem>) -> Seq<ImportItemModel>
    decreases v,
{
    Seq::new(
        v.len(),
        |i: int|
            if 0 <= i < v.len() {
                v[i].model()
            } else {
                arbitrary()
            },
    )
}

/// The values of a sequence with one more node are the values with one
/// more value.
pub proof fn lemma_import_items_view_push(v: Seq<ImportItem>, x: ImportItem)
    ensures
        import_items_view(v.push(x)) == import_items_view(v).push(x.model()),
        import_items_view(v).len() == v.len(),
{
    assert(import_items_view(v.push(x)) =~= import_items_view(v).push(x.model()));
}

/// No nodes have no values.
pub proof fn lemma_import_items_view_empty()
    ensures
        import_items_view(Seq::<ImportItem>::empty()) == Seq::<ImportItemModel>::empty(),
{
    assert(import_items_view(Seq::<ImportItem>::empty()) =~= Seq::<ImportItemModel>::empty());
}

/// The values of a sequence of nodes.
pub open spec fn attrs_view(v: Seq<NodeAttr>) -> Seq<NodeAttrModel>
    decreases v,
{
    Seq::new(
        v.len(),
        |i: int|
            if 0 <= i < v.len() {
                v[i].model()
            } else {
                arbitrary()
            },
    )
}

/// The values of a sequence with one more node are the values with one
/// more value.
pub proof fn lemma_attrs_view_push(v: Seq<NodeAttr>, x: NodeAttr)
    ensures
        attrs_view(v.push(x)) == attrs_view(v).push(x.model()),
        attrs_view(v).len() == v.len(),
{
    assert(attrs_view(v.push(x)) =~= attrs_view(v).push(x.model()));
}

/// No nodes have no values.
pub proof fn lemma_attrs_view_empty()
    ensures
        attrs_view(Seq::<NodeAttr>::empty()) == Seq::<NodeAttrModel>::empty(),
{
    assert(attrs_view(Seq::<NodeAttr>::empty()) =~= Seq::<NodeAttrModel>::empty());
}

/// The values of a sequence of nodes.
pub open spec fn attr_defs_view(v: Seq<AttrDef>) -> Seq<AttrDefModel>
    decreases v,
{
    Seq::new(
        v.len(),
        |i: int|
            if 0 <= i < v.len() {
                v[i].model()
            } else {
                arbitrary()
            },
    )
}

/// The values of a sequence with one more node are the values with one
/// more value.
pub proof fn lemma_attr_defs_view_push(v: Seq<AttrDef>, x: AttrDef)
    ensures
        attr_defs_view(v.push(x)) == attr_defs_view(v).push(x.model()),
        attr_defs_view(v).len() == v.len(),
{
    assert(attr_defs_view(v.push(x)) =~= attr_defs_view(v).push(x.model()));
}

/// No nodes have no values.
pub proof fn lemma_attr_defs_view_empty()
    ensures
        attr_defs_view(Seq::<AttrDef>::empty()) == Seq::<AttrDefModel>::empty(),
{
    assert(attr_defs_view(Seq::<AttrDef>::empty()) =~= Seq::<AttrDefModel>::empty());
}

/// The values of a sequence of nodes.
pub open spec fn spec_items_view(v: Seq<OpSpecItem>) -> Seq<OpSpecItemModel>
    decreases v,
{
    Seq::new(
        v.len(),
        |i: int|
            if 0 <= i < v.len() {
                v[i].model()
            } else {
                arbitrary()
            },
    )
}

/// The values of a sequence with one more node are the values with one
/// more value.
pub proof fn lemma_spec_items_view_push(v: Seq<OpSpecItem>, x: OpSpecItem)
    ensures
        spec_items_view(v.push(x)) == spec_items_view(v).push(x.model()),
        spec_items_view(v).len() == v.len(),
{
    assert(spec_items_view(v.push(x)) =~= spec_items_view(v).push(x.model()));
}

/// No nodes have no values.
pub proof fn lemma_spec_items_view_empty()
    ensures
        spec_items_view(Seq::<OpSpecItem>::empty()) == Seq::<OpSpecItemModel>::empty(),
{
    assert(spec_items_view(Seq::<OpSpecItem>::empty()) =~= Seq::<OpSpecItemModel>::empty());
}

/// The values of a sequence of nodes.
pub open spec fn key_items_view(v: Seq<NodeInputKeyItem>) -> Seq<NodeInputKeyItemModel>
    decreases v,
{
    Seq::new(
        v.len(),
        |i: int|
            if 0 <= i < v.len() {
                v[i].model()
            } else {
                arbitrary()
            },
    )
}

/// The values of a sequence with one more node are the values with one
/// more value.
pub proof fn lemma_key_items_view_push(v: Seq<NodeInputKeyItem>, x: NodeInputKeyItem)
    ensures
        key_items_view(v.push(x)) == key_items_view(v).push(x.model()),
        key_items_view(v).len() == v.len(),
{
    assert(key_items_view(v.push(x)) =~= key_items_view(v).push(x.model()));
}

/// No nodes have no values.
pub proof fn lemma_key_items_view_empty()
    ensures
        key_items_view(Seq::<NodeInputKeyItem>::empty()) == Seq::<NodeInputKeyItemModel>::empty(),
{
    assert(key_items_view(Seq::<NodeInputKeyItem>::empty()) =~= Seq::<NodeInputKeyItemModel>::empty());
}

impl Module {
    /// The value of this node.
    pub open spec fn model(&self) -> ModuleModel
        decreases self,
    {
        ModuleModel {
            position: self.position,
            children: nodes_view(self.children@),
        }
    }
}

impl Comment {
    /// The value of this node.
    pub open spec fn model(&self) -> CommentModel
        decreases self,
    {
        CommentModel {
            position: self.position,
            value: self.value@,
        }
    }
}

impl Symbol {
    /// The value of this node.
    pub open spec fn model(&self) -> SymbolModel
        decreases self,
    {
        SymbolModel {
            position: self.position,
            name: self.name@,
            kind: self.kind,
        }
    }
}

impl StringLiteral {
    /// The value of this node.
    pub open spec fn model(&self) -> StringLiteralModel
        decreases self,
    {
        StringLiteralModel {
            position: self.position,
            value: self.value@,
        }
    }
}

impl MultiLineStringLiteral {
    /// The value of this node.
    pub open spec fn model(&self) -> MultiLineStringLiteralModel
        decreases self,
    {
        MultiLineStringLiteralModel {
            position: self.position,
            value: self.value@,
        }
    }
}

impl NumberLiteral {
    /// The value of this node.
    pub open spec fn model(&self) -> NumberLiteralModel
        decreases self,
    {
        NumberLiteralModel {
            position: self.position,
            raw: self.raw@,
            value: self.value,
        }
    }
}

impl FloatLiteral {
    /// The value of this node.
    pub open spec fn model(&self) -> FloatLiteralModel
        decreases self,
    {
        FloatLiteralModel {
            position: self.position,
            raw: self.raw@,
        }
    }
}

impl BoolLiteral {
    /// The value of this node.
    pub open spec fn model(&self) -> BoolLiteralModel
        decreases self,
    {
        BoolLiteralModel {
            position: self.position,
            raw: self.raw@,
            value: self.value,
        }
    }
}

impl DateTimeLiteral {
    /// The value of this node.
    pub open spec fn model(&self) -> DateTimeLiteralModel
        decreases self,
    {
        DateTimeLiteralModel {
            position: self.position,
            raw: self.raw@,
            seconds: self.seconds,
            nanos: self.nanos,
        }
    }
}

impl DateLiteral {
    /// The value of this node.
    pub open spec fn model(&self) -> DateLiteralModel
        decreases self,
    {
        DateLiteralModel {
            position: self.position,
            value: self.value@,
        }
    }
}

impl NullLiteral {
    /// The value of this node.
    pub open spec fn model(&self) -> NullLiteralModel
        decreases self,
    {
        NullLiteralModel {
            position: self.position,
        }
    }
}

impl DictStatement {
    /// The value of this node.
    pub open spec fn model(&self) -> DictStatementModel
        decreases self,
    {
        DictStatementModel {
            position: self.position,
            items: dict_items_view(self.items@),
        }
    }
}

impl DictItem {
    /// The value of this node.
    pub open spec fn model(&self) -> DictItemModel
        decreases self,
    {
        DictItemModel {
            position: self.position,
            key: Box::new((*self.key).model()),
            value: Box::new((*self.value).model()),
        }
    }
}

impl ListStatement {
    /// The value of this node.
    pub open spec fn model(&self) -> ListStatementModel
        decreases self,
    {
        ListStatementModel {
            position: self.position,
            items: nodes_view(self.items@),
        }
    }
}

impl TupleStatement {
    /// The value of this node.
    pub open spec fn model(&self) -> TupleStatementModel
        decreases self,
    {
        TupleStatementModel {
            position: self.position,
            items: nodes_view(self.items@),
        }
    }
}

impl SetStatement {
    /// The value of this node.
    pub open spec fn model(&self) -> SetStatementModel
        decreases self,
    {
        SetStatementModel {
            position: self.position,
            items: nodes_view(self.items@),
        }
    }
}

impl Import {
    /// The value of this node.
    pub open spec fn model(&self) -> ImportModel
        decreases self,
    {
        ImportModel {
            position: self.position,
            items: import_items_view(self.items@),
        }
    }
}

impl ImportItem {
    /// The value of this node.
    pub open spec fn model(&self) -> ImportItemModel
        decreases self,
    {
        ImportItemModel {
            position: self.position,
            path: self.path.model(),
            alias: match self.alias {
                Some(v) => Some(v.model()),
                None => None,
            },
        }
    }
}

impl AttrDef {
    /// The value of this node.
    pub open spec fn model(&self) -> AttrDefModel
        decreases self,
    {
        AttrDefModel {
            position: self.position,
            name: self.name.model(),
            value: Box::new((*self.value).model()),
            condition: match self.condition {
                Some(b) => Some(Box::new((*b).model())),
                None => None,
            },
            else_value: match self.else_value {
                Some(b) => Some(Box::new((*b).model())),
                None => None,
            },
        }
    }
}

impl RefDef {
    /// The value of this node.
    pub open spec fn model(&self) -> RefDefModel
        decreases self,
    {
        RefDefModel {
            position: self.position,
            name: self.name.model(),
            value: self.value.model(),
            condition: match self.condition {
                Some(b) => Some(Box::new((*b).model())),
                None => None,
            },
            default: match self.default {
                Some(b) => Some(Box::new((*b).model())),
                None => None,
            },
        }
    }
}

impl VarDef {
    /// The value of this node.
    pub open spec fn model(&self) -> VarDefModel
        decreases self,
    {
        VarDefModel {
            position: self.position,
            children: nodes_view(self.children@),
            alias: match self.alias {
                Some(v) => Some(v.model()),
                None => None,
            },
        }
    }
}

impl GraphDef {
    /// The value of this node.
    pub open spec fn model(&self) -> GraphDefModel
        decreases self,
    {
        GraphDefModel {
            position: self.position,
            children: nodes_view(self.children@),
            alias: match self.alias {
                Some(v) => Some(v.model()),
                None => None,
            },
            version: match self.version {
                Some(b) => Some(Box::new((*b).model())),
                None => None,
            },
            template_graph: match self.template_graph {
                Some(v) => Some(v.model()),
                None => None,
            },
            template_version: match self.template_version {
                Some(b) => Some(Box::new((*b).model())),
                None => None,
            },
        }
    }
}

impl NodeDef {
    /// The value of this node.
    pub open spec fn model(&self) -> NodeDefModel
        decreases self,
    {
        NodeDefModel {
            position: self.position,
            outputs: symbols_view(self.outputs@),
            value: self.value.model(),
        }
    }
}

impl NodeBlock {
    /// The value of this node.
    pub open spec fn model(&self) -> NodeBlockModel
        decreases self,
    {
        NodeBlockModel {
            position: self.position,
            name: self.name.model(),
            inputs: match self.inputs {
                Some(v) => Some(v.model()),
                None => None,
            },
            attrs: match self.attrs {
                Some(v) => Some(attrs_view(v@)),
                None => None,
            },
        }
    }
}

impl RefGraphBlock {
    /// The value of this node.
    pub open spec fn model(&self) -> RefGraphBlockModel
        decreases self,
    {
        RefGraphBlockModel {
            position: self.position,
            ref_name: self.ref_name.model(),
            inputs: match self.inputs {
                Some(v) => Some(v.model()),
                None => None,
            },
            attrs: match self.attrs {
                Some(v) => Some(attrs_view(v@)),
                None => None,
            },
        }
    }
}

impl NodeInputTuple {
    /// The value of this node.
    pub open spec fn model(&self) -> NodeInputTupleModel
        decreases self,
    {
        NodeInputTupleModel {
            position: self.position,
            items: boxed_view(self.items@),
        }
    }
}

impl NodeInputKeyDef {
    /// The value of this node.
    pub open spec fn model(&self) -> NodeInputKeyDefModel
        decreases self,
    {
        NodeInputKeyDefModel {
            position: self.position,
            items: key_items_view(self.items@),
        }
    }
}

impl NodeInputKeyItem {
    /// The value of this node.
    pub open spec fn model(&self) -> NodeInputKeyItemModel
        decreases self,
    {
        NodeInputKeyItemModel {
            position: self.position,
            key: self.key.model(),
            value: Box::new((*self.value).model()),
        }
    }
}

impl NodeInputValues {
    /// The value of this node.
    pub open spec fn model(&self) -> NodeInputValuesModel
        decreases self,
    {
        NodeInputValuesModel {
            position: self.position,
            items: symbols_view(self.items@),
        }
    }
}

impl NodeAttr {
    /// The value of this node.
    pub open spec fn model(&self) -> NodeAttrModel
        decreases self,
    {
        NodeAttrModel {
            position: self.position,
            name: self.name.model(),
            value: self.value.model(),
        }
    }
}

impl ConditionDef {
    /// The value of this node.
    pub open spec fn model(&self) -> ConditionDefModel
        decreases self,
    {
        ConditionDefModel {
            position: self.position,
            outputs: symbols_view(self.outputs@),
            value: Box::new((*self.value).model()),
        }
    }
}

impl ConditionBlock {
    /// The value of this node.
    pub open spec fn model(&self) -> ConditionBlockModel
        decreases self,
    {
        ConditionBlockModel {
            position: self.position,
            condition: Box::new((*self.condition).model()),
            true_branch: Box::new((*self.true_branch).model()),
            false_branch: Box::new((*self.false_branch).model()),
        }
    }
}

impl ConditionStatement {
    /// The value of this node.
    pub open spec fn model(&self) -> ConditionStatementModel
        decreases self,
    {
        ConditionStatementModel {
            position: self.position,
            left_operand: Box::new((*self.left_operand).model()),
            right_operand: Box::new((*self.right_operand).model()),
            operator: self.operator@,
        }
    }
}

impl ForLoopBlock {
    /// The value of this node.
    pub open spec fn model(&self) -> ForLoopBlockModel
        decreases self,
    {
        ForLoopBlockModel {
            position: self.position,
            inputs: self.inputs.model(),
            outputs: symbols_view(self.outputs@),
            node: self.node.model(),
            condition: match self.condition {
                Some(b) => Some(Box::new((*b).model())),
                None => None,
            },
        }
    }
}

impl OpDef {
    /// The value of this node.
    pub open spec fn model(&self) -> OpDefModel
        decreases self,
    {
        OpDefModel {
            position: self.position,
            children: nodes_view(self.children@),
            alias: match self.alias {
                Some(v) => Some(v.model()),
                None => None,
            },
            version: match self.version {
                Some(v) => Some(v@),
                None => None,
            },
        }
    }
}

impl OpMeta {
    /// The value of this node.
    pub open spec fn model(&self) -> OpMetaModel
        decreases self,
    {
        OpMetaModel {
            position: self.position,
            children: attr_defs_view(self.children@),
        }
    }
}

impl OpInput {
    /// The value of this node.
    pub open spec fn model(&self) -> OpInputModel
        decreases self,
    {
        OpInputModel {
            position: self.position,
            children: nodes_view(self.children@),
        }
    }
}

impl OpOutput {
    /// The value of this node.
    pub open spec fn model(&self) -> OpOutputModel
        decreases self,
    {
        OpOutputModel {
            position: self.position,
            children: nodes_view(self.children@),
        }
    }
}

impl OpConfig {
    /// The value of this node.
    pub open spec fn model(&self) -> OpConfigModel
        decreases self,
    {
        OpConfigModel {
            position: self.position,
            children: nodes_view(self.children@),
        }
    }
}

impl OpSpec {
    /// The value of this node.
    pub open spec fn model(&self) -> OpSpecModel
        decreases self,
    {
        OpSpecModel {
            position: self.position,
            name: self.name.model(),
            items: match self.items {
                Some(v) => Some(spec_items_view(v@)),
                None => None,
            },
        }
    }
}

impl OpSpecItem {
    /// The value of this node.
    pub open spec fn model(&self) -> OpSpecItemModel
        decreases self,
    {
        OpSpecItemModel {
            position: self.position,
            name: self.name@,
            value: Box::new((*self.value).model()),
        }
    }
}

impl ClosedInterval {
    /// The value of this node.
    pub open spec fn model(&self) -> ClosedIntervalModel
        decreases self,
    {
        ClosedIntervalModel {
            position: self.position,
            ge: match self.ge {
                Some(v) => Some(v.model()),
                None => None,
            },
            le: match self.le {
                Some(v) => Some(v.model()),
                None => None,
            },
        }
    }
}

impl MixInterval {
    /// The value of this node.
    pub open spec fn model(&self) -> MixIntervalModel
        decreases self,
    {
        MixIntervalModel {
            position: self.position,
            ge: match self.ge {
                Some(v) => Some(v.model()),
                None => None,
            },
            gt: match self.gt {
                Some(v) => Some(v.model()),
                None => None,
            },
            le: match self.le {
                Some(v) => Some(v.model()),
                None => None,
            },
            lt: match self.lt {
                Some(v) => Some(v.model()),
                None => None,
            },
        }
    }
}

impl NodeInputDef {
    /// The value of these inputs.
    pub open spec fn model(&self) -> NodeInputDefModel
        decreases self,
    {
        match self {
            NodeInputDef::Tuple(t) => NodeInputDefModel::Tuple(t.model()),
            NodeInputDef::KeyValue(k) => NodeInputDefModel::KeyValue(k.model()),
        }
    }
}

impl NodeAttrValue {
    /// The value of this value.
    pub open spec fn model(&self) -> NodeAttrValueModel
        decreases self,
    {
        match self {
            NodeAttrValue::Symbol(s) => NodeAttrValueModel::Symbol(s.model()),
            NodeAttrValue::String(s) => NodeAttrValueModel::String(s.model()),
            NodeAttrValue::List(items) => NodeAttrValueModel::List(nodes_view(items@)),
        }
    }
}

impl ConditionExpr {
    /// The value of this test.
    pub open spec fn model(&self) -> ConditionExprModel
        decreases self,
    {
        match self {
            ConditionExpr::Statement(s) => ConditionExprModel::Statement(Box::new((*s).model())),
            ConditionExpr::Block(b) => ConditionExprModel::Block(b.model()),
        }
    }
}

impl AstNodeEnum {
    /// The value of this node.
    pub open spec fn model(&self) -> NodeModel
        decreases self,
    {
        match self {
            AstNodeEnum::Module(node) => NodeModel::Module(node.model()),
            AstNodeEnum::Comment(node) => NodeModel::Comment(node.model()),
            AstNodeEnum::Symbol(node) => NodeModel::Symbol(node.model()),
            AstNodeEnum::StringLiteral(node) => NodeModel::StringLiteral(node.model()),
            AstNodeEnum::MultiLineStringLiteral(node) => NodeModel::MultiLineStringLiteral(node.model()),
            AstNodeEnum::NumberLiteral(node) => NodeModel::NumberLiteral(node.model()),
            AstNodeEnum::FloatLiteral(node) => NodeModel::FloatLiteral(node.model()),
            AstNodeEnum::BoolLiteral(node) => NodeModel::BoolLiteral(node.model()),
            AstNodeEnum::DateTimeLiteral(node) => NodeModel::DateTimeLiteral(node.model()),
            AstNodeEnum::DateLiteral(node) => NodeModel::DateLiteral(node.model()),
            AstNodeEnum::NullLiteral(node) => NodeModel::NullLiteral(node.model()),
            AstNodeEnum::DictStatement(node) => NodeModel::DictStatement(node.model()),
            AstNodeEnum::DictItem(node) => NodeModel::DictItem(node.model()),
            AstNodeEnum::ListStatement(node) => NodeModel::ListStatement(node.model()),
            AstNodeEnum::TupleStatement(node) => NodeModel::TupleStatement(node.model()),
            AstNodeEnum::SetStatement(node) => NodeModel::SetStatement(node.model()),
            AstNodeEnum::Import(node) => NodeModel::Import(node.model()),
            AstNodeEnum::ImportItem(node) => NodeModel::ImportItem(node.model()),
            AstNodeEnum::AttrDef(node) => NodeModel::AttrDef(node.model()),
            AstNodeEnum::RefDef(node) => NodeModel::RefDef(node.model()),
            AstNodeEnum::VarDef(node) => NodeModel::VarDef(node.model()),
            AstNodeEnum::GraphDef(node) => NodeModel::GraphDef(node.model()),
            AstNodeEnum::NodeDef(node) => NodeModel::NodeDef(node.model()),
            AstNodeEnum::NodeBlock(node) => NodeModel::NodeBlock(node.model()),
            AstNodeEnum::NodeInputTuple(node) => NodeModel::NodeInputTuple(node.model()),
            AstNodeEnum::NodeInputKeyDef(node) => NodeModel::NodeInputKeyDef(node.model()),
            AstNodeEnum::NodeInputKeyItem(node) => NodeModel::NodeInputKeyItem(node.model()),
            AstNodeEnum::NodeInputValues(node) => NodeModel::NodeInputValues(node.model()),
            AstNodeEnum::NodeAttr(node) => NodeModel::NodeAttr(node.model()),
            AstNodeEnum::ConditionDef(node) => NodeModel::ConditionDef(node.model()),
            AstNodeEnum::ConditionBlock(node) => NodeModel::ConditionBlock(node.model()),
            AstNodeEnum::ConditionStatement(node) => NodeModel::ConditionStatement(node.model()),
            AstNodeEnum::ForLoopBlock(node) => NodeModel::ForLoopBlock(node.model()),
            AstNodeEnum::OpDef(node) => NodeModel::OpDef(node.model()),
            AstNodeEnum::OpMeta(node) => NodeModel::OpMeta(node.model()),
            AstNodeEnum::OpInput(node) => NodeModel::OpInput(node.model()),
            AstNodeEnum::OpOutput(node) => NodeModel::OpOutput(node.model()),
            AstNodeEnum::OpConfig(node) => NodeModel::OpConfig(node.model()),
            AstNodeEnum::OpSpec(node) => NodeModel::OpSpec(node.model()),
            AstNodeEnum::OpSpecItem(node) => NodeModel::OpSpecItem(node.model()),
            AstNodeEnum::ClosedInterval(node) => NodeModel::ClosedInterval(node.model()),
            AstNodeEnum::MixInterval(node) => NodeModel::MixInterval(node.model()),
        }
    }
}

impl NodeModel {
    /// The span of the node.
    pub open spec fn position(self) -> Position {
        match self {
            NodeModel::Module(node) => node.position,
            NodeModel::Comment(node) => node.position,
            NodeModel::Symbol(node) => node.position,
            NodeModel::StringLiteral(node) => node.position,
            NodeModel::MultiLineStringLiteral(node) => node.position,
            NodeModel::NumberLiteral(node) => node.position,
            NodeModel::FloatLiteral(node) => node.position,
            NodeModel::BoolLiteral(node) => node.position,
            NodeModel::DateTimeLiteral(node) => node.position,
            NodeModel::DateLiteral(node) => node.position,
            NodeModel::NullLiteral(node) => node.position,
            NodeModel::DictStatement(node) => node.position,
            NodeModel::DictItem(node) => node.position,
            NodeModel::ListStatement(node) => node.position,
            NodeModel::TupleStatement(node) => node.position,
            NodeModel::SetStatement(node) => node.position,
            NodeModel::Import(node) => node.position,
            NodeModel::ImportItem(node) => node.position,
            NodeModel::AttrDef(node) => node.position,
            NodeModel::RefDef(node) => node.position,
            NodeModel::VarDef(node) => node.position,
            NodeModel::GraphDef(node) => node.position,
            NodeModel::NodeDef(node) => node.position,
            NodeModel::NodeBlock(node) => node.position,
            NodeModel::NodeInputTuple(node) => node.position,
            NodeModel::NodeInputKeyDef(node) => node.position,
            NodeModel::NodeInputKeyItem(node) => node.position,
            NodeModel::NodeInputValues(node) => node.position,
            NodeModel::NodeAttr(node) => node.position,
            NodeModel::ConditionDef(node) => node.position,
            NodeModel::ConditionBlock(node) => node.position,
            NodeModel::ConditionStatement(node) => node.position,
            NodeModel::ForLoopBlock(node) => node.position,
            NodeModel::OpDef(node) => node.position,
            NodeModel::OpMeta(node) => node.position,
            NodeModel::OpInput(node) => node.position,
            NodeModel::OpOutput(node) => node.position,
            NodeModel::OpConfig(node) => node.position,
            NodeModel::OpSpec(node) => node.position,
            NodeModel::OpSpecItem(node) => node.position,
            NodeModel::ClosedInterval(node) => node.position,
            NodeModel::MixInterval(node) => node.position,
        }
    }
}

/// A node and its value are of the same kind.
pub proof fn lemma_model_kind(x: AstNodeEnum)
    ensures
        x is Module <==> x.model() is Module,
        x is Comment <==> x.model() is Comment,
        x is Symbol <==> x.model() is Symbol,
        x is StringLiteral <==> x.model() is StringLiteral,
        x is MultiLineStringLiteral <==> x.model() is MultiLineStringLiteral,
        x is NumberLiteral <==> x.model() is NumberLiteral,
        x is FloatLiteral <==> x.model() is FloatLiteral,
        x is BoolLiteral <==> x.model() is BoolLiteral,
        x is DateTimeLiteral <==> x.model() is DateTimeLiteral,
        x is DateLiteral <==> x.model() is DateLiteral,
        x is NullLiteral <==> x.model() is NullLiteral,
        x is DictStatement <==> x.model() is DictStatement,
        x is DictItem <==> x.model() is DictItem,
        x is ListStatement <==> x.model() is ListStatement,
        x is TupleStatement <==> x.model() is TupleStatement,
        x is SetStatement <==> x.model() is SetStatement,
        x is Import <==> x.model() is Import,
        x is ImportItem <==> x.model() is ImportItem,
        x is AttrDef <==> x.model() is AttrDef,
        x is RefDef <==> x.model() is RefDef,
        x is VarDef <==> x.model() is VarDef,
        x is GraphDef <==> x.model() is GraphDef,
        x is NodeDef <==> x.model() is NodeDef,
        x is NodeBlock <==> x.model() is NodeBlock,
        x is NodeInputTuple <==> x.model() is NodeInputTuple,
        x is NodeInputKeyDef <==> x.model() is NodeInputKeyDef,
        x is NodeInputKeyItem <==> x.model() is NodeInputKeyItem,
        x is NodeInputValues <==> x.model() is NodeInputValues,
        x is NodeAttr <==> x.model() is NodeAttr,
        x is ConditionDef <==> x.model() is ConditionDef,
        x is ConditionBlock <==> x.model() is ConditionBlock,
        x is ConditionStatement <==> x.model() is ConditionStatement,
        x is ForLoopBlock <==> x.model() is ForLoopBlock,
        x is OpDef <==> x.model() is OpDef,
        x is OpMeta <==> x.model() is OpMeta,
        x is OpInput <==> x.model() is OpInput,
        x is OpOutput <==> x.model() is OpOutput,
        x is OpConfig <==> x.model() is OpConfig,
        x is OpSpec <==> x.model() is OpSpec,
        x is OpSpecItem <==> x.model() is OpSpecItem,
        x is ClosedInterval <==> x.model() is ClosedInterval,
        x is MixInterval <==> x.model() is MixInterval,
{
    match x {
        AstNodeEnum::Module(_) => {},
        AstNodeEnum::Comment(_) => {},
        AstNodeEnum::Symbol(_) => {},
        AstNodeEnum::StringLiteral(_) => {},
        AstNodeEnum::MultiLineStringLiteral(_) => {},
        AstNodeEnum::NumberLiteral(_) => {},
        AstNodeEnum::FloatLiteral(_) => {},
        AstNodeEnum::BoolLiteral(_) => {},
        AstNodeEnum::DateTimeLiteral(_) => {},
        AstNodeEnum::DateLiteral(_) => {},
        AstNodeEnum::NullLiteral(_) => {},
        AstNodeEnum::DictStatement(_) => {},
        AstNodeEnum::DictItem(_) => {},
        AstNodeEnum::ListStatement(_) => {},
        AstNodeEnum::TupleStatement(_) => {},
        AstNodeEnum::SetStatement(_) => {},
        AstNodeEnum::Import(_) => {},
        AstNodeEnum::ImportItem(_) => {},
        AstNodeEnum::AttrDef(_) => {},
        AstNodeEnum::RefDef(_) => {},
        AstNodeEnum::VarDef(_) => {},
        AstNodeEnum::GraphDef(_) => {},
        AstNodeEnum::NodeDef(_) => {},
        AstNodeEnum::NodeBlock(_) => {},
        AstNodeEnum::NodeInputTuple(_) => {},
        AstNodeEnum::NodeInputKeyDef(_) => {},
        AstNodeEnum::NodeInputKeyItem(_) => {},
        AstNodeEnum::NodeInputValues(_) => {},
        AstNodeEnum::NodeAttr(_) => {},
        AstNodeEnum::ConditionDef(_) => {},
        AstNodeEnum::ConditionBlock(_) => {},
        AstNodeEnum::ConditionStatement(_) => {},
        AstNodeEnum::ForLoopBlock(_) => {},
        AstNodeEnum::OpDef(_) => {},
        AstNodeEnum::OpMeta(_) => {},
        AstNodeEnum::OpInput(_) => {},
        AstNodeEnum::OpOutput(_) => {},
        AstNodeEnum::OpConfig(_) => {},
        AstNodeEnum::OpSpec(_) => {},
        AstNodeEnum::OpSpecItem(_) => {},
        AstNodeEnum::ClosedInterval(_) => {},
        AstNodeEnum::MixInterval(_) => {},
    }
}

/// The span of a node's value is the span of the node.
pub proof fn lemma_model_position(x: AstNodeEnum)
    ensures
        x.model().position() == crate::ast::AstNode::pos(&x),
{
    match x {
        AstNodeEnum::Module(node) => {
            assert(node.model().position == node.position);
        },
        AstNodeEnum::Comment(node) => {
            assert(node.model().position == node.position);
        },
        AstNodeEnum::Symbol(node) => {
            assert(node.model().position == node.position);
        },
        AstNodeEnum::StringLiteral(node) => {
            assert(node.model().position == node.position);
        },
        AstNodeEnum::MultiLineStringLiteral(node) => {
            assert(node.model().position == node.position);
        },
        AstNodeEnum::NumberLiteral(node) => {
            assert(node.model().position == node.position);
        },
        AstNodeEnum::FloatLiteral(node) => {
            assert(node.model().position == node.position);
        },
        AstNodeEnum::BoolLiteral(node) => {
            assert(node.model().position == node.position);
        },
        AstNodeEnum::DateTimeLiteral(node) => {
            assert(node.model().position == node.position);
        },
        AstNodeEnum::DateLiteral(node) => {
            assert(node.model().position == node.position);
        },
        AstNodeEnum::NullLiteral(node) => {
            assert(node.model().position == node.position);
        },
        AstNodeEnum::DictStatement(node) => {
            assert(node.model().position == node.position);
        },
        AstNodeEnum::DictItem(node) => {
            assert(node.model().position == node.position);
        },
        AstNodeEnum::ListStatement(node) => {
            assert(node.model().position == node.position);
        },
        AstNodeEnum::TupleStatement(node) => {
            assert(node.model().position == node.position);
        },
        AstNodeEnum::SetStatement(node) => {
            assert(node.model().position == node.position);
        },
        AstNodeEnum::Import(node) => {
            assert(node.model().position == node.position);
        },
        AstNodeEnum::ImportItem(node) => {
            assert(node.model().position == node.position);
        },
        AstNodeEnum::AttrDef(node) => {
            assert(node.model().position == node.position);
        },
        AstNodeEnum::RefDef(node) => {
            assert(node.model().position == node.position);
        },
        AstNodeEnum::VarDef(node) => {
            assert(node.model().position == node.position);
        },
        AstNodeEnum::GraphDef(node) => {
            assert(node.model().position == node.position);
        },
        AstNodeEnum::NodeDef(node) => {
            assert(node.model().position == node.position);
        },
        AstNodeEnum::NodeBlock(node) => {
            assert(node.model().position == node.position);
        },
        AstNodeEnum::NodeInputTuple(node) => {
            assert(node.model().position == node.position);
        },
        AstNodeEnum::NodeInputKeyDef(node) => {
            assert(node.model().position == node.position);
        },
        AstNodeEnum::NodeInputKeyItem(node) => {
            assert(node.model().position == node.position);
        },
        AstNodeEnum::NodeInputValues(node) => {
            assert(node.model().position == node.position);
        },
        AstNodeEnum::NodeAttr(node) => {
            assert(node.model().position == node.position);
        },
        AstNodeEnum::ConditionDef(node) => {
            assert(node.model().position == node.position);
        },
        AstNodeEnum::ConditionBlock(node) => {
            assert(node.model().position == node.position);
        },
        AstNodeEnum::ConditionStatement(node) => {
            assert(node.model().position == node.position);
        },
        AstNodeEnum::ForLoopBlock(node) => {
            assert(node.model().position == node.position);
        },
        AstNodeEnum::OpDef(node) => {
            assert(node.model().position == node.position);
        },
        AstNodeEnum::OpMeta(node) => {
            assert(node.model().position == node.position);
        },
        AstNodeEnum::OpInput(node) => {
            assert(node.model().position == node.position);
        },
        AstNodeEnum::OpOutput(node) => {
            assert(node.model().position == node.position);
        },
        AstNodeEnum::OpConfig(node) => {
            assert(node.model().position == node.position);
        },
        AstNodeEnum::OpSpec(node) => {
            assert(node.model().position == node.position);
        },
        AstNodeEnum::OpSpecItem(node) => {
            assert(node.model().position == node.position);
        },
        AstNodeEnum::ClosedInterval(node) => {
            assert(node.model().position == node.position);
        },
        AstNodeEnum::MixInterval(node) => {
            assert(node.model().position == node.position);
        },
    }
}

/// The value of an optional symbol.
pub open spec fn symbol_model(x: Option<Symbol>) -> Option<SymbolModel> {
    match x {
        Some(s) => Some(s.model()),
        None => None,
    }
}

} // verus!
