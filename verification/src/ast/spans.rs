//! The spans of a tree: every node's position ends where it starts or
//! later.

use crate::ast::{
    AstNodeEnum, AttrDef, BoolLiteral, ClosedInterval, Comment, ConditionBlock, ConditionDef, ConditionStatement, DateLiteral, DateTimeLiteral, DictItem, DictStatement, FloatLiteral, ForLoopBlock, GraphDef, Import, ImportItem, ListStatement, MixInterval, Module, MultiLineStringLiteral, NodeAttr, NodeBlock, NodeDef, NodeInputKeyDef, NodeInputKeyItem, NodeInputTuple, NodeInputValues, NullLiteral, NumberLiteral, OpConfig, OpDef, OpInput, OpMeta, OpOutput, OpSpec, OpSpecItem, RefDef, RefGraphBlock, SetStatement, StringLiteral, Symbol, TupleStatement, VarDef, ConditionExpr, NodeAttrValue, NodeInputDef,
};
use vstd::prelude::*;

verus! {

/// Whether the spans of all elements are consistent.
pub open spec fn symbols_ok(v: Seq<Symbol>) -> bool
    decreases v,
{
    forall|i: int| 0 <= i < v.len() ==> (#[trigger] v[i]).spans_ok()
}

/// Whether the spans of all elements are consistent.
pub open spec fn nodes_ok(v: Seq<AstNodeEnum>) -> bool
    decreases v,
{
    forall|i: int| 0 <= i < v.len() ==> (#[trigger] v[i]).spans_ok()
}

/// Whether the spans of all elements are consistent.
pub open spec fn boxed_ok(v: Seq<Box<AstNodeEnum>>) -> bool
    decreases v,
{
    forall|i: int| 0 <= i < v.len() ==> (*#[trigger] v[i]).spans_ok()
}

/// Whether the spans of all elements are consistent.
pub open spec fn dict_items_ok(v: Seq<DictItem>) -> bool
    decreases v,
{
    forall|i: int| 0 <= i < v.len() ==> (#[trigger] v[i]).spans_ok()
}

/// Whether the spans of all elements are consistent.
pub open spec fn import_items_ok(v: Seq<ImportItem>) -> bool
    decreases v,
{
    forall|i: int| 0 <= i < v.len() ==> (#[trigger] v[i]).spans_ok()
}

/// Whether the spans of all elements are consistent.
pub open spec fn attrs_ok(v: Seq<NodeAttr>) -> bool
    decreases v,
{
    forall|i: int| 0 <= i < v.len() ==> (#[trigger] v[i]).spans_ok()
}

/// Whether the spans of all elements are consistent.
pub open spec fn attr_defs_ok(v: Seq<AttrDef>) -> bool
    decreases v,
{
    forall|i: int| 0 <= i < v.len() ==> (#[trigger] v[i]).spans_ok()
}

/// Whether the spans of all elements are consistent.
pub open spec fn spec_items_ok(v: Seq<OpSpecItem>) -> bool
    decreases v,
{
    forall|i: int| 0 <= i < v.len() ==> (#[trigger] v[i]).spans_ok()
}

/// Whether the spans of all elements are consistent.
pub open spec fn key_items_ok(v: Seq<NodeInputKeyItem>) -> bool
    decreases v,
{
    forall|i: int| 0 <= i < v.len() ==> (#[trigger] v[i]).spans_ok()
}

impl Module {
    /// Whether the span of this node and the spans of all nodes below it are
    /// consistent.
    pub open spec fn spans_ok(&self) -> bool
        decreases self,
    {
        &&& self.position.consistent()
        &&& nodes_ok(self.children@)
    }
}

impl Comment {
    /// Whether the span of this node and the spans of all nodes below it are
    /// consistent.
    pub open spec fn spans_ok(&self) -> bool
        decreases self,
    {
        &&& self.position.consistent()
    }
}

impl Symbol {
    /// Whether the span of this node and the spans of all nodes below it are
    /// consistent.
    pub open spec fn spans_ok(&self) -> bool
        decreases self,
    {
        &&& self.position.consistent()
    }
}

impl StringLiteral {
    /// Whether the span of this node and the spans of all nodes below it are
    /// consistent.
    pub open spec fn spans_ok(&self) -> bool
        decreases self,
    {
        &&& self.position.consistent()
    }
}

impl MultiLineStringLiteral {
    /// Whether the span of this node and the spans of all nodes below it are
    /// consistent.
    pub open spec fn spans_ok(&self) -> bool
        decreases self,
    {
        &&& self.position.consistent()
    }
}

impl NumberLiteral {
    /// Whether the span of this node and the spans of all nodes below it are
    /// consistent.
    pub open spec fn spans_ok(&self) -> bool
        decreases self,
    {
        &&& self.position.consistent()
    }
}

impl FloatLiteral {
    /// Whether the span of this node and the spans of all nodes below it are
    /// consistent.
    pub open spec fn spans_ok(&self) -> bool
        decreases self,
    {
        &&& self.position.consistent()
    }
}

impl BoolLiteral {
    /// Whether the span of this node and the spans of all nodes below it are
    /// consistent.
    pub open spec fn spans_ok(&self) -> bool
        decreases self,
    {
        &&& self.position.consistent()
    }
}

impl DateTimeLiteral {
    /// Whether the span of this node and the spans of all nodes below it are
    /// consistent.
    pub open spec fn spans_ok(&self) -> bool
        decreases self,
    {
        &&& self.position.consistent()
    }
}

impl DateLiteral {
    /// Whether the span of this node and the spans of all nodes below it are
    /// consistent.
    pub open spec fn spans_ok(&self) -> bool
        decreases self,
    {
        &&& self.position.consistent()
    }
}

impl NullLiteral {
    /// Whether the span of this node and the spans of all nodes below it are
    /// consistent.
    pub open spec fn spans_ok(&self) -> bool
        decreases self,
    {
        &&& self.position.consistent()
    }
}

impl DictStatement {
    /// Whether the span of this node and the spans of all nodes below it are
    /// consistent.
    pub open spec fn spans_ok(&self) -> bool
        decreases self,
    {
        &&& self.position.consistent()
        &&& dict_items_ok(self.items@)
    }
}

impl DictItem {
    /// Whether the span of this node and the spans of all nodes below it are
    /// consistent.
    pub open spec fn spans_ok(&self) -> bool
        decreases self,
    {
        &&& self.position.consistent()
        &&& (*self.key).spans_ok()
        &&& (*self.value).spans_ok()
    }
}

impl ListStatement {
    /// Whether the span of this node and the spans of all nodes below it are
    /// consistent.
    pub open spec fn spans_ok(&self) -> bool
        decreases self,
    {
        &&& self.position.consistent()
        &&& nodes_ok(self.items@)
    }
}

impl TupleStatement {
    /// Whether the span of this node and the spans of all nodes below it are
    /// consistent.
    pub open spec fn spans_ok(&self) -> bool
        decreases self,
    {
        &&& self.position.consistent()
        &&& nodes_ok(self.items@)
    }
}

impl SetStatement {
    /// Whether the span of this node and the spans of all nodes below it are
    /// consistent.
    pub open spec fn spans_ok(&self) -> bool
        decreases self,
    {
        &&& self.position.consistent()
        &&& nodes_ok(self.items@)
    }
}

impl Import {
    /// Whether the span of this node and the spans of all nodes below it are
    /// consistent.
    pub open spec fn spans_ok(&self) -> bool
        decreases self,
    {
        &&& self.position.consistent()
        &&& import_items_ok(self.items@)
    }
}

impl ImportItem {
    /// Whether the span of this node and the spans of all nodes below it are
    /// consistent.
    pub open spec fn spans_ok(&self) -> bool
        decreases self,
    {
        &&& self.position.consistent()
        &&& self.path.position.consistent()
        &&& (match self.alias {
            Some(s) => s.position.consistent(),
            None => true,
        })
    }
}

impl AttrDef {
    /// Whether the span of this node and the spans of all nodes below it are
    /// consistent.
    pub open spec fn spans_ok(&self) -> bool
        decreases self,
    {
        &&& self.position.consistent()
        &&& self.name.position.consistent()
        &&& (*self.value).spans_ok()
        &&& (match self.condition {
            Some(b) => (*b).spans_ok(),
            None => true,
        })
        &&& (match self.else_value {
            Some(b) => (*b).spans_ok(),
            None => true,
        })
    }
}

impl RefDef {
    /// Whether the span of this node and the spans of all nodes below it are
    /// consistent.
    pub open spec fn spans_ok(&self) -> bool
        decreases self,
    {
        &&& self.position.consistent()
        &&& self.name.position.consistent()
        &&& self.value.position.consistent()
        &&& (match self.condition {
            Some(b) => (*b).spans_ok(),
            None => true,
        })
        &&& (match self.default {
            Some(b) => (*b).spans_ok(),
            None => true,
        })
    }
}

impl VarDef {
    /// Whether the span of this node and the spans of all nodes below it are
    /// consistent.
    pub open spec fn spans_ok(&self) -> bool
        decreases self,
    {
        &&& self.position.consistent()
        &&& nodes_ok(self.children@)
        &&& (match self.alias {
            Some(s) => s.position.consistent(),
            None => true,
        })
    }
}

impl GraphDef {
    /// Whether the span of this node and the spans of all nodes below it are
    /// consistent.
    pub open spec fn spans_ok(&self) -> bool
        decreases self,
    {
        &&& self.position.consistent()
        &&& nodes_ok(self.children@)
        &&& (match self.alias {
            Some(s) => s.position.consistent(),
            None => true,
        })
        &&& (match self.version {
            Some(b) => (*b).spans_ok(),
            None => true,
        })
        &&& (match self.template_graph {
            Some(s) => s.position.consistent(),
            None => true,
        })
        &&& (match self.template_version {
            Some(b) => (*b).spans_ok(),
            None => true,
        })
    }
}

impl NodeDef {
    /// Whether the span of this node and the spans of all nodes below it are
    /// consistent.
    pub open spec fn spans_ok(&self) -> bool
        decreases self,
    {
        &&& self.position.consistent()
        &&& symbols_ok(self.outputs@)
        &&& self.value.spans_ok()
    }
}

impl NodeBlock {
    /// Whether the span of this node and the spans of all nodes below it are
    /// consistent.
    pub open spec fn spans_ok(&self) -> bool
        decreases self,
    {
        &&& self.position.consistent()
        &&& self.name.position.consistent()
        &&& (match self.inputs {
            Some(v) => v.spans_ok(),
            None => true,
        })
        &&& (match self.attrs {
            Some(v) => attrs_ok(v@),
            None => true,
        })
    }
}

impl RefGraphBlock {
    /// Whether the span of this node and the spans of all nodes below it are
    /// consistent.
    pub open spec fn spans_ok(&self) -> bool
        decreases self,
    {
        &&& self.position.consistent()
        &&& self.ref_name.position.consistent()
        &&& (match self.inputs {
            Some(v) => v.spans_ok(),
            None => true,
        })
        &&& (match self.attrs {
            Some(v) => attrs_ok(v@),
            None => true,
        })
    }
}

impl NodeInputTuple {
    /// Whether the span of this node and the spans of all nodes below it are
    /// consistent.
    pub open spec fn spans_ok(&self) -> bool
        decreases self,
    {
        &&& self.position.consistent()
        &&& boxed_ok(self.items@)
    }
}

impl NodeInputKeyDef {
    /// Whether the span of this node and the spans of all nodes below it are
    /// consistent.
    pub open spec fn spans_ok(&self) -> bool
        decreases self,
    {
        &&& self.position.consistent()
        &&& key_items_ok(self.items@)
    }
}

impl NodeInputKeyItem {
    /// Whether the span of this node and the spans of all nodes below it are
    /// consistent.
    pub open spec fn spans_ok(&self) -> bool
        decreases self,
    {
        &&& self.position.consistent()
        &&& self.key.position.consistent()
        &&& (*self.value).spans_ok()
    }
}

impl NodeInputValues {
    /// Whether the span of this node and the spans of all nodes below it are
    /// consistent.
    pub open spec fn spans_ok(&self) -> bool
        decreases self,
    {
        &&& self.position.consistent()
        &&& symbols_ok(self.items@)
    }
}

impl NodeAttr {
    /// Whether the span of this node and the spans of all nodes below it are
    /// consistent.
    pub open spec fn spans_ok(&self) -> bool
        decreases self,
    {
        &&& self.position.consistent()
        &&& self.name.position.consistent()
        &&& self.value.spans_ok()
    }
}

impl ConditionDef {
    /// Whether the span of this node and the spans of all nodes below it are
    /// consistent.
    pub open spec fn spans_ok(&self) -> bool
        decreases self,
    {
        &&& self.position.consistent()
        &&& symbols_ok(self.outputs@)
        &&& (*self.value).spans_ok()
    }
}

impl ConditionBlock {
    /// Whether the span of this node and the spans of all nodes below it are
    /// consistent.
    pub open spec fn spans_ok(&self) -> bool
        decreases self,
    {
        &&& self.position.consistent()
        &&& (*self.condition).spans_ok()
        &&& (*self.true_branch).spans_ok()
        &&& (*self.false_branch).spans_ok()
    }
}

impl ConditionStatement {
    /// Whether the span of this node and the spans of all nodes below it are
    /// consistent.
    pub open spec fn spans_ok(&self) -> bool
        decreases self,
    {
        &&& self.position.consistent()
        &&& (*self.left_operand).spans_ok()
        &&& (*self.right_operand).spans_ok()
    }
}

impl ForLoopBlock {
    /// Whether the span of this node and the spans of all nodes below it are
    /// consistent.
    pub open spec fn spans_ok(&self) -> bool
        decreases self,
    {
        &&& self.position.consistent()
        &&& self.inputs.position.consistent()
        &&& symbols_ok(self.outputs@)
        &&& self.node.spans_ok()
        &&& (match self.condition {
            Some(b) => (*b).spans_ok(),
            None => true,
        })
    }
}

impl OpDef {
    /// Whether the span of this node and the spans of all nodes below it are
    /// consistent.
    pub open spec fn spans_ok(&self) -> bool
        decreases self,
    {
        &&& self.position.consistent()
        &&& nodes_ok(self.children@)
        &&& (match self.alias {
            Some(s) => s.position.consistent(),
            None => true,
        })
    }
}

impl OpMeta {
    /// Whether the span of this node and the spans of all nodes below it are
    /// consistent.
    pub open spec fn spans_ok(&self) -> bool
        decreases self,
    {
        &&& self.position.consistent()
        &&& attr_defs_ok(self.children@)
    }
}

impl OpInput {
    /// Whether the span of this node and the spans of all nodes below it are
    /// consistent.
    pub open spec fn spans_ok(&self) -> bool
        decreases self,
    {
        &&& self.position.consistent()
        &&& nodes_ok(self.children@)
    }
}

impl OpOutput {
    /// Whether the span of this node and the spans of all nodes below it are
    /// consistent.
    pub open spec fn spans_ok(&self) -> bool
        decreases self,
    {
        &&& self.position.consistent()
        &&& nodes_ok(self.children@)
    }
}

impl OpConfig {
    /// Whether the span of this node and the spans of all nodes below it are
    /// consistent.
    pub open spec fn spans_ok(&self) -> bool
        decreases self,
    {
        &&& self.position.consistent()
        &&& nodes_ok(self.children@)
    }
}

impl OpSpec {
    /// Whether the span of this node and the spans of all nodes below it are
    /// consistent.
    pub open spec fn spans_ok(&self) -> bool
        decreases self,
    {
        &&& self.position.consistent()
        &&& self.name.position.consistent()
        &&& (match self.items {
            Some(v) => spec_items_ok(v@),
            None => true,
        })
    }
}

impl OpSpecItem {
    /// Whether the span of this node and the spans of all nodes below it are
    /// consistent.
    pub open spec fn spans_ok(&self) -> bool
        decreases self,
    {
        &&& self.position.consistent()
        &&& (*self.value).spans_ok()
    }
}

impl ClosedInterval {
    /// Whether the span of this node and the spans of all nodes below it are
    /// consistent.
    pub open spec fn spans_ok(&self) -> bool
        decreases self,
    {
        &&& self.position.consistent()
        &&& (match self.ge {
            Some(v) => v.spans_ok(),
            None => true,
        })
        &&& (match self.le {
            Some(v) => v.spans_ok(),
            None => true,
        })
    }
}

impl MixInterval {
    /// Whether the span of this node and the spans of all nodes below it are
    /// consistent.
    pub open spec fn spans_ok(&self) -> bool
        decreases self,
    {
        &&& self.position.consistent()
        &&& (match self.ge {
            Some(v) => v.spans_ok(),
            None => true,
        })
        &&& (match self.gt {
            Some(v) => v.spans_ok(),
            None => true,
        })
        &&& (match self.le {
            Some(v) => v.spans_ok(),
            None => true,
        })
        &&& (match self.lt {
            Some(v) => v.spans_ok(),
            None => true,
        })
    }
}

impl NodeInputDef {
    /// Whether the spans of the inputs are consistent.
    pub open spec fn spans_ok(&self) -> bool
        decreases self,
    {
        match self {
            NodeInputDef::Tuple(t) => t.spans_ok(),
            NodeInputDef::KeyValue(k) => k.spans_ok(),
        }
    }
}

impl NodeAttrValue {
    /// Whether the spans of the value are consistent.
    pub open spec fn spans_ok(&self) -> bool
        decreases self,
    {
        match self {
            NodeAttrValue::Symbol(s) => s.spans_ok(),
            NodeAttrValue::String(s) => s.spans_ok(),
            NodeAttrValue::List(items) => nodes_ok(items@),
        }
    }
}

impl ConditionExpr {
    /// Whether the spans of the test are consistent.
    pub open spec fn spans_ok(&self) -> bool
        decreases self,
    {
        match self {
            ConditionExpr::Statement(s) => (*s).spans_ok(),
            ConditionExpr::Block(b) => b.spans_ok(),
        }
    }
}

impl AstNodeEnum {
    /// Whether the span of this node and the spans of all nodes below it are
    /// consistent.
    pub open spec fn spans_ok(&self) -> bool
        decreases self,
    {
        match self {
            AstNodeEnum::Module(node) => node.spans_ok(),
            AstNodeEnum::Comment(node) => node.spans_ok(),
            AstNodeEnum::Symbol(node) => node.spans_ok(),
            AstNodeEnum::StringLiteral(node) => node.spans_ok(),
            AstNodeEnum::MultiLineStringLiteral(node) => node.spans_ok(),
            AstNodeEnum::NumberLiteral(node) => node.spans_ok(),
            AstNodeEnum::FloatLiteral(node) => node.spans_ok(),
            AstNodeEnum::BoolLiteral(node) => node.spans_ok(),
            AstNodeEnum::DateTimeLiteral(node) => node.spans_ok(),
            AstNodeEnum::DateLiteral(node) => node.spans_ok(),
            AstNodeEnum::NullLiteral(node) => node.spans_ok(),
            AstNodeEnum::DictStatement(node) => node.spans_ok(),
            AstNodeEnum::DictItem(node) => node.spans_ok(),
            AstNodeEnum::ListStatement(node) => node.spans_ok(),
            AstNodeEnum::TupleStatement(node) => node.spans_ok(),
            AstNodeEnum::SetStatement(node) => node.spans_ok(),
            AstNodeEnum::Import(node) => node.spans_ok(),
            AstNodeEnum::ImportItem(node) => node.spans_ok(),
            AstNodeEnum::AttrDef(node) => node.spans_ok(),
            AstNodeEnum::RefDef(node) => node.spans_ok(),
            AstNodeEnum::VarDef(node) => node.spans_ok(),
            AstNodeEnum::GraphDef(node) => node.spans_ok(),
            AstNodeEnum::NodeDef(node) => node.spans_ok(),
            AstNodeEnum::NodeBlock(node) => node.spans_ok(),
            AstNodeEnum::NodeInputTuple(node) => node.spans_ok(),
            AstNodeEnum::NodeInputKeyDef(node) => node.spans_ok(),
            AstNodeEnum::NodeInputKeyItem(node) => node.spans_ok(),
            AstNodeEnum::NodeInputValues(node) => node.spans_ok(),
            AstNodeEnum::NodeAttr(node) => node.spans_ok(),
            AstNodeEnum::ConditionDef(node) => node.spans_ok(),
            AstNodeEnum::ConditionBlock(node) => node.spans_ok(),
            AstNodeEnum::ConditionStatement(node) => node.spans_ok(),
            AstNodeEnum::ForLoopBlock(node) => node.spans_ok(),
            AstNodeEnum::OpDef(node) => node.spans_ok(),
            AstNodeEnum::OpMeta(node) => node.spans_ok(),
            AstNodeEnum::OpInput(node) => node.spans_ok(),
            AstNodeEnum::OpOutput(node) => node.spans_ok(),
            AstNodeEnum::OpConfig(node) => node.spans_ok(),
            AstNodeEnum::OpSpec(node) => node.spans_ok(),
            AstNodeEnum::OpSpecItem(node) => node.spans_ok(),
            AstNodeEnum::ClosedInterval(node) => node.spans_ok(),
            AstNodeEnum::MixInterval(node) => node.spans_ok(),
        }
    }
}

} // verus!
