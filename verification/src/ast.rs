//! The typed syntax tree.
//!
//! A tree is a closed set of node types. Every node owns one [`Position`];
//! parents own their children, so a copy of a node is a copy of its whole
//! subtree.

pub mod model;
pub mod spans;

use crate::ast::model::{
    attr_defs_view, attrs_view, boxed_view, dict_items_view, import_items_view, key_items_view,
    nodes_view, spec_items_view, symbols_view,
};
use crate::ast::spans::{
    attr_defs_ok, attrs_ok, boxed_ok, dict_items_ok, import_items_ok, key_items_ok, nodes_ok,
    spec_items_ok, symbols_ok,
};
use std::collections::HashMap;
use vstd::prelude::*;

verus! {

/// Where a node stands in the source text: the lines and columns of its first
/// character and of the end of its last one, counted from 1.
#[derive(Debug, Clone, Copy, PartialEq, Eq, Hash, Structural)]
pub struct Position {
    /// The line of the first character.
    pub line: usize,
    /// The line of the last character.
    pub end_line: usize,
    /// The column of the first character.
    pub start: usize,
    /// The column behind the last character.
    pub end: usize,
}

impl Position {
    /// A span within one line.
    pub fn new(line: usize, start: usize, end: usize) -> (r: Self)
        ensures
            r == (Position { line, end_line: line, start, end }),
    {
        Position { line, end_line: line, start, end }
    }

    /// A span from `line` to `end_line`.
    pub fn new_all(line: usize, end_line: usize, start: usize, end: usize) -> (r: Self)
        ensures
            r == (Position { line, end_line, start, end }),
    {
        Position { line, end_line, start, end }
    }

    /// The same span with another last line.
    pub fn with_end_line(self, end_line: usize) -> (r: Self)
        ensures
            r == (Position { end_line, ..self }),
    {
        Position { line: self.line, end_line, start: self.start, end: self.end }
    }

    /// Replaces the four numbers.
    pub fn set(&mut self, line: usize, end_line: usize, start: usize, end: usize)
        ensures
            *final(self) == (Position { line, end_line, start, end }),
    {
        self.line = line;
        self.end_line = end_line;
        self.start = start;
        self.end = end;
    }

    /// Whether the span ends where it starts or later.
    pub open spec fn consistent(self) -> bool {
        self.line <= self.end_line && (self.line == self.end_line ==> self.start <= self.end)
    }
}

/// What every node of the tree offers: its position, to read and to write.
pub trait AstNode: Sized {
    /// The position of the node.
    spec fn pos(&self) -> Position;

    /// The same node at another position.
    spec fn with_pos(&self, p: Position) -> Self;

    fn position(&self) -> (r: &Position)
        ensures
            *r == self.pos(),
    ;

    /// A reference through which the position changes and nothing else.
    fn position_mut(&mut self) -> (r: &mut Position)
        ensures
            *r == old(self).pos(),
            *final(self) == old(self).with_pos(*final(r)),
    ;
}

/// The grammar position that an identifier was read in. It describes the
/// identifier and never changes the shape of the tree.
#[derive(Debug, Clone, Copy, PartialEq, Eq, Hash, Structural)]
pub enum SymbolKind {
    Unknown,
    ImportName,
    ImportAsName,
    VarAttr,
    VarAsName,
    VarRef,
    GraphProperty,
    GraphAsName,
    RefGraphName,
    GraphTemplate,
    NodeName,
    NodeOutput,
    NodeInput,
    NodeDepend,
    NodeProperty,
    NodeAttr,
    NodeAsName,
    OpAsName,
    OpMetaAttr,
    OpInputAttr,
    OpOutputAttr,
    OpConfigAttr,
    NodeAttrName,
    NodeInputKey,
    OpSpecDtype,
    ForLoopInputs,
    ForLoopOutputs,
}

/// A reference to another symbol.
#[derive(Debug, PartialEq, Eq)]
pub struct Ref {
    pub name: Symbol,
}

/// The inputs of a call: positional or keyed.
#[derive(Debug, PartialEq)]
pub enum NodeInputDef {
    Tuple(NodeInputTuple),
    KeyValue(NodeInputKeyDef),
}

/// The value of a chained attribute.
#[derive(Debug, PartialEq)]
pub enum NodeAttrValue {
    Symbol(Symbol),
    String(StringLiteral),
    List(Vec<AstNodeEnum>),
}

/// What a conditional tests: a comparison or a call.
#[derive(Debug, PartialEq)]
pub enum ConditionExpr {
    Statement(Box<ConditionStatement>),
    Block(NodeBlock),
}

/// The root of a tree: the statements of one source file, in order.
#[derive(Debug, PartialEq)]
pub struct Module {
    pub position: Position,
    pub children: Vec<AstNodeEnum>,
}

/// A comment, with its delimiters.
#[derive(Debug, PartialEq, Eq)]
pub struct Comment {
    pub position: Position,
    pub value: String,
}

/// An identifier, with the grammar position that it was read in.
#[derive(Debug, PartialEq, Eq, Hash)]
pub struct Symbol {
    pub position: Position,
    pub name: String,
    pub kind: SymbolKind,
}

/// A string between single or double quotes; the value is what stands between them.
#[derive(Debug, PartialEq, Eq)]
pub struct StringLiteral {
    pub position: Position,
    pub value: String,
}

/// A string between triple quotes; the value is what stands between them.
#[derive(Debug, PartialEq, Eq)]
pub struct MultiLineStringLiteral {
    pub position: Position,
    pub value: String,
}

/// An integer, as written and as a 64-bit signed number.
#[derive(Debug, PartialEq, Eq)]
pub struct NumberLiteral {
    pub position: Position,
    pub raw: String,
    pub value: i64,
}

/// A number with a fraction or an exponent, as written.
#[derive(Debug, PartialEq, Eq)]
pub struct FloatLiteral {
    pub position: Position,
    pub raw: String,
}

/// `true` or `false`.
#[derive(Debug, PartialEq, Eq)]
pub struct BoolLiteral {
    pub position: Position,
    pub raw: String,
    pub value: bool,
}

/// A bare date-time, a form that the language has given up; the value is the instant in UTC.
#[derive(Debug, PartialEq, Eq)]
pub struct DateTimeLiteral {
    pub position: Position,
    pub raw: String,
    /// Seconds since the Unix epoch.
    pub seconds: i64,
    /// Nanoseconds within the second.
    pub nanos: u32,
}

/// `date("...")`; the value is what stands between the quotes.
#[derive(Debug, PartialEq, Eq)]
pub struct DateLiteral {
    pub position: Position,
    pub value: String,
}

/// `null`.
#[derive(Debug, PartialEq, Eq)]
pub struct NullLiteral {
    pub position: Position,
}

/// A dictionary: `{"k": v, ...}`.
#[derive(Debug, PartialEq)]
pub struct DictStatement {
    pub position: Position,
    pub items: Vec<DictItem>,
}

/// One pair of a dictionary.
#[derive(Debug, PartialEq)]
pub struct DictItem {
    pub position: Position,
    pub key: Box<AstNodeEnum>,
    pub value: Box<AstNodeEnum>,
}

/// A list: `[...]`.
#[derive(Debug, PartialEq)]
pub struct ListStatement {
    pub position: Position,
    pub items: Vec<AstNodeEnum>,
}

/// A tuple: `(...)`.
#[derive(Debug, PartialEq)]
pub struct TupleStatement {
    pub position: Position,
    pub items: Vec<AstNodeEnum>,
}

/// A set: `{...}`.
#[derive(Debug, PartialEq)]
pub struct SetStatement {
    pub position: Position,
    pub items: Vec<AstNodeEnum>,
}

/// An import statement.
#[derive(Debug, PartialEq)]
pub struct Import {
    pub position: Position,
    pub items: Vec<ImportItem>,
}

/// One imported path with its alias.
#[derive(Debug, PartialEq)]
pub struct ImportItem {
    pub position: Position,
    pub path: Symbol,
    pub alias: Option<Symbol>,
}

/// An attribute: `name = value if condition else other`.
#[derive(Debug, PartialEq)]
pub struct AttrDef {
    pub position: Position,
    pub name: Symbol,
    pub value: Box<AstNodeEnum>,
    pub condition: Option<Box<AstNodeEnum>>,
    pub else_value: Option<Box<AstNodeEnum>>,
}

/// A reference: `name = other`.
#[derive(Debug, PartialEq)]
pub struct RefDef {
    pub position: Position,
    pub name: Symbol,
    pub value: Symbol,
    pub condition: Option<Box<AstNodeEnum>>,
    pub default: Option<Box<AstNodeEnum>>,
}

/// A variable block.
#[derive(Debug, PartialEq)]
pub struct VarDef {
    pub position: Position,
    pub children: Vec<AstNodeEnum>,
    pub alias: Option<Symbol>,
    pub offset: Option<HashMap<String, usize>>,
}

/// A graph block.
#[derive(Debug, PartialEq)]
pub struct GraphDef {
    pub position: Position,
    pub children: Vec<AstNodeEnum>,
    pub alias: Option<Symbol>,
    pub version: Option<Box<AstNodeEnum>>,
    pub template_graph: Option<Symbol>,
    pub template_version: Option<Box<AstNodeEnum>>,
    pub offset: Option<HashMap<String, usize>>,
}

/// A node definition: outputs and the call that makes them.
#[derive(Debug, PartialEq)]
pub struct NodeDef {
    pub position: Position,
    pub outputs: Vec<Symbol>,
    pub value: NodeBlock,
}

/// A call: the callee, its inputs and its chained attributes.
#[derive(Debug, PartialEq)]
pub struct NodeBlock {
    pub position: Position,
    pub name: Symbol,
    pub inputs: Option<NodeInputDef>,
    pub attrs: Option<Vec<NodeAttr>>,
}

/// A call of a referenced graph.
#[derive(Debug, PartialEq)]
pub struct RefGraphBlock {
    pub position: Position,
    pub ref_name: Symbol,
    pub inputs: Option<NodeInputDef>,
    pub attrs: Option<Vec<NodeAttr>>,
}

/// Positional inputs.
#[derive(Debug, PartialEq)]
pub struct NodeInputTuple {
    pub position: Position,
    pub items: Vec<Box<AstNodeEnum>>,
}

/// Keyed inputs.
#[derive(Debug, PartialEq)]
pub struct NodeInputKeyDef {
    pub position: Position,
    pub items: Vec<NodeInputKeyItem>,
}

/// One keyed input.
#[derive(Debug, PartialEq)]
pub struct NodeInputKeyItem {
    pub position: Position,
    pub key: Symbol,
    pub value: Box<AstNodeEnum>,
}

/// The names that one keyed input holds.
#[derive(Debug, PartialEq)]
pub struct NodeInputValues {
    pub position: Position,
    pub items: Vec<Symbol>,
}

/// One chained attribute of a call.
#[derive(Debug, PartialEq)]
pub struct NodeAttr {
    pub position: Position,
    pub name: Symbol,
    pub value: NodeAttrValue,
    pub offset: Option<HashMap<String, usize>>,
}

/// A conditional node definition.
#[derive(Debug, PartialEq)]
pub struct ConditionDef {
    pub position: Position,
    pub outputs: Vec<Symbol>,
    pub value: Box<ConditionBlock>,
}

/// `condition ? a : b`.
#[derive(Debug, PartialEq)]
pub struct ConditionBlock {
    pub position: Position,
    pub condition: Box<ConditionExpr>,
    pub true_branch: Box<AstNodeEnum>,
    pub false_branch: Box<AstNodeEnum>,
}

/// A comparison of two operands.
#[derive(Debug, PartialEq)]
pub struct ConditionStatement {
    pub position: Position,
    pub left_operand: Box<AstNodeEnum>,
    pub right_operand: Box<AstNodeEnum>,
    pub operator: String,
}

/// `[call for outputs in inputs if condition]`.
#[derive(Debug, PartialEq)]
pub struct ForLoopBlock {
    pub position: Position,
    pub inputs: Symbol,
    pub outputs: Vec<Symbol>,
    pub node: NodeBlock,
    pub condition: Option<Box<AstNodeEnum>>,
    pub offset: Option<HashMap<String, usize>>,
}

/// An operation block.
#[derive(Debug, PartialEq)]
pub struct OpDef {
    pub position: Position,
    pub children: Vec<AstNodeEnum>,
    pub alias: Option<Symbol>,
    pub version: Option<String>,
    pub offset: Option<HashMap<String, usize>>,
}

/// The meta section of an operation.
#[derive(Debug, PartialEq)]
pub struct OpMeta {
    pub position: Position,
    pub children: Vec<AttrDef>,
    pub offset: Option<HashMap<String, usize>>,
}

/// The input section of an operation.
#[derive(Debug, PartialEq)]
pub struct OpInput {
    pub position: Position,
    pub children: Vec<AstNodeEnum>,
    pub offset: Option<HashMap<String, usize>>,
}

/// The output section of an operation.
#[derive(Debug, PartialEq)]
pub struct OpOutput {
    pub position: Position,
    pub children: Vec<AstNodeEnum>,
    pub offset: Option<HashMap<String, usize>>,
}

/// The config section of an operation.
#[derive(Debug, PartialEq)]
pub struct OpConfig {
    pub position: Position,
    pub children: Vec<AstNodeEnum>,
    pub offset: Option<HashMap<String, usize>>,
}

/// One specification of a section.
#[derive(Debug, PartialEq)]
pub struct OpSpec {
    pub position: Position,
    pub name: Symbol,
    pub items: Option<Vec<OpSpecItem>>,
}

/// One item of a specification.
#[derive(Debug, PartialEq)]
pub struct OpSpecItem {
    pub position: Position,
    pub name: String,
    pub value: Box<AstNodeEnum>,
}

/// An interval with closed ends.
#[derive(Debug, PartialEq)]
pub struct ClosedInterval {
    pub position: Position,
    pub ge: Option<NumberLiteral>,
    pub le: Option<NumberLiteral>,
}

/// An interval whose ends are each closed or open.
#[derive(Debug, PartialEq)]
pub struct MixInterval {
    pub position: Position,
    pub ge: Option<NumberLiteral>,
    pub gt: Option<NumberLiteral>,
    pub le: Option<NumberLiteral>,
    pub lt: Option<NumberLiteral>,
}

impl Symbol {
    /// An identifier whose grammar position is not known yet.
    pub fn new(position: Position, name: String) -> (r: Self)
        ensures
            r == (Symbol { position, name, kind: SymbolKind::Unknown }),
    {
        Symbol { position, name, kind: SymbolKind::Unknown }
    }

    /// The same identifier with its grammar position.
    pub fn with_kind(self, kind: SymbolKind) -> (r: Self)
        ensures
            r == (Symbol { kind, ..self }),
    {
        Symbol { position: self.position, name: self.name, kind }
    }

    /// Records the grammar position.
    pub fn set_kind(&mut self, kind: SymbolKind)
        ensures
            *final(self) == (Symbol { kind, ..*old(self) }),
    {
        self.kind = kind;
    }
}

/// Any node of the tree.
#[derive(Debug, PartialEq)]
pub enum AstNodeEnum {
    Module(Module),
    Comment(Comment),
    Symbol(Symbol),
    StringLiteral(StringLiteral),
    MultiLineStringLiteral(MultiLineStringLiteral),
    NumberLiteral(NumberLiteral),
    FloatLiteral(FloatLiteral),
    BoolLiteral(BoolLiteral),
    DateTimeLiteral(DateTimeLiteral),
    DateLiteral(DateLiteral),
    NullLiteral(NullLiteral),
    DictStatement(DictStatement),
    DictItem(DictItem),
    ListStatement(ListStatement),
    TupleStatement(TupleStatement),
    SetStatement(SetStatement),
    Import(Import),
    ImportItem(ImportItem),
    AttrDef(AttrDef),
    RefDef(RefDef),
    VarDef(VarDef),
    GraphDef(GraphDef),
    NodeDef(NodeDef),
    NodeBlock(NodeBlock),
    NodeInputTuple(NodeInputTuple),
    NodeInputKeyDef(NodeInputKeyDef),
    NodeInputKeyItem(NodeInputKeyItem),
    NodeInputValues(NodeInputValues),
    NodeAttr(NodeAttr),
    ConditionDef(ConditionDef),
    ConditionBlock(ConditionBlock),
    ConditionStatement(ConditionStatement),
    ForLoopBlock(ForLoopBlock),
    OpDef(OpDef),
    OpMeta(OpMeta),
    OpInput(OpInput),
    OpOutput(OpOutput),
    OpConfig(OpConfig),
    OpSpec(OpSpec),
    OpSpecItem(OpSpecItem),
    ClosedInterval(ClosedInterval),
    MixInterval(MixInterval),
}

impl AstNode for Module {
    open spec fn pos(&self) -> Position {
        self.position
    }

    open spec fn with_pos(&self, p: Position) -> Self {
        Module { position: p, ..*self }
    }

    fn position(&self) -> (r: &Position) {
        &self.position
    }

    fn position_mut(&mut self) -> (r: &mut Position) {
        &mut self.position
    }
}

impl AstNode for Comment {
    open spec fn pos(&self) -> Position {
        self.position
    }

    open spec fn with_pos(&self, p: Position) -> Self {
        Comment { position: p, ..*self }
    }

    fn position(&self) -> (r: &Position) {
        &self.position
    }

    fn position_mut(&mut self) -> (r: &mut Position) {
        &mut self.position
    }
}

impl AstNode for Symbol {
    open spec fn pos(&self) -> Position {
        self.position
    }

    open spec fn with_pos(&self, p: Position) -> Self {
        Symbol { position: p, ..*self }
    }

    fn position(&self) -> (r: &Position) {
        &self.position
    }

    fn position_mut(&mut self) -> (r: &mut Position) {
        &mut self.position
    }
}

impl AstNode for StringLiteral {
    open spec fn pos(&self) -> Position {
        self.position
    }

    open spec fn with_pos(&self, p: Position) -> Self {
        StringLiteral { position: p, ..*self }
    }

    fn position(&self) -> (r: &Position) {
        &self.position
    }

    fn position_mut(&mut self) -> (r: &mut Position) {
        &mut self.position
    }
}

impl AstNode for MultiLineStringLiteral {
    open spec fn pos(&self) -> Position {
        self.position
    }

    open spec fn with_pos(&self, p: Position) -> Self {
        MultiLineStringLiteral { position: p, ..*self }
    }

    fn position(&self) -> (r: &Position) {
        &self.position
    }

    fn position_mut(&mut self) -> (r: &mut Position) {
        &mut self.position
    }
}

impl AstNode for NumberLiteral {
    open spec fn pos(&self) -> Position {
        self.position
    }

    open spec fn with_pos(&self, p: Position) -> Self {
        NumberLiteral { position: p, ..*self }
    }

    fn position(&self) -> (r: &Position) {
        &self.position
    }

    fn position_mut(&mut self) -> (r: &mut Position) {
        &mut self.position
    }
}

impl AstNode for FloatLiteral {
    open spec fn pos(&self) -> Position {
        self.position
    }

    open spec fn with_pos(&self, p: Position) -> Self {
        FloatLiteral { position: p, ..*self }
    }

    fn position(&self) -> (r: &Position) {
        &self.position
    }

    fn position_mut(&mut self) -> (r: &mut Position) {
        &mut self.position
    }
}

impl AstNode for BoolLiteral {
    open spec fn pos(&self) -> Position {
        self.position
    }

    open spec fn with_pos(&self, p: Position) -> Self {
        BoolLiteral { position: p, ..*self }
    }

    fn position(&self) -> (r: &Position) {
        &self.position
    }

    fn position_mut(&mut self) -> (r: &mut Position) {
        &mut self.position
    }
}

impl AstNode for DateTimeLiteral {
    open spec fn pos(&self) -> Position {
        self.position
    }

    open spec fn with_pos(&self, p: Position) -> Self {
        DateTimeLiteral { position: p, ..*self }
    }

    fn position(&self) -> (r: &Position) {
        &self.position
    }

    fn position_mut(&mut self) -> (r: &mut Position) {
        &mut self.position
    }
}

impl AstNode for DateLiteral {
    open spec fn pos(&self) -> Position {
        self.position
    }

    open spec fn with_pos(&self, p: Position) -> Self {
        DateLiteral { position: p, ..*self }
    }

    fn position(&self) -> (r: &Position) {
        &self.position
    }

    fn position_mut(&mut self) -> (r: &mut Position) {
        &mut self.position
    }
}

impl AstNode for NullLiteral {
    open spec fn pos(&self) -> Position {
        self.position
    }

    open spec fn with_pos(&self, p: Position) -> Self {
        NullLiteral { position: p, ..*self }
    }

    fn position(&self) -> (r: &Position) {
        &self.position
    }

    fn position_mut(&mut self) -> (r: &mut Position) {
        &mut self.position
    }
}

impl AstNode for DictStatement {
    open spec fn pos(&self) -> Position {
        self.position
    }

    open spec fn with_pos(&self, p: Position) -> Self {
        DictStatement { position: p, ..*self }
    }

    fn position(&self) -> (r: &Position) {
        &self.position
    }

    fn position_mut(&mut self) -> (r: &mut Position) {
        &mut self.position
    }
}

impl AstNode for DictItem {
    open spec fn pos(&self) -> Position {
        self.position
    }

    open spec fn with_pos(&self, p: Position) -> Self {
        DictItem { position: p, ..*self }
    }

    fn position(&self) -> (r: &Position) {
        &self.position
    }

    fn position_mut(&mut self) -> (r: &mut Position) {
        &mut self.position
    }
}

impl AstNode for ListStatement {
    open spec fn pos(&self) -> Position {
        self.position
    }

    open spec fn with_pos(&self, p: Position) -> Self {
        ListStatement { position: p, ..*self }
    }

    fn position(&self) -> (r: &Position) {
        &self.position
    }

    fn position_mut(&mut self) -> (r: &mut Position) {
        &mut self.position
    }
}

impl AstNode for TupleStatement {
    open spec fn pos(&self) -> Position {
        self.position
    }

    open spec fn with_pos(&self, p: Position) -> Self {
        TupleStatement { position: p, ..*self }
    }

    fn position(&self) -> (r: &Position) {
        &self.position
    }

    fn position_mut(&mut self) -> (r: &mut Position) {
        &mut self.position
    }
}

impl AstNode for SetStatement {
    open spec fn pos(&self) -> Position {
        self.position
    }

    open spec fn with_pos(&self, p: Position) -> Self {
        SetStatement { position: p, ..*self }
    }

    fn position(&self) -> (r: &Position) {
        &self.position
    }

    fn position_mut(&mut self) -> (r: &mut Position) {
        &mut self.position
    }
}

impl AstNode for Import {
    open spec fn pos(&self) -> Position {
        self.position
    }

    open spec fn with_pos(&self, p: Position) -> Self {
        Import { position: p, ..*self }
    }

    fn position(&self) -> (r: &Position) {
        &self.position
    }

    fn position_mut(&mut self) -> (r: &mut Position) {
        &mut self.position
    }
}

impl AstNode for ImportItem {
    open spec fn pos(&self) -> Position {
        self.position
    }

    open spec fn with_pos(&self, p: Position) -> Self {
        ImportItem { position: p, ..*self }
    }

    fn position(&self) -> (r: &Position) {
        &self.position
    }

    fn position_mut(&mut self) -> (r: &mut Position) {
        &mut self.position
    }
}

impl AstNode for AttrDef {
    open spec fn pos(&self) -> Position {
        self.position
    }

    open spec fn with_pos(&self, p: Position) -> Self {
        AttrDef { position: p, ..*self }
    }

    fn position(&self) -> (r: &Position) {
        &self.position
    }

    fn position_mut(&mut self) -> (r: &mut Position) {
        &mut self.position
    }
}

impl AstNode for RefDef {
    open spec fn pos(&self) -> Position {
        self.position
    }

    open spec fn with_pos(&self, p: Position) -> Self {
        RefDef { position: p, ..*self }
    }

    fn position(&self) -> (r: &Position) {
        &self.position
    }

    fn position_mut(&mut self) -> (r: &mut Position) {
        &mut self.position
    }
}

impl AstNode for VarDef {
    open spec fn pos(&self) -> Position {
        self.position
    }

    open spec fn with_pos(&self, p: Position) -> Self {
        VarDef { position: p, ..*self }
    }

    fn position(&self) -> (r: &Position) {
        &self.position
    }

    fn position_mut(&mut self) -> (r: &mut Position) {
        &mut self.position
    }
}

impl AstNode for GraphDef {
    open spec fn pos(&self) -> Position {
        self.position
    }

    open spec fn with_pos(&self, p: Position) -> Self {
        GraphDef { position: p, ..*self }
    }

    fn position(&self) -> (r: &Position) {
        &self.position
    }

    fn position_mut(&mut self) -> (r: &mut Position) {
        &mut self.position
    }
}

impl AstNode for NodeDef {
    open spec fn pos(&self) -> Position {
        self.position
    }

    open spec fn with_pos(&self, p: Position) -> Self {
        NodeDef { position: p, ..*self }
    }

    fn position(&self) -> (r: &Position) {
        &self.position
    }

    fn position_mut(&mut self) -> (r: &mut Position) {
        &mut self.position
    }
}

impl AstNode for NodeBlock {
    open spec fn pos(&self) -> Position {
        self.position
    }

    open spec fn with_pos(&self, p: Position) -> Self {
        NodeBlock { position: p, ..*self }
    }

    fn position(&self) -> (r: &Position) {
        &self.position
    }

    fn position_mut(&mut self) -> (r: &mut Position) {
        &mut self.position
    }
}

impl AstNode for RefGraphBlock {
    open spec fn pos(&self) -> Position {
        self.position
    }

    open spec fn with_pos(&self, p: Position) -> Self {
        RefGraphBlock { position: p, ..*self }
    }

    fn position(&self) -> (r: &Position) {
        &self.position
    }

    fn position_mut(&mut self) -> (r: &mut Position) {
        &mut self.position
    }
}

impl AstNode for NodeInputTuple {
    open spec fn pos(&self) -> Position {
        self.position
    }

    open spec fn with_pos(&self, p: Position) -> Self {
        NodeInputTuple { position: p, ..*self }
    }

    fn position(&self) -> (r: &Position) {
        &self.position
    }

    fn position_mut(&mut self) -> (r: &mut Position) {
        &mut self.position
    }
}

impl AstNode for NodeInputKeyDef {
    open spec fn pos(&self) -> Position {
        self.position
    }

    open spec fn with_pos(&self, p: Position) -> Self {
        NodeInputKeyDef { position: p, ..*self }
    }

    fn position(&self) -> (r: &Position) {
        &self.position
    }

    fn position_mut(&mut self) -> (r: &mut Position) {
        &mut self.position
    }
}

impl AstNode for NodeInputKeyItem {
    open spec fn pos(&self) -> Position {
        self.position
    }

    open spec fn with_pos(&self, p: Position) -> Self {
        NodeInputKeyItem { position: p, ..*self }
    }

    fn position(&self) -> (r: &Position) {
        &self.position
    }

    fn position_mut(&mut self) -> (r: &mut Position) {
        &mut self.position
    }
}

impl AstNode for NodeInputValues {
    open spec fn pos(&self) -> Position {
        self.position
    }

    open spec fn with_pos(&self, p: Position) -> Self {
        NodeInputValues { position: p, ..*self }
    }

    fn position(&self) -> (r: &Position) {
        &self.position
    }

    fn position_mut(&mut self) -> (r: &mut Position) {
        &mut self.position
    }
}

impl AstNode for NodeAttr {
    open spec fn pos(&self) -> Position {
        self.position
    }

    open spec fn with_pos(&self, p: Position) -> Self {
        NodeAttr { position: p, ..*self }
    }

    fn position(&self) -> (r: &Position) {
        &self.position
    }

    fn position_mut(&mut self) -> (r: &mut Position) {
        &mut self.position
    }
}

impl AstNode for ConditionDef {
    open spec fn pos(&self) -> Position {
        self.position
    }

    open spec fn with_pos(&self, p: Position) -> Self {
        ConditionDef { position: p, ..*self }
    }

    fn position(&self) -> (r: &Position) {
        &self.position
    }

    fn position_mut(&mut self) -> (r: &mut Position) {
        &mut self.position
    }
}

impl AstNode for ConditionBlock {
    open spec fn pos(&self) -> Position {
        self.position
    }

    open spec fn with_pos(&self, p: Position) -> Self {
        ConditionBlock { position: p, ..*self }
    }

    fn position(&self) -> (r: &Position) {
        &self.position
    }

    fn position_mut(&mut self) -> (r: &mut Position) {
        &mut self.position
    }
}

impl AstNode for ConditionStatement {
    open spec fn pos(&self) -> Position {
        self.position
    }

    open spec fn with_pos(&self, p: Position) -> Self {
        ConditionStatement { position: p, ..*self }
    }

    fn position(&self) -> (r: &Position) {
        &self.position
    }

    fn position_mut(&mut self) -> (r: &mut Position) {
        &mut self.position
    }
}

impl AstNode for ForLoopBlock {
    open spec fn pos(&self) -> Position {
        self.position
    }

    open spec fn with_pos(&self, p: Position) -> Self {
        ForLoopBlock { position: p, ..*self }
    }

    fn position(&self) -> (r: &Position) {
        &self.position
    }

    fn position_mut(&mut self) -> (r: &mut Position) {
        &mut self.position
    }
}

impl AstNode for OpDef {
    open spec fn pos(&self) -> Position {
        self.position
    }

    open spec fn with_pos(&self, p: Position) -> Self {
        OpDef { position: p, ..*self }
    }

    fn position(&self) -> (r: &Position) {
        &self.position
    }

    fn position_mut(&mut self) -> (r: &mut Position) {
        &mut self.position
    }
}

impl AstNode for OpMeta {
    open spec fn pos(&self) -> Position {
        self.position
    }

    open spec fn with_pos(&self, p: Position) -> Self {
        OpMeta { position: p, ..*self }
    }

    fn position(&self) -> (r: &Position) {
        &self.position
    }

    fn position_mut(&mut self) -> (r: &mut Position) {
        &mut self.position
    }
}

impl AstNode for OpInput {
    open spec fn pos(&self) -> Position {
        self.position
    }

    open spec fn with_pos(&self, p: Position) -> Self {
        OpInput { position: p, ..*self }
    }

    fn position(&self) -> (r: &Position) {
        &self.position
    }

    fn position_mut(&mut self) -> (r: &mut Position) {
        &mut self.position
    }
}

impl AstNode for OpOutput {
    open spec fn pos(&self) -> Position {
        self.position
    }

    open spec fn with_pos(&self, p: Position) -> Self {
        OpOutput { position: p, ..*self }
    }

    fn position(&self) -> (r: &Position) {
        &self.position
    }

    fn position_mut(&mut self) -> (r: &mut Position) {
        &mut self.position
    }
}

impl AstNode for OpConfig {
    open spec fn pos(&self) -> Position {
        self.position
    }

    open spec fn with_pos(&self, p: Position) -> Self {
        OpConfig { position: p, ..*self }
    }

    fn position(&self) -> (r: &Position) {
        &self.position
    }

    fn position_mut(&mut self) -> (r: &mut Position) {
        &mut self.position
    }
}

impl AstNode for OpSpec {
    open spec fn pos(&self) -> Position {
        self.position
    }

    open spec fn with_pos(&self, p: Position) -> Self {
        OpSpec { position: p, ..*self }
    }

    fn position(&self) -> (r: &Position) {
        &self.position
    }

    fn position_mut(&mut self) -> (r: &mut Position) {
        &mut self.position
    }
}

impl AstNode for OpSpecItem {
    open spec fn pos(&self) -> Position {
        self.position
    }

    open spec fn with_pos(&self, p: Position) -> Self {
        OpSpecItem { position: p, ..*self }
    }

    fn position(&self) -> (r: &Position) {
        &self.position
    }

    fn position_mut(&mut self) -> (r: &mut Position) {
        &mut self.position
    }
}

impl AstNode for ClosedInterval {
    open spec fn pos(&self) -> Position {
        self.position
    }

    open spec fn with_pos(&self, p: Position) -> Self {
        ClosedInterval { position: p, ..*self }
    }

    fn position(&self) -> (r: &Position) {
        &self.position
    }

    fn position_mut(&mut self) -> (r: &mut Position) {
        &mut self.position
    }
}

impl AstNode for MixInterval {
    open spec fn pos(&self) -> Position {
        self.position
    }

    open spec fn with_pos(&self, p: Position) -> Self {
        MixInterval { position: p, ..*self }
    }

    fn position(&self) -> (r: &Position) {
        &self.position
    }

    fn position_mut(&mut self) -> (r: &mut Position) {
        &mut self.position
    }
}

impl AstNode for AstNodeEnum {
    open spec fn pos(&self) -> Position {
        match self {
            AstNodeEnum::Module(node) => node.pos(),
            AstNodeEnum::Comment(node) => node.pos(),
            AstNodeEnum::Symbol(node) => node.pos(),
            AstNodeEnum::StringLiteral(node) => node.pos(),
            AstNodeEnum::MultiLineStringLiteral(node) => node.pos(),
            AstNodeEnum::NumberLiteral(node) => node.pos(),
            AstNodeEnum::FloatLiteral(node) => node.pos(),
            AstNodeEnum::BoolLiteral(node) => node.pos(),
            AstNodeEnum::DateTimeLiteral(node) => node.pos(),
            AstNodeEnum::DateLiteral(node) => node.pos(),
            AstNodeEnum::NullLiteral(node) => node.pos(),
            AstNodeEnum::DictStatement(node) => node.pos(),
            AstNodeEnum::DictItem(node) => node.pos(),
            AstNodeEnum::ListStatement(node) => node.pos(),
            AstNodeEnum::TupleStatement(node) => node.pos(),
            AstNodeEnum::SetStatement(node) => node.pos(),
            AstNodeEnum::Import(node) => node.pos(),
            AstNodeEnum::ImportItem(node) => node.pos(),
            AstNodeEnum::AttrDef(node) => node.pos(),
            AstNodeEnum::RefDef(node) => node.pos(),
            AstNodeEnum::VarDef(node) => node.pos(),
            AstNodeEnum::GraphDef(node) => node.pos(),
            AstNodeEnum::NodeDef(node) => node.pos(),
            AstNodeEnum::NodeBlock(node) => node.pos(),
            AstNodeEnum::NodeInputTuple(node) => node.pos(),
            AstNodeEnum::NodeInputKeyDef(node) => node.pos(),
            AstNodeEnum::NodeInputKeyItem(node) => node.pos(),
            AstNodeEnum::NodeInputValues(node) => node.pos(),
            AstNodeEnum::NodeAttr(node) => node.pos(),
            AstNodeEnum::ConditionDef(node) => node.pos(),
            AstNodeEnum::ConditionBlock(node) => node.pos(),
            AstNodeEnum::ConditionStatement(node) => node.pos(),
            AstNodeEnum::ForLoopBlock(node) => node.pos(),
            AstNodeEnum::OpDef(node) => node.pos(),
            AstNodeEnum::OpMeta(node) => node.pos(),
            AstNodeEnum::OpInput(node) => node.pos(),
            AstNodeEnum::OpOutput(node) => node.pos(),
            AstNodeEnum::OpConfig(node) => node.pos(),
            AstNodeEnum::OpSpec(node) => node.pos(),
            AstNodeEnum::OpSpecItem(node) => node.pos(),
            AstNodeEnum::ClosedInterval(node) => node.pos(),
            AstNodeEnum::MixInterval(node) => node.pos(),
        }
    }

    open spec fn with_pos(&self, p: Position) -> Self {
        match self {
            AstNodeEnum::Module(node) => AstNodeEnum::Module(node.with_pos(p)),
            AstNodeEnum::Comment(node) => AstNodeEnum::Comment(node.with_pos(p)),
            AstNodeEnum::Symbol(node) => AstNodeEnum::Symbol(node.with_pos(p)),
            AstNodeEnum::StringLiteral(node) => AstNodeEnum::StringLiteral(node.with_pos(p)),
            AstNodeEnum::MultiLineStringLiteral(node) => AstNodeEnum::MultiLineStringLiteral(node.with_pos(p)),
            AstNodeEnum::NumberLiteral(node) => AstNodeEnum::NumberLiteral(node.with_pos(p)),
            AstNodeEnum::FloatLiteral(node) => AstNodeEnum::FloatLiteral(node.with_pos(p)),
            AstNodeEnum::BoolLiteral(node) => AstNodeEnum::BoolLiteral(node.with_pos(p)),
            AstNodeEnum::DateTimeLiteral(node) => AstNodeEnum::DateTimeLiteral(node.with_pos(p)),
            AstNodeEnum::DateLiteral(node) => AstNodeEnum::DateLiteral(node.with_pos(p)),
            AstNodeEnum::NullLiteral(node) => AstNodeEnum::NullLiteral(node.with_pos(p)),
            AstNodeEnum::DictStatement(node) => AstNodeEnum::DictStatement(node.with_pos(p)),
            AstNodeEnum::DictItem(node) => AstNodeEnum::DictItem(node.with_pos(p)),
            AstNodeEnum::ListStatement(node) => AstNodeEnum::ListStatement(node.with_pos(p)),
            AstNodeEnum::TupleStatement(node) => AstNodeEnum::TupleStatement(node.with_pos(p)),
            AstNodeEnum::SetStatement(node) => AstNodeEnum::SetStatement(node.with_pos(p)),
            AstNodeEnum::Import(node) => AstNodeEnum::Import(node.with_pos(p)),
            AstNodeEnum::ImportItem(node) => AstNodeEnum::ImportItem(node.with_pos(p)),
            AstNodeEnum::AttrDef(node) => AstNodeEnum::AttrDef(node.with_pos(p)),
            AstNodeEnum::RefDef(node) => AstNodeEnum::RefDef(node.with_pos(p)),
            AstNodeEnum::VarDef(node) => AstNodeEnum::VarDef(node.with_pos(p)),
            AstNodeEnum::GraphDef(node) => AstNodeEnum::GraphDef(node.with_pos(p)),
            AstNodeEnum::NodeDef(node) => AstNodeEnum::NodeDef(node.with_pos(p)),
            AstNodeEnum::NodeBlock(node) => AstNodeEnum::NodeBlock(node.with_pos(p)),
            AstNodeEnum::NodeInputTuple(node) => AstNodeEnum::NodeInputTuple(node.with_pos(p)),
            AstNodeEnum::NodeInputKeyDef(node) => AstNodeEnum::NodeInputKeyDef(node.with_pos(p)),
            AstNodeEnum::NodeInputKeyItem(node) => AstNodeEnum::NodeInputKeyItem(node.with_pos(p)),
            AstNodeEnum::NodeInputValues(node) => AstNodeEnum::NodeInputValues(node.with_pos(p)),
            AstNodeEnum::NodeAttr(node) => AstNodeEnum::NodeAttr(node.with_pos(p)),
            AstNodeEnum::ConditionDef(node) => AstNodeEnum::ConditionDef(node.with_pos(p)),
            AstNodeEnum::ConditionBlock(node) => AstNodeEnum::ConditionBlock(node.with_pos(p)),
            AstNodeEnum::ConditionStatement(node) => AstNodeEnum::ConditionStatement(node.with_pos(p)),
            AstNodeEnum::ForLoopBlock(node) => AstNodeEnum::ForLoopBlock(node.with_pos(p)),
            AstNodeEnum::OpDef(node) => AstNodeEnum::OpDef(node.with_pos(p)),
            AstNodeEnum::OpMeta(node) => AstNodeEnum::OpMeta(node.with_pos(p)),
            AstNodeEnum::OpInput(node) => AstNodeEnum::OpInput(node.with_pos(p)),
            AstNodeEnum::OpOutput(node) => AstNodeEnum::OpOutput(node.with_pos(p)),
            AstNodeEnum::OpConfig(node) => AstNodeEnum::OpConfig(node.with_pos(p)),
            AstNodeEnum::OpSpec(node) => AstNodeEnum::OpSpec(node.with_pos(p)),
            AstNodeEnum::OpSpecItem(node) => AstNodeEnum::OpSpecItem(node.with_pos(p)),
            AstNodeEnum::ClosedInterval(node) => AstNodeEnum::ClosedInterval(node.with_pos(p)),
            AstNodeEnum::MixInterval(node) => AstNodeEnum::MixInterval(node.with_pos(p)),
        }
    }

    fn position(&self) -> (r: &Position) {
        match self {
            AstNodeEnum::Module(node) => node.position(),
            AstNodeEnum::Comment(node) => node.position(),
            AstNodeEnum::Symbol(node) => node.position(),
            AstNodeEnum::StringLiteral(node) => node.position(),
            AstNodeEnum::MultiLineStringLiteral(node) => node.position(),
            AstNodeEnum::NumberLiteral(node) => node.position(),
            AstNodeEnum::FloatLiteral(node) => node.position(),
            AstNodeEnum::BoolLiteral(node) => node.position(),
            AstNodeEnum::DateTimeLiteral(node) => node.position(),
            AstNodeEnum::DateLiteral(node) => node.position(),
            AstNodeEnum::NullLiteral(node) => node.position(),
            AstNodeEnum::DictStatement(node) => node.position(),
            AstNodeEnum::DictItem(node) => node.position(),
            AstNodeEnum::ListStatement(node) => node.position(),
            AstNodeEnum::TupleStatement(node) => node.position(),
            AstNodeEnum::SetStatement(node) => node.position(),
            AstNodeEnum::Import(node) => node.position(),
            AstNodeEnum::ImportItem(node) => node.position(),
            AstNodeEnum::AttrDef(node) => node.position(),
            AstNodeEnum::RefDef(node) => node.position(),
            AstNodeEnum::VarDef(node) => node.position(),
            AstNodeEnum::GraphDef(node) => node.position(),
            AstNodeEnum::NodeDef(node) => node.position(),
            AstNodeEnum::NodeBlock(node) => node.position(),
            AstNodeEnum::NodeInputTuple(node) => node.position(),
            AstNodeEnum::NodeInputKeyDef(node) => node.position(),
            AstNodeEnum::NodeInputKeyItem(node) => node.position(),
            AstNodeEnum::NodeInputValues(node) => node.position(),
            AstNodeEnum::NodeAttr(node) => node.position(),
            AstNodeEnum::ConditionDef(node) => node.position(),
            AstNodeEnum::ConditionBlock(node) => node.position(),
            AstNodeEnum::ConditionStatement(node) => node.position(),
            AstNodeEnum::ForLoopBlock(node) => node.position(),
            AstNodeEnum::OpDef(node) => node.position(),
            AstNodeEnum::OpMeta(node) => node.position(),
            AstNodeEnum::OpInput(node) => node.position(),
            AstNodeEnum::OpOutput(node) => node.position(),
            AstNodeEnum::OpConfig(node) => node.position(),
            AstNodeEnum::OpSpec(node) => node.position(),
            AstNodeEnum::OpSpecItem(node) => node.position(),
            AstNodeEnum::ClosedInterval(node) => node.position(),
            AstNodeEnum::MixInterval(node) => node.position(),
        }
    }

    fn position_mut(&mut self) -> (r: &mut Position) {
        match self {
            AstNodeEnum::Module(node) => node.position_mut(),
            AstNodeEnum::Comment(node) => node.position_mut(),
            AstNodeEnum::Symbol(node) => node.position_mut(),
            AstNodeEnum::StringLiteral(node) => node.position_mut(),
            AstNodeEnum::MultiLineStringLiteral(node) => node.position_mut(),
            AstNodeEnum::NumberLiteral(node) => node.position_mut(),
            AstNodeEnum::FloatLiteral(node) => node.position_mut(),
            AstNodeEnum::BoolLiteral(node) => node.position_mut(),
            AstNodeEnum::DateTimeLiteral(node) => node.position_mut(),
            AstNodeEnum::DateLiteral(node) => node.position_mut(),
            AstNodeEnum::NullLiteral(node) => node.position_mut(),
            AstNodeEnum::DictStatement(node) => node.position_mut(),
            AstNodeEnum::DictItem(node) => node.position_mut(),
            AstNodeEnum::ListStatement(node) => node.position_mut(),
            AstNodeEnum::TupleStatement(node) => node.position_mut(),
            AstNodeEnum::SetStatement(node) => node.position_mut(),
            AstNodeEnum::Import(node) => node.position_mut(),
            AstNodeEnum::ImportItem(node) => node.position_mut(),
            AstNodeEnum::AttrDef(node) => node.position_mut(),
            AstNodeEnum::RefDef(node) => node.position_mut(),
            AstNodeEnum::VarDef(node) => node.position_mut(),
            AstNodeEnum::GraphDef(node) => node.position_mut(),
            AstNodeEnum::NodeDef(node) => node.position_mut(),
            AstNodeEnum::NodeBlock(node) => node.position_mut(),
            AstNodeEnum::NodeInputTuple(node) => node.position_mut(),
            AstNodeEnum::NodeInputKeyDef(node) => node.position_mut(),
            AstNodeEnum::NodeInputKeyItem(node) => node.position_mut(),
            AstNodeEnum::NodeInputValues(node) => node.position_mut(),
            AstNodeEnum::NodeAttr(node) => node.position_mut(),
            AstNodeEnum::ConditionDef(node) => node.position_mut(),
            AstNodeEnum::ConditionBlock(node) => node.position_mut(),
            AstNodeEnum::ConditionStatement(node) => node.position_mut(),
            AstNodeEnum::ForLoopBlock(node) => node.position_mut(),
            AstNodeEnum::OpDef(node) => node.position_mut(),
            AstNodeEnum::OpMeta(node) => node.position_mut(),
            AstNodeEnum::OpInput(node) => node.position_mut(),
            AstNodeEnum::OpOutput(node) => node.position_mut(),
            AstNodeEnum::OpConfig(node) => node.position_mut(),
            AstNodeEnum::OpSpec(node) => node.position_mut(),
            AstNodeEnum::OpSpecItem(node) => node.position_mut(),
            AstNodeEnum::ClosedInterval(node) => node.position_mut(),
            AstNodeEnum::MixInterval(node) => node.position_mut(),
        }
    }
}

impl Clone for Ref {
    fn clone(&self) -> (r: Self)
        ensures
            r == *self,
    {
        Ref {
            name: self.name.clone(),
        }
    }
}

impl Clone for Comment {
    fn clone(&self) -> (r: Self)
        ensures
            r == *self,
    {
        Comment {
            position: self.position,
            value: self.value.clone(),
        }
    }
}

impl Clone for Symbol {
    fn clone(&self) -> (r: Self)
        ensures
            r == *self,
    {
        Symbol {
            position: self.position,
            name: self.name.clone(),
            kind: self.kind,
        }
    }
}

impl Clone for StringLiteral {
    fn clone(&self) -> (r: Self)
        ensures
            r == *self,
    {
        StringLiteral {
            position: self.position,
            value: self.value.clone(),
        }
    }
}

impl Clone for MultiLineStringLiteral {
    fn clone(&self) -> (r: Self)
        ensures
            r == *self,
    {
        MultiLineStringLiteral {
            position: self.position,
            value: self.value.clone(),
        }
    }
}

impl Clone for NumberLiteral {
    fn clone(&self) -> (r: Self)
        ensures
            r == *self,
    {
        NumberLiteral {
            position: self.position,
            raw: self.raw.clone(),
            value: self.value,
        }
    }
}

impl Clone for FloatLiteral {
    fn clone(&self) -> (r: Self)
        ensures
            r == *self,
    {
        FloatLiteral {
            position: self.position,
            raw: self.raw.clone(),
        }
    }
}

impl Clone for BoolLiteral {
    fn clone(&self) -> (r: Self)
        ensures
            r == *self,
    {
        BoolLiteral {
            position: self.position,
            raw: self.raw.clone(),
            value: self.value,
        }
    }
}

impl Clone for DateTimeLiteral {
    fn clone(&self) -> (r: Self)
        ensures
            r == *self,
    {
        DateTimeLiteral {
            position: self.position,
            raw: self.raw.clone(),
            seconds: self.seconds,
            nanos: self.nanos,
        }
    }
}

impl Clone for DateLiteral {
    fn clone(&self) -> (r: Self)
        ensures
            r == *self,
    {
        DateLiteral {
            position: self.position,
            value: self.value.clone(),
        }
    }
}

impl Clone for NullLiteral {
    fn clone(&self) -> (r: Self)
        ensures
            r == *self,
    {
        NullLiteral {
            position: self.position,
        }
    }
}

impl Clone for Import {
    fn clone(&self) -> (r: Self)
        ensures
            r.model() == self.model(),
            r.spans_ok() == self.spans_ok(),
    {
        Import {
            position: self.position,
            items: clone_import_items(&self.items),
        }
    }
}

impl Clone for ImportItem {
    fn clone(&self) -> (r: Self)
        ensures
            r == *self,
    {
        ImportItem {
            position: self.position,
            path: self.path.clone(),
            alias: match &self.alias {
                Some(v) => Some(v.clone()),
                None => None,
            },
        }
    }
}

impl Clone for NodeInputValues {
    fn clone(&self) -> (r: Self)
        ensures
            r.model() == self.model(),
            r.spans_ok() == self.spans_ok(),
    {
        NodeInputValues {
            position: self.position,
            items: clone_symbols(&self.items),
        }
    }
}

impl Clone for ClosedInterval {
    fn clone(&self) -> (r: Self)
        ensures
            r == *self,
    {
        ClosedInterval {
            position: self.position,
            ge: match &self.ge {
                Some(v) => Some(v.clone()),
                None => None,
            },
            le: match &self.le {
                Some(v) => Some(v.clone()),
                None => None,
            },
        }
    }
}

impl Clone for MixInterval {
    fn clone(&self) -> (r: Self)
        ensures
            r == *self,
    {
        MixInterval {
            position: self.position,
            ge: match &self.ge {
                Some(v) => Some(v.clone()),
                None => None,
            },
            gt: match &self.gt {
                Some(v) => Some(v.clone()),
                None => None,
            },
            le: match &self.le {
                Some(v) => Some(v.clone()),
                None => None,
            },
            lt: match &self.lt {
                Some(v) => Some(v.clone()),
                None => None,
            },
        }
    }
}

impl Clone for Module {
    fn clone(&self) -> (r: Self)
        ensures
            r.model() == self.model(),
            r.spans_ok() == self.spans_ok(),
        decreases self,
    {
        Module {
            position: self.position,
            children: clone_nodes(&self.children),
        }
    }
}

impl Clone for DictStatement {
    fn clone(&self) -> (r: Self)
        ensures
            r.model() == self.model(),
            r.spans_ok() == self.spans_ok(),
        decreases self,
    {
        DictStatement {
            position: self.position,
            items: clone_dict_items(&self.items),
        }
    }
}

impl Clone for DictItem {
    fn clone(&self) -> (r: Self)
        ensures
            r.model() == self.model(),
            r.spans_ok() == self.spans_ok(),
        decreases self,
    {
        DictItem {
            position: self.position,
            key: Box::new((&*self.key).clone()),
            value: Box::new((&*self.value).clone()),
        }
    }
}

impl Clone for ListStatement {
    fn clone(&self) -> (r: Self)
        ensures
            r.model() == self.model(),
            r.spans_ok() == self.spans_ok(),
        decreases self,
    {
        ListStatement {
            position: self.position,
            items: clone_nodes(&self.items),
        }
    }
}

impl Clone for TupleStatement {
    fn clone(&self) -> (r: Self)
        ensures
            r.model() == self.model(),
            r.spans_ok() == self.spans_ok(),
        decreases self,
    {
        TupleStatement {
            position: self.position,
            items: clone_nodes(&self.items),
        }
    }
}

impl Clone for SetStatement {
    fn clone(&self) -> (r: Self)
        ensures
            r.model() == self.model(),
            r.spans_ok() == self.spans_ok(),
        decreases self,
    {
        SetStatement {
            position: self.position,
            items: clone_nodes(&self.items),
        }
    }
}

impl Clone for AttrDef {
    fn clone(&self) -> (r: Self)
        ensures
            r.model() == self.model(),
            r.spans_ok() == self.spans_ok(),
        decreases self,
    {
        AttrDef {
            position: self.position,
            name: self.name.clone(),
            value: Box::new((&*self.value).clone()),
            condition: match &self.condition {
                Some(b) => Some(Box::new((&**b).clone())),
                None => None,
            },
            else_value: match &self.else_value {
                Some(b) => Some(Box::new((&**b).clone())),
                None => None,
            },
        }
    }
}

impl Clone for RefDef {
    fn clone(&self) -> (r: Self)
        ensures
            r.model() == self.model(),
            r.spans_ok() == self.spans_ok(),
        decreases self,
    {
        RefDef {
            position: self.position,
            name: self.name.clone(),
            value: self.value.clone(),
            condition: match &self.condition {
                Some(b) => Some(Box::new((&**b).clone())),
                None => None,
            },
            default: match &self.default {
                Some(b) => Some(Box::new((&**b).clone())),
                None => None,
            },
        }
    }
}

impl Clone for VarDef {
    fn clone(&self) -> (r: Self)
        ensures
            r.model() == self.model(),
            r.spans_ok() == self.spans_ok(),
        decreases self,
    {
        VarDef {
            position: self.position,
            children: clone_nodes(&self.children),
            alias: match &self.alias {
                Some(v) => Some(v.clone()),
                None => None,
            },
            offset: match &self.offset {
                Some(v) => Some(v.clone()),
                None => None,
            },
        }
    }
}

impl Clone for GraphDef {
    fn clone(&self) -> (r: Self)
        ensures
            r.model() == self.model(),
            r.spans_ok() == self.spans_ok(),
        decreases self,
    {
        GraphDef {
            position: self.position,
            children: clone_nodes(&self.children),
            alias: match &self.alias {
                Some(v) => Some(v.clone()),
                None => None,
            },
            version: match &self.version {
                Some(b) => Some(Box::new((&**b).clone())),
                None => None,
            },
            template_graph: match &self.template_graph {
                Some(v) => Some(v.clone()),
                None => None,
            },
            template_version: match &self.template_version {
                Some(b) => Some(Box::new((&**b).clone())),
                None => None,
            },
            offset: match &self.offset {
                Some(v) => Some(v.clone()),
                None => None,
            },
        }
    }
}

impl Clone for NodeDef {
    fn clone(&self) -> (r: Self)
        ensures
            r.model() == self.model(),
            r.spans_ok() == self.spans_ok(),
        decreases self,
    {
        NodeDef {
            position: self.position,
            outputs: clone_symbols(&self.outputs),
            value: self.value.clone(),
        }
    }
}

impl Clone for NodeBlock {
    fn clone(&self) -> (r: Self)
        ensures
            r.model() == self.model(),
            r.spans_ok() == self.spans_ok(),
        decreases self,
    {
        NodeBlock {
            position: self.position,
            name: self.name.clone(),
            inputs: match &self.inputs {
                Some(v) => Some(v.clone()),
                None => None,
            },
            attrs: match &self.attrs {
                Some(v) => Some(clone_node_attrs(v)),
                None => None,
            },
        }
    }
}

impl Clone for RefGraphBlock {
    fn clone(&self) -> (r: Self)
        ensures
            r.model() == self.model(),
            r.spans_ok() == self.spans_ok(),
        decreases self,
    {
        RefGraphBlock {
            position: self.position,
            ref_name: self.ref_name.clone(),
            inputs: match &self.inputs {
                Some(v) => Some(v.clone()),
                None => None,
            },
            attrs: match &self.attrs {
                Some(v) => Some(clone_node_attrs(v)),
                None => None,
            },
        }
    }
}

impl Clone for NodeInputTuple {
    fn clone(&self) -> (r: Self)
        ensures
            r.model() == self.model(),
            r.spans_ok() == self.spans_ok(),
        decreases self,
    {
        NodeInputTuple {
            position: self.position,
            items: clone_boxed_nodes(&self.items),
        }
    }
}

impl Clone for NodeInputKeyDef {
    fn clone(&self) -> (r: Self)
        ensures
            r.model() == self.model(),
            r.spans_ok() == self.spans_ok(),
        decreases self,
    {
        NodeInputKeyDef {
            position: self.position,
            items: clone_key_items(&self.items),
        }
    }
}

impl Clone for NodeInputKeyItem {
    fn clone(&self) -> (r: Self)
        ensures
            r.model() == self.model(),
            r.spans_ok() == self.spans_ok(),
        decreases self,
    {
        NodeInputKeyItem {
            position: self.position,
            key: self.key.clone(),
            value: Box::new((&*self.value).clone()),
        }
    }
}

impl Clone for NodeAttr {
    fn clone(&self) -> (r: Self)
        ensures
            r.model() == self.model(),
            r.spans_ok() == self.spans_ok(),
        decreases self,
    {
        NodeAttr {
            position: self.position,
            name: self.name.clone(),
            value: self.value.clone(),
            offset: match &self.offset {
                Some(v) => Some(v.clone()),
                None => None,
            },
        }
    }
}

impl Clone for ConditionDef {
    fn clone(&self) -> (r: Self)
        ensures
            r.model() == self.model(),
            r.spans_ok() == self.spans_ok(),
        decreases self,
    {
        ConditionDef {
            position: self.position,
            outputs: clone_symbols(&self.outputs),
            value: Box::new((&*self.value).clone()),
        }
    }
}

impl Clone for ConditionBlock {
    fn clone(&self) -> (r: Self)
        ensures
            r.model() == self.model(),
            r.spans_ok() == self.spans_ok(),
        decreases self,
    {
        ConditionBlock {
            position: self.position,
            condition: Box::new((&*self.condition).clone()),
            true_branch: Box::new((&*self.true_branch).clone()),
            false_branch: Box::new((&*self.false_branch).clone()),
        }
    }
}

impl Clone for ConditionStatement {
    fn clone(&self) -> (r: Self)
        ensures
            r.model() == self.model(),
            r.spans_ok() == self.spans_ok(),
        decreases self,
    {
        ConditionStatement {
            position: self.position,
            left_operand: Box::new((&*self.left_operand).clone()),
            right_operand: Box::new((&*self.right_operand).clone()),
            operator: self.operator.clone(),
        }
    }
}

impl Clone for ForLoopBlock {
    fn clone(&self) -> (r: Self)
        ensures
            r.model() == self.model(),
            r.spans_ok() == self.spans_ok(),
        decreases self,
    {
        ForLoopBlock {
            position: self.position,
            inputs: self.inputs.clone(),
            outputs: clone_symbols(&self.outputs),
            node: self.node.clone(),
            condition: match &self.condition {
                Some(b) => Some(Box::new((&**b).clone())),
                None => None,
            },
            offset: match &self.offset {
                Some(v) => Some(v.clone()),
                None => None,
            },
        }
    }
}

impl Clone for OpDef {
    fn clone(&self) -> (r: Self)
        ensures
            r.model() == self.model(),
            r.spans_ok() == self.spans_ok(),
        decreases self,
    {
        OpDef {
            position: self.position,
            children: clone_nodes(&self.children),
            alias: match &self.alias {
                Some(v) => Some(v.clone()),
                None => None,
            },
            version: match &self.version {
                Some(v) => Some(v.clone()),
                None => None,
            },
            offset: match &self.offset {
                Some(v) => Some(v.clone()),
                None => None,
            },
        }
    }
}

impl Clone for OpMeta {
    fn clone(&self) -> (r: Self)
        ensures
            r.model() == self.model(),
            r.spans_ok() == self.spans_ok(),
        decreases self,
    {
        OpMeta {
            position: self.position,
            children: clone_attr_defs(&self.children),
            offset: match &self.offset {
                Some(v) => Some(v.clone()),
                None => None,
            },
        }
    }
}

impl Clone for OpInput {
    fn clone(&self) -> (r: Self)
        ensures
            r.model() == self.model(),
            r.spans_ok() == self.spans_ok(),
        decreases self,
    {
        OpInput {
            position: self.position,
            children: clone_nodes(&self.children),
            offset: match &self.offset {
                Some(v) => Some(v.clone()),
                None => None,
            },
        }
    }
}

impl Clone for OpOutput {
    fn clone(&self) -> (r: Self)
        ensures
            r.model() == self.model(),
            r.spans_ok() == self.spans_ok(),
        decreases self,
    {
        OpOutput {
            position: self.position,
            children: clone_nodes(&self.children),
            offset: match &self.offset {
                Some(v) => Some(v.clone()),
                None => None,
            },
        }
    }
}

impl Clone for OpConfig {
    fn clone(&self) -> (r: Self)
        ensures
            r.model() == self.model(),
            r.spans_ok() == self.spans_ok(),
        decreases self,
    {
        OpConfig {
            position: self.position,
            children: clone_nodes(&self.children),
            offset: match &self.offset {
                Some(v) => Some(v.clone()),
                None => None,
            },
        }
    }
}

impl Clone for OpSpec {
    fn clone(&self) -> (r: Self)
        ensures
            r.model() == self.model(),
            r.spans_ok() == self.spans_ok(),
        decreases self,
    {
        OpSpec {
            position: self.position,
            name: self.name.clone(),
            items: match &self.items {
                Some(v) => Some(clone_spec_items(v)),
                None => None,
            },
        }
    }
}

impl Clone for OpSpecItem {
    fn clone(&self) -> (r: Self)
        ensures
            r.model() == self.model(),
            r.spans_ok() == self.spans_ok(),
        decreases self,
    {
        OpSpecItem {
            position: self.position,
            name: self.name.clone(),
            value: Box::new((&*self.value).clone()),
        }
    }
}

impl Clone for NodeInputDef {
    fn clone(&self) -> (r: Self)
        ensures
            r.model() == self.model(),
            r.spans_ok() == self.spans_ok(),
        decreases self,
    {
        match self {
            NodeInputDef::Tuple(t) => NodeInputDef::Tuple(t.clone()),
            NodeInputDef::KeyValue(k) => NodeInputDef::KeyValue(k.clone()),
        }
    }
}

impl Clone for NodeAttrValue {
    fn clone(&self) -> (r: Self)
        ensures
            r.model() == self.model(),
            r.spans_ok() == self.spans_ok(),
        decreases self,
    {
        match self {
            NodeAttrValue::Symbol(s) => NodeAttrValue::Symbol(s.clone()),
            NodeAttrValue::String(s) => NodeAttrValue::String(s.clone()),
            NodeAttrValue::List(items) => NodeAttrValue::List(clone_nodes(items)),
        }
    }
}

impl Clone for ConditionExpr {
    fn clone(&self) -> (r: Self)
        ensures
            r.model() == self.model(),
            r.spans_ok() == self.spans_ok(),
        decreases self,
    {
        match self {
            ConditionExpr::Statement(s) => ConditionExpr::Statement(Box::new((&**s).clone())),
            ConditionExpr::Block(b) => ConditionExpr::Block(b.clone()),
        }
    }
}

impl Clone for AstNodeEnum {
    #[verifier::rlimit(60)]
    fn clone(&self) -> (r: Self)
        ensures
            r.model() == self.model(),
            r.spans_ok() == self.spans_ok(),
        decreases self,
    {
        match self {
            AstNodeEnum::Module(node) => AstNodeEnum::Module(node.clone()),
            AstNodeEnum::Comment(node) => AstNodeEnum::Comment(node.clone()),
            AstNodeEnum::Symbol(node) => AstNodeEnum::Symbol(node.clone()),
            AstNodeEnum::StringLiteral(node) => AstNodeEnum::StringLiteral(node.clone()),
            AstNodeEnum::MultiLineStringLiteral(node) => AstNodeEnum::MultiLineStringLiteral(node.clone()),
            AstNodeEnum::NumberLiteral(node) => AstNodeEnum::NumberLiteral(node.clone()),
            AstNodeEnum::FloatLiteral(node) => AstNodeEnum::FloatLiteral(node.clone()),
            AstNodeEnum::BoolLiteral(node) => AstNodeEnum::BoolLiteral(node.clone()),
            AstNodeEnum::DateTimeLiteral(node) => AstNodeEnum::DateTimeLiteral(node.clone()),
            AstNodeEnum::DateLiteral(node) => AstNodeEnum::DateLiteral(node.clone()),
            AstNodeEnum::NullLiteral(node) => AstNodeEnum::NullLiteral(node.clone()),
            AstNodeEnum::DictStatement(node) => AstNodeEnum::DictStatement(node.clone()),
            AstNodeEnum::DictItem(node) => AstNodeEnum::DictItem(node.clone()),
            AstNodeEnum::ListStatement(node) => AstNodeEnum::ListStatement(node.clone()),
            AstNodeEnum::TupleStatement(node) => AstNodeEnum::TupleStatement(node.clone()),
            AstNodeEnum::SetStatement(node) => AstNodeEnum::SetStatement(node.clone()),
            AstNodeEnum::Import(node) => AstNodeEnum::Import(node.clone()),
            AstNodeEnum::ImportItem(node) => AstNodeEnum::ImportItem(node.clone()),
            AstNodeEnum::AttrDef(node) => AstNodeEnum::AttrDef(node.clone()),
            AstNodeEnum::RefDef(node) => AstNodeEnum::RefDef(node.clone()),
            AstNodeEnum::VarDef(node) => AstNodeEnum::VarDef(node.clone()),
            AstNodeEnum::GraphDef(node) => AstNodeEnum::GraphDef(node.clone()),
            AstNodeEnum::NodeDef(node) => AstNodeEnum::NodeDef(node.clone()),
            AstNodeEnum::NodeBlock(node) => AstNodeEnum::NodeBlock(node.clone()),
            AstNodeEnum::NodeInputTuple(node) => AstNodeEnum::NodeInputTuple(node.clone()),
            AstNodeEnum::NodeInputKeyDef(node) => AstNodeEnum::NodeInputKeyDef(node.clone()),
            AstNodeEnum::NodeInputKeyItem(node) => AstNodeEnum::NodeInputKeyItem(node.clone()),
            AstNodeEnum::NodeInputValues(node) => AstNodeEnum::NodeInputValues(node.clone()),
            AstNodeEnum::NodeAttr(node) => AstNodeEnum::NodeAttr(node.clone()),
            AstNodeEnum::ConditionDef(node) => AstNodeEnum::ConditionDef(node.clone()),
            AstNodeEnum::ConditionBlock(node) => AstNodeEnum::ConditionBlock(node.clone()),
            AstNodeEnum::ConditionStatement(node) => AstNodeEnum::ConditionStatement(node.clone()),
            AstNodeEnum::ForLoopBlock(node) => AstNodeEnum::ForLoopBlock(node.clone()),
            AstNodeEnum::OpDef(node) => AstNodeEnum::OpDef(node.clone()),
            AstNodeEnum::OpMeta(node) => AstNodeEnum::OpMeta(node.clone()),
            AstNodeEnum::OpInput(node) => AstNodeEnum::OpInput(node.clone()),
            AstNodeEnum::OpOutput(node) => AstNodeEnum::OpOutput(node.clone()),
            AstNodeEnum::OpConfig(node) => AstNodeEnum::OpConfig(node.clone()),
            AstNodeEnum::OpSpec(node) => AstNodeEnum::OpSpec(node.clone()),
            AstNodeEnum::OpSpecItem(node) => AstNodeEnum::OpSpecItem(node.clone()),
            AstNodeEnum::ClosedInterval(node) => AstNodeEnum::ClosedInterval(node.clone()),
            AstNodeEnum::MixInterval(node) => AstNodeEnum::MixInterval(node.clone()),
        }
    }
}

/// A copy of each element, in order.
pub fn clone_nodes(v: &Vec<AstNodeEnum>) -> (r: Vec<AstNodeEnum>)
    ensures
        nodes_view(r@) == nodes_view(v@),
        nodes_ok(r@) == nodes_ok(v@),
    decreases v,
{
    let mut out: Vec<AstNodeEnum> = Vec::new();
    let mut i: usize = 0;
    while i < v.len()
        invariant
            i <= v.len(),
            out@.len() == i,
            forall|j: int| 0 <= j < i ==> (#[trigger] out@[j]).model() == v@[j].model(),
            forall|j: int|
                #![trigger out@[j]]
                #![trigger v@[j]]
                0 <= j < i ==> out@[j].spans_ok() == v@[j].spans_ok(),
        decreases v.len() - i,
    {
        out.push(v[i].clone());
        i += 1;
    }
    assert(nodes_view(out@) =~= nodes_view(v@));
    out
}

/// A copy of each element, in order.
pub fn clone_boxed_nodes(v: &Vec<Box<AstNodeEnum>>) -> (r: Vec<Box<AstNodeEnum>>)
    ensures
        boxed_view(r@) == boxed_view(v@),
        boxed_ok(r@) == boxed_ok(v@),
    decreases v,
{
    let mut out: Vec<Box<AstNodeEnum>> = Vec::new();
    let mut i: usize = 0;
    while i < v.len()
        invariant
            i <= v.len(),
            out@.len() == i,
            forall|j: int| 0 <= j < i ==> (#[trigger] out@[j]).model() == v@[j].model(),
            forall|j: int|
                #![trigger out@[j]]
                #![trigger v@[j]]
                0 <= j < i ==> out@[j].spans_ok() == v@[j].spans_ok(),
        decreases v.len() - i,
    {
        out.push(Box::new((&*v[i]).clone()));
        i += 1;
    }
    assert(boxed_view(out@) =~= boxed_view(v@));
    out
}

/// A copy of each element, in order.
pub fn clone_dict_items(v: &Vec<DictItem>) -> (r: Vec<DictItem>)
    ensures
        dict_items_view(r@) == dict_items_view(v@),
        dict_items_ok(r@) == dict_items_ok(v@),
    decreases v,
{
    let mut out: Vec<DictItem> = Vec::new();
    let mut i: usize = 0;
    while i < v.len()
        invariant
            i <= v.len(),
            out@.len() == i,
            forall|j: int| 0 <= j < i ==> (#[trigger] out@[j]).model() == v@[j].model(),
            forall|j: int|
                #![trigger out@[j]]
                #![trigger v@[j]]
                0 <= j < i ==> out@[j].spans_ok() == v@[j].spans_ok(),
        decreases v.len() - i,
    {
        out.push(v[i].clone());
        i += 1;
    }
    assert(dict_items_view(out@) =~= dict_items_view(v@));
    out
}

/// A copy of each element, in order.
pub fn clone_node_attrs(v: &Vec<NodeAttr>) -> (r: Vec<NodeAttr>)
    ensures
        attrs_view(r@) == attrs_view(v@),
        attrs_ok(r@) == attrs_ok(v@),
    decreases v,
{
    let mut out: Vec<NodeAttr> = Vec::new();
    let mut i: usize = 0;
    while i < v.len()
        invariant
            i <= v.len(),
            out@.len() == i,
            forall|j: int| 0 <= j < i ==> (#[trigger] out@[j]).model() == v@[j].model(),
            forall|j: int|
                #![trigger out@[j]]
                #![trigger v@[j]]
                0 <= j < i ==> out@[j].spans_ok() == v@[j].spans_ok(),
        decreases v.len() - i,
    {
        out.push(v[i].clone());
        i += 1;
    }
    assert(attrs_view(out@) =~= attrs_view(v@));
    out
}

/// A copy of each element, in order.
pub fn clone_attr_defs(v: &Vec<AttrDef>) -> (r: Vec<AttrDef>)
    ensures
        attr_defs_view(r@) == attr_defs_view(v@),
        attr_defs_ok(r@) == attr_defs_ok(v@),
    decreases v,
{
    let mut out: Vec<AttrDef> = Vec::new();
    let mut i: usize = 0;
    while i < v.len()
        invariant
            i <= v.len(),
            out@.len() == i,
            forall|j: int| 0 <= j < i ==> (#[trigger] out@[j]).model() == v@[j].model(),
            forall|j: int|
                #![trigger out@[j]]
                #![trigger v@[j]]
                0 <= j < i ==> out@[j].spans_ok() == v@[j].spans_ok(),
        decreases v.len() - i,
    {
        out.push(v[i].clone());
        i += 1;
    }
    assert(attr_defs_view(out@) =~= attr_defs_view(v@));
    out
}

/// A copy of each element, in order.
pub fn clone_spec_items(v: &Vec<OpSpecItem>) -> (r: Vec<OpSpecItem>)
    ensures
        spec_items_view(r@) == spec_items_view(v@),
        spec_items_ok(r@) == spec_items_ok(v@),
    decreases v,
{
    let mut out: Vec<OpSpecItem> = Vec::new();
    let mut i: usize = 0;
    while i < v.len()
        invariant
            i <= v.len(),
            out@.len() == i,
            forall|j: int| 0 <= j < i ==> (#[trigger] out@[j]).model() == v@[j].model(),
            forall|j: int|
                #![trigger out@[j]]
                #![trigger v@[j]]
                0 <= j < i ==> out@[j].spans_ok() == v@[j].spans_ok(),
        decreases v.len() - i,
    {
        out.push(v[i].clone());
        i += 1;
    }
    assert(spec_items_view(out@) =~= spec_items_view(v@));
    out
}

/// A copy of each element, in order.
pub fn clone_key_items(v: &Vec<NodeInputKeyItem>) -> (r: Vec<NodeInputKeyItem>)
    ensures
        key_items_view(r@) == key_items_view(v@),
        key_items_ok(r@) == key_items_ok(v@),
    decreases v,
{
    let mut out: Vec<NodeInputKeyItem> = Vec::new();
    let mut i: usize = 0;
    while i < v.len()
        invariant
            i <= v.len(),
            out@.len() == i,
            forall|j: int| 0 <= j < i ==> (#[trigger] out@[j]).model() == v@[j].model(),
            forall|j: int|
                #![trigger out@[j]]
                #![trigger v@[j]]
                0 <= j < i ==> out@[j].spans_ok() == v@[j].spans_ok(),
        decreases v.len() - i,
    {
        out.push(v[i].clone());
        i += 1;
    }
    assert(key_items_view(out@) =~= key_items_view(v@));
    out
}

/// A copy of each element, in order.
pub fn clone_symbols(v: &Vec<Symbol>) -> (r: Vec<Symbol>)
    ensures
        symbols_view(r@) == symbols_view(v@),
        symbols_ok(r@) == symbols_ok(v@),
{
    let mut out: Vec<Symbol> = Vec::new();
    let mut i: usize = 0;
    while i < v.len()
        invariant
            i <= v.len(),
            out@.len() == i,
            forall|j: int| 0 <= j < i ==> (#[trigger] out@[j]).model() == v@[j].model(),
            forall|j: int|
                #![trigger out@[j]]
                #![trigger v@[j]]
                0 <= j < i ==> out@[j].spans_ok() == v@[j].spans_ok(),
        decreases v.len() - i,
    {
        out.push(v[i].clone());
        i += 1;
    }
    assert(symbols_view(out@) =~= symbols_view(v@));
    out
}

/// A copy of each element, in order.
pub fn clone_import_items(v: &Vec<ImportItem>) -> (r: Vec<ImportItem>)
    ensures
        import_items_view(r@) == import_items_view(v@),
        import_items_ok(r@) == import_items_ok(v@),
{
    let mut out: Vec<ImportItem> = Vec::new();
    let mut i: usize = 0;
    while i < v.len()
        invariant
            i <= v.len(),
            out@.len() == i,
            forall|j: int| 0 <= j < i ==> (#[trigger] out@[j]).model() == v@[j].model(),
            forall|j: int|
                #![trigger out@[j]]
                #![trigger v@[j]]
                0 <= j < i ==> out@[j].spans_ok() == v@[j].spans_ok(),
        decreases v.len() - i,
    {
        out.push(v[i].clone());
        i += 1;
    }
    assert(import_items_view(out@) =~= import_items_view(v@));
    out
}

impl From<Module> for AstNodeEnum {
    fn from(value: Module) -> (r: AstNodeEnum) {
        AstNodeEnum::Module(value)
    }
}

impl vstd::std_specs::convert::FromSpecImpl<Module> for AstNodeEnum {
    open spec fn obeys_from_spec() -> bool {
        true
    }

    open spec fn from_spec(value: Module) -> AstNodeEnum {
        AstNodeEnum::Module(value)
    }
}

impl From<Comment> for AstNodeEnum {
    fn from(value: Comment) -> (r: AstNodeEnum) {
        AstNodeEnum::Comment(value)
    }
}

impl vstd::std_specs::convert::FromSpecImpl<Comment> for AstNodeEnum {
    open spec fn obeys_from_spec() -> bool {
        true
    }

    open spec fn from_spec(value: Comment) -> AstNodeEnum {
        AstNodeEnum::Comment(value)
    }
}

impl From<Symbol> for AstNodeEnum {
    fn from(value: Symbol) -> (r: AstNodeEnum) {
        AstNodeEnum::Symbol(value)
    }
}

impl vstd::std_specs::convert::FromSpecImpl<Symbol> for AstNodeEnum {
    open spec fn obeys_from_spec() -> bool {
        true
    }

    open spec fn from_spec(value: Symbol) -> AstNodeEnum {
        AstNodeEnum::Symbol(value)
    }
}

impl From<StringLiteral> for AstNodeEnum {
    fn from(value: StringLiteral) -> (r: AstNodeEnum) {
        AstNodeEnum::StringLiteral(value)
    }
}

impl vstd::std_specs::convert::FromSpecImpl<StringLiteral> for AstNodeEnum {
    open spec fn obeys_from_spec() -> bool {
        true
    }

    open spec fn from_spec(value: StringLiteral) -> AstNodeEnum {
        AstNodeEnum::StringLiteral(value)
    }
}

impl From<MultiLineStringLiteral> for AstNodeEnum {
    fn from(value: MultiLineStringLiteral) -> (r: AstNodeEnum) {
        AstNodeEnum::MultiLineStringLiteral(value)
    }
}

impl vstd::std_specs::convert::FromSpecImpl<MultiLineStringLiteral> for AstNodeEnum {
    open spec fn obeys_from_spec() -> bool {
        true
    }

    open spec fn from_spec(value: MultiLineStringLiteral) -> AstNodeEnum {
        AstNodeEnum::MultiLineStringLiteral(value)
    }
}

impl From<NumberLiteral> for AstNodeEnum {
    fn from(value: NumberLiteral) -> (r: AstNodeEnum) {
        AstNodeEnum::NumberLiteral(value)
    }
}

impl vstd::std_specs::convert::FromSpecImpl<NumberLiteral> for AstNodeEnum {
    open spec fn obeys_from_spec() -> bool {
        true
    }

    open spec fn from_spec(value: NumberLiteral) -> AstNodeEnum {
        AstNodeEnum::NumberLiteral(value)
    }
}

impl From<FloatLiteral> for AstNodeEnum {
    fn from(value: FloatLiteral) -> (r: AstNodeEnum) {
        AstNodeEnum::FloatLiteral(value)
    }
}

impl vstd::std_specs::convert::FromSpecImpl<FloatLiteral> for AstNodeEnum {
    open spec fn obeys_from_spec() -> bool {
        true
    }

    open spec fn from_spec(value: FloatLiteral) -> AstNodeEnum {
        AstNodeEnum::FloatLiteral(value)
    }
}

impl From<BoolLiteral> for AstNodeEnum {
    fn from(value: BoolLiteral) -> (r: AstNodeEnum) {
        AstNodeEnum::BoolLiteral(value)
    }
}

impl vstd::std_specs::convert::FromSpecImpl<BoolLiteral> for AstNodeEnum {
    open spec fn obeys_from_spec() -> bool {
        true
    }

    open spec fn from_spec(value: BoolLiteral) -> AstNodeEnum {
        AstNodeEnum::BoolLiteral(value)
    }
}

impl From<DateTimeLiteral> for AstNodeEnum {
    fn from(value: DateTimeLiteral) -> (r: AstNodeEnum) {
        AstNodeEnum::DateTimeLiteral(value)
    }
}

impl vstd::std_specs::convert::FromSpecImpl<DateTimeLiteral> for AstNodeEnum {
    open spec fn obeys_from_spec() -> bool {
        true
    }

    open spec fn from_spec(value: DateTimeLiteral) -> AstNodeEnum {
        AstNodeEnum::DateTimeLiteral(value)
    }
}

impl From<DateLiteral> for AstNodeEnum {
    fn from(value: DateLiteral) -> (r: AstNodeEnum) {
        AstNodeEnum::DateLiteral(value)
    }
}

impl vstd::std_specs::convert::FromSpecImpl<DateLiteral> for AstNodeEnum {
    open spec fn obeys_from_spec() -> bool {
        true
    }

    open spec fn from_spec(value: DateLiteral) -> AstNodeEnum {
        AstNodeEnum::DateLiteral(value)
    }
}

impl From<NullLiteral> for AstNodeEnum {
    fn from(value: NullLiteral) -> (r: AstNodeEnum) {
        AstNodeEnum::NullLiteral(value)
    }
}

impl vstd::std_specs::convert::FromSpecImpl<NullLiteral> for AstNodeEnum {
    open spec fn obeys_from_spec() -> bool {
        true
    }

    open spec fn from_spec(value: NullLiteral) -> AstNodeEnum {
        AstNodeEnum::NullLiteral(value)
    }
}

impl From<DictStatement> for AstNodeEnum {
    fn from(value: DictStatement) -> (r: AstNodeEnum) {
        AstNodeEnum::DictStatement(value)
    }
}

impl vstd::std_specs::convert::FromSpecImpl<DictStatement> for AstNodeEnum {
    open spec fn obeys_from_spec() -> bool {
        true
    }

    open spec fn from_spec(value: DictStatement) -> AstNodeEnum {
        AstNodeEnum::DictStatement(value)
    }
}

impl From<DictItem> for AstNodeEnum {
    fn from(value: DictItem) -> (r: AstNodeEnum) {
        AstNodeEnum::DictItem(value)
    }
}

impl vstd::std_specs::convert::FromSpecImpl<DictItem> for AstNodeEnum {
    open spec fn obeys_from_spec() -> bool {
        true
    }

    open spec fn from_spec(value: DictItem) -> AstNodeEnum {
        AstNodeEnum::DictItem(value)
    }
}

impl From<ListStatement> for AstNodeEnum {
    fn from(value: ListStatement) -> (r: AstNodeEnum) {
        AstNodeEnum::ListStatement(value)
    }
}

impl vstd::std_specs::convert::FromSpecImpl<ListStatement> for AstNodeEnum {
    open spec fn obeys_from_spec() -> bool {
        true
    }

    open spec fn from_spec(value: ListStatement) -> AstNodeEnum {
        AstNodeEnum::ListStatement(value)
    }
}

impl From<TupleStatement> for AstNodeEnum {
    fn from(value: TupleStatement) -> (r: AstNodeEnum) {
        AstNodeEnum::TupleStatement(value)
    }
}

impl vstd::std_specs::convert::FromSpecImpl<TupleStatement> for AstNodeEnum {
    open spec fn obeys_from_spec() -> bool {
        true
    }

    open spec fn from_spec(value: TupleStatement) -> AstNodeEnum {
        AstNodeEnum::TupleStatement(value)
    }
}

impl From<SetStatement> for AstNodeEnum {
    fn from(value: SetStatement) -> (r: AstNodeEnum) {
        AstNodeEnum::SetStatement(value)
    }
}

impl vstd::std_specs::convert::FromSpecImpl<SetStatement> for AstNodeEnum {
    open spec fn obeys_from_spec() -> bool {
        true
    }

    open spec fn from_spec(value: SetStatement) -> AstNodeEnum {
        AstNodeEnum::SetStatement(value)
    }
}

impl From<Import> for AstNodeEnum {
    fn from(value: Import) -> (r: AstNodeEnum) {
        AstNodeEnum::Import(value)
    }
}

impl vstd::std_specs::convert::FromSpecImpl<Import> for AstNodeEnum {
    open spec fn obeys_from_spec() -> bool {
        true
    }

    open spec fn from_spec(value: Import) -> AstNodeEnum {
        AstNodeEnum::Import(value)
    }
}

impl From<ImportItem> for AstNodeEnum {
    fn from(value: ImportItem) -> (r: AstNodeEnum) {
        AstNodeEnum::ImportItem(value)
    }
}

impl vstd::std_specs::convert::FromSpecImpl<ImportItem> for AstNodeEnum {
    open spec fn obeys_from_spec() -> bool {
        true
    }

    open spec fn from_spec(value: ImportItem) -> AstNodeEnum {
        AstNodeEnum::ImportItem(value)
    }
}

impl From<AttrDef> for AstNodeEnum {
    fn from(value: AttrDef) -> (r: AstNodeEnum) {
        AstNodeEnum::AttrDef(value)
    }
}

impl vstd::std_specs::convert::FromSpecImpl<AttrDef> for AstNodeEnum {
    open spec fn obeys_from_spec() -> bool {
        true
    }

    open spec fn from_spec(value: AttrDef) -> AstNodeEnum {
        AstNodeEnum::AttrDef(value)
    }
}

impl From<RefDef> for AstNodeEnum {
    fn from(value: RefDef) -> (r: AstNodeEnum) {
        AstNodeEnum::RefDef(value)
    }
}

impl vstd::std_specs::convert::FromSpecImpl<RefDef> for AstNodeEnum {
    open spec fn obeys_from_spec() -> bool {
        true
    }

    open spec fn from_spec(value: RefDef) -> AstNodeEnum {
        AstNodeEnum::RefDef(value)
    }
}

impl From<VarDef> for AstNodeEnum {
    fn from(value: VarDef) -> (r: AstNodeEnum) {
        AstNodeEnum::VarDef(value)
    }
}

impl vstd::std_specs::convert::FromSpecImpl<VarDef> for AstNodeEnum {
    open spec fn obeys_from_spec() -> bool {
        true
    }

    open spec fn from_spec(value: VarDef) -> AstNodeEnum {
        AstNodeEnum::VarDef(value)
    }
}

impl From<GraphDef> for AstNodeEnum {
    fn from(value: GraphDef) -> (r: AstNodeEnum) {
        AstNodeEnum::GraphDef(value)
    }
}

impl vstd::std_specs::convert::FromSpecImpl<GraphDef> for AstNodeEnum {
    open spec fn obeys_from_spec() -> bool {
        true
    }

    open spec fn from_spec(value: GraphDef) -> AstNodeEnum {
        AstNodeEnum::GraphDef(value)
    }
}

impl From<NodeDef> for AstNodeEnum {
    fn from(value: NodeDef) -> (r: AstNodeEnum) {
        AstNodeEnum::NodeDef(value)
    }
}

impl vstd::std_specs::convert::FromSpecImpl<NodeDef> for AstNodeEnum {
    open spec fn obeys_from_spec() -> bool {
        true
    }

    open spec fn from_spec(value: NodeDef) -> AstNodeEnum {
        AstNodeEnum::NodeDef(value)
    }
}

impl From<NodeBlock> for AstNodeEnum {
    fn from(value: NodeBlock) -> (r: AstNodeEnum) {
        AstNodeEnum::NodeBlock(value)
    }
}

impl vstd::std_specs::convert::FromSpecImpl<NodeBlock> for AstNodeEnum {
    open spec fn obeys_from_spec() -> bool {
        true
    }

    open spec fn from_spec(value: NodeBlock) -> AstNodeEnum {
        AstNodeEnum::NodeBlock(value)
    }
}

impl From<NodeInputTuple> for AstNodeEnum {
    fn from(value: NodeInputTuple) -> (r: AstNodeEnum) {
        AstNodeEnum::NodeInputTuple(value)
    }
}

impl vstd::std_specs::convert::FromSpecImpl<NodeInputTuple> for AstNodeEnum {
    open spec fn obeys_from_spec() -> bool {
        true
    }

    open spec fn from_spec(value: NodeInputTuple) -> AstNodeEnum {
        AstNodeEnum::NodeInputTuple(value)
    }
}

impl From<NodeInputKeyDef> for AstNodeEnum {
    fn from(value: NodeInputKeyDef) -> (r: AstNodeEnum) {
        AstNodeEnum::NodeInputKeyDef(value)
    }
}

impl vstd::std_specs::convert::FromSpecImpl<NodeInputKeyDef> for AstNodeEnum {
    open spec fn obeys_from_spec() -> bool {
        true
    }

    open spec fn from_spec(value: NodeInputKeyDef) -> AstNodeEnum {
        AstNodeEnum::NodeInputKeyDef(value)
    }
}

impl From<NodeInputKeyItem> for AstNodeEnum {
    fn from(value: NodeInputKeyItem) -> (r: AstNodeEnum) {
        AstNodeEnum::NodeInputKeyItem(value)
    }
}

impl vstd::std_specs::convert::FromSpecImpl<NodeInputKeyItem> for AstNodeEnum {
    open spec fn obeys_from_spec() -> bool {
        true
    }

    open spec fn from_spec(value: NodeInputKeyItem) -> AstNodeEnum {
        AstNodeEnum::NodeInputKeyItem(value)
    }
}

impl From<NodeInputValues> for AstNodeEnum {
    fn from(value: NodeInputValues) -> (r: AstNodeEnum) {
        AstNodeEnum::NodeInputValues(value)
    }
}

impl vstd::std_specs::convert::FromSpecImpl<NodeInputValues> for AstNodeEnum {
    open spec fn obeys_from_spec() -> bool {
        true
    }

    open spec fn from_spec(value: NodeInputValues) -> AstNodeEnum {
        AstNodeEnum::NodeInputValues(value)
    }
}

impl From<NodeAttr> for AstNodeEnum {
    fn from(value: NodeAttr) -> (r: AstNodeEnum) {
        AstNodeEnum::NodeAttr(value)
    }
}

impl vstd::std_specs::convert::FromSpecImpl<NodeAttr> for AstNodeEnum {
    open spec fn obeys_from_spec() -> bool {
        true
    }

    open spec fn from_spec(value: NodeAttr) -> AstNodeEnum {
        AstNodeEnum::NodeAttr(value)
    }
}

impl From<ConditionDef> for AstNodeEnum {
    fn from(value: ConditionDef) -> (r: AstNodeEnum) {
        AstNodeEnum::ConditionDef(value)
    }
}

impl vstd::std_specs::convert::FromSpecImpl<ConditionDef> for AstNodeEnum {
    open spec fn obeys_from_spec() -> bool {
        true
    }

    open spec fn from_spec(value: ConditionDef) -> AstNodeEnum {
        AstNodeEnum::ConditionDef(value)
    }
}

impl From<ConditionBlock> for AstNodeEnum {
    fn from(value: ConditionBlock) -> (r: AstNodeEnum) {
        AstNodeEnum::ConditionBlock(value)
    }
}

impl vstd::std_specs::convert::FromSpecImpl<ConditionBlock> for AstNodeEnum {
    open spec fn obeys_from_spec() -> bool {
        true
    }

    open spec fn from_spec(value: ConditionBlock) -> AstNodeEnum {
        AstNodeEnum::ConditionBlock(value)
    }
}

impl From<ConditionStatement> for AstNodeEnum {
    fn from(value: ConditionStatement) -> (r: AstNodeEnum) {
        AstNodeEnum::ConditionStatement(value)
    }
}

impl vstd::std_specs::convert::FromSpecImpl<ConditionStatement> for AstNodeEnum {
    open spec fn obeys_from_spec() -> bool {
        true
    }

    open spec fn from_spec(value: ConditionStatement) -> AstNodeEnum {
        AstNodeEnum::ConditionStatement(value)
    }
}

impl From<ForLoopBlock> for AstNodeEnum {
    fn from(value: ForLoopBlock) -> (r: AstNodeEnum) {
        AstNodeEnum::ForLoopBlock(value)
    }
}

impl vstd::std_specs::convert::FromSpecImpl<ForLoopBlock> for AstNodeEnum {
    open spec fn obeys_from_spec() -> bool {
        true
    }

    open spec fn from_spec(value: ForLoopBlock) -> AstNodeEnum {
        AstNodeEnum::ForLoopBlock(value)
    }
}

impl From<OpDef> for AstNodeEnum {
    fn from(value: OpDef) -> (r: AstNodeEnum) {
        AstNodeEnum::OpDef(value)
    }
}

impl vstd::std_specs::convert::FromSpecImpl<OpDef> for AstNodeEnum {
    open spec fn obeys_from_spec() -> bool {
        true
    }

    open spec fn from_spec(value: OpDef) -> AstNodeEnum {
        AstNodeEnum::OpDef(value)
    }
}

impl From<OpMeta> for AstNodeEnum {
    fn from(value: OpMeta) -> (r: AstNodeEnum) {
        AstNodeEnum::OpMeta(value)
    }
}

impl vstd::std_specs::convert::FromSpecImpl<OpMeta> for AstNodeEnum {
    open spec fn obeys_from_spec() -> bool {
        true
    }

    open spec fn from_spec(value: OpMeta) -> AstNodeEnum {
        AstNodeEnum::OpMeta(value)
    }
}

impl From<OpInput> for AstNodeEnum {
    fn from(value: OpInput) -> (r: AstNodeEnum) {
        AstNodeEnum::OpInput(value)
    }
}

impl vstd::std_specs::convert::FromSpecImpl<OpInput> for AstNodeEnum {
    open spec fn obeys_from_spec() -> bool {
        true
    }

    open spec fn from_spec(value: OpInput) -> AstNodeEnum {
        AstNodeEnum::OpInput(value)
    }
}

impl From<OpOutput> for AstNodeEnum {
    fn from(value: OpOutput) -> (r: AstNodeEnum) {
        AstNodeEnum::OpOutput(value)
    }
}

impl vstd::std_specs::convert::FromSpecImpl<OpOutput> for AstNodeEnum {
    open spec fn obeys_from_spec() -> bool {
        true
    }

    open spec fn from_spec(value: OpOutput) -> AstNodeEnum {
        AstNodeEnum::OpOutput(value)
    }
}

impl From<OpConfig> for AstNodeEnum {
    fn from(value: OpConfig) -> (r: AstNodeEnum) {
        AstNodeEnum::OpConfig(value)
    }
}

impl vstd::std_specs::convert::FromSpecImpl<OpConfig> for AstNodeEnum {
    open spec fn obeys_from_spec() -> bool {
        true
    }

    open spec fn from_spec(value: OpConfig) -> AstNodeEnum {
        AstNodeEnum::OpConfig(value)
    }
}

impl From<OpSpec> for AstNodeEnum {
    fn from(value: OpSpec) -> (r: AstNodeEnum) {
        AstNodeEnum::OpSpec(value)
    }
}

impl vstd::std_specs::convert::FromSpecImpl<OpSpec> for AstNodeEnum {
    open spec fn obeys_from_spec() -> bool {
        true
    }

    open spec fn from_spec(value: OpSpec) -> AstNodeEnum {
        AstNodeEnum::OpSpec(value)
    }
}

impl From<OpSpecItem> for AstNodeEnum {
    fn from(value: OpSpecItem) -> (r: AstNodeEnum) {
        AstNodeEnum::OpSpecItem(value)
    }
}

impl vstd::std_specs::convert::FromSpecImpl<OpSpecItem> for AstNodeEnum {
    open spec fn obeys_from_spec() -> bool {
        true
    }

    open spec fn from_spec(value: OpSpecItem) -> AstNodeEnum {
        AstNodeEnum::OpSpecItem(value)
    }
}

impl From<ClosedInterval> for AstNodeEnum {
    fn from(value: ClosedInterval) -> (r: AstNodeEnum) {
        AstNodeEnum::ClosedInterval(value)
    }
}

impl vstd::std_specs::convert::FromSpecImpl<ClosedInterval> for AstNodeEnum {
    open spec fn obeys_from_spec() -> bool {
        true
    }

    open spec fn from_spec(value: ClosedInterval) -> AstNodeEnum {
        AstNodeEnum::ClosedInterval(value)
    }
}

impl From<MixInterval> for AstNodeEnum {
    fn from(value: MixInterval) -> (r: AstNodeEnum) {
        AstNodeEnum::MixInterval(value)
    }
}

impl vstd::std_specs::convert::FromSpecImpl<MixInterval> for AstNodeEnum {
    open spec fn obeys_from_spec() -> bool {
        true
    }

    open spec fn from_spec(value: MixInterval) -> AstNodeEnum {
        AstNodeEnum::MixInterval(value)
    }
}

} // verus!
