//! A toolchain for the GOS graph-configuration language: a typed syntax tree,
//! a compiler to a JSON-shaped intermediate representation, a decompiler and a
//! formatter that render source text, and the parser that reads it.

pub mod ast;
pub mod compiler;
pub mod decompiler;
pub mod error;
pub mod format;
pub mod json;
pub mod parser;
pub mod text;

pub use ast::{
    AstNode, AstNodeEnum, AttrDef, BoolLiteral, ClosedInterval, Comment, ConditionBlock,
    ConditionDef, ConditionExpr, ConditionStatement, DateLiteral, DateTimeLiteral, DictItem,
    DictStatement, FloatLiteral, ForLoopBlock, GraphDef, Import, ImportItem, ListStatement,
    MixInterval, Module, MultiLineStringLiteral, NodeAttr, NodeAttrValue, NodeBlock, NodeDef,
    NodeInputDef, NodeInputKeyDef, NodeInputKeyItem, NodeInputTuple, NodeInputValues,
    NullLiteral, NumberLiteral, OpConfig, OpDef, OpInput, OpMeta, OpOutput, OpSpec, OpSpecItem,
    Position, Ref, RefDef, RefGraphBlock, SetStatement, StringLiteral, Symbol, SymbolKind,
    TupleStatement, VarDef,
};
pub use compiler::ir::{CompileResult, GraphDict, NodeDict, NodeEntry, OpDict, SpecEntry};
pub use compiler::{compile_ast, compile_ast_with_options, CompileOptions, Compiler};
pub use decompiler::options::DecompileOptions;
pub use decompiler::{decompile_from_data, DecompileResult};
pub use error::{ErrorCollection, ParseError, ParseResult};
pub use format::buffer::IndentBuffer;
pub use format::{format_from_data, Formatter};
pub use json::{JsonMember, JsonValue};
pub use parser::{parse_gos, ParseOptions};

use parser::grammar::{read_module, refusal};
use parser::lexer::{blank_text, refused, Cursor};
use parser::parse_outcome;

use vstd::prelude::*;

verus! {

/// Reads source text into a tree.
pub fn parse(content: &str) -> (r: ParseResult<AstNodeEnum>)
    ensures
        parse_outcome(content@, r),
{
    parse_gos(
        content,
        ParseOptions { ast: true, symbol: false, error: false, tracking: true, debug: false },
    )
}

/// Reads source text and hands back the tree, or no tree and the error in a
/// collection.
pub fn parse_with_errors(content: &str) -> (r: (Option<AstNodeEnum>, ErrorCollection))
    ensures
        r.0 matches Some(ast) ==> parse_outcome(content@, Ok(ast)) && r.1.errors@.len() == 0,
        r.0 is None ==> r.1.errors@.len() == 1 && parse_outcome(content@, Err(r.1.errors@[0])),
        r.1.warnings@.len() == 0,
{
    let options = ParseOptions { ast: true, symbol: false, error: true, tracking: true, debug: false };
    match parse_gos(content, options) {
        Ok(ast) => (Some(ast), ErrorCollection::new()),
        Err(error) => {
            let mut errors = ErrorCollection::new();
            errors.add_error(error);
            (None, errors)
        },
    }
}

/// Whether source text is read: nothing where the grammar reads it as a
/// module, else the refusal.
pub fn validate(content: &str) -> (r: ParseResult<()>)
    ensures
        match r {
            Ok(_) => read_module(content@) is Got,
            Err(e) => refusal(e, read_module(content@)),
        },
        r matches Err(e) ==> refused(Cursor { pos: 0, line: 1, col: 1 }, e),
        blank_text(content@) ==> r is Ok,
{
    let options = ParseOptions {
        ast: false,
        symbol: false,
        error: true,
        tracking: false,
        debug: false,
    };
    match parse_gos(content, options) {
        Ok(_) => Ok(()),
        Err(e) => Err(e),
    }
}

/// The version of the language that this toolchain reads and writes.
pub fn version() -> (r: &'static str)
    ensures
        r@ == crate::compiler::gos_version(),
{
    "0.5.2"
}

} // verus!
