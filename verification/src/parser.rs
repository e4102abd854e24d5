//! Reads source text into a syntax tree.

pub mod blocks;
pub mod grammar;
pub mod graph;
pub mod lexer;
pub mod values;

use crate::ast::model::NodeModel;
use crate::ast::AstNodeEnum;
use crate::error::ParseResult;
use crate::parser::blocks::parse_module;
use crate::parser::grammar::{read_module, refusal, Read};
use crate::parser::lexer::{blank_text, refused, Cursor};
use crate::text::to_chars;
use vstd::prelude::*;

verus! {

/// What a caller wants from a parse.
#[derive(Debug, Clone, Copy)]
pub struct ParseOptions {
    /// The tree is wanted.
    pub ast: bool,
    /// The kinds of the symbols are wanted.
    pub symbol: bool,
    /// The errors are wanted.
    pub error: bool,
    /// The positions are wanted.
    pub tracking: bool,
    /// A trace is wanted.
    pub debug: bool,
}

impl Default for ParseOptions {
    fn default() -> (r: Self)
        ensures
            r == (ParseOptions {
                ast: false,
                symbol: false,
                error: false,
                tracking: false,
                debug: false,
            }),
    {
        ParseOptions { ast: false, symbol: false, error: false, tracking: false, debug: false }
    }
}

/// What is owed to every text: the tree or the refusal that the grammar
/// gives for it. With that, a tree that is read is a module in which every
/// span ends where it starts or later; a text that is not read is refused
/// with a syntax error that says, for a line and a column counted from 1,
/// what the parser expected there; and a text of white space only is read as
/// the module without statements.
pub open spec fn parse_outcome(content: Seq<char>, r: ParseResult<AstNodeEnum>) -> bool {
    &&& match r {
        Ok(ast) => read_module(content) matches Read::Got(m, _) && ast.model() == NodeModel::Module(m),
        Err(e) => refusal(e, read_module(content)),
    }
    &&& r matches Ok(ast) ==> ast is Module && ast.spans_ok()
    &&& r matches Err(e) ==> refused(Cursor { pos: 0, line: 1, col: 1 }, e)
    &&& blank_text(content) ==> (r matches Ok(AstNodeEnum::Module(m)) && m.children@.len() == 0)
}

/// Reads source text. A text that is not read is refused with a syntax error
/// at the place where the parser could not go on.
pub fn parse_gos(content: &str, options: ParseOptions) -> (r: ParseResult<AstNodeEnum>)
    ensures
        parse_outcome(content@, r),
{
    let cs = to_chars(content);
    match parse_module(&cs) {
        Ok(module) => Ok(AstNodeEnum::Module(module)),
        Err(e) => Err(e),
    }
}

} // verus!
