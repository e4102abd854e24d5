//! Ready-made diagnostics for the situations that come up again and again.

use crate::error::ParseError;
use vstd::prelude::*;

verus! {

/// `what 'name'`.
pub open spec fn named(what: Seq<char>, name: Seq<char>) -> Seq<char> {
    what + " '"@ + name + "'"@
}

fn named_text(what: &str, name: &str) -> (r: String)
    ensures
        r@ == named(what@, name@),
{
    let mut s = what.to_owned();
    s.append(" '");
    s.append(name);
    s.append("'");
    s
}

/// `attribute 'name' cannot have multiple what`.
pub open spec fn multiple(name: Seq<char>, what: Seq<char>) -> Seq<char> {
    "attribute '"@ + name + "' cannot have multiple "@ + what
}

fn multiple_text(name: &str, what: &str) -> (r: String)
    ensures
        r@ == multiple(name@, what@),
{
    let mut s = "attribute '".to_owned();
    s.append(name);
    s.append("' cannot have multiple ");
    s.append(what);
    s
}

/// A second variable block under one alias.
pub fn duplicate_var_as(name: &str, line: usize, column: usize) -> (r: ParseError)
    ensures
        r matches ParseError::DuplicateDefinition { name: n, line: l, column: c } && l == line && c
            == column && n@ == named("var as"@, name@),
{
    let text = named_text("var as", name);
    ParseError::duplicate_definition(text.as_str(), line, column)
}

/// A second import under one alias.
pub fn duplicate_import_as(name: &str, line: usize, column: usize) -> (r: ParseError)
    ensures
        r matches ParseError::DuplicateDefinition { name: n, line: l, column: c } && l == line && c
            == column && n@ == named("import as"@, name@),
{
    let text = named_text("import as", name);
    ParseError::duplicate_definition(text.as_str(), line, column)
}

/// A second graph under one alias.
pub fn duplicate_graph_as(name: &str, line: usize, column: usize) -> (r: ParseError)
    ensures
        r matches ParseError::DuplicateDefinition { name: n, line: l, column: c } && l == line && c
            == column && n@ == named("graph as"@, name@),
{
    let text = named_text("graph as", name);
    ParseError::duplicate_definition(text.as_str(), line, column)
}

/// A second operation under one alias.
pub fn duplicate_op_as(name: &str, line: usize, column: usize) -> (r: ParseError)
    ensures
        r matches ParseError::DuplicateDefinition { name: n, line: l, column: c } && l == line && c
            == column && n@ == named("op as"@, name@),
{
    let text = named_text("op as", name);
    ParseError::duplicate_definition(text.as_str(), line, column)
}

/// A second attribute of one name.
pub fn duplicate_attribute(name: &str, line: usize, column: usize) -> (r: ParseError)
    ensures
        r matches ParseError::DuplicateDefinition { name: n, line: l, column: c } && l == line && c
            == column && n@ == named("attribute"@, name@),
{
    let text = named_text("attribute", name);
    ParseError::duplicate_definition(text.as_str(), line, column)
}

/// A second node with one output name.
pub fn duplicate_node_output(name: &str, line: usize, column: usize) -> (r: ParseError)
    ensures
        r matches ParseError::DuplicateDefinition { name: n, line: l, column: c } && l == line && c
            == column && n@ == named("node output"@, name@),
{
    let text = named_text("node output", name);
    ParseError::duplicate_definition(text.as_str(), line, column)
}

/// The old way to define a node.
pub fn deprecated_node_syntax(line: usize, column: usize) -> (r: ParseError)
    ensures
        r matches ParseError::DeprecatedFeature { feature: f, line: l, column: c, suggestion: s }
            && l == line && c == column && f@ == "node definition syntax"@ && s@
            == "Please use function-style node definition instead"@,
{
    ParseError::deprecated_feature(
        "node definition syntax",
        line,
        column,
        "Please use function-style node definition instead",
    )
}

/// The old way to define an operation.
pub fn deprecated_meta_syntax(line: usize, column: usize) -> (r: ParseError)
    ensures
        r matches ParseError::DeprecatedFeature { feature: f, line: l, column: c, suggestion: s }
            && l == line && c == column && f@ == "meta definition syntax"@ && s@
            == "Please use op definition instead"@,
{
    ParseError::deprecated_feature(
        "meta definition syntax",
        line,
        column,
        "Please use op definition instead",
    )
}

/// A bare date-time.
pub fn deprecated_datetime_literal(line: usize, column: usize) -> (r: ParseError)
    ensures
        r matches ParseError::DeprecatedFeature { feature: f, line: l, column: c, suggestion: s }
            && l == line && c == column && f@ == "datetime literal"@ && s@
            == "Please use date(\"2025-01-01 00:00:00\") to specify dates"@,
{
    ParseError::deprecated_feature(
        "datetime literal",
        line,
        column,
        "Please use date(\"2025-01-01 00:00:00\") to specify dates",
    )
}

/// An edge between nodes.
pub fn unsupported_edge_syntax(line: usize, column: usize) -> (r: ParseError)
    ensures
        r matches ParseError::UnsupportedFeature { feature: f, line: l, column: c } && l == line
            && c == column && f@ == "edge syntax"@,
{
    ParseError::unsupported_feature("edge syntax", line, column)
}

/// An import that names what it takes from a module.
pub fn unsupported_from_import(line: usize, column: usize) -> (r: ParseError)
    ensures
        r matches ParseError::UnsupportedFeature { feature: f, line: l, column: c } && l == line
            && c == column && f@ == "from import syntax"@,
{
    ParseError::unsupported_feature("from import syntax", line, column)
}

/// An attribute with a second `if`.
pub fn multiple_if_conditions(name: &str, line: usize, column: usize) -> (r: ParseError)
    ensures
        r matches ParseError::InvalidValue { message: m, line: l, column: c } && l == line && c
            == column && m@ == multiple(name@, "if conditions"@),
{
    let text = multiple_text(name, "if conditions");
    ParseError::invalid_value(text.as_str(), line, column)
}

/// An attribute with a second `else`.
pub fn multiple_else_values(name: &str, line: usize, column: usize) -> (r: ParseError)
    ensures
        r matches ParseError::InvalidValue { message: m, line: l, column: c } && l == line && c
            == column && m@ == multiple(name@, "else values"@),
{
    let text = multiple_text(name, "else values");
    ParseError::invalid_value(text.as_str(), line, column)
}

/// An attribute with a second `or`.
pub fn multiple_or_defaults(name: &str, line: usize, column: usize) -> (r: ParseError)
    ensures
        r matches ParseError::InvalidValue { message: m, line: l, column: c } && l == line && c
            == column && m@ == multiple(name@, "or defaults"@),
{
    let text = multiple_text(name, "or defaults");
    ParseError::invalid_value(text.as_str(), line, column)
}

} // verus!
