//! Errors in words, collections of errors, positions and symbols.

use gos::error::helpers::{
    deprecated_datetime_literal, deprecated_meta_syntax, deprecated_node_syntax,
    duplicate_attribute, duplicate_graph_as, duplicate_import_as, duplicate_node_output,
    duplicate_op_as, duplicate_var_as, multiple_else_values, multiple_if_conditions,
    multiple_or_defaults, unsupported_edge_syntax, unsupported_from_import,
};
use gos::format::buffer::IndentBuffer;
use gos::{
    parse, parse_with_errors, validate, AstNode, AstNodeEnum, Comment, ErrorCollection,
    NullLiteral, ParseError, Position, Symbol, SymbolKind,
};

#[test]
fn every_kind_of_error_has_its_words() {
    let cases = vec![
        (ParseError::syntax_error(3, 20, "bad"), "Syntax error at line 3, column 20: bad", Some(3), Some(20)),
        (
            ParseError::lexical_error(1, 2, '§'),
            "Lexical error at line 1, column 2: illegal character '§'",
            Some(1),
            Some(2),
        ),
        (ParseError::semantic_error(10, 0, "m"), "Semantic error at line 10, column 0: m", Some(10), Some(0)),
        (
            ParseError::duplicate_definition("x", 4, 5),
            "Duplicate definition: x at line 4, column 5",
            Some(4),
            Some(5),
        ),
        (
            ParseError::deprecated_feature("f", 6, 7, "Use g."),
            "Deprecated feature: f at line 6, column 7. Use g.",
            Some(6),
            Some(7),
        ),
        (
            ParseError::unsupported_feature("f", 8, 9),
            "Unsupported feature: f at line 8, column 9",
            Some(8),
            Some(9),
        ),
        (
            ParseError::invalid_value("v", 18446744073709551615, 100),
            "Invalid value: v at line 18446744073709551615, column 100",
            Some(18446744073709551615),
            Some(100),
        ),
        (ParseError::general("g"), "Parse error: g", None, None),
        (ParseError::Io("gone".to_string()), "IO error: gone", None, None),
        (ParseError::Pest("p".to_string()), "Pest parsing error: p", None, None),
    ];
    for (error, words, line, column) in cases {
        assert_eq!(error.to_string(), words);
        assert_eq!(error.line(), line);
        assert_eq!(error.column(), column);
    }
}

#[test]
fn the_ready_made_errors_name_what_they_are_about() {
    let name = |what: &str| ParseError::DuplicateDefinition {
        name: format!("{what} 'n'"),
        line: 1,
        column: 2,
    };
    assert_eq!(duplicate_var_as("n", 1, 2), name("var as"));
    assert_eq!(duplicate_import_as("n", 1, 2), name("import as"));
    assert_eq!(duplicate_graph_as("n", 1, 2), name("graph as"));
    assert_eq!(duplicate_op_as("n", 1, 2), name("op as"));
    assert_eq!(duplicate_attribute("n", 1, 2), name("attribute"));
    assert_eq!(duplicate_node_output("n", 1, 2), name("node output"));
    assert_eq!(
        deprecated_node_syntax(3, 4).to_string(),
        "Deprecated feature: node definition syntax at line 3, column 4. \
         Please use function-style node definition instead"
    );
    assert_eq!(
        deprecated_meta_syntax(3, 4).to_string(),
        "Deprecated feature: meta definition syntax at line 3, column 4. \
         Please use op definition instead"
    );
    assert_eq!(
        deprecated_datetime_literal(3, 4).to_string(),
        "Deprecated feature: datetime literal at line 3, column 4. \
         Please use date(\"2025-01-01 00:00:00\") to specify dates"
    );
    assert_eq!(
        unsupported_edge_syntax(5, 6).to_string(),
        "Unsupported feature: edge syntax at line 5, column 6"
    );
    assert_eq!(
        unsupported_from_import(5, 6).to_string(),
        "Unsupported feature: from import syntax at line 5, column 6"
    );
    assert_eq!(
        multiple_if_conditions("a", 7, 8).to_string(),
        "Invalid value: attribute 'a' cannot have multiple if conditions at line 7, column 8"
    );
    assert_eq!(
        multiple_else_values("a", 7, 8).to_string(),
        "Invalid value: attribute 'a' cannot have multiple else values at line 7, column 8"
    );
    assert_eq!(
        multiple_or_defaults("a", 7, 8).to_string(),
        "Invalid value: attribute 'a' cannot have multiple or defaults at line 7, column 8"
    );
}

#[test]
fn a_collection_turns_into_one_result() {
    let empty = ErrorCollection::new();
    assert!(empty.is_empty() && !empty.has_errors() && !empty.has_warnings());
    assert_eq!(empty.to_string(), "");
    assert_eq!(empty.into_result(5), Ok(5));

    let mut warned = ErrorCollection::default();
    warned.add_warning(ParseError::general("w"));
    assert!(!warned.is_empty() && !warned.has_errors() && warned.has_warnings());
    assert_eq!(warned.to_string(), "Warnings:\n  Parse error: w\n");
    assert_eq!(warned.into_result("v"), Ok("v"));

    let mut one = ErrorCollection::new();
    one.add_error(ParseError::syntax_error(1, 2, "s"));
    assert_eq!(one.clone().into_result(0), Err(ParseError::syntax_error(1, 2, "s")));

    one.add_error(ParseError::general("g"));
    one.add_warning(ParseError::Io("i".to_string()));
    assert_eq!(
        one.to_string(),
        "Errors:\n  Syntax error at line 1, column 2: s\n  Parse error: g\nWarnings:\n  IO error: i\n"
    );
    assert_eq!(
        one.into_result(0),
        Err(ParseError::general(
            "Multiple errors: Syntax error at line 1, column 2: s; Parse error: g"
        ))
    );
}

#[test]
fn a_parse_error_lands_in_the_collection() {
    let (ast, errors) = parse_with_errors("graph { x = ; }");
    assert!(ast.is_none());
    assert_eq!(errors.errors.len(), 1);
    assert_eq!(
        errors.errors[0],
        ParseError::syntax_error(1, 13, "parsing error: expected value")
    );
    assert_eq!(validate("graph { x = ; }"), Err(errors.errors[0].clone()));
    assert_eq!(validate("graph { x = 1; }"), Ok(()));
}

#[test]
fn positions_are_read_and_written_through_the_tree() {
    let mut position = Position::new(3, 5, 9);
    assert_eq!(position, Position { line: 3, end_line: 3, start: 5, end: 9 });
    assert_eq!(Position::new_all(1, 2, 3, 4), Position { line: 1, end_line: 2, start: 3, end: 4 });
    assert_eq!(position.with_end_line(7), Position { line: 3, end_line: 7, start: 5, end: 9 });
    position.set(9, 8, 7, 6);
    assert_eq!(position, Position { line: 9, end_line: 8, start: 7, end: 6 });

    let mut node = AstNodeEnum::NullLiteral(NullLiteral { position: Position::new(1, 1, 5) });
    assert_eq!(*node.position(), Position::new(1, 1, 5));
    node.position_mut().end_line = 4;
    *node.position_mut() = node.position().with_end_line(6);
    assert_eq!(node, AstNodeEnum::NullLiteral(NullLiteral { position: Position::new_all(1, 6, 1, 5) }));

    let mut comment = Comment { position: Position::new(2, 1, 4), value: "# c".to_string() };
    comment.position_mut().set(5, 5, 1, 4);
    assert_eq!(comment.position().line, 5);
    assert_eq!(AstNodeEnum::from(comment.clone()), AstNodeEnum::Comment(comment));
}

#[test]
fn a_symbol_starts_without_a_kind() {
    let mut symbol = Symbol::new(Position::new(1, 1, 2), "a".to_string());
    assert_eq!(symbol.kind, SymbolKind::Unknown);
    symbol.set_kind(SymbolKind::VarRef);
    assert_eq!(symbol.kind, SymbolKind::VarRef);
    let symbol = symbol.with_kind(SymbolKind::NodeOutput);
    assert_eq!(symbol.kind, SymbolKind::NodeOutput);
    assert_eq!(symbol.name, "a");
}

#[test]
fn the_buffer_indents_and_counts() {
    let mut buffer = IndentBuffer::new(2, 4);
    assert_eq!(buffer.write("é"), 2);
    assert_eq!(buffer.writes(&["a", "bc"]), 3);
    assert_eq!(buffer.writeln(&["d"]), 2);
    assert_eq!(buffer.write_indent(&["e"]), 5);
    assert_eq!(buffer.writeln_indent(&[]), 5);
    assert_eq!(buffer.get_value(), "éabcd\n    e    \n");
    assert_eq!(buffer.indent(), 6);
    assert_eq!(buffer.dedent(), 4);
    assert_eq!(buffer.dedent(), 2);
    assert_eq!(buffer.dedent(), 0);
    assert_eq!(buffer.dedent(), 0);
    buffer.clear();
    assert_eq!(buffer.write_indent(&["x"]), 1);
    assert_eq!(buffer.get_value(), "x");

    let mut flat = IndentBuffer::new(0, 3);
    assert_eq!(flat.writeln_indent(&["a"]), 1);
    assert_eq!(flat.writeln(&["b"]), 1);
    assert_eq!(flat.get_value(), "ab");
    assert_eq!(flat.dedent(), 3);
}

#[test]
fn conditionals_and_loops_are_read() {
    let source = "graph {\n  r = x > 0 ? math.add(x, 1) : flag() ? a() : b();\n  \
                  out = [op.each(item) for item, index in items if item.valid];\n  \
                  v = 1 if \"c\" else 2;\n};";
    let ast = parse(source).unwrap();
    let AstNodeEnum::Module(module) = ast else { panic!("Expected Module") };
    let AstNodeEnum::GraphDef(graph) = &module.children[0] else { panic!("Expected GraphDef") };
    assert_eq!(graph.children.len(), 3);
    let AstNodeEnum::ConditionDef(condition) = &graph.children[0] else {
        panic!("Expected ConditionDef")
    };
    assert_eq!(condition.outputs[0].name, "r");
    assert_eq!(condition.position, Position::new(2, 3, 51));
    assert!(matches!(&*condition.value.false_branch, AstNodeEnum::ConditionBlock(_)));
    let AstNodeEnum::AttrDef(looped) = &graph.children[1] else { panic!("Expected AttrDef") };
    let AstNodeEnum::ForLoopBlock(block) = &*looped.value else { panic!("Expected ForLoopBlock") };
    assert_eq!(block.inputs.name, "items");
    assert_eq!(block.inputs.kind, SymbolKind::ForLoopInputs);
    assert_eq!(block.outputs.len(), 2);
    assert_eq!(block.node.name.name, "op.each");
    assert!(block.condition.is_some());
    let AstNodeEnum::AttrDef(guarded) = &graph.children[2] else { panic!("Expected AttrDef") };
    assert!(guarded.condition.is_some() && guarded.else_value.is_some());
}

#[test]
fn numbers_beyond_64_bits_are_refused() {
    assert!(parse("var { a = 9223372036854775807; b = -9223372036854775808; };").is_ok());
    assert_eq!(
        parse("var { a = 9223372036854775808; };").unwrap_err(),
        ParseError::syntax_error(1, 11, "parsing error: expected integer within 64 bits")
    );
}
