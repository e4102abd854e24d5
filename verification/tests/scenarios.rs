//! Whole runs of the compiler, the decompiler and the formatter with their
//! exact results.

use gos::{
    compile_ast, decompile_from_data, format_from_data, parse, AstNodeEnum, AttrDef, Comment,
    DecompileOptions, DecompileResult, Formatter, JsonMember, JsonValue, ListStatement, Module,
    NodeBlock, NodeDef, NodeInputDef, NodeInputTuple, NumberLiteral, ParseError, Position,
    StringLiteral, Symbol, SymbolKind, VarDef,
};

fn text(s: &str) -> JsonValue {
    JsonValue::Text(s.to_string())
}

fn array(items: Vec<JsonValue>) -> JsonValue {
    JsonValue::Array(items)
}

fn member(key: &str, value: JsonValue) -> JsonMember {
    JsonMember { key: key.to_string(), value }
}

fn object(members: Vec<(&str, JsonValue)>) -> JsonValue {
    JsonValue::Object(members.into_iter().map(|(key, value)| member(key, value)).collect())
}

fn decompiled(data: JsonValue, options: Option<DecompileOptions>) -> Result<String, String> {
    match decompile_from_data(data, options) {
        Ok(DecompileResult::Text(text)) => Ok(text),
        Ok(_) => panic!("Expected text result"),
        Err(e) => Err(e),
    }
}

fn graph_with(nodes: Vec<(&str, JsonValue)>) -> JsonValue {
    object(vec![("graphs", array(vec![object(vec![("nodes", object(nodes))])]))])
}

#[test]
fn a_variable_block_fills_the_variable_table() {
    let ast = parse("var { name = \"test\"; value = 42; } as config;").unwrap();
    let result = compile_ast(&ast).unwrap();
    assert_eq!(
        result.vars,
        Some(vec![
            member("config.name", text("test")),
            member("config.value", JsonValue::Int(42)),
            member("config.as", text("config")),
        ])
    );
    assert_eq!(result.graphs, None);
    assert_eq!(result.ops, None);
}

#[test]
fn a_later_variable_replaces_an_earlier_one_in_its_place() {
    let ast = parse("var { a = 1; b = 2; a = [true, null, 1.5, {\"k\": x}]; };").unwrap();
    let result = compile_ast(&ast).unwrap();
    assert_eq!(
        result.vars,
        Some(vec![
            member(
                "a",
                array(vec![
                    JsonValue::Bool(true),
                    JsonValue::Null,
                    JsonValue::Real("1.5".to_string()),
                    object(vec![("k", text("x"))]),
                ])
            ),
            member("b", JsonValue::Int(2)),
        ])
    );
}

#[test]
fn a_graph_compiles_to_properties_and_nodes() {
    let source = "var { v = \"1.0\"; } as c;\n\
                  graph {\n  description = \"d\";\n  ver = c.v;\n  \
                  n1 = op.a(x, y).extra(z).version(\"2.0\").as(first).override(true);\n  \
                  a, b = op.b();\n} as g.version(\"1.0\");";
    let result = compile_ast(&parse(source).unwrap()).unwrap();
    let graphs = result.graphs.unwrap();
    assert_eq!(graphs.len(), 1);
    let graph = &graphs[0];
    assert_eq!(graph.alias.as_deref(), Some("g"));
    assert_eq!(graph.version.as_deref(), Some("1.0"));
    assert_eq!(graph.template_graph, None);
    assert_eq!(
        graph.properties,
        Some(vec![member("description", text("d")), member("ver", text("1.0"))])
    );
    let nodes = graph.nodes.as_ref().unwrap();
    assert_eq!(nodes.len(), 2);
    assert_eq!(nodes[0].key, "n1");
    assert_eq!(nodes[0].node.op_name.as_deref(), Some("op.a"));
    assert_eq!(nodes[0].node.outputs, Some(vec!["n1".to_string()]));
    assert_eq!(nodes[0].node.inputs, Some(vec!["x".to_string(), "y".to_string()]));
    assert_eq!(nodes[0].node.version.as_deref(), Some("2.0"));
    assert_eq!(nodes[0].node.alias.as_deref(), Some("first"));
    assert_eq!(nodes[0].node.override_flag, None);
    assert_eq!(nodes[0].node.with, Some(vec![member("extra", text("z"))]));
    assert_eq!(nodes[1].key, "a");
    assert_eq!(nodes[1].node.outputs, Some(vec!["a".to_string(), "b".to_string()]));
    assert_eq!(nodes[1].node.inputs, None);
    assert_eq!(nodes[1].node.with, None);
}

#[test]
fn an_attribute_with_a_call_is_a_node_of_one_output() {
    let position = Position::new(1, 1, 2);
    let symbol = |name: &str, kind| Symbol { position, name: name.to_string(), kind };
    let block = NodeBlock {
        position,
        name: symbol("op.load", SymbolKind::NodeName),
        inputs: Some(NodeInputDef::Tuple(NodeInputTuple {
            position,
            items: vec![
                Box::new(AstNodeEnum::Symbol(symbol("src", SymbolKind::NodeInput))),
                Box::new(AstNodeEnum::NumberLiteral(NumberLiteral {
                    position,
                    raw: "7".to_string(),
                    value: 7,
                })),
            ],
        })),
        attrs: None,
    };
    let attr = AttrDef {
        position,
        name: symbol("loaded", SymbolKind::GraphProperty),
        value: Box::new(AstNodeEnum::NodeBlock(block.clone())),
        condition: None,
        else_value: None,
    };
    let unnamed = NodeDef { position, outputs: vec![], value: block };
    let graph = gos::GraphDef {
        position,
        children: vec![AstNodeEnum::AttrDef(attr), AstNodeEnum::NodeDef(unnamed)],
        alias: None,
        version: None,
        template_graph: None,
        template_version: None,
        offset: None,
    };
    let module = Module { position, children: vec![AstNodeEnum::GraphDef(graph)] };
    let result = compile_ast(&AstNodeEnum::Module(module)).unwrap();
    let graphs = result.graphs.unwrap();
    let nodes = graphs[0].nodes.as_ref().unwrap();
    assert_eq!(graphs[0].properties, None);
    assert_eq!(nodes[0].key, "loaded");
    assert_eq!(nodes[0].node.outputs, Some(vec!["loaded".to_string()]));
    assert_eq!(nodes[0].node.inputs, Some(vec!["src".to_string(), "7".to_string()]));
    assert_eq!(nodes[1].key, "node_1");
    assert_eq!(nodes[1].node.outputs, Some(vec![]));
}

#[test]
fn an_operation_compiles_to_metas_and_specifications() {
    let source = "op {\n  meta { author = \"me\"; };\n  input { x: string; y:(dtype=int, length=[1,10]); };\n  \
                  output { z: float; };\n} as myop.version('1.0');";
    let result = compile_ast(&parse(source).unwrap()).unwrap();
    let ops = result.ops.unwrap();
    assert_eq!(
        ops[0].metas,
        Some(vec![
            member("as", text("myop")),
            member("version", text("1.0")),
            member("author", text("me")),
        ])
    );
    let inputs = ops[0].inputs.as_ref().unwrap();
    assert_eq!(inputs.len(), 2);
    assert_eq!(inputs[0].name, "x");
    assert_eq!(inputs[0].spec, vec![member("dtype", text("string"))]);
    assert_eq!(inputs[1].name, "y");
    assert_eq!(
        inputs[1].spec,
        vec![
            member("dtype", text("int")),
            member("length", text("unsupported_ast_node_Discriminant(40)")),
        ]
    );
    assert_eq!(ops[0].outputs.as_ref().unwrap()[0].name, "z");
    assert_eq!(ops[0].configs, None);
    assert_eq!(ops[0].graph, None);
}

#[test]
fn only_a_module_compiles() {
    let comment = AstNodeEnum::Comment(Comment {
        position: Position::new(1, 1, 4),
        value: "# x".to_string(),
    });
    let error = compile_ast(&comment).unwrap_err();
    assert_eq!(
        error,
        ParseError::General { message: "Expected Module as root AST node".to_string() }
    );
    assert_eq!(error.to_string(), "Parse error: Expected Module as root AST node");
}

#[test]
fn a_graph_decompiles_to_its_exact_text() {
    let data = object(vec![(
        "graphs",
        array(vec![object(vec![
            ("as", text("main")),
            ("version", text("1.2.3")),
            ("properties", object(vec![("owner", text("it's me")), ("size", JsonValue::Int(3))])),
            (
                "nodes",
                object(vec![
                    (
                        "node1",
                        object(vec![
                            ("output", array(vec![text("node1")])),
                            ("op_name", text("test.op")),
                            ("input", array(vec![text("input1"), text("input2")])),
                        ]),
                    ),
                    (
                        "group",
                        object(vec![
                            ("output", array(vec![text("g.left"), text("g.right")])),
                            ("ref_graph", text("sub")),
                            ("input", object(vec![("k", array(vec![text("a"), text("b")]))])),
                            ("version", text("2.0")),
                            ("depend", array(vec![text("node1")])),
                            ("override", JsonValue::Null),
                            ("with", object(vec![("depth", JsonValue::Int(2))])),
                        ]),
                    ),
                ]),
            ),
        ])]),
    )]);
    assert_eq!(
        decompiled(data, None).unwrap(),
        "graph {\n    owner='it\\'s me',size=3;\n    node1 = test.op(input1,input2);\n    \
         left,right = ref(sub)(k=(\"a\",\"b\")).version('2.0').as(group).depend(node1).override()\
         \n        .with(depth=2);\n} as main.version('1.2.3');"
    );
}

#[test]
fn without_indentation_everything_stands_on_one_line() {
    let data = object(vec![
        (
            "graphs",
            array(vec![
                object(vec![(
                    "nodes",
                    object(vec![(
                        "n",
                        object(vec![("output", array(vec![text("n")])), ("op_name", text("o"))]),
                    )]),
                )]),
                object(vec![]),
            ]),
        ),
        ("ops", array(vec![object(vec![(
            "metas",
            object(vec![("as", text("p")), ("version", text("1")), ("doc", text("d"))]),
        )])])),
    ]);
    let options = DecompileOptions { indent: 0, max_col: 1, unescape: false, keep_order: false };
    assert_eq!(
        decompiled(data, Some(options)).unwrap(),
        "graph {n = o();};\n\ngraph {};op {meta {doc='d'};} as p.version('1');"
    );
}

#[test]
fn an_operation_decompiles_to_its_sections() {
    let data = object(vec![(
        "ops",
        array(vec![object(vec![
            ("metas", object(vec![("as", text("my_op")), ("author", text("test"))])),
            (
                "inputs",
                object(vec![
                    (
                        "a",
                        object(vec![
                            ("dtype", text("string")),
                            (
                                "length",
                                object(vec![("gt", JsonValue::Int(1)), ("lt", JsonValue::Int(9))]),
                            ),
                        ]),
                    ),
                    ("b", object(vec![("range", object(vec![])), ("default", JsonValue::Int(-5))])),
                ]),
            ),
            ("configs", object(vec![("c", text("not an object"))])),
        ])]),
    )]);
    assert_eq!(
        decompiled(data, None).unwrap(),
        "op {\n    meta {author='test'\n    };\n    input {a:(dtype=string,length=(1,9));\n        \
         b:(range=[,],default='-5');\n    };\n    config {c:();\n    };\n} as my_op;"
    );
}

#[test]
fn escape_sequences_are_resolved_one_kind_after_the_other() {
    let node = |input: &str| {
        graph_with(vec![(
            "n",
            object(vec![
                ("output", array(vec![text("n")])),
                ("op_name", text("o")),
                ("input", array(vec![text(input)])),
            ]),
        )])
    };
    let options = DecompileOptions { unescape: true, ..Default::default() };
    assert_eq!(
        decompiled(node("a\\nb\\tc\\rd\\\\e\\\"f\\'g"), Some(options)).unwrap(),
        "graph {\n    n = o('a\nb\tc\rd\\e\"f\\'g');\n};"
    );
    // A doubled backslash before `n` holds a `\n` for the first pass.
    assert_eq!(
        decompiled(node("x\\\\ny"), Some(options)).unwrap(),
        "graph {\n    n = o('x\\\ny');\n};"
    );
    assert_eq!(
        decompiled(node("a\\nb"), None).unwrap(),
        "graph {\n    n = o('a\\nb');\n};"
    );
}

#[test]
fn positional_inputs_are_words_quoted_strings_or_dictionaries() {
    let node = |items: Vec<JsonValue>| {
        graph_with(vec![(
            "n",
            object(vec![
                ("output", array(vec![text("n")])),
                ("op_name", text("o")),
                ("input", array(items)),
            ]),
        )])
    };
    // Words stand as they are; numbers, truth values and arrays are no inputs.
    assert_eq!(
        decompiled(
            node(vec![text("a.b"), JsonValue::Int(7), text("-1"), JsonValue::Null, text("x$y")]),
            None
        )
        .unwrap(),
        "graph {\n    n = o(a.b,-1,x$y);\n};"
    );
    // Any other string is quoted, the empty one too.
    assert_eq!(
        decompiled(node(vec![text(""), text("a b"), text("it's")]), None).unwrap(),
        "graph {\n    n = o('','a b','it\\'s');\n};"
    );
    // A dictionary stands between braces, its strings quoted.
    assert_eq!(
        decompiled(
            node(vec![object(vec![("k", text("v")), ("n", JsonValue::Bool(true))]), object(vec![])]),
            None
        )
        .unwrap(),
        "graph {\n    n = o({k:'v',n:true},{});\n};"
    );
}

#[test]
fn an_operation_takes_alias_and_version_from_its_metas_first() {
    let op = |members: Vec<(&str, JsonValue)>| object(vec![("ops", array(vec![object(members)]))]);
    assert_eq!(
        decompiled(
            op(vec![
                ("as", text("outer")),
                ("version", text("2")),
                ("metas", object(vec![("as", text("inner"))])),
            ]),
            None
        )
        .unwrap(),
        "op {\n} as inner.version('2');"
    );
    assert_eq!(
        decompiled(op(vec![("version", text("2"))]), None).unwrap(),
        "op {\n};"
    );
}

#[test]
fn every_complaint_of_the_decompiler_has_its_input() {
    let node = |members: Vec<(&str, JsonValue)>| graph_with(vec![("n", object(members))]);
    let cases: Vec<(JsonValue, &str)> = vec![
        (array(vec![]), "Decompile input must be a JSON object"),
        (object(vec![("graphs", text("x"))]), "Graphs must be an array"),
        (object(vec![("graphs", array(vec![text("x")]))]), "Graph must be a JSON object"),
        (object(vec![("ops", array(vec![JsonValue::Int(1)]))]), "Operation must be a JSON object"),
        (node(vec![("op_name", text("o"))]), "Node n has no output"),
        (node(vec![("output", array(vec![]))]), "Node n has no op_name or ref_graph"),
        (
            node(vec![("output", array(vec![text("n")])), ("op_name", text("1x"))]),
            "Invalid identifier: 1x",
        ),
        (
            node(vec![("output", array(vec![])), ("op_name", text("builtin.conditions.str"))]),
            "Condition node n must have string condition",
        ),
        (
            node(vec![
                ("output", array(vec![])),
                ("op_name", text("builtin.conditions.str")),
                ("condition", text("c")),
            ]),
            "Condition node n must have true branch",
        ),
        (
            node(vec![
                ("output", array(vec![])),
                ("op_name", text("builtin.conditions.str")),
                ("condition", text("c")),
                ("true_branch", object(vec![("op_name", text("t"))])),
            ]),
            "Condition node n must have false branch",
        ),
        (
            object(vec![(
                "graphs",
                array(vec![object(vec![("template_graph", text("bad name"))])]),
            )]),
            "Invalid identifier: bad name",
        ),
        (
            object(vec![("nodes", object(vec![("two words", object(vec![
                ("output", array(vec![text("other")])),
                ("op_name", text("o")),
            ]))]))]),
            "Invalid identifier: two words",
        ),
    ];
    for (data, complaint) in cases {
        assert_eq!(decompiled(data, None), Err(complaint.to_string()));
    }
}

#[test]
fn the_first_complaint_wins() {
    let data = object(vec![
        ("nodes", object(vec![("n", object(vec![]))])),
        ("ops", array(vec![text("x")])),
        ("graphs", array(vec![object(vec![]), text("x"), JsonValue::Null])),
    ]);
    assert_eq!(decompiled(data, None), Err("Graph must be a JSON object".to_string()));
}

#[test]
fn compact_notation_quotes_strings_as_json_does() {
    let value = object(vec![
        ("a", text("x\"y\\z\n")),
        ("b\t", array(vec![JsonValue::Int(-1), JsonValue::Null, JsonValue::Bool(false)])),
        ("c", JsonValue::Real("1.5e3".to_string())),
        ("d", object(vec![])),
        ("e", JsonValue::Int(i64::MIN)),
    ]);
    assert_eq!(
        value.json_text(),
        "{\"a\":\"x\\\"y\\\\z\\n\",\"b\\t\":[-1,null,false],\"c\":1.5e3,\"d\":{},\"e\":-9223372036854775808}"
    );
    // Control characters without a short escape are written by their number.
    assert_eq!(
        text("a\u{1}b\u{1f}c\u{8}d\u{c}e\u{7f}f\u{e9}").json_text(),
        "\"a\\u0001b\\u001fc\\bd\\fe\u{7f}f\u{e9}\""
    );
    assert_eq!(text("plain").plain_text(), "plain");
    assert_eq!(JsonValue::Int(12).plain_text(), "12");
    assert_eq!(value.clone(), value);
}

#[test]
fn a_block_formats_to_its_exact_text() {
    assert_eq!(
        format_from_data("var { name = \"test\"; value = 42; } as config;", 4, 100).unwrap(),
        "var {\n    name = \"test\";\n    value = 42;\n} as config;"
    );
    assert_eq!(
        format_from_data("\nvar {\n  a = 1; # note\n  b = 2;\n  # last\n};", 2, 100).unwrap(),
        "\nvar {\n  a = 1; # note\n  b = 2;\n  # last\n};"
    );
    assert_eq!(
        format_from_data("import a.b, c as d;", 4, 100).unwrap(),
        "import a.b, c as d;"
    );
    assert_eq!(
        format_from_data("var { a = 1; };", 0, 100).unwrap(),
        "var {a = 1;};"
    );
}

#[test]
fn a_graph_formats_with_its_calls() {
    let source = "graph {\n p = [1, 2, 3, 4];\n a, b = op.x(i, j).with(k=1, m=\"s\").version('1.0').as(n);\n \
                  r = ref(sub)(key=v, two=(x, y));\n} as g.version(\"2.0\");";
    assert_eq!(
        format_from_data(source, 4, 100).unwrap(),
        "graph {\n    p = [1, 2, 3, 4];\n    \
         a, b = op.x(i, j).with(k=1, m=\"s\").version(\"1.0\").as(n);\n    \
         r = ref(sub)(key=v, two=(x, y));\n} as g.version(\"2.0\");"
    );
}

#[test]
fn an_operation_formats_with_its_sections() {
    let source = "op { meta { a = 1; b = two; }; input { x: string; y:(dtype=int, length=[1,10], range=(,5]); }; } as o.version('1');";
    assert_eq!(
        format_from_data(source, 4, 100).unwrap(),
        "op {\n    meta {\n        a = 1;\n        b = two;\n    };\n    input {\n        \
         x: string;\n        y: (dtype=int, length=[1, 10], range=(, 5]);\n    };\n} as o.version(\"1\");"
    );
}

#[test]
fn a_tree_built_by_hand_formats_like_one_that_was_read() {
    let position = Position::new(1, 1, 1);
    let number = |n: i64| {
        AstNodeEnum::NumberLiteral(NumberLiteral { position, raw: n.to_string(), value: n })
    };
    let attr = AttrDef {
        position,
        name: Symbol::new(position, "xs".to_string()).with_kind(SymbolKind::VarAttr),
        value: Box::new(AstNodeEnum::ListStatement(ListStatement {
            position,
            items: vec![number(1), number(2), number(3)],
        })),
        condition: Some(Box::new(AstNodeEnum::StringLiteral(StringLiteral {
            position,
            value: "on".to_string(),
        }))),
        else_value: None,
    };
    let var = VarDef {
        position: Position::new(3, 1, 1),
        children: vec![AstNodeEnum::AttrDef(attr)],
        alias: None,
        offset: None,
    };
    let module = AstNodeEnum::Module(Module { position, children: vec![AstNodeEnum::VarDef(var)] });
    let formatter = Formatter::new(2, 80);
    assert_eq!(formatter.format(&module, 0), "\nvar {\n  xs = [1, 2, 3] if \"on\";\n};");
    assert_eq!(
        formatter.format(&module, 3),
        "\n   var {\n     xs = [1, 2, 3] if \"on\";\n   };"
    );
}

#[test]
fn text_that_is_not_read_is_not_formatted() {
    let error = format_from_data("var { = 1; };", 4, 100).unwrap_err();
    assert_eq!(error.line(), Some(1));
    assert_eq!(error.column(), Some(7));
    assert!(matches!(error, ParseError::SyntaxError { .. }));
}
