//! Decompiling documents of the intermediate representation.

use gos::decompiler::ident::check_id;
use gos::{decompile_from_data, DecompileOptions, DecompileResult, JsonMember, JsonValue};

fn text(s: &str) -> JsonValue {
    JsonValue::Text(s.to_string())
}

fn array(items: Vec<JsonValue>) -> JsonValue {
    JsonValue::Array(items)
}

fn object(members: Vec<(&str, JsonValue)>) -> JsonValue {
    JsonValue::Object(
        members
            .into_iter()
            .map(|(key, value)| JsonMember { key: key.to_string(), value })
            .collect(),
    )
}

/// A document with one graph that holds these nodes.
fn one_graph(nodes: Vec<(&str, JsonValue)>) -> JsonValue {
    object(vec![("graphs", array(vec![object(vec![("nodes", object(nodes))])]))])
}

fn decompiled(data: JsonValue, options: Option<DecompileOptions>) -> String {
    match decompile_from_data(data, options).unwrap() {
        DecompileResult::Text(text) => text,
        _ => panic!("Expected text result"),
    }
}

#[test]
fn test_basic_decompile() {
    let data = object(vec![(
        "graphs",
        array(vec![object(vec![
            ("as", text("main")),
            (
                "nodes",
                object(vec![(
                    "node1",
                    object(vec![
                        ("output", array(vec![text("node1")])),
                        ("op_name", text("test.op")),
                        ("input", array(vec![text("input1"), text("input2")])),
                    ]),
                )]),
            ),
        ])]),
    )]);

    let result = decompile_from_data(data, None).unwrap();
    match result {
        DecompileResult::Text(text) => {
            assert!(text.contains("graph {"));
            assert!(text.contains("node1 = test.op(input1,input2);"));
            assert!(text.contains("} as main;"));
        }
        _ => panic!("Expected text result"),
    }
}

#[test]
fn test_check_id() {
    assert!(check_id("valid_id").is_ok());
    assert!(check_id("valid-id").is_ok());
    assert!(check_id("valid$id").is_ok());
    assert!(check_id("123invalid").is_err());
}

#[test]
fn test_basic_graph_decompile() {
    let data = object(vec![(
        "graphs",
        array(vec![object(vec![
            ("as", text("main")),
            (
                "nodes",
                object(vec![(
                    "node1",
                    object(vec![
                        ("output", array(vec![text("node1")])),
                        ("op_name", text("test.op")),
                        ("input", array(vec![text("input1"), text("input2")])),
                    ]),
                )]),
            ),
        ])]),
    )]);

    let result = decompile_from_data(data, None).unwrap();
    match result {
        DecompileResult::Text(text) => {
            assert!(text.contains("graph {"));
            assert!(text.contains("node1 = test.op(input1,input2);"));
            assert!(text.contains("} as main;"));
        }
        _ => panic!("Expected text result"),
    }
}

#[test]
fn test_graph_with_template() {
    let data = object(vec![(
        "graphs",
        array(vec![object(vec![
            ("template_graph", text("base_graph")),
            ("template_version", text("1.0.0")),
            ("as", text("main")),
            (
                "nodes",
                object(vec![(
                    "node1",
                    object(vec![
                        ("output", array(vec![text("node1")])),
                        ("op_name", text("test.op")),
                    ]),
                )]),
            ),
        ])]),
    )]);

    let result = decompile_from_data(data, None).unwrap();
    match result {
        DecompileResult::Text(text) => {
            assert!(text.contains("graph : base_graph.version('1.0.0') {"));
            assert!(text.contains("} as main;"));
        }
        _ => panic!("Expected text result"),
    }
}

#[test]
fn test_node_with_version_and_alias() {
    let data = one_graph(vec![(
        "my_node",
        object(vec![
            ("output", array(vec![text("my_node")])),
            ("op_name", text("test.op")),
            ("version", text("2.0.0")),
            ("input", array(vec![text("data")])),
        ]),
    )]);

    let text = decompiled(data, None);
    assert!(text.contains("my_node = test.op(data).version('2.0.0');"));
}

#[test]
fn test_node_with_dependencies() {
    let data = one_graph(vec![
        (
            "node1",
            object(vec![("output", array(vec![text("node1")])), ("op_name", text("test.op"))]),
        ),
        (
            "node2",
            object(vec![
                ("output", array(vec![text("node2")])),
                ("op_name", text("test.op2")),
                ("depend", array(vec![text("node1")])),
            ]),
        ),
    ]);

    let text = decompiled(data, None);
    assert!(text.contains("node2 = test.op2().depend(node1);"));
}

#[test]
fn test_condition_node() {
    let data = one_graph(vec![(
        "result",
        object(vec![
            ("output", array(vec![text("result")])),
            ("op_name", text("builtin.conditions.str")),
            ("condition", text("x > 0")),
            (
                "true_branch",
                object(vec![
                    ("op_name", text("math.add")),
                    ("input", array(vec![text("x"), text("1")])),
                ]),
            ),
            (
                "false_branch",
                object(vec![
                    ("op_name", text("math.sub")),
                    ("input", array(vec![text("x"), text("1")])),
                ]),
            ),
        ]),
    )]);

    let text = decompiled(data, None);
    assert!(text.contains("result = x > 0 ? math.add(x,1) : math.sub(x,1);"));
}

#[test]
fn test_for_loop_node() {
    let data = one_graph(vec![(
        "result",
        object(vec![
            ("output", array(vec![text("result")])),
            ("op_name", text("test.op")),
            (
                "for_loop",
                object(vec![
                    ("inputs", text("items")),
                    ("outputs", array(vec![text("item")])),
                    ("condition", text("item.valid")),
                ]),
            ),
        ]),
    )]);

    let text = decompiled(data, None);
    assert!(text.contains("result = [test.op()"));
    assert!(text.contains("for item in items"));
    assert!(text.contains("if item.valid"));
    assert!(text.contains("];"));
}

#[test]
fn test_unescape_option() {
    let data = one_graph(vec![(
        "node1",
        object(vec![
            ("output", array(vec![text("node1")])),
            ("op_name", text("test.op")),
            ("input", array(vec![text("line1\\nline2\\ttab")])),
        ]),
    )]);

    let options = DecompileOptions { unescape: true, ..Default::default() };

    let text = decompiled(data, Some(options));
    // After unescaping, the \n and \t should be actual newlines and tabs
    assert!(text.contains("line1"));
    assert!(text.contains("line2"));
    assert!(text.contains("\t")); // Actual tab character
}

#[test]
fn test_invalid_identifier() {
    let data = object(vec![(
        "graphs",
        array(vec![object(vec![
            ("as", text("123invalid")),
            (
                "nodes",
                object(vec![(
                    "valid_node",
                    object(vec![
                        ("output", array(vec![text("valid_node")])),
                        ("op_name", text("test.op")),
                    ]),
                )]),
            ),
        ])]),
    )]);

    let result = decompile_from_data(data, None);
    assert!(result.is_err());
    assert!(result.unwrap_err().contains("Invalid identifier"));
}

#[test]
fn test_graph_with_properties() {
    let data = object(vec![(
        "graphs",
        array(vec![object(vec![
            (
                "property",
                object(vec![("description", text("Test graph")), ("version", text("1.0"))]),
            ),
            (
                "nodes",
                object(vec![(
                    "node1",
                    object(vec![
                        ("output", array(vec![text("node1")])),
                        ("op_name", text("test.op")),
                    ]),
                )]),
            ),
        ])]),
    )]);

    let text = decompiled(data, None);
    assert!(text.contains("graph {"));
    assert!(text.contains("description='Test graph',version='1.0';"));
    assert!(text.contains("node1 = test.op();"));
}

#[test]
fn test_node_with_ref_graph() {
    let data = one_graph(vec![(
        "node1",
        object(vec![
            ("output", array(vec![text("node1")])),
            ("ref_graph", text("subgraph")),
            ("input", array(vec![text("data")])),
        ]),
    )]);

    let text = decompiled(data, None);
    assert!(text.contains("node1 = ref(subgraph)(data);"));
}

#[test]
fn test_node_with_start_end_markers() {
    let data = one_graph(vec![
        (
            "start_node",
            object(vec![
                ("output", array(vec![text("start_node")])),
                ("op_name", text("test.op")),
                ("start", JsonValue::Bool(true)),
            ]),
        ),
        (
            "end_node",
            object(vec![
                ("output", array(vec![text("end_node")])),
                ("op_name", text("test.op")),
                ("end", JsonValue::Bool(true)),
            ]),
        ),
    ]);

    let text = decompiled(data, None);
    assert!(text.contains("start_node = test.op().as(start);"));
    assert!(text.contains("end_node = test.op().as(end);"));
}

#[test]
fn test_node_with_override() {
    let data = one_graph(vec![
        (
            "node1",
            object(vec![
                ("output", array(vec![text("node1")])),
                ("op_name", text("test.op")),
                ("override", JsonValue::Bool(true)),
            ]),
        ),
        (
            "node2",
            object(vec![
                ("output", array(vec![text("node2")])),
                ("op_name", text("test.op")),
                ("override", JsonValue::Int(42)),
            ]),
        ),
    ]);

    let text = decompiled(data, None);
    assert!(text.contains("node1 = test.op().override(true);"));
    assert!(text.contains("node2 = test.op().override(42);"));
}

/// A document with one operation whose inputs hold one specification.
fn one_input_spec(spec: JsonValue) -> JsonValue {
    object(vec![("ops", array(vec![object(vec![("inputs", object(vec![("param", spec)]))])]))])
}

#[test]
fn test_operation_with_choice_spec() {
    let data = one_input_spec(object(vec![
        ("dtype", text("string")),
        ("choice", array(vec![text("option1"), text("option2"), text("option3")])),
    ]));

    let text = decompiled(data, None);
    assert!(text.contains("param:(dtype=string,choice=('option1','option2','option3'));"));
}

#[test]
fn test_operation_with_range_spec() {
    let data = one_input_spec(object(vec![
        ("dtype", text("int")),
        ("range", object(vec![("ge", JsonValue::Int(0)), ("le", JsonValue::Int(100))])),
    ]));

    let text = decompiled(data, None);
    assert!(text.contains("param:(dtype=int,range=[0,100]);"));
}

#[test]
fn test_operation_with_exact_length() {
    let data = one_input_spec(object(vec![
        ("dtype", text("string")),
        ("length", object(vec![("eq", JsonValue::Int(10))])),
    ]));

    let text = decompiled(data, None);
    assert!(text.contains("param:(dtype=string,length=10);"));
}

fn plain_node_document() -> JsonValue {
    one_graph(vec![(
        "node1",
        object(vec![("output", array(vec![text("node1")])), ("op_name", text("test.op"))]),
    )])
}

#[test]
fn test_custom_indentation() {
    let options = DecompileOptions { indent: 2, ..Default::default() };

    let text = decompiled(plain_node_document(), Some(options));
    // Should have 2-space indentation instead of 4
    assert!(text.contains("\n  node1 = test.op();"));
}

#[test]
fn test_decompile_options() {
    let options = DecompileOptions { indent: 8, max_col: 50, unescape: true, keep_order: true };

    let text = decompiled(plain_node_document(), Some(options));
    // Should work with custom options
    assert!(text.contains("node1 = test.op();"));
}

#[test]
fn test_empty_data() {
    let data = object(vec![]);

    let text = decompiled(data, None);
    // Should produce empty string for empty input
    assert_eq!(text.trim(), "");
}

#[test]
fn test_invalid_input_not_object() {
    let data = text("invalid string");

    let result = decompile_from_data(data, None);
    assert!(result.is_err());
    assert!(result.unwrap_err().contains("Decompile input must be a JSON object"));
}

#[test]
fn test_operation_decompile() {
    let data = object(vec![(
        "ops",
        array(vec![object(vec![
            ("as", text("my_op")),
            ("version", text("1.0.0")),
            (
                "metas",
                object(vec![("description", text("Test operation")), ("author", text("test"))]),
            ),
            (
                "inputs",
                object(vec![(
                    "input1",
                    object(vec![
                        ("dtype", text("string")),
                        (
                            "length",
                            object(vec![("ge", JsonValue::Int(1)), ("le", JsonValue::Int(100))]),
                        ),
                    ]),
                )]),
            ),
            ("outputs", object(vec![("output1", object(vec![("dtype", text("int"))]))])),
            (
                "configs",
                object(vec![(
                    "param1",
                    object(vec![("dtype", text("bool")), ("default", JsonValue::Bool(true))]),
                )]),
            ),
        ])]),
    )]);

    let result = decompile_from_data(data, None).unwrap();
    match result {
        DecompileResult::Text(text) => {
            assert!(text.contains("op {"));
            assert!(text.contains("meta {"));
            assert!(text.contains("description='Test operation'"));
            assert!(text.contains("input {"));
            assert!(text.contains("input1:(dtype=string,length=[1,100]);"));
            assert!(text.contains("output {"));
            assert!(text.contains("output1:(dtype=int);"));
            assert!(text.contains("config {"));
            assert!(text.contains("param1:(dtype=bool,default='true');"));
            assert!(text.contains("} as my_op.version('1.0.0');"));
        }
        _ => panic!("Expected text result"),
    }
}

#[test]
fn test_string_escaping() {
    let data = one_graph(vec![(
        "node1",
        object(vec![
            ("output", array(vec![text("node1")])),
            ("op_name", text("test.op")),
            ("input", array(vec![text("input with spaces"), text("input'with'quotes")])),
        ]),
    )]);

    let result = decompile_from_data(data, None).unwrap();
    match result {
        DecompileResult::Text(text) => {
            assert!(text.contains("node1 = test.op('input with spaces','input\\'with\\'quotes');"));
        }
        _ => panic!("Expected text result"),
    }
}

#[test]
fn test_complex_nested_structure() {
    let data = object(vec![(
        "graphs",
        array(vec![object(vec![
            (
                "property",
                object(vec![(
                    "config",
                    object(vec![(
                        "nested",
                        object(vec![
                            ("value", JsonValue::Int(42)),
                            (
                                "list",
                                array(vec![
                                    JsonValue::Int(1),
                                    JsonValue::Int(2),
                                    JsonValue::Int(3),
                                ]),
                            ),
                        ]),
                    )]),
                )]),
            ),
            (
                "nodes",
                object(vec![(
                    "complex_node",
                    object(vec![
                        ("output", array(vec![text("complex_node")])),
                        ("op_name", text("complex.op")),
                        (
                            "input",
                            array(vec![object(vec![
                                ("key1", text("value1")),
                                ("key2", JsonValue::Int(123)),
                            ])]),
                        ),
                    ]),
                )]),
            ),
        ])]),
    )]);

    let result = decompile_from_data(data, None).unwrap();
    match result {
        DecompileResult::Text(text) => {
            assert!(text.contains("graph {"));
            assert!(text.contains("complex_node = complex.op({key1:'value1',key2:123});"));
        }
        _ => panic!("Expected text result"),
    }
}
