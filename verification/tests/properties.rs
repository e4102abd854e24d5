//! What holds of the library in general, on chosen values.

use gos::decompiler::ident::{check_id, check_version, is_valid_id, is_valid_version};
use gos::decompiler::params::ParamFormatter;
use gos::{
    compile_ast, format_from_data, parse, AstNodeEnum, DecompileOptions, JsonMember, JsonValue,
    Module, Position,
};

fn text(s: &str) -> JsonValue {
    JsonValue::Text(s.to_string())
}

fn object(members: Vec<(&str, JsonValue)>) -> JsonValue {
    JsonValue::Object(
        members
            .into_iter()
            .map(|(key, value)| JsonMember { key: key.to_string(), value })
            .collect(),
    )
}

#[test]
fn identifiers_start_with_a_letter_or_a_sign() {
    for good in ["a", "Z", "_", "-", "$", "%", "@", "valid-id", "valid$id", "a.b.c", "n0", "@x.9"]
    {
        assert!(is_valid_id(good), "{good}");
        assert_eq!(check_id(good), Ok(good.to_string()));
    }
    for bad in ["", "123invalid", "9", ".a", "a b", "a+b", "é", "a\n", "a,b"] {
        assert!(!is_valid_id(bad), "{bad}");
        assert_eq!(check_id(bad), Err(format!("Invalid identifier: {bad}")));
    }
}

#[test]
fn versions_are_recognized_and_never_refused() {
    for good in ["1.0.0", "10.20.30", "0.0.1"] {
        assert!(is_valid_version(good), "{good}");
    }
    for bad in ["", "1", "1.0", "1.0.0.0", "1..0", ".1.0", "1.0.", "a.b.c", "1.0.x", "1.2.3 "] {
        assert!(!is_valid_version(bad), "{bad}");
    }
    assert_eq!(check_version("1.0.0"), Ok("1.0.0".to_string()));
    assert_eq!(check_version("not a version"), Ok("not a version".to_string()));
}

#[test]
fn an_empty_module_compiles_to_an_empty_result() {
    let module = Module { position: Position::new(7, 3, 9), children: vec![] };
    let result = compile_ast(&AstNodeEnum::Module(module)).unwrap();
    assert_eq!(result.graphs, None);
    assert_eq!(result.ops, None);
    assert_eq!(result.vars, None);
    assert_eq!(result.gos_version, "0.5.2");
    assert_eq!(result.op_names, None);
    assert_eq!(result.subgraphs, None);

    let parsed = parse("").unwrap();
    let result = compile_ast(&parsed).unwrap();
    assert_eq!(result.vars, None);
    assert_eq!(result.gos_version, "0.5.2");
}

#[test]
fn formatting_twice_is_formatting_once() {
    let sources = [
        "var { name = \"test\"; value = 42; } as config;",
        "\n# note\nimport a.b, c as d;\nvar {\n  x = [1, 2, 3, 4, 5]; # five\n  y = {\"k\": (1, 2)};\n};\n",
        "graph { p = 1; n = op.a(x, y).version(v).as(m); a, b = ref(sub)(k=x); } as g.version(v);",
    ];
    for source in sources {
        let once = format_from_data(source, 4, 100).unwrap();
        let twice = format_from_data(&once, 4, 100).unwrap();
        assert_eq!(twice, once, "{source}");
    }
}

#[test]
fn a_string_is_written_so_that_it_reads_back() {
    let sources = [
        "var { name = \"hello world\"; };",
        "var { a = 'it \"is\"'; b = \"it's\"; c = 'x\\'y'; d = date(\"2025-01-01\"); };",
        "var { t = \"\"\"two\nlines\"\"\"; u = '''with \" inside'''; };",
        "graph { n = op(x).version('1.0').as(m); } as g.version(\"2.0\");",
    ];
    for source in sources {
        let once = format_from_data(source, 4, 100).unwrap();
        let twice = format_from_data(&once, 4, 100).unwrap();
        assert_eq!(twice, once, "{source}");
    }
    let once = format_from_data("var { name = \"hello world\"; };", 4, 100).unwrap();
    assert!(once.contains("name = \"hello world\";"), "{once}");
    let once = format_from_data("var { a = 'it \"is\"'; };", 4, 100).unwrap();
    assert!(once.contains("a = 'it \"is\"';"), "{once}");
}

#[test]
fn a_collection_wraps_once_it_passes_the_column_limit() {
    // `[1, 2, 3, 4]` is 12 wide and is measured from the indentation of its statement.
    let one_line = format_from_data("var { x = [1, 2, 3, 4]; };", 4, 100).unwrap();
    assert_eq!(one_line, "var {\n    x = [1, 2, 3, 4];\n};");
    let at_limit = format_from_data("var { x = [1, 2, 3, 4]; };", 4, 16).unwrap();
    assert_eq!(at_limit, one_line);
    let wrapped = format_from_data("var { x = [1, 2, 3, 4]; };", 4, 15).unwrap();
    assert_eq!(
        wrapped,
        "var {\n    x = [\n        1,\n        2,\n        3,\n        4\n    ];\n};"
    );
    // Without indentation nothing wraps.
    let flat = format_from_data("var { x = [1, 2, 3, 4]; };", 0, 1).unwrap();
    assert!(flat.contains("[1, 2, 3, 4]"), "{flat}");
    // A wrapped text is the same when it is formatted again.
    assert_eq!(format_from_data(&wrapped, 4, 15).unwrap(), wrapped);
}

#[test]
fn formatted_text_formats_to_itself() {
    let sources = [
        "var { a = 1; }; var { b = 2; };",
        "# c\nvar { a = 1; };",
        "import a; import b, c as d;",
        "graph { a = [op(x) for i in xs if i.ok]; b = c > 0 ? f(x) : g(y); r = ref(sub)(k=v); };",
        "op { input { x: string; }; output { y:(dtype=int); }; config { z:(range=[1,2]); }; };",
        "var { a = 1 if \"c\" else 2; b = x if y; };",
        "var { d = {\"k\": [1, {2, 3}, (4, 5)], \"m\": {}}; e = []; f = -1.5e3; g = true; h = null; };",
        "graph { # start\n  p = 1; # inline\n  # own line\n  n = op(a, b).with(k=1).depend(x, y).override(true); /* end */\n} as g; # tail\n",
        "var { long = [\"aaaaaaaaaaaaaaaaaaaa\", \"bbbbbbbbbbbbbbbbbbbb\", [1, 2, 3], {\"k\": \"cccccccccccccccccccc\"}]; };",
        "graph : base.version('1.0') { n = op(); } as g;",
        "op { meta { a = 1; }; } as o.version(v1);",
        "\n\nvar { a = 1; };\n\n\ngraph { n = op(); };",
        "/* a */ /* b */\nvar { a = 1; /* x */ /* y */\n b = 2; };",
        "graph { a, b = op(x=(p, q), y=1).as(start); c = op().as(end); d = ref(g.h)(i); };",
        "var { s = ''; t = \"\"; u = 'a\\\\'; v = \"it's\"; w = 'say \"hi\"'; };",
        "var { d = date('2025-01-01'); e = date ( \"2025\" ); };",
        "var { x = [ [1, 2], [3, [4, 5, 6]], {\"a\": {\"b\": [7, 8]}} ]; };",
        "op { meta { a = \"x\"; }; input { x:(dtype=string, choice=('a','b')); }; };",
        "import a.b.c as d, e;",
        "var {}; graph {}; op {};",
        "var { a = -1; b = 1.5; c = 1e5; d = -2.5E-3; };",
        " var { a = 1; };",
        "var { a = \"\"\"x \"y\" z\"\"\"; b = '''p\n\"\"\"q'''; c = \"\"\"it's ''' here\"\"\"; };",
        "var { a = 1; } as c; graph { n = op(c.a); } as g.version(c.a);",
    ];
    let mut report = String::new();
    for source in sources {
        for (indent, max_col) in [(4, 100), (4, 30), (2, 8), (0, 5)] {
            match format_from_data(source, indent, max_col) {
                Ok(once) => match format_from_data(&once, indent, max_col) {
                    Ok(twice) => {
                        if twice != once {
                            report.push_str(&format!(
                                "\n--- {source:?} at {indent}, {max_col}\nonce:\n{once}\ntwice:\n{twice}\n"
                            ));
                        }
                    }
                    Err(e) => report.push_str(&format!(
                        "\n--- {source:?} at {indent}, {max_col}\nonce:\n{once}\nrefused: {}\n",
                        e.to_string()
                    )),
                },
                Err(e) => {
                    report.push_str(&format!("\n--- {source:?} is refused: {}\n", e.to_string()))
                }
            }
        }
    }
    assert!(report.is_empty(), "{report}");
}

#[test]
fn a_blank_text_formats_to_the_empty_text() {
    assert_eq!(format_from_data(" \n\t\r\n", 4, 100).unwrap(), "");
    assert_eq!(format_from_data("", 4, 100).unwrap(), "");
}

fn rendered_params(max_col: usize, indent: usize, col: usize) -> String {
    let params = object(vec![("a", JsonValue::Int(1)), ("b", text("x")), ("c", JsonValue::Null)]);
    let options = DecompileOptions { indent, max_col, unescape: false, keep_order: false };
    let mut buffer = String::new();
    ParamFormatter::new(&params, ',').format(&mut buffer, col, &options);
    buffer
}

#[test]
fn a_list_wraps_once_it_passes_the_column_limit() {
    // The line `a=1,b='x',c=null` is 16 wide and starts at column 4.
    assert_eq!(rendered_params(20, 4, 4), "a=1,b='x',c=null");
    assert_eq!(rendered_params(100, 4, 4), "a=1,b='x',c=null");
    assert_eq!(rendered_params(19, 4, 4), "a=1,\n    b='x',\n    c=null");
    assert_eq!(rendered_params(0, 4, 4), "a=1,\n    b='x',\n    c=null");
    // Without indentation nothing wraps.
    assert_eq!(rendered_params(0, 0, 4), "a=1,b='x',c=null");
}

#[test]
fn a_wrapped_list_wraps_its_nested_values_too() {
    let params = object(vec![(
        "config",
        object(vec![
            ("name", text("a long enough name")),
            ("sizes", JsonValue::Array(vec![JsonValue::Int(100), JsonValue::Int(200)])),
        ]),
    )]);
    let options = DecompileOptions { indent: 2, max_col: 24, unescape: false, keep_order: false };
    let mut buffer = String::new();
    let col = ParamFormatter::new(&params, ',').format(&mut buffer, 2, &options);
    assert_eq!(
        buffer,
        "config={\n           name: 'a long enough name',\n           sizes: [100,\n                  200]\n        }"
    );
    assert_eq!(col, 23);
}
