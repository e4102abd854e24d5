//! Formatting what was formatted: texts of every construct of the language,
//! each formatted twice at several column limits.

use gos::format_from_data;

fn sources() -> Vec<&'static str> {
    vec![
        r#"
var {
    single_quote = 'single quoted string';
    double_quote = "double quoted string";
    multiline = """
    This is a multiline
    string with newlines
    """;
};
"#,
        r#"
var {
    list_val = [89, -123, 3.14, -2.71, 1.23e-4, 0.0];
    dict_val = {
        "tuple_val": (1, "two", date("2025-01-01")),
        "set_val": {1,2,3},
        "string_val": "test string",
        "nest": [{"true_val": true},
            {"false_val": false},
            {"null_val": null}]
    };
};"#,
        r#"
var {
    name = "test";
    value = 42;
} as config;"#,
        r#"
var {
    name = "test";
    value = 42;
};
"#,
        r#"
var {
    name = "first";
} as config;

var {
    name = "second";  
} as config;
"#,
        r#"
// first comment
var { # second comment
    name = "test"; # in line comment
    value = 42;
    # one line comment
} as config; /* end var comment */
# end line comment
"#,
        r#" var {};"#,
        r#"
var {
    name = "test" if "a>2";
    value = 42 if "b.empty()" else 52;
};
"#,
        r#"import foo;"#,
        r#"import foo.abc;"#,
        r#"import foo.how.long as bar;"#,
        r#"import foo, bar, baz as qux;"#,
        r#" # first
graph { # graph start
    description = "test graph"; # description comment
    input_node = data_loader(); # input node
}; # graph end
"#,
        r#"
graph {
    description = "test graph";
    input_node = data_loader();
} as test_pipeline;
"#,
        r#"
graph {
    description = "Complex test pipeline";
    
    a, b , c = builtin.node1().with(
        description="node1 description",
        attr1="demo attr",
        attr2=23.8,
        attr3=true
    ).version('1.1.0');
    
    e.d, f.g.h = builtin.node2(a, b).with(
        attr1=42,
        attr2="test"
    ).version("1.2.0").as(d)
    .property(prop1=86,type="bar")
    .log(level=0);
} as complex_pipeline.version("1.0.0");
"#,
        r#"# This is a comment"#,
        r#"
/*
This is a
multiline comment
*/
"#,
        r#"
var {
    name = "test";
} as config;
"#,
        r#"
# This content has potential issues but might still parse
var {
    name = "test";
}

# Some potentially problematic content
graph {
    description = "test";
}
"#,
        r#"
# Complex GOS file with multiple features
import builtin;
import custom.operators as ops;

# Configuration variables
var {
    pipeline_name = "complex_test_pipeline";
    version = "2.1.0";
    debug_mode = true;
    
    # Complex nested structures
    config = {
        "processing": {
            "batch_size": 1000,
            "timeout": 30.0,
            "retry_count": 3,
            "features": ["feature1", "feature2", "feature3"]
        },
        "output": {
            "format": "json",
            "compression": true,
            "validation": {
                "strict": false,
                "schema_version": "1.2"
            }
        }
    };
    
    # Date and time values
    start_date = date('2024-01-01 00:00:00');
    end_date = date('2024-12-31 23:59:59');
    
    # Various data types
    metrics = [
        {"name": "accuracy", "threshold": 0.95},
        {"name": "latency", "threshold": 100.0},
        {"name": "throughput", "threshold": 1000}
    ];
} as pipeline_config;

# First processing graph
graph {
    description = "Data ingestion and preprocessing";
    
    # Input nodes with complex configurations
    raw_data = builtin.data_loader().with(
        source_path="/data/input",
        format="parquet",
        schema_validation=true,
        batch_size=pipeline_config.config.processing.batch_size
    ).version("1.5.0");
    
    # Data validation and cleaning
    validated_data = ops.validator(raw_data).with(
        rules=["not_null", "type_check", "range_check"],
        error_handling="skip",
        log_errors=pipeline_config.debug_mode
    ).version("2.0.1");
    
    # Feature extraction
    features = ops.feature_extractor(validated_data).with(
        feature_list=pipeline_config.config.processing.features,
        normalization=true,
        scaling="standard"
    ).version("1.8.3");
    
    # Multiple outputs
    processed_data, metadata = ops.preprocessor(features).with(
        output_format=pipeline_config.config.output.format,
        include_metadata=true,
        compression=pipeline_config.config.output.compression
    ).version("3.1.0");
    
} as data_preprocessing.version(pipeline_config.version);

# Second processing graph
graph {
    description = "Model training and evaluation";
    
    # Reference data from previous graph
    training_data = data_preprocessing.processed_data;
    
    # Model training
    model = builtin.trainer(training_data).with(
        algorithm="gradient_boosting",
        hyperparameters={
            "learning_rate": 0.1,
            "max_depth": 6,
            "n_estimators": 100
        },
        validation_split=0.2,
        early_stopping=true
    ).version("4.2.1");
    
    # Model evaluation
    evaluation_results = builtin.evaluator(model, training_data).with(
        metrics=pipeline_config.metrics,
        cross_validation=5,
        output_detailed_report=true
    ).version("2.3.0");
    
    # Conditional model selection
    final_model = ops.model_selector(model, evaluation_results).with(
        selection_criteria="accuracy",
        min_threshold=0.90
    ).version("1.4.2");
    
} as model_training.version(pipeline_config.version);

# Third graph for deployment
graph {
    description = "Model deployment and monitoring";
    
    # Deploy the trained model
    deployed_model = ops.deployer(model_training.final_model).with(
        deployment_target="production",
        scaling_policy="auto",
        health_checks=true,
        monitoring_enabled=true
    ).version("3.0.0");
    
    # Set up monitoring
    monitoring = builtin.monitor(deployed_model).with(
        metrics_collection=true,
        alerting_rules=[
            {"metric": "latency", "threshold": 200, "action": "alert"},
            {"metric": "error_rate", "threshold": 0.01, "action": "scale"}
        ],
        dashboard_enabled=true
    ).version("1.7.0");
    
} as deployment.version(pipeline_config.version);

# Comments and documentation
/*
This is a comprehensive example demonstrating:
1. Complex variable definitions with nested structures
2. Multiple graph definitions with dependencies
3. Various node configurations and version specifications
4. Cross-graph references and data flow
5. Conditional logic and complex expressions
6. Multiple data types and formats
7. Real-world pipeline patterns
*/
"#,
        r#"
# Unicode test with various languages and symbols
var {
    chinese_text = "è¿™æ˜¯ä¸­æ–‡æµ‹è¯•æ–‡æœ¬";
    japanese_text = "ã“ã‚Œã¯æ—¥æœ¬èªžã®ãƒ†ã‚¹ãƒˆã§ã™";
    korean_text = "ì´ê²ƒì€ í•œêµ­ì–´ í…ŒìŠ¤íŠ¸ìž…ë‹ˆë‹¤";
    arabic_text = "Ù‡Ø°Ø§ Ù†Øµ ØªØ¬Ø±ÙŠØ¨ÙŠ Ø¨Ø§Ù„Ù„ØºØ© Ø§Ù„Ø¹Ø±Ø¨ÙŠØ©";
    emoji_text = "ðŸš€ ðŸŽ‰ ðŸ”¥ ðŸ’¯ âœ¨";
    
    # Mathematical symbols
    math_symbols = "âˆ‘ âˆ† âˆž Ï€ Î± Î² Î³ Î´ Îµ";
    
    # Special characters in identifiers (if supported)
    æµ‹è¯•å˜é‡ = "Chinese identifier";
    
    # Mixed content
    mixed = "English + ä¸­æ–‡ + ðŸŒŸ + Ø§Ù„Ø¹Ø±Ø¨ÙŠØ©";
} as unicode_config;

graph {
    description = "Unicode processing pipeline ðŸ”„";
    
    # Nodes with unicode names and values
    æ•°æ®åŠ è½½å™¨ = builtin.loader().with(
        è¾“å…¥è·¯å¾„="/data/unicode",
        ç¼–ç ="utf-8",
        description="Unicode data loader ðŸ“‚"
    ).version("1.0.0");
    
} as unicode_pipeline;
"#,
        r#"
var {{
    name_{} = "variable_{}";
    value_{} = {};
    list_{} = [{}, {}, {}];
}} as config_{};
"#,
        r#"
graph {{
    description = "Graph number {}";
    node_{} = builtin.processor().with(
        param1="value_{}",
        param2={},
        param3=true
    ).version("1.0.0");
}} as graph_{};
"#,
        r#"{{"level_{}": "#,
        r#"
var {
    list_with_trailing = [1, 2, 3,];
    dict_with_trailing = {
        "key1": "value1",
        "key2": "value2",
    };
}
"#,
        r#"
# Top level comment
import builtin; # End of line comment

var { # Comment after opening brace
    # Comment before attribute
    name = "test"; # Comment after value
    # Comment between attributes
    value = 42;
    # Comment before closing brace
} as config; # Comment after alias

# Comment between statements
graph {
    # Comment in graph
    node = builtin.processor(); # Comment after node
} # Comment before alias
as pipeline; # Comment after alias

# Final comment
"#,
        r#"var{name="test";}as config;"#,
        r#"var { name = "test"; } as config;"#,
        r#"
        var {
            name = "test";
        } as config;
        "#,
        r#"
        var {
            name = "test
        }
        "#,
        r#"
        var { name = "test"; };
        "#,
        r#"
        var { name = ; # Invalid syntax
        "#,
        r#"
        var {
            name = "test";
        };
        "#,
        r#"
        var {
            name = ;
        };
        "#,
        r#"
var {
    name = "test";
    value = 42;
"#,
        r#"
var {
    = "missing name";
}
"#,
        r#"
var {
    name = "unterminated string;
}
"#,
        r#"
var {
    invalid_num = 12.34.56;
}
"#,
        r#"
var {
    name = "test"@;
}
"#,
        r#"
var {
    unicode_name = "测试中文";
    emoji = "🚀";
}
"#,
        r#"
var {
    outer = "value";
    var {
        inner = "nested";
    }
}
"#,
        r#"
graph {
    description = "test";
    # Missing node definitions or invalid syntax
    invalid syntax here;
}
"#,
        r#"import;"#,
        r#"
var {
    invalid_dict = {
        "key1": "value1",
        "key2": # Missing value
    };
}
"#,
        r#"
var {
    invalid_list = [1, 2, , 4]; # Empty element
}
"#,
        r#"
var {
    mixed_quotes = "double quote with 'single inside";
    escaped_quotes = "quote with \" escaped";
}
"#,
        r#"
var {{
    {} = "test";
}}
"#,
        r#"{"level": "#,
        r#"
;;;
var {
    name = "test";
}
;;;
"#,
        r#"
var {
    name = "test";
    invalid syntax here on line 4;
    value = 42;
}
"#,
        r#"
import; # Error 1: missing module name
var {
    = "missing name"; # Error 2: missing attribute name
}
graph {
    # Error 3: missing closing brace
"#,
    ]
}

fn first_difference(once: &str, twice: &str) -> String {
    let mut a = once.lines();
    let mut b = twice.lines();
    loop {
        match (a.next(), b.next()) {
            (Some(x), Some(y)) if x == y => {}
            (x, y) => return format!("{:?} / {:?}", x, y),
        }
    }
}

#[test]
fn every_formatted_text_formats_to_itself() {
    let mut report = String::new();
    let mut formatted = 0;
    for (at, source) in sources().into_iter().enumerate() {
        for (indent, max_col) in [(4, 100), (2, 40), (4, 12), (0, 10)] {
            if let Ok(once) = format_from_data(source, indent, max_col) {
                formatted += 1;
                match format_from_data(&once, indent, max_col) {
                    Ok(twice) => {
                        if twice != once {
                            report.push_str(&format!(
                                "\n{at} at {indent}, {max_col}: {}",
                                first_difference(&once, &twice)
                            ));
                        }
                    }
                    Err(e) => report.push_str(&format!(
                        "\n{at} at {indent}, {max_col}: refused, {}",
                        e.to_string()
                    )),
                }
            }
        }
    }
    assert!(formatted > 100, "{formatted}");
    assert!(report.is_empty(), "{report}");
}
