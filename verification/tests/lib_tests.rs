//! The entry points of the library.

use gos::{parse_with_errors, validate, version, parse};

#[test]
fn test_error_handling() {
    let content = r#"
        var {
            name = "test
        }
        "#;

    let result = parse(content);
    // This should either succeed (if our grammar is lenient) or fail with a clear error
    match result {
        Ok(_) => {panic!("Not expected to succeed");}
        Err(error) => {
            assert_eq!(error.line().unwrap(), 3);
            assert_eq!(error.column().unwrap(), 20);
            assert!(error.to_string().contains("parsing error"),
                "Error should contain 'error'");
        }
    }
}

#[test]
fn test_validation() {
    let valid_content = r#"
        var { name = "test"; };
        "#;
    
    let _invalid_content = r#"
        var { name = ; # Invalid syntax
        "#;

    assert!(validate(valid_content).is_ok());
    assert!(validate(_invalid_content).is_err());
}

#[test]
fn test_version() {
    let ver = version();
    assert!(!ver.is_empty(), "Version should not be empty");
    assert!(ver.contains('.'), "Version should contain dots");
}

#[test]
fn test_parse_with_errors_succ() {
    let content = r#"
        var {
            name = "test";
        };
        "#;

    let (ast, errors) = parse_with_errors(content);
    assert!(ast.is_some(), "Should have AST");
    assert!(errors.is_empty() || !errors.has_errors(), "Should not have errors for valid content");
}

#[test]
fn test_parse_with_errors() {
    let content = r#"
        var {
            name = ;
        };
        "#;

    let (ast, errors) = parse_with_errors(content);
    assert!(ast.is_none(), "Should not have AST");
    assert!(errors.has_errors(), "Should have errors");
}
