//! The compiler and its options.

use gos::{compile_ast, AstNodeEnum, CompileOptions, Compiler, Module, Position};

#[test]
fn test_compile_empty_module() {
    let module = Module {
        position: Position::new(1, 1, 1),
        children: vec![],
    };
    let ast = AstNodeEnum::Module(module);
    
    let result = compile_ast(&ast).unwrap();
    assert_eq!(result.gos_version, "0.5.2");
    assert!(result.graphs.is_none());
    assert!(result.ops.is_none());
    assert!(result.vars.is_none());
}

#[test]
fn test_compiler_creation() {
    let compiler = Compiler::new();
    assert!(!compiler.options.return_op_names);
    assert!(!compiler.options.return_subgraphs);
    assert!(!compiler.options.keep_order);
    assert!(compiler.options.plugin.is_none());
}

#[test]
fn test_compiler_with_options() {
    let options = CompileOptions {
        return_op_names: true,
        return_subgraphs: true,
        keep_order: true,
        plugin: Some("test_plugin".to_string()),
    };
    let compiler = Compiler::with_options(options);
    assert!(compiler.options.return_op_names);
    assert!(compiler.options.return_subgraphs);
    assert!(compiler.options.keep_order);
    assert_eq!(compiler.options.plugin, Some("test_plugin".to_string()));
}
