//! The indenting buffer and the formatter.

use gos::{format_from_data, IndentBuffer};

#[test]
fn test_indent_buffer() {
    let mut buffer = IndentBuffer::new(4, 0);
    buffer.write_indent(&["test"]);
    assert_eq!(buffer.get_value(), "test");
    
    buffer.indent();
    buffer.clear();
    buffer.write_indent(&["indented"]);
    assert_eq!(buffer.get_value(), "    indented");
}

#[test]
fn test_format_from_data() {
    let content = r#"var { name = "test"; };"#;
    let result = format_from_data(content, 4, 100);
    assert!(result.is_ok());
}
