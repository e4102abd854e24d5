//! The text primitives and the JSON values on chosen inputs.

use gos::json::{find_member, set_member};
use gos::text::{
    add_col, double_col, has_final_newline, i64_text, is_space_char, join, last_segment_of,
    push_escaped_quotes, push_int, push_nat, push_spaces, replace_escape_in, str_eq, string_of,
    sub_col, text_width, to_chars, trim_text,
};
use gos::{JsonMember, JsonValue};

#[test]
fn numbers_are_written_in_decimal() {
    let mut out = String::from(">");
    push_nat(&mut out, 0);
    push_nat(&mut out, 7);
    push_nat(&mut out, 10);
    push_nat(&mut out, 18446744073709551615);
    assert_eq!(out, ">071018446744073709551615");
    let mut out = String::new();
    push_int(&mut out, -1);
    push_int(&mut out, 0);
    push_int(&mut out, i64::MAX);
    assert_eq!(out, "-109223372036854775807");
    assert_eq!(i64_text(i64::MIN), "-9223372036854775808");
    assert_eq!(i64_text(-120), "-120");
}

#[test]
fn columns_stop_at_the_largest_word() {
    assert_eq!(add_col(2, 3), 5);
    assert_eq!(add_col(usize::MAX, 1), usize::MAX);
    assert_eq!(add_col(usize::MAX - 1, 1), usize::MAX);
    assert_eq!(sub_col(5, 2), 3);
    assert_eq!(sub_col(2, 5), 0);
    assert_eq!(double_col(4), 8);
    assert_eq!(double_col(usize::MAX / 2 + 1), usize::MAX);
}

#[test]
fn a_width_counts_bytes() {
    assert_eq!(text_width(""), 0);
    assert_eq!(text_width("abc"), 3);
    assert_eq!(text_width("é"), 2);
    assert_eq!(text_width("测试"), 6);
    assert_eq!(text_width("🚀"), 4);
}

#[test]
fn texts_are_taken_apart_and_put_together() {
    let chars = to_chars("a🚀b");
    assert_eq!(chars, vec!['a', '🚀', 'b']);
    assert_eq!(string_of(&chars, 1, 3), "🚀b");
    assert_eq!(string_of(&chars, 2, 2), "");
    assert!(str_eq("é", "é"));
    assert!(!str_eq("a", "ab"));
    assert!(!str_eq("", " "));
    let mut padded = String::from("|");
    push_spaces(&mut padded, 3);
    push_spaces(&mut padded, 0);
    assert_eq!(padded, "|   ");
    let none: Vec<String> = vec![];
    assert_eq!(join(&none, ", "), "");
    assert_eq!(join(&vec!["a".to_string()], ", "), "a");
    assert_eq!(join(&vec!["a".to_string(), "".to_string(), "c".to_string()], ", "), "a, , c");
}

#[test]
fn quotes_are_escaped_and_escapes_resolved() {
    let mut out = String::from("'");
    push_escaped_quotes(&mut out, "it's 'so' \\'");
    assert_eq!(out, "'it\\'s \\'so\\' \\\\'");
    assert_eq!(replace_escape_in("a\\nb\\n", 'n', '\n'), "a\nb\n");
    assert_eq!(replace_escape_in("\\\\n", 'n', '\n'), "\\\n");
    assert_eq!(replace_escape_in("\\\\\\\\", '\\', '\\'), "\\\\");
    assert_eq!(replace_escape_in("end\\", 'n', '\n'), "end\\");
    assert_eq!(replace_escape_in("", 't', '\t'), "");
}

#[test]
fn the_last_segment_follows_the_last_dot() {
    assert_eq!(last_segment_of("a.b.c"), "c");
    assert_eq!(last_segment_of("plain"), "plain");
    assert_eq!(last_segment_of("a.b."), "");
    assert_eq!(last_segment_of(".x"), "x");
    assert_eq!(last_segment_of(""), "");
}

#[test]
fn trimming_removes_white_space_at_both_ends() {
    assert_eq!(trim_text("  a b \t\r\n"), "a b");
    assert_eq!(trim_text("\u{a0}\u{3000}x\u{2003}\u{85}"), "x");
    assert_eq!(trim_text(" \n "), "");
    assert_eq!(trim_text(""), "");
    assert_eq!(trim_text("\u{200b}x"), "\u{200b}x");
    for c in ['\t', '\n', '\u{b}', '\u{c}', '\r', ' ', '\u{1680}', '\u{2028}', '\u{202f}', '\u{205f}']
    {
        assert!(is_space_char(c) && c.is_whitespace());
    }
    for c in ['a', '\u{8}', '\u{e}', '\u{200b}', '\u{feff}', '_'] {
        assert!(!is_space_char(c) && !c.is_whitespace());
    }
    assert!(has_final_newline("a\n"));
    assert!(!has_final_newline("a\n "));
    assert!(!has_final_newline(""));
}

fn member(key: &str, value: JsonValue) -> JsonMember {
    JsonMember { key: key.to_string(), value }
}

#[test]
fn a_lookup_finds_the_first_member_and_a_write_keeps_its_place() {
    let mut members = vec![
        member("a", JsonValue::Int(1)),
        member("b", JsonValue::Int(2)),
        member("a", JsonValue::Int(3)),
    ];
    assert_eq!(find_member(&members, "a"), Some(&JsonValue::Int(1)));
    assert_eq!(find_member(&members, "c"), None);
    set_member(&mut members, "a".to_string(), JsonValue::Null);
    set_member(&mut members, "c".to_string(), JsonValue::Bool(true));
    assert_eq!(
        members,
        vec![
            member("a", JsonValue::Null),
            member("b", JsonValue::Int(2)),
            member("a", JsonValue::Int(3)),
            member("c", JsonValue::Bool(true)),
        ]
    );
    let object = JsonValue::Object(members);
    assert_eq!(object.get("b"), Some(&JsonValue::Int(2)));
    assert_eq!(object.get("b").and_then(|v| v.as_i64()), Some(2));
    assert_eq!(object.get_str("b"), None);
    assert!(object.is_object() && object.as_object().is_some() && object.as_array().is_none());
    assert_eq!(JsonValue::Int(1).get("a"), None);
    assert_eq!(JsonValue::Text("t".to_string()).as_str(), Some("t"));
    assert_eq!(JsonValue::Real("1.0".to_string()).as_i64(), None);
    assert_eq!(object.deep_copy(), object);
}
