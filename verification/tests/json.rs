use tracing_layer::json::{json_object, quote_string, u32_to_dec};

#[test]
fn quoting_escapes_quotes_and_backslashes() {
    assert_eq!(quote_string("a\"b\\c"), "\"a\\\"b\\\\c\"");
}

#[test]
fn quoting_escapes_common_control_characters() {
    assert_eq!(quote_string("x\ny"), "\"x\\ny\"");
    assert_eq!(quote_string("x\ty"), "\"x\\ty\"");
    assert_eq!(quote_string("x\ry"), "\"x\\ry\"");
}

#[test]
fn quoting_escapes_rare_control_characters_as_hex() {
    assert_eq!(quote_string("\u{1}"), "\"\\u0001\"");
    assert_eq!(quote_string("\u{1f}"), "\"\\u001f\"");
}

#[test]
fn quoting_leaves_plain_text_alone() {
    assert_eq!(quote_string(""), "\"\"");
    assert_eq!(quote_string("login ok"), "\"login ok\"");
}

#[test]
fn decimal_writing_is_exact() {
    assert_eq!(u32_to_dec(0), "0");
    assert_eq!(u32_to_dec(7), "7");
    assert_eq!(u32_to_dec(12345), "12345");
    assert_eq!(u32_to_dec(u32::MAX), "4294967295");
}

#[test]
fn object_text_joins_entries_in_order() {
    let pairs = vec![
        ("a".to_string(), "1".to_string()),
        ("b\"".to_string(), "\"x\"".to_string()),
    ];
    assert_eq!(json_object(&pairs), "{\"a\":1,\"b\\\"\":\"x\"}");
}

#[test]
fn empty_object_is_braces() {
    let pairs: Vec<(String, String)> = vec![];
    assert_eq!(json_object(&pairs), "{}");
}
