use dev_chunk_runtime::model::ModuleId;
use dev_chunk_runtime::paths::relative_path;
use dev_chunk_runtime::stringify::quote_string;
use dev_chunk_runtime::stringify::render_array;
use dev_chunk_runtime::stringify::render_module_id;
use dev_chunk_runtime::stringify::u64_literal;

#[test]
fn relative_path_strips_the_root_at_a_component_boundary() {
    assert_eq!(relative_path("/out", "/out/a.js"), Some("a.js".to_string()));
    assert_eq!(relative_path("/out", "/out/sub/a.js"), Some("sub/a.js".to_string()));
}

#[test]
fn relative_path_of_the_root_itself_is_empty() {
    assert_eq!(relative_path("/out", "/out"), Some(String::new()));
}

#[test]
fn relative_path_under_an_empty_root_is_the_path_itself() {
    assert_eq!(relative_path("", "/out/a.js"), Some("/out/a.js".to_string()));
}

#[test]
fn relative_path_outside_the_root_is_none() {
    assert_eq!(relative_path("/out", "/elsewhere/d.js"), None);
    assert_eq!(relative_path("/out", "/o"), None);
}

#[test]
fn relative_path_requires_a_component_boundary() {
    // "/output" merely shares the prefix "/out"; it is not under it
    assert_eq!(relative_path("/out", "/output/a.js"), None);
}

#[test]
fn quote_string_wraps_plain_text_in_quotes() {
    assert_eq!(quote_string("a.js"), "\"a.js\"");
    assert_eq!(quote_string(""), "\"\"");
}

#[test]
fn quote_string_escapes_quotes_and_backslashes() {
    assert_eq!(quote_string("a\"b"), "\"a\\\"b\"");
    assert_eq!(quote_string("a\\b"), "\"a\\\\b\"");
}

#[test]
fn quote_string_escapes_named_control_characters() {
    assert_eq!(quote_string("a\nb"), "\"a\\nb\"");
    assert_eq!(quote_string("a\rb"), "\"a\\rb\"");
    assert_eq!(quote_string("a\tb"), "\"a\\tb\"");
    assert_eq!(quote_string("a\u{8}b"), "\"a\\bb\"");
    assert_eq!(quote_string("a\u{c}b"), "\"a\\fb\"");
}

#[test]
fn quote_string_escapes_other_control_characters_as_hex() {
    assert_eq!(quote_string("a\u{3}b"), "\"a\\u0003b\"");
    assert_eq!(quote_string("\u{1f}"), "\"\\u001f\"");
}

#[test]
fn quote_string_keeps_non_ascii_text() {
    assert_eq!(quote_string("ün𝒊"), "\"ün𝒊\"");
}

#[test]
fn u64_literal_renders_decimal_digits() {
    assert_eq!(u64_literal(0), "0");
    assert_eq!(u64_literal(9), "9");
    assert_eq!(u64_literal(10), "10");
    assert_eq!(u64_literal(40230123), "40230123");
    assert_eq!(u64_literal(u64::MAX), "18446744073709551615");
}

#[test]
fn module_ids_render_as_number_or_quoted_string() {
    assert_eq!(render_module_id(&ModuleId::Number(42)), "42");
    assert_eq!(render_module_id(&ModuleId::Str("mod:1".to_string())), "\"mod:1\"");
}

#[test]
fn render_array_joins_elements_with_commas() {
    assert_eq!(render_array(&Vec::new()), "[]");
    assert_eq!(render_array(&vec!["\"a\"".to_string()]), "[\"a\"]");
    assert_eq!(
        render_array(&vec!["\"a\"".to_string(), "7".to_string(), "\"b\"".to_string()]),
        "[\"a\",7,\"b\"]"
    );
}
