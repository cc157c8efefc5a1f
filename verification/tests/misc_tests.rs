use deltatable::constants::{state_is_success, DuckDBType, FUNCTION_NAME, STANDARD_VECTOR_SIZE};
use deltatable::scalar::{binder, scalar_registration};
use deltatable::strings::{string_payload, string_record_offset, StringPayload};
use deltatable::text::{chars_of, text_contains, text_eq};
use deltatable::types::LogicalTypeId;

#[test]
fn constants_hold_their_values() {
    assert_eq!(STANDARD_VECTOR_SIZE, 1024);
    assert_eq!(FUNCTION_NAME, "read_delta\0");
}

#[test]
fn duckdb_type_codes() {
    assert_eq!(DuckDBType::Bigint.code(), 5);
    assert_eq!(DuckDBType::Varchar.code(), 17);
}

#[test]
fn only_state_zero_is_success() {
    assert!(state_is_success(0));
    assert!(!state_is_success(1));
}

#[test]
fn string_records_are_sixteen_bytes_apart() {
    assert_eq!(string_record_offset(1), 0);
    assert_eq!(string_record_offset(2), 16);
    assert_eq!(string_record_offset(10), 144);
}

#[test]
fn short_strings_are_inline_long_ones_indirect() {
    assert_eq!(string_payload(0), StringPayload::Inline { offset: 4, len: 0 });
    assert_eq!(string_payload(12), StringPayload::Inline { offset: 4, len: 12 });
    assert_eq!(string_payload(13), StringPayload::Indirect { pointer_offset: 8, len: 13 });
    assert_eq!(string_payload(1000), StringPayload::Indirect { pointer_offset: 8, len: 1000 });
}

#[test]
fn text_helpers() {
    assert_eq!(chars_of("héllo"), vec!['h', 'é', 'l', 'l', 'o']);
    assert!(text_eq("abc", "abc"));
    assert!(!text_eq("abc", "abd"));
    assert!(!text_eq("abc", "ab"));
    assert!(text_contains("the schema does not match here", "schema does not match"));
    assert!(text_contains("abc", ""));
    assert!(text_contains("", ""));
    assert!(!text_contains("ab", "abc"));
    assert!(!text_contains("schema does not matc", "schema does not match"));
    assert!(text_contains("xxabab", "abab"));
}

#[test]
fn binder_answers_frogs_with_hello() {
    let out = binder("frogs");
    assert_eq!(out.result_value, "hello");
    assert_eq!(out.reply, Some("hello".to_string()));
    let out = binder("toads");
    assert_eq!(out.result_value, "hello");
    assert_eq!(out.reply, None);
}

#[test]
fn scalar_function_is_registered_in_main() {
    let r = scalar_registration();
    assert_eq!(r.function_name, "function_name");
    assert_eq!(r.schema, "main");
    assert_eq!(r.arguments, vec![LogicalTypeId::Varchar]);
    assert_eq!(r.return_type, LogicalTypeId::Varchar);
}
