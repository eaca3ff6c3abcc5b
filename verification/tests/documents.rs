use autoscraper::firestore::{
    extract_doc_id, get_boolean_field, get_integer_field, get_string_field, FirestoreValue,
};
use autoscraper::text::{parse_i64, u64_to_string};

fn string_field(name: &str, value: &str) -> (String, FirestoreValue) {
    (
        name.to_string(),
        FirestoreValue {
            string_value: Some(value.to_string()),
            integer_value: None,
            boolean_value: None,
        },
    )
}

fn bool_field(name: &str, value: bool) -> (String, FirestoreValue) {
    (
        name.to_string(),
        FirestoreValue { string_value: None, integer_value: None, boolean_value: Some(value) },
    )
}

#[test]
fn doc_id_is_the_segment_after_the_last_slash() {
    let name = "projects/p/databases/(default)/documents/users/u1/payloads/abc123";
    assert_eq!(extract_doc_id(name).as_deref(), Some("abc123"));
    assert_eq!(extract_doc_id("plain").as_deref(), Some("plain"));
    assert_eq!(extract_doc_id("trailing/").as_deref(), Some(""));
    assert_eq!(extract_doc_id("").as_deref(), Some(""));
}

#[test]
fn string_fields_are_found_by_name() {
    let fields = vec![string_field("name", "My Search"), bool_field("canUseAi", true)];
    assert_eq!(get_string_field(&fields, "name").as_deref(), Some("My Search"));
    assert_eq!(get_string_field(&fields, "missing"), None);
    assert_eq!(get_string_field(&fields, "canUseAi"), None);
}

#[test]
fn integer_fields_are_parsed_from_their_string_form() {
    let fields = vec![
        string_field("searchTokens", "42"),
        string_field("negative", "-7"),
        string_field("junk", "4x2"),
    ];
    assert_eq!(get_integer_field(&fields, "searchTokens"), Some(42));
    assert_eq!(get_integer_field(&fields, "negative"), Some(-7));
    assert_eq!(get_integer_field(&fields, "junk"), None);
    assert_eq!(get_integer_field(&fields, "missing"), None);
}

#[test]
fn boolean_fields_are_read_directly() {
    let fields = vec![bool_field("canUseAi", false), string_field("name", "x")];
    assert_eq!(get_boolean_field(&fields, "canUseAi"), Some(false));
    assert_eq!(get_boolean_field(&fields, "name"), None);
}

#[test]
fn decimal_parsing_accepts_signs_and_rejects_junk() {
    assert_eq!(parse_i64("0"), Some(0));
    assert_eq!(parse_i64("+15"), Some(15));
    assert_eq!(parse_i64("-15"), Some(-15));
    assert_eq!(parse_i64(""), None);
    assert_eq!(parse_i64("+"), None);
    assert_eq!(parse_i64(" 12"), None);
    assert_eq!(parse_i64("12 "), None);
    assert_eq!(parse_i64("1.5"), None);
}

#[test]
fn decimal_parsing_respects_the_representable_range() {
    assert_eq!(parse_i64("9223372036854775807"), Some(i64::MAX));
    assert_eq!(parse_i64("9223372036854775808"), None);
    assert_eq!(parse_i64("-9223372036854775808"), Some(i64::MIN));
    assert_eq!(parse_i64("-9223372036854775809"), None);
    assert_eq!(parse_i64("99999999999999999999999999"), None);
}

#[test]
fn decimal_rendering_is_exact() {
    assert_eq!(u64_to_string(0), "0");
    assert_eq!(u64_to_string(7), "7");
    assert_eq!(u64_to_string(1234567890), "1234567890");
    assert_eq!(u64_to_string(u64::MAX), "18446744073709551615");
}
