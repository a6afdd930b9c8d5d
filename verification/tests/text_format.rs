use nomic_rest::json::{json_array, json_bool, json_member, json_null, json_object, json_string, JsonObject};
use nomic_rest::number::{i64_text, u64_text};

#[test]
fn strings_are_escaped() {
    assert_eq!(json_string("plain"), "\"plain\"");
    assert_eq!(json_string("a\"b\\c\n\t\r"), "\"a\\\"b\\\\c\\n\\t\\r\"");
    assert_eq!(json_string("\u{1}\u{1f}\u{8}\u{c}"), "\"\\u0001\\u001f\\b\\f\"");
    assert_eq!(json_string("héllo ✓"), "\"héllo ✓\"");
    let back: String = serde_json::from_str(&json_string("x\"\\\u{7}y")).unwrap();
    assert_eq!(back, "x\"\\\u{7}y");
}

#[test]
fn objects_and_arrays() {
    assert_eq!(json_object(vec![]), "{}");
    assert_eq!(json_array(vec![]), "[]");
    assert_eq!(json_array(vec!["1".to_string(), "2".to_string()]), "[1,2]");
    assert_eq!(json_member("k", "true".to_string()), "\"k\":true");
    let mut o = JsonObject::new();
    o.add("a", json_null());
    o.add("b", json_bool(false));
    assert_eq!(o.finish(), "{\"a\":null,\"b\":false}");
}

#[test]
fn decimal_text() {
    assert_eq!(u64_text(0), "0");
    assert_eq!(u64_text(9), "9");
    assert_eq!(u64_text(10), "10");
    assert_eq!(u64_text(1234567890), "1234567890");
    assert_eq!(u64_text(u64::MAX), "18446744073709551615");
    assert_eq!(i64_text(0), "0");
    assert_eq!(i64_text(-42), "-42");
    assert_eq!(i64_text(i64::MIN), "-9223372036854775808");
    assert_eq!(i64_text(i64::MAX), "9223372036854775807");
}
