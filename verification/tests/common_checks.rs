use local_memory_mcp::codec::{decode_blob_data, encode_blob};
use local_memory_mcp::error::MemoryError;
use local_memory_mcp::json::{json_value_depth, JsonShape};
use local_memory_mcp::text::{decimal_text, has_prefix, str_eq};
use local_memory_mcp::validation::{
    clamp_u32, validate_json_object, validate_max_len, validate_non_empty,
};

#[test]
fn error_messages() {
    let cases = vec![
        (MemoryError::InvalidName("x".into()), "Invalid store name: x"),
        (MemoryError::NotFound("x".into()), "Store not found: x"),
        (MemoryError::ActiveStoreDeletion("x".into()), "Cannot delete active store: x"),
        (MemoryError::Disconnected, "Store disconnected"),
        (MemoryError::ConnectionFailed("x".into()), "Connection failed: x"),
        (MemoryError::SchemaError("x".into()), "Schema error: x"),
        (MemoryError::InvalidPath("x".into()), "Invalid path: x"),
        (MemoryError::QueryFailed("x".into()), "Query failed: x"),
        (MemoryError::InvalidInput("x".into()), "Invalid input: x"),
        (MemoryError::DeleteFailed("x".into()), "Delete failed: x"),
        (MemoryError::DatabaseCorrupted("x".into()), "Database corrupted: x"),
        (MemoryError::StoreLocked("x".into()), "Store is locked by another process: x"),
        (
            MemoryError::SchemaVersionTooNew(12, 1),
            "Schema version 12 is newer than this binary supports (1)",
        ),
    ];
    for (e, text) in cases {
        assert_eq!(e.message(), text);
        assert_eq!(e.is_invalid_input(), matches!(e, MemoryError::InvalidInput(_)));
    }
}

#[test]
fn blob_round_trip() {
    let bytes = vec![0u8, 1, 2, 3, 255];
    let text = encode_blob(&bytes);
    assert_eq!(text, "AAECA/8=");
    assert_eq!(decode_blob_data(&text).unwrap(), bytes);
    assert_eq!(encode_blob(b"hello binary"), "aGVsbG8gYmluYXJ5");
    assert_eq!(encode_blob(b""), "");
    let err = decode_blob_data("@@@").unwrap_err();
    assert!(err.message().starts_with("Invalid input: invalid base64 blob_data: "));
}

#[test]
fn json_objects_are_bounded() {
    assert!(validate_json_object("{\"source\":\"user\",\"confidence\":0.9}", "metadata").is_ok());
    assert_eq!(
        validate_json_object("[1]", "metadata").unwrap_err().message(),
        "Invalid input: metadata must be a JSON object"
    );
    assert!(validate_json_object("not json", "metadata").is_err());
    let many: Vec<String> = (0..51).map(|i| format!("\"k{i}\":{i}")).collect();
    let text = format!("{{{}}}", many.join(","));
    assert_eq!(
        validate_json_object(&text, "metadata").unwrap_err().message(),
        "Invalid input: metadata exceeds maximum of 50 keys"
    );
    let deep = "{\"a\":{\"b\":{\"c\":{\"d\":{\"e\":{}}}}}}";
    assert_eq!(
        validate_json_object(deep, "metadata").unwrap_err().message(),
        "Invalid input: metadata exceeds maximum nesting depth of 5"
    );
    let ok_deep = "{\"a\":{\"b\":{\"c\":{\"d\":1}}}}";
    assert!(validate_json_object(ok_deep, "metadata").is_ok());
    let big = format!("{{\"k\":\"{}\"}}", "x".repeat(70_000));
    assert_eq!(
        validate_json_object(&big, "metadata").unwrap_err().message(),
        "Invalid input: metadata exceeds maximum length of 65536 bytes"
    );
}

#[test]
fn json_depth_counts_containers() {
    // {"a":[1,{"b":2}]}
    let shape = JsonShape::Object(vec![(
        "a".to_string(),
        JsonShape::Array(vec![
            JsonShape::Number,
            JsonShape::Object(vec![("b".to_string(), JsonShape::Number)]),
        ]),
    )]);
    assert_eq!(json_value_depth(&shape), 3);
    assert_eq!(json_value_depth(&JsonShape::Number), 0);
    assert_eq!(json_value_depth(&JsonShape::Array(vec![])), 1);
}

#[test]
fn field_checks_and_text_helpers() {
    assert_eq!(
        validate_non_empty("", "label").unwrap_err().message(),
        "Invalid input: label must not be empty"
    );
    assert_eq!(
        validate_max_len("abcd", 3, "label").unwrap_err().message(),
        "Invalid input: label exceeds maximum length of 3 bytes"
    );
    assert!(validate_max_len("é", 2, "label").is_ok());
    assert!(validate_max_len("é", 1, "label").is_err());
    assert_eq!(clamp_u32(0, 1, 10), 1);
    assert_eq!(clamp_u32(11, 1, 10), 10);
    assert_eq!(decimal_text(0), "0");
    assert_eq!(decimal_text(1234567890), "1234567890");
    assert!(str_eq("abc", "abc") && !str_eq("abc", "abd"));
    assert!(has_prefix("/proc/1", "/proc/") && !has_prefix("/pro", "/proc/"));
}
