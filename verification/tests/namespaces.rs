use local_memory_mcp::namespaces::like_prefix_pattern;
use local_memory_mcp::error::MemoryError;
use local_memory_mcp::memories::MAX_NAMESPACE_LEN;
use local_memory_mcp::namespaces::{
    list_namespaces_request, validate_create_namespace, validate_delete_namespace,
    validate_description, validate_namespace_name, validate_prefix, CreateNamespaceParams,
    ListNamespacesParams, MAX_DESCRIPTION_LEN,
};

#[test]
fn test_validate_name_empty() {
    assert!(matches!(
        validate_namespace_name(""),
        Err(MemoryError::InvalidInput(_))
    ));
}

#[test]
fn test_validate_name_too_long() {
    let long = "a".repeat(MAX_NAMESPACE_LEN + 1);
    assert!(matches!(
        validate_namespace_name(&long),
        Err(MemoryError::InvalidInput(_))
    ));
}

#[test]
fn test_validate_name_null_byte() {
    assert!(matches!(
        validate_namespace_name("foo\0bar"),
        Err(MemoryError::InvalidInput(_))
    ));
}

#[test]
fn test_validate_name_control_char() {
    for ch in ['\n', '\t', '\x1b'] {
        let s = format!("foo{ch}bar");
        assert!(
            matches!(validate_namespace_name(&s), Err(MemoryError::InvalidInput(_))),
            "expected error for control char {:?}",
            ch
        );
    }
}

#[test]
fn test_validate_name_del_char() {
    assert!(matches!(
        validate_namespace_name("foo\x7fbar"),
        Err(MemoryError::InvalidInput(_))
    ));
}

#[test]
fn test_validate_description_too_long() {
    let long = "x".repeat(MAX_DESCRIPTION_LEN + 1);
    assert!(matches!(
        validate_description(&long),
        Err(MemoryError::InvalidInput(_))
    ));
}

#[test]
fn test_validate_prefix_empty() {
    assert!(matches!(
        validate_prefix(""),
        Err(MemoryError::InvalidInput(_))
    ));
}

#[test]
fn namespace_names_at_the_limits() {
    assert!(validate_namespace_name("/user/alice/preferences").is_ok());
    assert!(validate_namespace_name(&"a".repeat(MAX_NAMESPACE_LEN)).is_ok());
    // 512 bytes counted in UTF-8: 256 two-byte characters fit, 257 do not
    assert!(validate_namespace_name(&"é".repeat(256)).is_ok());
    let err = validate_namespace_name(&"é".repeat(257)).unwrap_err();
    assert_eq!(
        err.message(),
        "Invalid input: namespace name exceeds maximum length of 512 bytes (UTF-8)"
    );
    assert_eq!(
        validate_namespace_name("a\nb").unwrap_err().message(),
        "Invalid input: namespace name must not contain control characters or null bytes"
    );
    assert!(validate_description(&"x".repeat(MAX_DESCRIPTION_LEN)).is_ok());
}

#[test]
fn namespace_requests() {
    let create = CreateNamespaceParams {
        name: "/user/alice",
        description: Some("Alice's namespace"),
    };
    assert!(validate_create_namespace(&create).is_ok());
    let bad = CreateNamespaceParams {
        name: "",
        description: None,
    };
    assert!(validate_create_namespace(&bad).is_err());
    let list = ListNamespacesParams {
        prefix: Some("/user"),
        limit: 0,
        offset: 2,
    };
    let q = list_namespaces_request(&list).unwrap();
    assert_eq!(q.limit, 1);
    assert_eq!(q.offset, 2);
    let empty_prefix = ListNamespacesParams {
        prefix: Some(""),
        limit: 10,
        offset: 0,
    };
    assert!(list_namespaces_request(&empty_prefix).is_err());
    assert!(validate_delete_namespace("actor1", "/nonexistent").is_ok());
    assert!(validate_delete_namespace("", "/ns").is_err());
}

#[test]
fn prefix_patterns_escape_wildcards() {
    assert_eq!(like_prefix_pattern("/user"), "/user%");
    assert_eq!(like_prefix_pattern("/a%b"), "/a\\%b%");
    assert_eq!(like_prefix_pattern("/a_b\\c"), "/a\\_b\\\\c%");
}

#[test]
fn namespace_names_refuse_every_control_character() {
    for ch in ['\u{0}', '\u{1f}', '\u{7f}', '\u{80}', '\u{85}', '\u{9b}', '\u{9f}'] {
        let s = format!("/ns{ch}x");
        assert_eq!(
            validate_namespace_name(&s).unwrap_err().message(),
            "Invalid input: namespace name must not contain control characters or null bytes"
        );
    }
    assert!(validate_namespace_name("/user/\u{a0}caf\u{e9}/\u{1f600}").is_ok());
}
