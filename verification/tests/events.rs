use local_memory_mcp::error::MemoryError;
use local_memory_mcp::events::{
    clamp_page_limit, get_events_request, list_sessions_request, validate_get_events_params,
    validate_insert_params, validate_timestamp_format, BranchFilter, GetEventsParams,
    InsertEventParams, MAX_CONTENT_SIZE, MAX_PAGE_LIMIT,
};

fn conversation_params<'a>(
    actor: &'a str,
    session: &'a str,
    content: &'a str,
) -> InsertEventParams<'a> {
    InsertEventParams {
        actor_id: actor,
        session_id: session,
        event_type: "conversation",
        role: Some("user"),
        content: Some(content),
        blob_data: None,
        metadata: None,
        branch_id: None,
        expires_at: None,
    }
}

fn window<'a>(actor: &'a str, session: &'a str) -> GetEventsParams<'a> {
    GetEventsParams {
        actor_id: actor,
        session_id: session,
        branch_id: BranchFilter::All,
        limit: 100,
        offset: 0,
        before: None,
        after: None,
    }
}

#[test]
fn test_validate_event_type() {
    let params = InsertEventParams {
        event_type: "invalid",
        ..conversation_params("a", "s", "hi")
    };
    let err = validate_insert_params(&params).unwrap_err();
    assert!(matches!(err, MemoryError::InvalidInput(_)));
}

#[test]
fn events_test_validate_empty_actor() {
    let params = conversation_params("", "s", "hi");
    let err = validate_insert_params(&params).unwrap_err();
    assert!(matches!(err, MemoryError::InvalidInput(_)));
}

#[test]
fn test_validate_content_blob_mismatch() {
    // conversation without content
    let params = InsertEventParams {
        content: None,
        ..conversation_params("a", "s", "hi")
    };
    assert!(validate_insert_params(&params).is_err());

    // blob without blob_data
    let params = InsertEventParams {
        event_type: "blob",
        content: None,
        blob_data: None,
        ..conversation_params("a", "s", "hi")
    };
    assert!(validate_insert_params(&params).is_err());
}

#[test]
fn test_validate_content_size() {
    let big = "x".repeat(MAX_CONTENT_SIZE + 1);
    let params = conversation_params("a", "s", &big);
    let err = validate_insert_params(&params).unwrap_err();
    assert!(matches!(err, MemoryError::InvalidInput(_)));
}

#[test]
fn test_add_event_validates() {
    let params = InsertEventParams {
        event_type: "bad",
        ..conversation_params("a", "s", "hi")
    };
    let err = validate_insert_params(&params).unwrap_err();
    assert!(matches!(err, MemoryError::InvalidInput(_)));
}

#[test]
fn valid_conversation_and_blob_events_are_accepted() {
    assert!(validate_insert_params(&conversation_params("a", "s", "hi")).is_ok());
    let bytes = [0u8, 1, 2, 3, 255];
    let blob = InsertEventParams {
        event_type: "blob",
        role: None,
        content: None,
        blob_data: Some(&bytes),
        ..conversation_params("a", "s", "hi")
    };
    assert!(validate_insert_params(&blob).is_ok());
}

#[test]
fn event_with_both_payloads_is_rejected() {
    let bytes = [1u8];
    let params = InsertEventParams {
        blob_data: Some(&bytes),
        ..conversation_params("a", "s", "hi")
    };
    assert!(matches!(
        validate_insert_params(&params),
        Err(MemoryError::InvalidInput(_))
    ));
}

#[test]
fn timestamps_must_be_utc_seconds() {
    assert!(validate_timestamp_format("2026-01-01T00:00:01Z", "before").is_ok());
    assert!(validate_timestamp_format("2026-01-01 00:00:01", "before").is_err());
    assert!(validate_timestamp_format("2026-01-01T00:00:01+00:00", "after").is_err());
    let params = InsertEventParams {
        expires_at: Some("tomorrow"),
        ..conversation_params("a", "s", "hi")
    };
    assert!(validate_insert_params(&params).is_err());
}

#[test]
fn event_window_requires_actor_and_session() {
    assert!(validate_get_events_params(&window("a1", "s1")).is_ok());
    let err = validate_get_events_params(&window("", "s1")).unwrap_err();
    assert_eq!(err.message(), "Invalid input: actor_id must not be empty");
    let err = validate_get_events_params(&window("a1", "")).unwrap_err();
    assert_eq!(err.message(), "Invalid input: session_id must not be empty");
    let bad_bound = GetEventsParams {
        before: Some("yesterday"),
        ..window("a1", "s1")
    };
    assert!(validate_get_events_params(&bad_bound).is_err());
}

#[test]
fn event_window_limit_is_clamped() {
    let big = GetEventsParams {
        limit: 5000,
        ..window("a1", "s1")
    };
    let q = get_events_request(&big).unwrap();
    assert_eq!(q.limit, MAX_PAGE_LIMIT);
    assert_eq!(q.offset, 0);
    let zero = GetEventsParams {
        limit: 0,
        ..window("a1", "s1")
    };
    assert_eq!(get_events_request(&zero).unwrap().limit, 1);
    assert_eq!(clamp_page_limit(42), 42);
    assert_eq!(list_sessions_request("a1", 0).unwrap(), 1);
    assert!(list_sessions_request("", 10).is_err());
}
