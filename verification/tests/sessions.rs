use local_memory_mcp::error::MemoryError;
use local_memory_mcp::sessions::{
    list_branches_request, list_checkpoints_request, validate_branch_params,
    validate_checkpoint_params, validate_metadata_json, validate_no_control_chars,
    InsertBranchParams, InsertCheckpointParams, ListBranchesParams, ListCheckpointsParams,
    MAX_CHECKPOINT_LIMIT,
};

fn make_checkpoint_params<'a>(
    actor_id: &'a str,
    session_id: &'a str,
    name: &'a str,
    event_id: &'a str,
) -> InsertCheckpointParams<'a> {
    InsertCheckpointParams {
        actor_id,
        session_id,
        name,
        event_id,
        metadata: None,
    }
}

#[test]
fn test_validate_empty_actor_id() {
    let params = make_checkpoint_params("", "session1", "checkpoint1", "event-id-1234567890");
    let err = validate_checkpoint_params(&params).unwrap_err();
    assert!(matches!(err, MemoryError::InvalidInput(_)));
}

#[test]
fn test_validate_checkpoint_name_control_chars() {
    let params = make_checkpoint_params("actor1", "session1", "\x01name", "event-id-123456789");
    let err = validate_checkpoint_params(&params).unwrap_err();
    assert!(matches!(err, MemoryError::InvalidInput(_)));
    let msg = err.message();
    assert!(msg.contains("control characters"));
}

#[test]
fn test_validate_checkpoint_name_empty() {
    let params = make_checkpoint_params("actor1", "session1", "", "event-id-123456789012");
    let err = validate_checkpoint_params(&params).unwrap_err();
    assert!(matches!(err, MemoryError::InvalidInput(_)));
}

#[test]
fn test_validate_metadata_not_object() {
    let params = InsertCheckpointParams {
        metadata: Some("[]"),
        ..make_checkpoint_params("actor1", "session1", "cp1", "event-id-1234567890123")
    };
    let err = validate_checkpoint_params(&params).unwrap_err();
    assert!(matches!(err, MemoryError::InvalidInput(_)));
    let msg = err.message();
    assert!(msg.contains("metadata must be a JSON object"));
}

#[test]
fn test_validate_metadata_invalid_json() {
    let params = InsertCheckpointParams {
        metadata: Some("not json"),
        ..make_checkpoint_params("actor1", "session1", "cp1", "event-id-1234567890123")
    };
    let err = validate_checkpoint_params(&params).unwrap_err();
    assert!(matches!(err, MemoryError::InvalidInput(_)));
    let msg = err.message();
    assert!(msg.contains("metadata must be a JSON object"));
}

#[test]
fn test_validate_branch_name_control_chars() {
    let params = InsertBranchParams {
        actor_id: "actor1",
        session_id: "session1",
        root_event_id: "event-id-12345678901",
        name: Some("\x01branch"),
        parent_branch_id: None,
    };
    let err = validate_branch_params(&params).unwrap_err();
    assert!(matches!(err, MemoryError::InvalidInput(_)));
    let msg = err.message();
    assert!(msg.contains("control characters"));
}

#[test]
fn test_validate_event_id_too_long() {
    // event_id > 36 chars
    let long_id = "a".repeat(37);
    let params = make_checkpoint_params("actor1", "session1", "cp1", &long_id);
    let err = validate_checkpoint_params(&params).unwrap_err();
    assert!(matches!(err, MemoryError::InvalidInput(_)));
}

#[test]
fn valid_checkpoints_and_branches_pass() {
    let params = InsertCheckpointParams {
        metadata: Some("{\"step\":3}"),
        ..make_checkpoint_params("actor1", "session1", "before-refactor", "event-id-1")
    };
    assert!(validate_checkpoint_params(&params).is_ok());
    let branch = InsertBranchParams {
        actor_id: "actor1",
        session_id: "session1",
        root_event_id: "event-id-1",
        name: Some("experiment-a"),
        parent_branch_id: None,
    };
    assert!(validate_branch_params(&branch).is_ok());
    assert_eq!(
        validate_no_control_chars("a\u{85}b", "name").unwrap_err().message(),
        "Invalid input: name must not contain control characters"
    );
    assert!(validate_metadata_json("{}").is_ok());
}

#[test]
fn session_listings_are_clamped() {
    let cps = ListCheckpointsParams {
        actor_id: "actor1",
        session_id: "session1",
        limit: 100_000,
        offset: 0,
    };
    assert_eq!(list_checkpoints_request(&cps).unwrap().limit, MAX_CHECKPOINT_LIMIT);
    let brs = ListBranchesParams {
        actor_id: "actor1",
        session_id: "",
        limit: 10,
        offset: 0,
    };
    assert!(list_branches_request(&brs).is_err());
}

#[test]
fn names_are_at_most_64_characters() {
    let name64 = "c".repeat(64);
    let name65 = "c".repeat(65);
    let ok = make_checkpoint_params("actor1", "session1", &name64, "event-1");
    assert!(validate_checkpoint_params(&ok).is_ok());
    let long = make_checkpoint_params("actor1", "session1", &name65, "event-1");
    assert_eq!(
        validate_checkpoint_params(&long).unwrap_err().message(),
        "Invalid input: name exceeds maximum length of 64 characters"
    );
    // characters, not bytes: 64 two-byte characters fit
    let wide = "é".repeat(64);
    let ok = make_checkpoint_params("actor1", "session1", &wide, "event-1");
    assert!(validate_checkpoint_params(&ok).is_ok());
    let branch = InsertBranchParams {
        actor_id: "actor1",
        session_id: "session1",
        root_event_id: "event-1",
        name: Some(&name65),
        parent_branch_id: None,
    };
    assert!(matches!(
        validate_branch_params(&branch),
        Err(MemoryError::InvalidInput(_))
    ));
    let branch = InsertBranchParams {
        name: Some(&name64),
        ..branch
    };
    assert!(validate_branch_params(&branch).is_ok());
}
