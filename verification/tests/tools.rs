use local_memory_mcp::error::MemoryError;
use local_memory_mcp::events::{BranchFilter, DEFAULT_PAGE_LIMIT};
use local_memory_mcp::graph::{Direction, DEFAULT_NEIGHBOR_LIMIT, DEFAULT_TRAVERSE_DEPTH};
use local_memory_mcp::memories::ConsolidateAction;
use local_memory_mcp::sessions::DEFAULT_CHECKPOINT_LIMIT;
use local_memory_mcp::tools::{
    decode_event_blob, default_true, error_code, error_response, event_type_name,
    parse_branch_filter, parse_consolidate_action, role_name, ConsolidateActionType,
    CreateEdgeParams, CreateEventParams, EventType, GetNeighborsParams, ListCheckpointsToolParams,
    ListEventsParams, ListMemoryRecordsParams, ListNamespacesToolParams, ListSessionsParams, Role,
    TraverseParams, SERVER_INSTRUCTIONS,
};

#[test]
fn test_parse_branch_filter() {
    assert!(matches!(parse_branch_filter(None), BranchFilter::All));
    assert!(matches!(parse_branch_filter(Some("all")), BranchFilter::All));
    assert!(matches!(
        parse_branch_filter(Some("main")),
        BranchFilter::MainOnly
    ));
    match parse_branch_filter(Some("abc")) {
        BranchFilter::Specific(id) => assert_eq!(id, "abc"),
        _ => panic!("expected Specific"),
    }
}

#[test]
fn test_parse_consolidate_action() {
    // Update with content
    let action = parse_consolidate_action(&ConsolidateActionType::Update, Some("new"), None).unwrap();
    assert!(matches!(
        action,
        ConsolidateAction::Update {
            content: "new",
            embedding: None
        }
    ));

    // Update without content → error
    let err = parse_consolidate_action(&ConsolidateActionType::Update, None, None).unwrap_err();
    assert!(matches!(err, MemoryError::InvalidInput(_)));

    // Invalidate
    let action = parse_consolidate_action(&ConsolidateActionType::Invalidate, None, None).unwrap();
    assert!(matches!(action, ConsolidateAction::Invalidate));
}

#[test]
fn server_instructions_contains_required_vocabulary() {
    for keyword in &["actor_id", "namespace", "strategy", "embedding"] {
        assert!(
            SERVER_INSTRUCTIONS.contains(keyword),
            "SERVER_INSTRUCTIONS missing keyword: {keyword}"
        );
    }
}

#[test]
fn error_bodies_carry_code_and_escaped_message() {
    let nf = MemoryError::NotFound("x".to_string());
    assert_eq!(error_code(&nf), "not_found");
    assert_eq!(
        error_response(&nf),
        "{\"code\":\"not_found\",\"message\":\"Store not found: x\"}"
    );
    let quoted = MemoryError::InvalidInput("say \"hi\"\n".to_string());
    assert_eq!(
        error_response(&quoted),
        "{\"code\":\"invalid_input\",\"message\":\"Invalid input: say \\\"hi\\\"\\n\"}"
    );
    let controls = MemoryError::InvalidInput("a\u{1}\u{1f}\t\\/\u{7f}é".to_string());
    assert_eq!(
        error_response(&controls),
        "{\"code\":\"invalid_input\",\"message\":\"Invalid input: a\\u0001\\u001f\\t\\\\/\u{7f}é\"}"
    );
    assert_eq!(error_code(&MemoryError::InvalidName("x".into())), "invalid_input");
    assert_eq!(
        error_code(&MemoryError::ActiveStoreDeletion("x".into())),
        "invalid_input"
    );
    assert_eq!(error_code(&MemoryError::Disconnected), "internal");
    assert_eq!(error_code(&MemoryError::SchemaVersionTooNew(2, 1)), "internal");
}

#[test]
fn blob_arguments_are_decoded() {
    assert_eq!(decode_event_blob(None).unwrap(), None);
    assert_eq!(
        decode_event_blob(Some("aGVsbG8gYmluYXJ5")).unwrap(),
        Some(b"hello binary".to_vec())
    );
    let body = decode_event_blob(Some("not base64!")).unwrap_err();
    assert!(body.starts_with(
        "{\"code\":\"invalid_input\",\"message\":\"invalid base64 blob_data: "
    ));
    assert!(body.ends_with("\"}"));
}

#[test]
fn enum_names_and_defaults() {
    assert_eq!(event_type_name(EventType::Conversation), "conversation");
    assert_eq!(event_type_name(EventType::Blob), "blob");
    assert_eq!(role_name(Role::User), "user");
    assert_eq!(role_name(Role::Assistant), "assistant");
    assert_eq!(role_name(Role::Tool), "tool");
    assert_eq!(role_name(Role::System), "system");
    assert!(default_true());
}

#[test]
fn create_event_arguments_become_an_event() {
    let args = CreateEventParams {
        actor_id: "a1".into(),
        session_id: "s1".into(),
        event_type: EventType::Conversation,
        role: Some(Role::Assistant),
        content: Some("hello".into()),
        blob_data: None,
        metadata: None,
        branch_id: Some("b1".into()),
        expires_at: None,
    };
    let p = args.insert_params(None);
    assert_eq!(p.actor_id, "a1");
    assert_eq!(p.event_type, "conversation");
    assert_eq!(p.role, Some("assistant"));
    assert_eq!(p.content, Some("hello"));
    assert_eq!(p.branch_id, Some("b1"));
    assert_eq!(p.blob_data, None);
}

#[test]
fn listing_arguments_take_their_defaults() {
    let args = ListEventsParams {
        actor_id: "a1".into(),
        session_id: "s1".into(),
        branch_filter: Some("main".into()),
        limit: None,
        offset: None,
        before: None,
        after: Some("2026-01-01T00:00:01Z".into()),
    };
    let p = args.get_events_params();
    assert!(matches!(p.branch_id, BranchFilter::MainOnly));
    assert_eq!((p.limit, p.offset), (100, 0));
    assert_eq!(p.after, Some("2026-01-01T00:00:01Z"));

    let sessions = ListSessionsParams {
        actor_id: "a1".into(),
        limit: Some(5),
        offset: None,
    };
    assert_eq!(sessions.page(), (5, 0));

    let records = ListMemoryRecordsParams {
        actor_id: "a1".into(),
        namespace: None,
        namespace_prefix: Some("/user".into()),
        strategy: None,
        valid_only: default_true(),
        limit: None,
        offset: Some(7),
    };
    let q = records.list_params();
    assert_eq!((q.limit, q.offset, q.valid_only), (100, 7, true));
    assert_eq!(q.namespace_prefix, Some("/user"));

    let ns = ListNamespacesToolParams {
        prefix: None,
        limit: None,
        offset: None,
    };
    assert_eq!(ns.list_params().limit, DEFAULT_PAGE_LIMIT);

    let cps = ListCheckpointsToolParams {
        actor_id: "a1".into(),
        session_id: "s1".into(),
        limit: None,
        offset: None,
    };
    assert_eq!(cps.list_params().limit, DEFAULT_CHECKPOINT_LIMIT);
}

#[test]
fn graph_arguments_take_their_defaults() {
    let nb = GetNeighborsParams {
        actor_id: "a1".into(),
        memory_record_id: "m1".into(),
        direction: None,
        label: None,
        limit: None,
    };
    assert_eq!(nb.lookup(), (Direction::Out, None, DEFAULT_NEIGHBOR_LIMIT));
    let walk = TraverseParams {
        actor_id: "a1".into(),
        start_memory_record_id: "m1".into(),
        max_depth: None,
        label: Some("uses".into()),
        direction: Some(Direction::Both),
    };
    assert_eq!(walk.walk(), (DEFAULT_TRAVERSE_DEPTH, Some("uses"), Direction::Both));
    let edge = CreateEdgeParams {
        actor_id: "a1".into(),
        from_memory_record_id: "m1".into(),
        to_memory_record_id: "m2".into(),
        label: "relates_to".into(),
        properties: None,
    };
    let p = edge.insert_params();
    assert_eq!((p.from_memory_id, p.to_memory_id, p.label), ("m1", "m2", "relates_to"));
}
