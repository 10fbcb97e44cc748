use local_memory_mcp::error::MemoryError;
use local_memory_mcp::graph::{
    neighbors_request, traverse_request, validate_delete_edge, validate_insert_edge_params,
    validate_update_edge_params, Direction, InsertEdgeParams, UpdateEdgeParams,
    MAX_NEIGHBOR_LIMIT, MAX_TRAVERSE_DEPTH,
};

#[test]
fn test_add_edge_validates_empty_label() {
    let params = InsertEdgeParams {
        actor_id: "a1",
        from_memory_id: "m1",
        to_memory_id: "m2",
        label: "",
        properties: None,
    };
    let err = validate_insert_edge_params(&params).unwrap_err();
    assert!(matches!(err, MemoryError::InvalidInput(_)));
}

#[test]
fn test_add_edge_validates_self_edge() {
    let params = InsertEdgeParams {
        actor_id: "a1",
        from_memory_id: "m1",
        to_memory_id: "m1",
        label: "uses",
        properties: None,
    };
    let err = validate_insert_edge_params(&params).unwrap_err();
    assert!(matches!(err, MemoryError::InvalidInput(_)));
    assert!(err.message().contains("self-edges"));
}

#[test]
fn traversal_depth_is_clamped() {
    assert_eq!(traverse_request("a1", "m1", 100).unwrap(), MAX_TRAVERSE_DEPTH);
    assert_eq!(traverse_request("a1", "m1", 0).unwrap(), 1);
    assert_eq!(traverse_request("a1", "m1", 3).unwrap(), 3);
    assert!(traverse_request("", "m1", 3).is_err());
    assert_eq!(neighbors_request("a1", "m1", 5000).unwrap(), MAX_NEIGHBOR_LIMIT);
    assert!(neighbors_request("a1", "", 5).is_err());
}

#[test]
fn edge_properties_and_updates() {
    let params = InsertEdgeParams {
        actor_id: "a1",
        from_memory_id: "m1",
        to_memory_id: "m2",
        label: "relates_to",
        properties: Some("{\"weight\":0.9}"),
    };
    assert!(validate_insert_edge_params(&params).is_ok());
    let not_object = InsertEdgeParams {
        properties: Some("[0.9]"),
        ..params
    };
    assert_eq!(
        validate_insert_edge_params(&not_object).unwrap_err().message(),
        "Invalid input: properties must be a JSON object"
    );
    let nothing = UpdateEdgeParams {
        actor_id: "a1",
        edge_id: "e1",
        label: None,
        properties: None,
    };
    assert_eq!(
        validate_update_edge_params(&nothing).unwrap_err().message(),
        "Invalid input: at least one of label or properties must be provided"
    );
    let relabel = UpdateEdgeParams {
        label: Some("depends_on"),
        ..nothing
    };
    assert!(validate_update_edge_params(&relabel).is_ok());
    assert!(validate_delete_edge("a1", "e1").is_ok());
    assert!(validate_delete_edge("a1", "").is_err());
    assert_eq!(Direction::default(), Direction::Out);
}
