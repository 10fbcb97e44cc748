use local_memory_mcp::error::MemoryError;
use local_memory_mcp::memories::{
    list_memories_request, validate_consolidate_params, validate_consolidate_request,
    validate_embedding, validate_insert_memory_params, validate_list_memories_params,
    ConsolidateAction, EmbeddingInfo, InsertMemoryParams, ListMemoriesParams, EMBEDDING_DIM,
};

fn mem_params<'a>(actor: &'a str, content: &'a str, strategy: &'a str) -> InsertMemoryParams<'a> {
    InsertMemoryParams {
        actor_id: actor,
        content,
        strategy,
        namespace: None,
        metadata: None,
        source_session_id: None,
        embedding: None,
    }
}

/// What the checks read of a vector of floats.
fn embedding_of(v: &[f32]) -> EmbeddingInfo {
    EmbeddingInfo {
        dims: v.len(),
        all_finite: v.iter().all(|x| x.is_finite()),
    }
}

#[test]
fn memories_test_validate_empty_actor() {
    let params = mem_params("", "content", "semantic");
    assert!(matches!(
        validate_insert_memory_params(&params),
        Err(MemoryError::InvalidInput(_))
    ));
}

#[test]
fn test_validate_empty_content() {
    let params = mem_params("actor1", "", "semantic");
    assert!(matches!(
        validate_insert_memory_params(&params),
        Err(MemoryError::InvalidInput(_))
    ));
}

#[test]
fn test_validate_embedding_wrong_dim() {
    let params = InsertMemoryParams {
        embedding: Some(embedding_of(&[1.0, 2.0, 3.0])),
        ..mem_params("actor1", "content", "semantic")
    };
    assert!(matches!(
        validate_insert_memory_params(&params),
        Err(MemoryError::InvalidInput(_))
    ));
}

#[test]
fn test_validate_namespace_mutual_exclusion() {
    let params = ListMemoriesParams {
        actor_id: "actor1",
        namespace: Some("ns"),
        namespace_prefix: Some("prefix"),
        strategy: None,
        valid_only: true,
        limit: 100,
        offset: 0,
    };
    assert!(matches!(
        validate_list_memories_params(&params),
        Err(MemoryError::InvalidInput(_))
    ));
}

#[test]
fn test_validate_consolidate_update_content() {
    let action = ConsolidateAction::Update {
        content: "",
        embedding: None,
    };
    assert!(matches!(
        validate_consolidate_params(&action),
        Err(MemoryError::InvalidInput(_))
    ));
}

#[test]
fn test_store_memory_validates() {
    let params = mem_params("", "content", "semantic");
    assert!(matches!(
        validate_insert_memory_params(&params),
        Err(MemoryError::InvalidInput(_))
    ));
}

#[test]
fn embeddings_need_384_finite_components() {
    let good = vec![0.25f32; EMBEDDING_DIM];
    assert!(validate_embedding(&embedding_of(&good)).is_ok());
    let err = validate_embedding(&embedding_of(&good[..10])).unwrap_err();
    assert_eq!(
        err.message(),
        "Invalid input: embedding must have exactly 384 dimensions"
    );
    let mut nan = good.clone();
    nan[7] = f32::NAN;
    let err = validate_embedding(&embedding_of(&nan)).unwrap_err();
    assert_eq!(err.message(), "Invalid input: embedding contains NaN or infinity");
    let mut inf = good.clone();
    inf[0] = f32::INFINITY;
    assert!(validate_embedding(&embedding_of(&inf)).is_err());
}

#[test]
fn memory_metadata_must_be_an_object() {
    let ok = InsertMemoryParams {
        metadata: Some("{\"source\":\"user\"}"),
        ..mem_params("actor1", "content", "semantic")
    };
    assert!(validate_insert_memory_params(&ok).is_ok());
    let bad = InsertMemoryParams {
        metadata: Some("[1,2]"),
        ..mem_params("actor1", "content", "semantic")
    };
    assert!(validate_insert_memory_params(&bad).is_err());
}

#[test]
fn memory_listing_is_clamped() {
    let params = ListMemoriesParams {
        actor_id: "actor1",
        namespace: None,
        namespace_prefix: Some("/user"),
        strategy: None,
        valid_only: false,
        limit: 0,
        offset: 3,
    };
    let q = list_memories_request(&params).unwrap();
    assert_eq!(q.limit, 1);
    assert_eq!(q.offset, 3);
    assert_eq!(q.namespace_prefix, Some("/user"));
}

#[test]
fn consolidation_checks_the_record_reference() {
    let action = ConsolidateAction::Invalidate;
    assert!(validate_consolidate_request("actor1", "m1", &action).is_ok());
    assert!(validate_consolidate_request("", "m1", &action).is_err());
    assert!(validate_consolidate_request("actor1", "", &action).is_err());
    let update = ConsolidateAction::Update {
        content: "new",
        embedding: None,
    };
    assert!(validate_consolidate_params(&update).is_ok());
}

#[test]
fn memory_namespace_refuses_c1_controls() {
    let params = InsertMemoryParams {
        namespace: Some("/ns\u{85}"),
        ..mem_params("actor1", "content", "semantic")
    };
    assert!(matches!(
        validate_insert_memory_params(&params),
        Err(MemoryError::InvalidInput(_))
    ));
}
