use local_memory_mcp::search::{knn_candidates, MAX_K_OVERFETCH};
use local_memory_mcp::error::MemoryError;
use local_memory_mcp::memories::{EmbeddingInfo, Memory};
use local_memory_mcp::search::{
    finish_recall, fts_search_params, vector_search_params, plan_recall, reciprocal_rank_fusion, sanitize_fts_query,
    validate_recall_params, RankedMemory, RecallMode, RecallParams, ScoreKind, MAX_FTS_TOKENS,
    MAX_QUERY_LEN, RRF_K,
};

fn make_mem(id: &str) -> Memory {
    Memory {
        id: id.to_string(),
        actor_id: "a".to_string(),
        namespace: "default".to_string(),
        strategy: "semantic".to_string(),
        content: id.to_string(),
        metadata: None,
        source_session_id: None,
        is_valid: true,
        superseded_by: None,
        created_at: "2026-01-01T00:00:00Z".to_string(),
        updated_at: "2026-01-01T00:00:00Z".to_string(),
    }
}

/// The fused score of an entry, from its ranks.
fn rrf_score(r: &RankedMemory) -> f64 {
    let k = RRF_K as f64;
    let part = |rank: Option<usize>| rank.map_or(0.0, |x| 1.0 / (k + x as f64));
    part(r.fts_rank) + part(r.vector_rank)
}

fn recall_params<'a>(query: Option<&'a str>, embedding: Option<EmbeddingInfo>) -> RecallParams<'a> {
    RecallParams {
        actor_id: "a",
        query,
        embedding,
        namespace: None,
        namespace_prefix: None,
        strategy: None,
        limit: 10,
    }
}

fn embedding(dims: usize) -> EmbeddingInfo {
    EmbeddingInfo {
        dims,
        all_finite: true,
    }
}

#[test]
fn test_sanitize_strips_operators() {
    let result = sanitize_fts_query("Rust OR DROP").unwrap();
    assert_eq!(result, "\"Rust\" \"OR\" \"DROP\"");
}

#[test]
fn test_sanitize_empty_input() {
    assert!(sanitize_fts_query("").is_none());
}

#[test]
fn test_sanitize_only_special_chars() {
    assert!(sanitize_fts_query("*** *** ***").is_none());
}

#[test]
fn test_sanitize_preserves_unicode() {
    let result = sanitize_fts_query("café naïve").unwrap();
    assert_eq!(result, "\"café\" \"naïve\"");
}

#[test]
fn test_sanitize_caps_token_count() {
    let input = (0..100)
        .map(|i| format!("word{i}"))
        .collect::<Vec<_>>()
        .join(" ");
    let result = sanitize_fts_query(&input).unwrap();
    let count = result.split_whitespace().count();
    assert_eq!(count, MAX_FTS_TOKENS);
}

#[test]
fn sanitized_query_holds_only_quoted_tokens() {
    let result = sanitize_fts_query("  NEAR(a* -b) col:value ^x \"quoted\"  ").unwrap();
    assert_eq!(result, "\"NEARa\" \"b\" \"colvalue\" \"x\" \"quoted\"");
    assert!(result
        .chars()
        .all(|c| c == '"' || c == ' ' || c.is_alphanumeric() || c == '_'));
    assert_eq!(
        sanitize_fts_query("snake_case\tand\nnewlines").unwrap(),
        "\"snake_case\" \"and\" \"newlines\""
    );
}

#[test]
fn test_rrf_known_scores() {
    // FTS returns [A, B], vector returns [B, C]
    // A: 1/(60+1) from FTS only
    // B: 1/(60+1) + 1/(60+2) from both
    // C: 1/(60+2) from vector only
    // Expected order: B > A > C
    let fts = vec![make_mem("A"), make_mem("B")];
    let vec = vec![make_mem("B"), make_mem("C")];

    let results = reciprocal_rank_fusion(&fts, &vec, 10);
    assert_eq!(results.len(), 3);
    assert_eq!(results[0].memory.id, "B");
    assert_eq!(results[1].memory.id, "A");
    assert_eq!(results[2].memory.id, "C");

    let k = RRF_K as f64;
    let score_a = 1.0 / (k + 1.0);
    let score_b = 1.0 / (k + 1.0) + 1.0 / (k + 2.0);
    let score_c = 1.0 / (k + 2.0);
    assert!((rrf_score(&results[0]) - score_b).abs() < 1e-10);
    assert!((rrf_score(&results[1]) - score_a).abs() < 1e-10);
    assert!((rrf_score(&results[2]) - score_c).abs() < 1e-10);
}

#[test]
fn test_rrf_disjoint_lists() {
    let fts = vec![make_mem("A"), make_mem("B")];
    let vec = vec![make_mem("C"), make_mem("D")];
    let results = reciprocal_rank_fusion(&fts, &vec, 10);
    assert_eq!(results.len(), 4);
    // All get single-list scores; A and C (rank 1) should tie, B and D (rank 2) should tie
    let k = RRF_K as f64;
    let score_rank1 = 1.0 / (k + 1.0);
    let score_rank2 = 1.0 / (k + 2.0);
    for r in &results {
        assert!(
            (rrf_score(r) - score_rank1).abs() < 1e-10 || (rrf_score(r) - score_rank2).abs() < 1e-10
        );
    }
}

#[test]
fn fusion_keeps_ranks_order_and_limit() {
    let fts = vec![make_mem("A"), make_mem("B"), make_mem("C")];
    let vec = vec![make_mem("C"), make_mem("D")];
    let results = reciprocal_rank_fusion(&fts, &vec, 2);
    assert_eq!(results.len(), 2);
    // C is in both lists (ranks 3 and 1): 1/63 + 1/61 beats A's 1/61
    assert_eq!(results[0].memory.id, "C");
    assert_eq!(results[0].fts_rank, Some(3));
    assert_eq!(results[0].vector_rank, Some(1));
    assert_eq!(results[1].memory.id, "A");
    assert_eq!(results[1].fts_rank, Some(1));
    assert_eq!(results[1].vector_rank, None);
    for w in results.windows(2) {
        assert!(rrf_score(&w[0]) >= rrf_score(&w[1]));
    }
    assert!(reciprocal_rank_fusion(&fts, &vec, 0).is_empty());
}

#[test]
fn test_recall_requires_query_or_embedding() {
    let params = recall_params(None, None);
    assert!(matches!(
        validate_recall_params(&params),
        Err(MemoryError::InvalidInput(_))
    ));
}

#[test]
fn test_recall_rejects_long_query() {
    let long = "a ".repeat(MAX_QUERY_LEN);
    let params = recall_params(Some(&long), None);
    assert!(matches!(
        validate_recall_params(&params),
        Err(MemoryError::InvalidInput(_))
    ));
}

#[test]
fn test_recall_validates_inputs() {
    // Empty actor_id
    let params = RecallParams {
        actor_id: "",
        ..recall_params(Some("hello"), None)
    };
    assert!(matches!(
        validate_recall_params(&params),
        Err(MemoryError::InvalidInput(_))
    ));

    // Wrong embedding dim
    let params = recall_params(None, Some(embedding(10)));
    assert!(matches!(
        validate_recall_params(&params),
        Err(MemoryError::InvalidInput(_))
    ));

    // Both namespace + namespace_prefix
    let params = RecallParams {
        namespace: Some("ns"),
        namespace_prefix: Some("prefix"),
        ..recall_params(Some("hello"), None)
    };
    assert!(matches!(
        validate_recall_params(&params),
        Err(MemoryError::InvalidInput(_))
    ));
}

#[test]
fn recall_plans_by_mode() {
    let text = plan_recall(&recall_params(Some("fox"), None)).unwrap();
    assert_eq!(text.mode, RecallMode::FullText);
    assert_eq!(text.fts_query.as_deref(), Some("\"fox\""));
    assert_eq!((text.limit, text.fetch_limit), (10, 10));

    let vector = plan_recall(&recall_params(None, Some(embedding(384)))).unwrap();
    assert_eq!(vector.mode, RecallMode::Vector);
    assert_eq!(vector.fts_query, None);

    let hybrid = plan_recall(&recall_params(Some("fox"), Some(embedding(384)))).unwrap();
    assert_eq!(hybrid.mode, RecallMode::Hybrid);
    assert_eq!(hybrid.fetch_limit, 20);

    let big = RecallParams {
        limit: 900,
        ..recall_params(Some("fox"), Some(embedding(384)))
    };
    let plan = plan_recall(&big).unwrap();
    assert_eq!((plan.limit, plan.fetch_limit), (900, 1000));

    let err = plan_recall(&recall_params(Some("*** ---"), None)).unwrap_err();
    assert_eq!(err.message(), "Invalid input: query contains no searchable terms");
    // in a hybrid search the empty text query only leaves the full-text list out
    let hybrid_no_terms = plan_recall(&recall_params(Some("***"), Some(embedding(384)))).unwrap();
    assert_eq!(hybrid_no_terms.mode, RecallMode::Hybrid);
    let p = recall_params(Some("***"), Some(embedding(384)));
    assert!(fts_search_params(&p, &hybrid_no_terms).is_none());
    let p = recall_params(Some("fox"), Some(embedding(384)));
    let f = fts_search_params(&p, &hybrid).unwrap();
    assert_eq!(f.fts_query, "\"fox\"");
    assert_eq!(f.limit, 20);
}

#[test]
fn recall_results_by_mode() {
    let fts = vec![make_mem("A"), make_mem("B")];
    let vec = vec![make_mem("B"), make_mem("C"), make_mem("D")];
    let text = plan_recall(&recall_params(Some("fox"), None)).unwrap();
    let (kind, rows) = finish_recall(&text, &fts, &vec);
    assert_eq!(kind, ScoreKind::FullText);
    assert_eq!(rows.len(), 2);
    assert_eq!(rows[1].fts_rank, Some(2));

    let hybrid = RecallParams {
        limit: 2,
        ..recall_params(Some("fox"), Some(embedding(384)))
    };
    let plan = plan_recall(&hybrid).unwrap();
    let (kind, rows) = finish_recall(&plan, &fts, &vec);
    assert_eq!(kind, ScoreKind::Fused);
    assert_eq!(rows.len(), 2);
    assert_eq!(rows[0].memory.id, "B");

    // no full-text hits: the first page of the vector list
    let (kind, rows) = finish_recall(&plan, &Vec::new(), &vec);
    assert_eq!(kind, ScoreKind::Vector);
    assert_eq!(rows.len(), 2);
    assert_eq!(rows[0].memory.id, "B");
    assert_eq!(rows[1].vector_rank, Some(2));
}

#[test]
fn vector_candidates_are_capped() {
    assert_eq!(knn_candidates(10), 40);
    assert_eq!(knn_candidates(250), 1000);
    assert_eq!(knn_candidates(300), MAX_K_OVERFETCH);
    assert_eq!(knn_candidates(u32::MAX), MAX_K_OVERFETCH);
    assert_eq!(knn_candidates(0), 0);
}

#[test]
fn vector_search_takes_the_request_filters() {
    let p = RecallParams {
        namespace: Some("/user/alice"),
        strategy: Some("semantic"),
        limit: 7,
        ..recall_params(None, Some(embedding(384)))
    };
    let plan = plan_recall(&p).unwrap();
    let v = vector_search_params(&p, &plan).unwrap();
    assert_eq!(v.actor_id, "a");
    assert_eq!(v.namespace, Some("/user/alice"));
    assert_eq!(v.namespace_prefix, None);
    assert_eq!(v.strategy, Some("semantic"));
    assert_eq!(v.limit, 7);
    let hybrid = RecallParams {
        namespace_prefix: Some("/user"),
        ..recall_params(Some("fox"), Some(embedding(384)))
    };
    let plan = plan_recall(&hybrid).unwrap();
    let v = vector_search_params(&hybrid, &plan).unwrap();
    assert_eq!((v.limit, v.namespace_prefix), (20, Some("/user")));
    let text = recall_params(Some("fox"), None);
    let plan = plan_recall(&text).unwrap();
    assert!(vector_search_params(&text, &plan).is_none());
}

#[test]
fn finish_recall_fulltext_only() {
    let fts = vec![make_mem("A"), make_mem("B"), make_mem("C")];
    let plan = plan_recall(&recall_params(Some("rust"), None)).unwrap();
    let (kind, rows) = finish_recall(&plan, &fts, &Vec::new());
    assert_eq!(kind, ScoreKind::FullText);
    let ids: Vec<&str> = rows.iter().map(|r| r.memory.id.as_str()).collect();
    assert_eq!(ids, vec!["A", "B", "C"]);
    assert_eq!(rows[2].fts_rank, Some(3));
    assert_eq!(rows[2].vector_rank, None);
}

#[test]
fn finish_recall_vector_only() {
    let vec = vec![make_mem("X"), make_mem("Y")];
    let plan = plan_recall(&recall_params(None, Some(embedding(384)))).unwrap();
    let (kind, rows) = finish_recall(&plan, &Vec::new(), &vec);
    assert_eq!(kind, ScoreKind::Vector);
    let ids: Vec<&str> = rows.iter().map(|r| r.memory.id.as_str()).collect();
    assert_eq!(ids, vec!["X", "Y"]);
    assert_eq!(rows[0].vector_rank, Some(1));
    assert_eq!(rows[0].fts_rank, None);
}

#[test]
fn finish_recall_hybrid_fuses() {
    // a record found by both searches comes first
    let fts = vec![make_mem("T"), make_mem("U")];
    let vec = vec![make_mem("V"), make_mem("T")];
    let plan = plan_recall(&recall_params(Some("unique"), Some(embedding(384)))).unwrap();
    let (kind, rows) = finish_recall(&plan, &fts, &vec);
    assert_eq!(kind, ScoreKind::Fused);
    assert_eq!(rows.len(), 3);
    assert_eq!(rows[0].memory.id, "T");
    assert_eq!((rows[0].fts_rank, rows[0].vector_rank), (Some(1), Some(2)));
}

#[test]
fn fusion_is_symmetric_and_sanitizing_idempotent() {
    let fts = vec![make_mem("A"), make_mem("B"), make_mem("C")];
    let vec = vec![make_mem("C"), make_mem("D")];
    let mut one: Vec<(String, u64)> = reciprocal_rank_fusion(&fts, &vec, 10)
        .iter()
        .map(|r| (r.memory.id.clone(), (rrf_score(r) * 1e12).round() as u64))
        .collect();
    let mut two: Vec<(String, u64)> = reciprocal_rank_fusion(&vec, &fts, 10)
        .iter()
        .map(|r| (r.memory.id.clone(), (rrf_score(r) * 1e12).round() as u64))
        .collect();
    one.sort();
    two.sort();
    assert_eq!(one, two);
    let once = sanitize_fts_query("Rust* OR (DROP-table) café").unwrap();
    assert_eq!(sanitize_fts_query(&once).unwrap(), once);
}
