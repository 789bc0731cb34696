use semantic_search::ranking::{
    COSINE_SCORE, DOT_SCORE, EUCLIDEAN_SCORE, INSERT_STATEMENT, MANHATTAN_SCORE, QUERY_CLOSING,
    QUERY_OPENING, SCHEMA_STATEMENT, STORE_DATABASE, STORE_NAMESPACE,
};
use semantic_search::{build_query, get_query_template, RankingStrategy, Score};

fn all_strategies() -> Vec<RankingStrategy> {
    vec![
        RankingStrategy::Cosine,
        RankingStrategy::Euclidean,
        RankingStrategy::Manhattan,
        RankingStrategy::Dot,
    ]
}

#[test]
fn cosine_template_is_exact() {
    assert_eq!(
        get_query_template(&RankingStrategy::Cosine),
        r#"
            SELECT * FROM (
                SELECT id, vector::similarity::cosine(vector, $query_vector) AS similarity_score
                FROM embeddings
            ) WHERE similarity_score > $threshold
            ORDER BY similarity_score DESC, id ASC
            LIMIT $limit
        "#
    );
}

#[test]
fn euclidean_template_is_exact() {
    assert_eq!(
        get_query_template(&RankingStrategy::Euclidean),
        r#"
            SELECT * FROM (
                SELECT id, (1.0 / (1.0 + vector::distance::euclidean(vector, $query_vector))) AS similarity_score
                FROM embeddings
            ) WHERE similarity_score > $threshold
            ORDER BY similarity_score DESC, id ASC
            LIMIT $limit
        "#
    );
}

#[test]
fn manhattan_template_is_exact() {
    assert_eq!(
        get_query_template(&RankingStrategy::Manhattan),
        r#"
            SELECT * FROM (
                SELECT id, (1.0 / (1.0 + vector::distance::manhattan(vector, $query_vector))) AS similarity_score
                FROM embeddings
            ) WHERE similarity_score > $threshold
            ORDER BY similarity_score DESC, id ASC
            LIMIT $limit
        "#
    );
}

#[test]
fn dot_template_is_exact() {
    assert_eq!(
        get_query_template(&RankingStrategy::Dot),
        r#"
            SELECT * FROM (
                SELECT id, vector::similarity::dot(vector, $query_vector) AS similarity_score
                FROM embeddings
            ) WHERE similarity_score > $threshold
            ORDER BY similarity_score DESC, id ASC
            LIMIT $limit
        "#
    );
}

#[test]
fn each_strategy_has_its_own_formula() {
    assert!(get_query_template(&RankingStrategy::Cosine)
        .contains("vector::similarity::cosine(vector, $query_vector) AS similarity_score"));
    assert!(get_query_template(&RankingStrategy::Euclidean).contains(
        "(1.0 / (1.0 + vector::distance::euclidean(vector, $query_vector))) AS similarity_score"
    ));
    assert!(get_query_template(&RankingStrategy::Manhattan).contains(
        "(1.0 / (1.0 + vector::distance::manhattan(vector, $query_vector))) AS similarity_score"
    ));
    assert!(get_query_template(&RankingStrategy::Dot)
        .contains("vector::similarity::dot(vector, $query_vector) AS similarity_score"));
    let strategies = all_strategies();
    for a in 0..strategies.len() {
        for b in 0..strategies.len() {
            if a != b {
                assert_ne!(
                    get_query_template(&strategies[a]),
                    get_query_template(&strategies[b])
                );
            }
        }
    }
}

#[test]
fn every_template_filters_orders_and_limits() {
    for strategy in all_strategies() {
        let template = get_query_template(&strategy);
        assert!(template.contains("FROM embeddings"));
        assert!(template.contains("WHERE similarity_score > $threshold"));
        assert!(template.contains("ORDER BY similarity_score DESC, id ASC\n"));
        assert_eq!(template.matches("ORDER BY").count(), 1);
        assert!(template.contains("LIMIT $limit"));
        assert_eq!(
            template.contains("1.0 / (1.0 + vector::distance::"),
            matches!(
                strategy,
                RankingStrategy::Euclidean | RankingStrategy::Manhattan
            )
        );
    }
}

#[test]
fn build_query_carries_threshold_and_limit() {
    for strategy in all_strategies() {
        let plan = build_query(&strategy, Score::from_bits(0.5f32.to_bits()), 3);
        assert_eq!(plan.statement, get_query_template(&strategy));
        assert_eq!(plan.threshold.to_bits(), 0.5f32.to_bits());
        assert_eq!(plan.limit, 3i64);
    }
    let widest = build_query(&RankingStrategy::Dot, Score::from_bits(0), u32::MAX);
    assert_eq!(widest.limit, 4_294_967_295i64);
}

#[test]
fn store_statements_are_exact() {
    assert_eq!(INSERT_STATEMENT, "CREATE embeddings SET vector = $vector");
    assert_eq!(STORE_NAMESPACE, "vibe");
    assert_eq!(STORE_DATABASE, "code");
    assert_eq!(
        SCHEMA_STATEMENT,
        r#"
        DEFINE TABLE IF NOT EXISTS embeddings SCHEMAFULL;
        DEFINE FIELD IF NOT EXISTS id ON TABLE embeddings TYPE record<embeddings>;
        DEFINE FIELD IF NOT EXISTS vector ON TABLE embeddings TYPE array<float>;
    "#
    );
}

#[test]
fn schema_can_be_declared_again() {
    let clauses: Vec<&str> = SCHEMA_STATEMENT
        .split(';')
        .map(|clause| clause.trim())
        .filter(|clause| !clause.is_empty())
        .collect();
    assert_eq!(clauses.len(), 3);
    for clause in clauses {
        assert!(clause.starts_with("DEFINE "));
        assert!(clause.contains(" IF NOT EXISTS "));
    }
}

#[test]
fn every_query_is_opening_score_and_closing() {
    for (strategy, score) in [
        (RankingStrategy::Cosine, COSINE_SCORE),
        (RankingStrategy::Euclidean, EUCLIDEAN_SCORE),
        (RankingStrategy::Manhattan, MANHATTAN_SCORE),
        (RankingStrategy::Dot, DOT_SCORE),
    ] {
        assert_eq!(
            get_query_template(&strategy),
            format!("{}{}{}", QUERY_OPENING, score, QUERY_CLOSING)
        );
    }
}

#[test]
fn scores_are_exact() {
    assert_eq!(
        COSINE_SCORE,
        "vector::similarity::cosine(vector, $query_vector)"
    );
    assert_eq!(
        EUCLIDEAN_SCORE,
        "(1.0 / (1.0 + vector::distance::euclidean(vector, $query_vector)))"
    );
    assert_eq!(
        MANHATTAN_SCORE,
        "(1.0 / (1.0 + vector::distance::manhattan(vector, $query_vector)))"
    );
    assert_eq!(DOT_SCORE, "vector::similarity::dot(vector, $query_vector)");
}

#[test]
fn ties_are_ordered_by_identifier() {
    assert!(QUERY_CLOSING.contains("ORDER BY similarity_score DESC, id ASC"));
    let order = QUERY_CLOSING.find("ORDER BY").unwrap();
    let filter = QUERY_CLOSING.find("WHERE similarity_score > $threshold").unwrap();
    let limit = QUERY_CLOSING.find("LIMIT $limit").unwrap();
    assert!(filter < order && order < limit);
    assert!(QUERY_OPENING.contains("SELECT id, "));
}
