//! From a ranking strategy to the statements that the vector store runs.

use vstd::prelude::*;
use crate::config::RankingStrategy;
use crate::score::Score;

verus! {

/// Scores by cosine similarity.
pub const COSINE_QUERY: &'static str = r#"
            SELECT * FROM (
                SELECT id, vector::similarity::cosine(vector, $query_vector) AS similarity_score
                FROM embeddings
            ) WHERE similarity_score > $threshold
            ORDER BY similarity_score DESC, id ASC
            LIMIT $limit
        "#;

/// Scores by inverted Euclidean distance.
pub const EUCLIDEAN_QUERY: &'static str = r#"
            SELECT * FROM (
                SELECT id, (1.0 / (1.0 + vector::distance::euclidean(vector, $query_vector))) AS similarity_score
                FROM embeddings
            ) WHERE similarity_score > $threshold
            ORDER BY similarity_score DESC, id ASC
            LIMIT $limit
        "#;

/// Scores by inverted Manhattan distance.
pub const MANHATTAN_QUERY: &'static str = r#"
            SELECT * FROM (
                SELECT id, (1.0 / (1.0 + vector::distance::manhattan(vector, $query_vector))) AS similarity_score
                FROM embeddings
            ) WHERE similarity_score > $threshold
            ORDER BY similarity_score DESC, id ASC
            LIMIT $limit
        "#;

/// Scores by dot product.
pub const DOT_QUERY: &'static str = r#"
            SELECT * FROM (
                SELECT id, vector::similarity::dot(vector, $query_vector) AS similarity_score
                FROM embeddings
            ) WHERE similarity_score > $threshold
            ORDER BY similarity_score DESC, id ASC
            LIMIT $limit
        "#;

/// How every similarity query begins: it selects the identifier and, as
/// `similarity_score`, the score that follows.
pub const QUERY_OPENING: &'static str = r#"
            SELECT * FROM (
                SELECT id, "#;

/// How every similarity query ends. Only records that score above
/// `$threshold` pass; they come from the highest score down, records of equal
/// score in the order of their identifiers, and no more than `$limit` of
/// them. So the same search on the same records gives the same rows in the
/// same order.
pub const QUERY_CLOSING: &'static str = r#" AS similarity_score
                FROM embeddings
            ) WHERE similarity_score > $threshold
            ORDER BY similarity_score DESC, id ASC
            LIMIT $limit
        "#;

/// The cosine of the angle between the two vectors.
pub const COSINE_SCORE: &'static str = "vector::similarity::cosine(vector, $query_vector)";

/// The Euclidean distance `d` of the two vectors, turned into `1 / (1 + d)`.
pub const EUCLIDEAN_SCORE: &'static str = "(1.0 / (1.0 + vector::distance::euclidean(vector, $query_vector)))";

/// The Manhattan distance `d` of the two vectors, turned into `1 / (1 + d)`.
pub const MANHATTAN_SCORE: &'static str = "(1.0 / (1.0 + vector::distance::manhattan(vector, $query_vector)))";

/// The dot product of the two vectors.
pub const DOT_SCORE: &'static str = "vector::similarity::dot(vector, $query_vector)";

/// Declares the table of embedding records. Every clause holds
/// `IF NOT EXISTS`, so running it again on a store that has the table changes
/// nothing.
pub const SCHEMA_STATEMENT: &'static str = r#"
        DEFINE TABLE IF NOT EXISTS embeddings SCHEMAFULL;
        DEFINE FIELD IF NOT EXISTS id ON TABLE embeddings TYPE record<embeddings>;
        DEFINE FIELD IF NOT EXISTS vector ON TABLE embeddings TYPE array<float>;
    "#;

/// Stores one vector bound as `$vector`; the store assigns the identifier.
pub const INSERT_STATEMENT: &'static str = "CREATE embeddings SET vector = $vector";

/// The namespace that the store is opened in.
pub const STORE_NAMESPACE: &'static str = "vibe";

/// The database that the store is opened in.
pub const STORE_DATABASE: &'static str = "code";

/// The expression that scores a stored vector against the query vector.
pub open spec fn score_formula(strategy: RankingStrategy) -> &'static str {
    match strategy {
        RankingStrategy::Cosine => COSINE_SCORE,
        RankingStrategy::Euclidean => EUCLIDEAN_SCORE,
        RankingStrategy::Manhattan => MANHATTAN_SCORE,
        RankingStrategy::Dot => DOT_SCORE,
    }
}

/// The text of the similarity query for a strategy: the opening, the
/// strategy's score, the closing.
pub open spec fn query_text(strategy: RankingStrategy) -> Seq<char> {
    QUERY_OPENING@ + score_formula(strategy)@ + QUERY_CLOSING@
}

/// The similarity query for a strategy.
pub open spec fn query_template(strategy: RankingStrategy) -> &'static str {
    match strategy {
        RankingStrategy::Cosine => COSINE_QUERY,
        RankingStrategy::Euclidean => EUCLIDEAN_QUERY,
        RankingStrategy::Manhattan => MANHATTAN_QUERY,
        RankingStrategy::Dot => DOT_QUERY,
    }
}

/// The cosine query is the opening, the cosine score and the closing.
proof fn cosine_query_in_parts()
    ensures
        COSINE_QUERY@ == QUERY_OPENING@ + COSINE_SCORE@ + QUERY_CLOSING@,
{
    reveal_strlit(r#"
            SELECT * FROM (
                SELECT id, "#);
    reveal_strlit(r#" AS similarity_score
                FROM embeddings
            ) WHERE similarity_score > $threshold
            ORDER BY similarity_score DESC, id ASC
            LIMIT $limit
        "#);
    reveal_strlit("vector::similarity::cosine(vector, $query_vector)");
    reveal_strlit(r#"
            SELECT * FROM (
                SELECT id, vector::similarity::cosine(vector, $query_vector) AS similarity_score
                FROM embeddings
            ) WHERE similarity_score > $threshold
            ORDER BY similarity_score DESC, id ASC
            LIMIT $limit
        "#);
    let text = COSINE_QUERY@;
    assert(text.subrange(0, 56) =~= QUERY_OPENING@);
    assert(text.subrange(56, 105) =~= COSINE_SCORE@);
    assert(text.subrange(105, 292) =~= QUERY_CLOSING@);
    assert(text =~= text.subrange(0, 56) + text.subrange(56, 105) + text.subrange(
        105,
        292,
    ));
}

/// The Euclidean query is the opening, the Euclidean score and the closing.
proof fn euclidean_query_in_parts()
    ensures
        EUCLIDEAN_QUERY@ == QUERY_OPENING@ + EUCLIDEAN_SCORE@ + QUERY_CLOSING@,
{
    reveal_strlit(r#"
            SELECT * FROM (
                SELECT id, "#);
    reveal_strlit(r#" AS similarity_score
                FROM embeddings
            ) WHERE similarity_score > $threshold
            ORDER BY similarity_score DESC, id ASC
            LIMIT $limit
        "#);
    reveal_strlit("(1.0 / (1.0 + vector::distance::euclidean(vector, $query_vector)))");
    reveal_strlit(r#"
            SELECT * FROM (
                SELECT id, (1.0 / (1.0 + vector::distance::euclidean(vector, $query_vector))) AS similarity_score
                FROM embeddings
            ) WHERE similarity_score > $threshold
            ORDER BY similarity_score DESC, id ASC
            LIMIT $limit
        "#);
    let text = EUCLIDEAN_QUERY@;
    assert(text.subrange(0, 56) =~= QUERY_OPENING@);
    assert(text.subrange(56, 122) =~= EUCLIDEAN_SCORE@);
    assert(text.subrange(122, 309) =~= QUERY_CLOSING@);
    assert(text =~= text.subrange(0, 56) + text.subrange(56, 122) + text.subrange(
        122,
        309,
    ));
}

/// The Manhattan query is the opening, the Manhattan score and the closing.
proof fn manhattan_query_in_parts()
    ensures
        MANHATTAN_QUERY@ == QUERY_OPENING@ + MANHATTAN_SCORE@ + QUERY_CLOSING@,
{
    reveal_strlit(r#"
            SELECT * FROM (
                SELECT id, "#);
    reveal_strlit(r#" AS similarity_score
                FROM embeddings
            ) WHERE similarity_score > $threshold
            ORDER BY similarity_score DESC, id ASC
            LIMIT $limit
        "#);
    reveal_strlit("(1.0 / (1.0 + vector::distance::manhattan(vector, $query_vector)))");
    reveal_strlit(r#"
            SELECT * FROM (
                SELECT id, (1.0 / (1.0 + vector::distance::manhattan(vector, $query_vector))) AS similarity_score
                FROM embeddings
            ) WHERE similarity_score > $threshold
            ORDER BY similarity_score DESC, id ASC
            LIMIT $limit
        "#);
    let text = MANHATTAN_QUERY@;
    assert(text.subrange(0, 56) =~= QUERY_OPENING@);
    assert(text.subrange(56, 122) =~= MANHATTAN_SCORE@);
    assert(text.subrange(122, 309) =~= QUERY_CLOSING@);
    assert(text =~= text.subrange(0, 56) + text.subrange(56, 122) + text.subrange(
        122,
        309,
    ));
}

/// The dot query is the opening, the dot score and the closing.
proof fn dot_query_in_parts()
    ensures
        DOT_QUERY@ == QUERY_OPENING@ + DOT_SCORE@ + QUERY_CLOSING@,
{
    reveal_strlit(r#"
            SELECT * FROM (
                SELECT id, "#);
    reveal_strlit(r#" AS similarity_score
                FROM embeddings
            ) WHERE similarity_score > $threshold
            ORDER BY similarity_score DESC, id ASC
            LIMIT $limit
        "#);
    reveal_strlit("vector::similarity::dot(vector, $query_vector)");
    reveal_strlit(r#"
            SELECT * FROM (
                SELECT id, vector::similarity::dot(vector, $query_vector) AS similarity_score
                FROM embeddings
            ) WHERE similarity_score > $threshold
            ORDER BY similarity_score DESC, id ASC
            LIMIT $limit
        "#);
    let text = DOT_QUERY@;
    assert(text.subrange(0, 56) =~= QUERY_OPENING@);
    assert(text.subrange(56, 102) =~= DOT_SCORE@);
    assert(text.subrange(102, 289) =~= QUERY_CLOSING@);
    assert(text =~= text.subrange(0, 56) + text.subrange(56, 102) + text.subrange(
        102,
        289,
    ));
}

/// Every similarity query is the common opening, the score of its strategy
/// and the common closing: the strategies differ in the score and in nothing
/// else, and each query filters by the threshold, orders by score and then by
/// identifier, and stops at the limit.
pub proof fn query_is_opening_score_closing(strategy: RankingStrategy)
    ensures
        query_template(strategy)@ == query_text(strategy),
{
    match strategy {
        RankingStrategy::Cosine => cosine_query_in_parts(),
        RankingStrategy::Euclidean => euclidean_query_in_parts(),
        RankingStrategy::Manhattan => manhattan_query_in_parts(),
        RankingStrategy::Dot => dot_query_in_parts(),
    }
}

/// Each strategy has a query of its own: two strategies never share a text.
pub proof fn strategies_have_their_own_queries(a: RankingStrategy, b: RankingStrategy)
    requires
        a != b,
    ensures
        query_template(a)@ != query_template(b)@,
{
    reveal_strlit(r#"
            SELECT * FROM (
                SELECT id, vector::similarity::cosine(vector, $query_vector) AS similarity_score
                FROM embeddings
            ) WHERE similarity_score > $threshold
            ORDER BY similarity_score DESC, id ASC
            LIMIT $limit
        "#);
    reveal_strlit(r#"
            SELECT * FROM (
                SELECT id, (1.0 / (1.0 + vector::distance::euclidean(vector, $query_vector))) AS similarity_score
                FROM embeddings
            ) WHERE similarity_score > $threshold
            ORDER BY similarity_score DESC, id ASC
            LIMIT $limit
        "#);
    reveal_strlit(r#"
            SELECT * FROM (
                SELECT id, (1.0 / (1.0 + vector::distance::manhattan(vector, $query_vector))) AS similarity_score
                FROM embeddings
            ) WHERE similarity_score > $threshold
            ORDER BY similarity_score DESC, id ASC
            LIMIT $limit
        "#);
    reveal_strlit(r#"
            SELECT * FROM (
                SELECT id, vector::similarity::dot(vector, $query_vector) AS similarity_score
                FROM embeddings
            ) WHERE similarity_score > $threshold
            ORDER BY similarity_score DESC, id ASC
            LIMIT $limit
        "#);
    assert(COSINE_QUERY@.len() == 292);
    assert(DOT_QUERY@.len() == 289);
    assert(EUCLIDEAN_QUERY@.len() == 309);
    assert(MANHATTAN_QUERY@.len() == 309);
    assert(EUCLIDEAN_QUERY@[88] == 'e');
    assert(MANHATTAN_QUERY@[88] == 'm');
}

/// The similarity query for a strategy. It expects `$query_vector`,
/// `$threshold` and `$limit` to be bound, keeps the records that score above
/// the threshold, orders them from the highest score down, records of equal
/// score by identifier, and stops at the limit.
pub fn get_query_template(strategy: &RankingStrategy) -> (template: &'static str)
    ensures
        template == query_template(*strategy),
        template@ == QUERY_OPENING@ + score_formula(*strategy)@ + QUERY_CLOSING@,
{
    proof {
        query_is_opening_score_closing(*strategy);
    }
    match strategy {
        RankingStrategy::Cosine => COSINE_QUERY,
        RankingStrategy::Euclidean => EUCLIDEAN_QUERY,
        RankingStrategy::Manhattan => MANHATTAN_QUERY,
        RankingStrategy::Dot => DOT_QUERY,
    }
}

/// All that the store needs to run one similarity search, but for the query
/// vector.
#[derive(Clone, Copy, Debug)]
pub struct QuerySpec {
    /// The statement to run.
    pub statement: &'static str,
    /// Bound as `$threshold`: only records that score above it are wanted.
    pub threshold: Score,
    /// Bound as `$limit`: the largest number of records wanted.
    pub limit: i64,
}

/// The search that a strategy, a threshold and a limit call for.
pub open spec fn search_for(strategy: RankingStrategy, threshold: Score, limit: u32) -> QuerySpec {
    QuerySpec { statement: query_template(strategy), threshold, limit: limit as i64 }
}

/// Builds the search that a strategy, a threshold and a limit call for.
pub fn build_query(strategy: &RankingStrategy, threshold: Score, limit: u32) -> (plan: QuerySpec)
    ensures
        plan == search_for(*strategy, threshold, limit),
        plan.statement@ == query_text(*strategy),
{
    QuerySpec { statement: get_query_template(strategy), threshold, limit: limit as i64 }
}

} // verus!
