use semantic_search::ranking::INSERT_STATEMENT;
use semantic_search::{
    cleanup, embed, embed_text, get_query_template, query, with_config, BoundaryError,
    EmbedAction, EmbedAnythingConfig, EmbedError, EmbedEvent, Embedding, GlobalConfig, InitAction,
    InitEvent, QueryAction, QueryError, QueryEvent, RankingStrategy, Score, SearchMatch, Session,
    ShutdownEvent,
};

type PlainSession = Session<u8, u8>;

fn session_with(ranking: RankingStrategy, threshold: f32, limit: u32) -> PlainSession {
    session_with_batches(ranking, threshold, limit, None)
}

fn session_with_batches(
    ranking: RankingStrategy,
    threshold: f32,
    limit: u32,
    batch_size: Option<usize>,
) -> PlainSession {
    let mut session = PlainSession::new();
    let config = GlobalConfig {
        db_file_path: String::from("/tmp/x"),
        ranking,
        embedding: EmbedAnythingConfig {
            model_architecture: String::from("jina"),
            model_id: String::from("jinaai/jina-embeddings-v2-small-en"),
            revision: None,
            batch_size,
        },
        threshold: Score::from_bits(threshold.to_bits()),
        limit,
    };
    match with_config(
        &mut session,
        InitEvent::Built {
            config,
            store: 1,
            provider: Some(2),
        },
    ) {
        InitAction::Finish(Ok(())) => session,
        _ => panic!("the session should be ready"),
    }
}

fn bits_of(values: &[f32]) -> Vec<u32> {
    values.iter().map(|v| v.to_bits()).collect()
}

fn found(id: &str, score: f32) -> SearchMatch {
    SearchMatch {
        id: String::from(id),
        similarity_score: Score::from_bits(score.to_bits()),
    }
}

fn returned_ids(action: QueryAction) -> Vec<String> {
    match action {
        QueryAction::Return(Ok(results)) => results.into_iter().map(|m| m.id).collect(),
        _ => panic!("results should have been returned"),
    }
}

fn returned_matches(action: QueryAction) -> Vec<SearchMatch> {
    match action {
        QueryAction::Return(Ok(results)) => results,
        _ => panic!("results should have been returned"),
    }
}

fn embed_error(action: EmbedAction) -> EmbedError {
    match action {
        EmbedAction::Return(Err(error)) => error,
        _ => panic!("an error should have been returned"),
    }
}

fn query_error(action: QueryAction) -> QueryError {
    match action {
        QueryAction::Return(Err(error)) => error,
        _ => panic!("an error should have been returned"),
    }
}

/// Runs one `embed` against a provider and a store that reply as told.
fn run_embed(
    session: &PlainSession,
    text: &str,
    vector: Option<Vec<Embedding>>,
    created: Option<Vec<String>>,
) -> Result<String, EmbedError> {
    let mut vector = Some(vector);
    let mut created = Some(created);
    let mut event = EmbedEvent::Begin {
        text: Ok(String::from(text)),
    };
    loop {
        event = match embed(session, event) {
            EmbedAction::ComputeVector {
                text: asked,
                batch_size: _,
            } => {
                assert_eq!(asked, text);
                EmbedEvent::Vector {
                    reply: vector.take().unwrap(),
                }
            }
            EmbedAction::Insert { statement, vector } => {
                assert_eq!(statement, INSERT_STATEMENT);
                assert!(!vector.is_empty());
                EmbedEvent::Inserted {
                    reply: created.take().unwrap(),
                }
            }
            EmbedAction::Return(outcome) => return outcome,
        };
    }
}

/// Runs one `query` against a provider and a store that reply as told.
fn run_query(
    session: &PlainSession,
    text: &str,
    vector: Option<Vec<Embedding>>,
    rows: Option<Vec<SearchMatch>>,
) -> Result<Vec<SearchMatch>, QueryError> {
    let mut vector = Some(vector);
    let mut rows = Some(rows);
    let mut event = QueryEvent::Begin {
        text: Ok(String::from(text)),
    };
    loop {
        event = match query(session, event) {
            QueryAction::ComputeVector {
                text: asked,
                batch_size: _,
            } => {
                assert_eq!(asked, text);
                QueryEvent::Vector {
                    reply: vector.take().unwrap(),
                }
            }
            QueryAction::Search { plan: _, vector: _ } => QueryEvent::Found {
                reply: rows.take().unwrap(),
            },
            QueryAction::Return(outcome) => return outcome,
        };
    }
}

#[test]
fn first_dense_vector_is_taken() {
    assert_eq!(
        embed_text(Some(vec![
            Embedding::Dense(bits_of(&[0.25, -1.0])),
            Embedding::Dense(bits_of(&[9.0])),
        ])),
        Some(bits_of(&[0.25, -1.0]))
    );
    assert_eq!(
        embed_text(Some(vec![Embedding::Dense(Vec::new())])),
        Some(Vec::new())
    );
}

#[test]
fn no_vector_without_a_dense_first_embedding() {
    assert_eq!(embed_text(None), None);
    assert_eq!(embed_text(Some(Vec::new())), None);
    assert_eq!(embed_text(Some(vec![Embedding::MultiVector])), None);
    assert_eq!(
        embed_text(Some(vec![
            Embedding::MultiVector,
            Embedding::Dense(bits_of(&[1.0])),
        ])),
        None
    );
}

#[test]
fn embed_before_initialize_is_not_ready() {
    let session = PlainSession::new();
    assert_eq!(
        embed_error(embed(
            &session,
            EmbedEvent::Begin {
                text: Ok(String::from("hello"))
            }
        )),
        EmbedError::NotReady
    );
    assert_eq!(
        embed_error(embed(
            &session,
            EmbedEvent::Vector {
                reply: Some(vec![Embedding::Dense(bits_of(&[1.0]))])
            }
        )),
        EmbedError::NotReady
    );
    assert_eq!(
        embed_error(embed(
            &session,
            EmbedEvent::Inserted {
                reply: Some(vec![String::from("a")])
            }
        )),
        EmbedError::NotReady
    );
}

#[test]
fn query_before_initialize_is_not_ready() {
    let session = PlainSession::new();
    assert_eq!(
        query_error(query(
            &session,
            QueryEvent::Begin {
                text: Ok(String::from("hello"))
            }
        )),
        QueryError::NotReady
    );
    assert_eq!(
        query_error(query(
            &session,
            QueryEvent::Vector {
                reply: Some(vec![Embedding::Dense(bits_of(&[1.0]))])
            }
        )),
        QueryError::NotReady
    );
    assert_eq!(
        query_error(query(
            &session,
            QueryEvent::Found {
                reply: Some(vec![found("a", 0.9)])
            }
        )),
        QueryError::NotReady
    );
}

#[test]
fn failed_initialize_leaves_both_operations_not_ready() {
    let mut session = PlainSession::new();
    match with_config(
        &mut session,
        InitEvent::Connected {
            config: GlobalConfig {
                db_file_path: String::from("/tmp/x"),
                ranking: RankingStrategy::Dot,
                embedding: EmbedAnythingConfig {
                    model_architecture: String::from("bert"),
                    model_id: String::from("m"),
                    revision: None,
                    batch_size: None,
                },
                threshold: Score::from_bits(0.5f32.to_bits()),
                limit: 3,
            },
            store: None,
        },
    ) {
        InitAction::Finish(Err(_)) => {}
        _ => panic!("the attempt should have failed"),
    }
    assert_eq!(
        run_embed(&session, "hello", None, None),
        Err(EmbedError::NotReady)
    );
    assert!(matches!(
        run_query(&session, "hello", None, None),
        Err(QueryError::NotReady)
    ));
}

#[test]
fn operations_after_shutdown_are_not_ready() {
    let mut session = session_with(RankingStrategy::Cosine, 0.5, 3);
    cleanup(&mut session, ShutdownEvent::Begin);
    assert!(session.is_shut_down());
    assert_eq!(
        run_embed(&session, "hello", None, None),
        Err(EmbedError::NotReady)
    );
    assert!(matches!(
        run_query(&session, "hello", None, None),
        Err(QueryError::NotReady)
    ));
}

#[test]
fn embed_returns_the_identifier_of_the_new_record() {
    let session = session_with(RankingStrategy::Cosine, 0.5, 3);
    assert_eq!(
        run_embed(
            &session,
            "hello world",
            Some(vec![Embedding::Dense(bits_of(&[0.1, 0.2, 0.3]))]),
            Some(vec![String::from("k2j3h4"), String::from("other")]),
        ),
        Ok(String::from("k2j3h4"))
    );
}

#[test]
fn embed_hands_the_vector_to_the_store() {
    let session = session_with(RankingStrategy::Cosine, 0.5, 3);
    match embed(
        &session,
        EmbedEvent::Vector {
            reply: Some(vec![Embedding::Dense(bits_of(&[0.1, -0.2, 0.3]))]),
        },
    ) {
        EmbedAction::Insert { statement, vector } => {
            assert_eq!(statement, "CREATE embeddings SET vector = $vector");
            assert_eq!(vector, bits_of(&[0.1, -0.2, 0.3]));
        }
        _ => panic!("the vector should be stored next"),
    }
}

#[test]
fn embed_fails_when_the_provider_gives_no_vector() {
    let session = session_with(RankingStrategy::Cosine, 0.5, 3);
    assert_eq!(
        run_embed(&session, "", None, None),
        Err(EmbedError::ProviderFailure)
    );
    assert_eq!(
        run_embed(&session, "", Some(Vec::new()), None),
        Err(EmbedError::ProviderFailure)
    );
    assert_eq!(
        run_embed(&session, "", Some(vec![Embedding::MultiVector]), None),
        Err(EmbedError::ProviderFailure)
    );
}

#[test]
fn embed_fails_when_the_store_names_no_record() {
    let session = session_with(RankingStrategy::Cosine, 0.5, 3);
    let vector = || Some(vec![Embedding::Dense(bits_of(&[1.0]))]);
    assert_eq!(
        run_embed(&session, "hello", vector(), None),
        Err(EmbedError::StoreFailure)
    );
    assert_eq!(
        run_embed(&session, "hello", vector(), Some(Vec::new())),
        Err(EmbedError::StoreFailure)
    );
}

#[test]
fn query_asks_the_store_as_the_configuration_says() {
    for (strategy, threshold, limit) in [
        (RankingStrategy::Cosine, 0.5f32, 3u32),
        (RankingStrategy::Euclidean, 0.25, 1),
        (RankingStrategy::Manhattan, 1.0, 10),
        (RankingStrategy::Dot, 0.0, u32::MAX),
    ] {
        let session = session_with(strategy, threshold, limit);
        match query(
            &session,
            QueryEvent::Vector {
                reply: Some(vec![Embedding::Dense(bits_of(&[0.5, 0.25]))]),
            },
        ) {
            QueryAction::Search { plan, vector } => {
                assert_eq!(plan.statement, get_query_template(&strategy));
                assert_eq!(plan.threshold.to_bits(), threshold.to_bits());
                assert_eq!(plan.limit, limit as i64);
                assert_eq!(vector, bits_of(&[0.5, 0.25]));
            }
            _ => panic!("the store should be searched next"),
        }
    }
}

#[test]
fn query_fails_when_the_provider_gives_no_vector() {
    let session = session_with(RankingStrategy::Cosine, 0.5, 3);
    assert!(matches!(
        run_query(&session, "hello", None, None),
        Err(QueryError::ProviderFailure)
    ));
    assert!(matches!(
        run_query(&session, "hello", Some(vec![Embedding::MultiVector]), None),
        Err(QueryError::ProviderFailure)
    ));
}

#[test]
fn query_fails_when_the_store_fails() {
    let session = session_with(RankingStrategy::Cosine, 0.5, 3);
    assert!(matches!(
        run_query(
            &session,
            "hello",
            Some(vec![Embedding::Dense(bits_of(&[1.0]))]),
            None
        ),
        Err(QueryError::StoreFailure)
    ));
}

#[test]
fn query_on_an_empty_store_gives_no_results_and_no_error() {
    for strategy in [
        RankingStrategy::Cosine,
        RankingStrategy::Euclidean,
        RankingStrategy::Manhattan,
        RankingStrategy::Dot,
    ] {
        let session = session_with(strategy, 0.5, 3);
        let results = run_query(
            &session,
            "hello",
            Some(vec![Embedding::Dense(bits_of(&[1.0]))]),
            Some(Vec::new()),
        );
        assert!(matches!(results, Ok(ref found) if found.is_empty()));
    }
}

#[test]
fn query_gives_no_results_when_nothing_clears_the_threshold() {
    let session = session_with(RankingStrategy::Cosine, 0.5, 3);
    let action = query(
        &session,
        QueryEvent::Found {
            reply: Some(vec![found("a", 0.5), found("b", 0.1)]),
        },
    );
    assert!(returned_ids(action).is_empty());
}

#[test]
fn results_descend_and_clear_the_threshold_for_every_strategy() {
    for strategy in [
        RankingStrategy::Cosine,
        RankingStrategy::Euclidean,
        RankingStrategy::Manhattan,
        RankingStrategy::Dot,
    ] {
        let session = session_with(strategy, 0.5, 3);
        let action = query(
            &session,
            QueryEvent::Found {
                reply: Some(vec![
                    found("low", 0.2),
                    found("c", 0.6),
                    found("a", 0.95),
                    found("edge", 0.5),
                    found("d", 0.55),
                    found("b", 0.7),
                ]),
            },
        );
        let results = returned_matches(action);
        let ids: Vec<&str> = results.iter().map(|m| m.id.as_str()).collect();
        assert_eq!(ids, vec!["a", "b", "c"]);
        let values: Vec<f32> = results
            .iter()
            .map(|m| f32::from_bits(m.similarity_score.to_bits()))
            .collect();
        assert_eq!(values, vec![0.95, 0.7, 0.6]);
        assert!(values.windows(2).all(|w| w[0] > w[1]));
        assert!(values.iter().all(|v| *v > 0.5));
    }
}

#[test]
fn two_stored_texts_are_found_in_order() {
    let session = session_with(RankingStrategy::Cosine, 0.5, 3);
    let a = run_embed(
        &session,
        "hello world",
        Some(vec![Embedding::Dense(bits_of(&[0.6, 0.8, 0.0]))]),
        Some(vec![String::from("A")]),
    )
    .unwrap();
    let b = run_embed(
        &session,
        "hello there",
        Some(vec![Embedding::Dense(bits_of(&[0.8, 0.6, 0.0]))]),
        Some(vec![String::from("B")]),
    )
    .unwrap();
    assert_eq!(a, "A");
    assert_eq!(b, "B");
    let results = run_query(
        &session,
        "hello",
        Some(vec![Embedding::Dense(bits_of(&[0.7, 0.7, 0.1]))]),
        Some(vec![found(&b, 0.979), found(&a, 0.981)]),
    )
    .unwrap();
    assert!(results.len() <= 3);
    assert_eq!(results.len(), 2);
    assert_eq!(results[0].id, a);
    assert_eq!(results[1].id, b);
    let first = f32::from_bits(results[0].similarity_score.to_bits());
    let second = f32::from_bits(results[1].similarity_score.to_bits());
    assert!(first >= second);
    assert!(first > 0.5 && second > 0.5);
}

#[test]
fn same_reply_gives_the_same_results() {
    let session = session_with(RankingStrategy::Dot, 0.5, 4);
    let reply = || {
        Some(vec![
            found("x", 0.75),
            found("y", 0.75),
            found("z", 0.9),
            found("w", 0.75),
        ])
    };
    let first = returned_ids(query(&session, QueryEvent::Found { reply: reply() }));
    let second = returned_ids(query(&session, QueryEvent::Found { reply: reply() }));
    assert_eq!(first, vec!["z", "x", "y", "w"]);
    assert_eq!(first, second);
}

#[test]
fn text_that_did_not_arrive_is_turned_down() {
    let session = session_with(RankingStrategy::Cosine, 0.5, 3);
    for error in [BoundaryError::NullHandle, BoundaryError::InvalidEncoding] {
        assert_eq!(
            embed_error(embed(&session, EmbedEvent::Begin { text: Err(error) })),
            EmbedError::InvalidText(error)
        );
        assert_eq!(
            query_error(query(&session, QueryEvent::Begin { text: Err(error) })),
            QueryError::InvalidText(error)
        );
    }
}

#[test]
fn not_ready_comes_before_any_other_failure() {
    let session = PlainSession::new();
    assert_eq!(
        embed_error(embed(
            &session,
            EmbedEvent::Begin {
                text: Err(BoundaryError::NullHandle)
            }
        )),
        EmbedError::NotReady
    );
    assert_eq!(
        query_error(query(
            &session,
            QueryEvent::Begin {
                text: Err(BoundaryError::InvalidEncoding)
            }
        )),
        QueryError::NotReady
    );
}

#[test]
fn batch_size_reaches_the_provider_unchanged() {
    for batch_size in [None, Some(1usize), Some(32), Some(usize::MAX)] {
        let session = session_with_batches(RankingStrategy::Cosine, 0.5, 3, batch_size);
        match embed(
            &session,
            EmbedEvent::Begin {
                text: Ok(String::from("hello world")),
            },
        ) {
            EmbedAction::ComputeVector {
                text,
                batch_size: handed,
            } => {
                assert_eq!(text, "hello world");
                assert_eq!(handed, batch_size);
            }
            _ => panic!("the provider should be asked next"),
        }
        match query(
            &session,
            QueryEvent::Begin {
                text: Ok(String::from("hello")),
            },
        ) {
            QueryAction::ComputeVector {
                text,
                batch_size: handed,
            } => {
                assert_eq!(text, "hello");
                assert_eq!(handed, batch_size);
            }
            _ => panic!("the provider should be asked next"),
        }
    }
}

#[test]
fn best_row_is_the_first_result() {
    for strategy in [
        RankingStrategy::Cosine,
        RankingStrategy::Euclidean,
        RankingStrategy::Manhattan,
        RankingStrategy::Dot,
    ] {
        let session = session_with(strategy, 0.5, 1);
        let action = query(
            &session,
            QueryEvent::Found {
                reply: Some(vec![
                    found("near", 0.75),
                    found("same", 1.0),
                    found("far", 0.6),
                ]),
            },
        );
        assert_eq!(returned_ids(action), vec!["same"]);
    }
}

#[test]
fn reply_that_fits_is_returned_whole() {
    let session = session_with(RankingStrategy::Cosine, 0.5, 3);
    let action = query(
        &session,
        QueryEvent::Found {
            reply: Some(vec![found("B", 0.7), found("A", 0.8)]),
        },
    );
    let mut ids = returned_ids(action);
    assert_eq!(ids, vec!["A", "B"]);
    ids.sort();
    assert_eq!(ids, vec!["A", "B"]);
    let action = query(
        &session,
        QueryEvent::Found {
            reply: Some(vec![found("c", 0.9), found("a", 0.9), found("b", 0.9)]),
        },
    );
    assert_eq!(returned_ids(action), vec!["c", "a", "b"]);
}
