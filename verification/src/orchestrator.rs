//! The two operations of a ready session: `embed` stores the vector of a
//! text and returns the identifier of the new record, `query` returns the
//! stored records that are closest to a text.
//!
//! The provider and the store do their work outside, so each operation is
//! written as a step: it is told what has happened and answers what to do
//! next. No step keeps anything in mind; the session is asked at every step
//! whether it is still ready.

use vstd::prelude::*;
use crate::boundary::BoundaryError;
use crate::config::GlobalConfig;
use crate::ranking::{build_query, search_for, QuerySpec, INSERT_STATEMENT};
use crate::results::{
    best_row_comes_first,
    eligible,
    is_ranked,
    is_ranking,
    outranks,
    rank_matches,
    ranked_result_is_unique,
    ranking_descends,
    ranking_fits,
    ranking_keeps_whole_reply,
    selects,
    SearchMatch,
};
use crate::session::{Session, SessionState};

verus! {

/// What the provider made of one text. The numbers of a vector are held as
/// bit patterns, as scores are.
#[derive(Debug)]
pub enum Embedding {
    /// One vector for the whole text.
    Dense(Vec<u32>),
    /// Several vectors, one for each part of the text: not what is stored.
    MultiVector,
}

/// Why `embed` failed.
#[derive(Clone, Copy, Debug, PartialEq, Eq, Structural)]
pub enum EmbedError {
    /// The session is not ready.
    NotReady,
    /// The text to embed did not arrive as text.
    InvalidText(BoundaryError),
    /// The provider gave no vector for the text.
    ProviderFailure,
    /// The store did not take the vector, or named no new record.
    StoreFailure,
}

/// Why `query` failed.
#[derive(Clone, Copy, Debug, PartialEq, Eq, Structural)]
pub enum QueryError {
    /// The session is not ready.
    NotReady,
    /// The text to search for did not arrive as text.
    InvalidText(BoundaryError),
    /// The provider gave no vector for the text.
    ProviderFailure,
    /// The store did not run the search.
    StoreFailure,
}

/// The vector that a reply of the provider holds: that of its first
/// embedding, if the provider replied, made at least one embedding, and the
/// first is a single vector.
pub open spec fn dense_vector(reply: Option<Vec<Embedding>>) -> Option<Vec<u32>> {
    match reply {
        Some(batch) => if batch@.len() > 0 {
            match batch@[0] {
                Embedding::Dense(vector) => Some(vector),
                Embedding::MultiVector => None,
            }
        } else {
            None
        },
        None => None,
    }
}

/// Takes the vector of a text out of the provider's reply; `None` as reply
/// stands for a provider that failed.
pub fn embed_text(reply: Option<Vec<Embedding>>) -> (vector: Option<Vec<u32>>)
    ensures
        vector == dense_vector(reply),
{
    match reply {
        None => None,
        Some(batch) => {
            let mut batch = batch;
            if batch.len() == 0 {
                None
            } else {
                match batch.remove(0) {
                    Embedding::Dense(vector) => Some(vector),
                    Embedding::MultiVector => None,
                }
            }
        },
    }
}

/// The identifier that a reply of the store names: that of the first record
/// it created, if it replied and created one.
pub open spec fn created_id(reply: Option<Vec<String>>) -> Option<String> {
    match reply {
        Some(ids) => if ids@.len() > 0 {
            Some(ids@[0])
        } else {
            None
        },
        None => None,
    }
}

fn first_id(reply: Option<Vec<String>>) -> (id: Option<String>)
    ensures
        id == created_id(reply),
{
    match reply {
        None => None,
        Some(ids) => {
            let mut ids = ids;
            if ids.len() == 0 {
                None
            } else {
                Some(ids.remove(0))
            }
        },
    }
}

/// What has happened in the course of an `embed`.
pub enum EmbedEvent {
    /// The call arrived, with a text or without.
    Begin { text: Result<String, BoundaryError> },
    /// The provider replied, or failed (`None`).
    Vector { reply: Option<Vec<Embedding>> },
    /// The store replied with the identifiers of the records it created, or
    /// failed (`None`).
    Inserted { reply: Option<Vec<String>> },
}

/// What to do next in the course of an `embed`.
pub enum EmbedAction {
    /// Ask the provider for the vector of this text, in batches of the size
    /// that the configuration names, if it names one.
    ComputeVector { text: String, batch_size: Option<usize> },
    /// Run this statement on the store, with the vector bound as `$vector`.
    Insert { statement: &'static str, vector: Vec<u32> },
    /// Hand this to the caller: the identifier of the new record, or the
    /// reason why there is none.
    Return(Result<String, EmbedError>),
}

/// The next step of an `embed`. A session that is not ready answers every
/// event with `NotReady`; a ready one turns down what did not arrive as
/// text, and hands the configuration's batch size on to the provider as it
/// is.
pub open spec fn embed_action<P, S>(state: SessionState<P, S>, event: EmbedEvent) -> EmbedAction {
    match state {
        SessionState::Ready { config, .. } => match event {
            EmbedEvent::Begin { text: Err(error) } => EmbedAction::Return(
                Err(EmbedError::InvalidText(error)),
            ),
            EmbedEvent::Begin { text: Ok(text) } => EmbedAction::ComputeVector {
                text,
                batch_size: config.embedding.batch_size,
            },
            EmbedEvent::Vector { reply } => match dense_vector(reply) {
                Some(vector) => EmbedAction::Insert { statement: INSERT_STATEMENT, vector },
                None => EmbedAction::Return(Err(EmbedError::ProviderFailure)),
            },
            EmbedEvent::Inserted { reply } => match created_id(reply) {
                Some(id) => EmbedAction::Return(Ok(id)),
                None => EmbedAction::Return(Err(EmbedError::StoreFailure)),
            },
        },
        _ => EmbedAction::Return(Err(EmbedError::NotReady)),
    }
}

/// Takes one step of an `embed`.
pub fn embed<P, S>(session: &Session<P, S>, event: EmbedEvent) -> (action: EmbedAction)
    ensures
        action == embed_action(session@, event),
{
    let view = match session.current() {
        Ok(view) => view,
        Err(_) => {
            return EmbedAction::Return(Err(EmbedError::NotReady));
        },
    };
    match event {
        EmbedEvent::Begin { text } => match text {
            Err(error) => EmbedAction::Return(Err(EmbedError::InvalidText(error))),
            Ok(text) => EmbedAction::ComputeVector {
                text,
                batch_size: view.config.embedding.batch_size,
            },
        },
        EmbedEvent::Vector { reply } => match embed_text(reply) {
            Some(vector) => EmbedAction::Insert { statement: INSERT_STATEMENT, vector },
            None => EmbedAction::Return(Err(EmbedError::ProviderFailure)),
        },
        EmbedEvent::Inserted { reply } => match first_id(reply) {
            Some(id) => EmbedAction::Return(Ok(id)),
            None => EmbedAction::Return(Err(EmbedError::StoreFailure)),
        },
    }
}

/// What has happened in the course of a `query`.
pub enum QueryEvent {
    /// The call arrived, with a text or without.
    Begin { text: Result<String, BoundaryError> },
    /// The provider replied, or failed (`None`).
    Vector { reply: Option<Vec<Embedding>> },
    /// The store replied with the rows it found, or failed (`None`).
    Found { reply: Option<Vec<SearchMatch>> },
}

/// What to do next in the course of a `query`.
pub enum QueryAction {
    /// Ask the provider for the vector of this text, in batches of the size
    /// that the configuration names, if it names one.
    ComputeVector { text: String, batch_size: Option<usize> },
    /// Run this search on the store, with the vector bound as
    /// `$query_vector`.
    Search { plan: QuerySpec, vector: Vec<u32> },
    /// Hand this to the caller: the results, or the reason why there are
    /// none.
    Return(Result<Vec<SearchMatch>, QueryError>),
}

/// The search that a configuration calls for.
pub open spec fn search_of(config: GlobalConfig) -> QuerySpec {
    search_for(config.ranking, config.threshold, config.limit)
}

/// `out` is what the session's configuration lets through of `rows`: the
/// rows that score above its threshold, from the highest score down, rows of
/// equal score in the order given, and no more than its limit.
pub open spec fn ranked_for(
    config: GlobalConfig,
    rows: Seq<SearchMatch>,
    out: Seq<SearchMatch>,
) -> bool {
    is_ranked(rows, config.threshold, config.limit as nat, out)
}

/// `action` is the next step of a `query`. A session that is not ready
/// answers every event with `NotReady`; a ready one turns down what did not
/// arrive as text, and hands the configuration's batch size on to the
/// provider as it is. A store that found nothing gives an empty list of
/// results, which is no failure.
pub open spec fn is_query_action<P, S>(
    state: SessionState<P, S>,
    event: QueryEvent,
    action: QueryAction,
) -> bool {
    match state {
        SessionState::Ready { config, .. } => match event {
            QueryEvent::Begin { text: Err(error) } => action == QueryAction::Return(
                Err(QueryError::InvalidText(error)),
            ),
            QueryEvent::Begin { text: Ok(text) } => action == QueryAction::ComputeVector {
                text,
                batch_size: config.embedding.batch_size,
            },
            QueryEvent::Vector { reply } => match dense_vector(reply) {
                Some(vector) => action == QueryAction::Search { plan: search_of(config), vector },
                None => action == QueryAction::Return(Err(QueryError::ProviderFailure)),
            },
            QueryEvent::Found { reply: Some(rows) } => {
                &&& action matches QueryAction::Return(Ok(out))
                &&& ranked_for(config, rows@, out@)
            },
            QueryEvent::Found { reply: None } => action == QueryAction::Return(
                Err(QueryError::StoreFailure),
            ),
        },
        _ => action == QueryAction::Return(Err(QueryError::NotReady)),
    }
}

/// Takes one step of a `query`.
pub fn query<P, S>(session: &Session<P, S>, event: QueryEvent) -> (action: QueryAction)
    ensures
        is_query_action(session@, event, action),
{
    let view = match session.current() {
        Ok(view) => view,
        Err(_) => {
            return QueryAction::Return(Err(QueryError::NotReady));
        },
    };
    match event {
        QueryEvent::Begin { text } => match text {
            Err(error) => QueryAction::Return(Err(QueryError::InvalidText(error))),
            Ok(text) => QueryAction::ComputeVector {
                text,
                batch_size: view.config.embedding.batch_size,
            },
        },
        QueryEvent::Vector { reply } => match embed_text(reply) {
            Some(vector) => {
                let plan = build_query(
                    &view.config.ranking,
                    view.config.threshold,
                    view.config.limit,
                );
                QueryAction::Search { plan, vector }
            },
            None => QueryAction::Return(Err(QueryError::ProviderFailure)),
        },
        QueryEvent::Found { reply } => match reply {
            Some(rows) => QueryAction::Return(
                Ok(rank_matches(&rows, view.config.threshold, view.config.limit)),
            ),
            None => QueryAction::Return(Err(QueryError::StoreFailure)),
        },
    }
}

/// Before a session is ready, and after it was shut down, both operations
/// refuse whatever arrives with `NotReady`.
pub proof fn unready_session_refuses<P, S>(
    state: SessionState<P, S>,
    embed_event: EmbedEvent,
    query_event: QueryEvent,
    action: QueryAction,
)
    requires
        !(state is Ready),
        is_query_action(state, query_event, action),
    ensures
        embed_action(state, embed_event) == EmbedAction::Return(Err(EmbedError::NotReady)),
        action == QueryAction::Return(Err(QueryError::NotReady)),
{
}

/// A search that finds nothing gives an empty list of results, not a
/// failure.
pub proof fn empty_store_gives_empty_result<P, S>(
    state: SessionState<P, S>,
    rows: Vec<SearchMatch>,
    action: QueryAction,
)
    requires
        state is Ready,
        rows@.len() == 0,
        is_query_action(state, QueryEvent::Found { reply: Some(rows) }, action),
    ensures
        action matches QueryAction::Return(Ok(out)) && out@.len() == 0,
{
    let config = state->config;
    let out = action->Return_0->Ok_0;
    let picks = choose|picks: Seq<int>|
        is_ranking(rows@, config.threshold, config.limit as nat, picks) && selects(
            rows@,
            picks,
            out@,
        );
    ranking_fits(rows@, config.threshold, config.limit as nat, picks);
}

/// Whatever the store replies and whatever the strategy, every result
/// handed out scores above the threshold, there are no more of them than the
/// limit or than the store found, their scores never rise from one to the
/// next, and they fall wherever two scores differ.
pub proof fn results_descend_above_threshold<P, S>(
    state: SessionState<P, S>,
    rows: Vec<SearchMatch>,
    action: QueryAction,
)
    requires
        state is Ready,
        is_query_action(state, QueryEvent::Found { reply: Some(rows) }, action),
    ensures
        action matches QueryAction::Return(Ok(out)) && {
            &&& out@.len() <= state->config.limit
            &&& out@.len() <= rows@.len()
            &&& forall|k: int|
                0 <= k < out@.len() ==> (#[trigger] out@[k]).similarity_score.above(
                    state->config.threshold,
                )
            &&& forall|k: int, l: int|
                0 <= k < l < out@.len() ==> (#[trigger] out@[k]).similarity_score.rank() >= (
                #[trigger] out@[l]).similarity_score.rank()
            &&& forall|k: int, l: int|
                0 <= k < l < out@.len() && (#[trigger] out@[k]).similarity_score.rank() != (
                #[trigger] out@[l]).similarity_score.rank() ==> out@[k].similarity_score.above(
                    out@[l].similarity_score,
                )
        },
{
    let config = state->config;
    let out = action->Return_0->Ok_0;
    let picks = choose|picks: Seq<int>|
        is_ranking(rows@, config.threshold, config.limit as nat, picks) && selects(
            rows@,
            picks,
            out@,
        );
    ranking_fits(rows@, config.threshold, config.limit as nat, picks);
    ranking_descends(rows@, config.threshold, config.limit as nat, picks);
    assert forall|k: int| 0 <= k < out@.len() implies (#[trigger] out@[k]).similarity_score.above(
        config.threshold,
    ) by {
        assert(eligible(rows@, config.threshold, picks[k]));
    }
    assert forall|k: int, l: int| 0 <= k < l < out@.len() implies (
    #[trigger] out@[k]).similarity_score.rank() >= (#[trigger] out@[l]).similarity_score.rank() by {
        assert(out@[k] == rows@[picks[k]]);
        assert(out@[l] == rows@[picks[l]]);
    }
    assert forall|k: int, l: int|
        0 <= k < l < out@.len() && (#[trigger] out@[k]).similarity_score.rank() != (
        #[trigger] out@[l]).similarity_score.rank() implies out@[k].similarity_score.above(
        out@[l].similarity_score,
    ) by {
        assert(out@[k] == rows@[picks[k]]);
        assert(out@[l] == rows@[picks[l]]);
    }
}

/// The same rows give the same results: what is handed out depends on the
/// store's reply and the configuration alone.
pub proof fn results_are_decided<P, S>(
    state: SessionState<P, S>,
    rows: Vec<SearchMatch>,
    first: QueryAction,
    second: QueryAction,
)
    requires
        state is Ready,
        is_query_action(state, QueryEvent::Found { reply: Some(rows) }, first),
        is_query_action(state, QueryEvent::Found { reply: Some(rows) }, second),
    ensures
        first->Return_0->Ok_0@ == second->Return_0->Ok_0@,
{
    let config = state->config;
    let a = choose|picks: Seq<int>|
        is_ranking(rows@, config.threshold, config.limit as nat, picks) && selects(
            rows@,
            picks,
            first->Return_0->Ok_0@,
        );
    let b = choose|picks: Seq<int>|
        is_ranking(rows@, config.threshold, config.limit as nat, picks) && selects(
            rows@,
            picks,
            second->Return_0->Ok_0@,
        );
    ranked_result_is_unique(
        rows@,
        config.threshold,
        config.limit as nat,
        a,
        b,
        first->Return_0->Ok_0@,
        second->Return_0->Ok_0@,
    );
}

/// With room for at least one result, the row that clears the threshold and
/// that no such row outranks is the first result.
pub proof fn best_match_comes_first<P, S>(
    state: SessionState<P, S>,
    rows: Vec<SearchMatch>,
    action: QueryAction,
    best: int,
)
    requires
        state is Ready,
        state->config.limit > 0,
        is_query_action(state, QueryEvent::Found { reply: Some(rows) }, action),
        eligible(rows@, state->config.threshold, best),
        forall|j: int| #[trigger]
            eligible(rows@, state->config.threshold, j) ==> !outranks(rows@, j, best),
    ensures
        action matches QueryAction::Return(Ok(out)) && out@.len() > 0 && out@[0] == rows@[best],
{
    let config = state->config;
    let out = action->Return_0->Ok_0;
    let picks = choose|picks: Seq<int>|
        is_ranking(rows@, config.threshold, config.limit as nat, picks) && selects(
            rows@,
            picks,
            out@,
        );
    best_row_comes_first(rows@, config.threshold, config.limit as nat, picks, best);
}

/// A reply that fits is returned whole: where every row that the store found
/// clears the threshold and there are no more rows than the limit, every row
/// is among the results, and there are as many results as rows.
pub proof fn whole_reply_is_returned<P, S>(
    state: SessionState<P, S>,
    rows: Vec<SearchMatch>,
    action: QueryAction,
)
    requires
        state is Ready,
        rows@.len() <= state->config.limit,
        forall|i: int| 0 <= i < rows@.len() ==> eligible(rows@, state->config.threshold, i),
        is_query_action(state, QueryEvent::Found { reply: Some(rows) }, action),
    ensures
        action matches QueryAction::Return(Ok(out)) && out@.len() == rows@.len() && forall|i: int|
            0 <= i < rows@.len() ==> out@.contains(#[trigger] rows@[i]),
{
    let config = state->config;
    let out = action->Return_0->Ok_0;
    let picks = choose|picks: Seq<int>|
        is_ranking(rows@, config.threshold, config.limit as nat, picks) && selects(
            rows@,
            picks,
            out@,
        );
    ranking_keeps_whole_reply(rows@, config.threshold, config.limit as nat, picks);
    assert forall|i: int| 0 <= i < rows@.len() implies out@.contains(#[trigger] rows@[i]) by {
        assert(picks.contains(i));
        let at = choose|at: int| 0 <= at < picks.len() && picks[at] == i;
        assert(out@[at] == rows@[picks[at]]);
    }
}

} // verus!
