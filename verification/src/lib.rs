//! The core of a local semantic-search service: configuration, the session's
//! life cycle, the ranking of search results and the marshalling of text
//! across a foreign-call boundary. The embedding provider and the vector store
//! are driven from outside; this library decides what they are asked and what
//! becomes of their replies.

pub mod boundary;
pub mod config;
pub mod orchestrator;
pub mod ranking;
pub mod results;
pub mod score;
pub mod session;

pub use crate::boundary::{
    decode_text, encode_text, free_cstring, matches_to_cstring, BoundaryError, HandleLedger,
    Release,
};
pub use crate::config::{ConfigError, EmbedAnythingConfig, GlobalConfig, RankingStrategy};
pub use crate::orchestrator::{
    embed, embed_text, query, EmbedAction, EmbedError, EmbedEvent, Embedding, QueryAction,
    QueryError, QueryEvent,
};
pub use crate::ranking::{build_query, get_query_template, QuerySpec};
pub use crate::results::{rank_matches, SearchMatch};
pub use crate::score::Score;
pub use crate::session::{
    cleanup, status_code, with_config, InitAction, InitError, InitEvent, NotReady, ReleaseError,
    Released, Session, SessionState, SessionView, ShutdownAction, ShutdownEvent, ShutdownReport,
};
