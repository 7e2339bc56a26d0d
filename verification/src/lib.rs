//! Lyrics retrieval for the Genius song database: the request that a search
//! needs, the judgement of what came back, the text of a lyrics page and its
//! normal form.
//!
//! Nothing here touches the network. A retrieval is a machine
//! ([`pipeline`]) that says what to send and judges what came back; sending
//! is left to whoever drives it.

pub mod annotation;
pub mod api;
pub mod error;
pub mod extract;
pub mod line_break;
pub mod model;
pub mod normalize;
pub mod percent;
pub mod pipeline;
pub mod search;
pub mod select;
pub mod text;
pub mod whitespace;

pub use api::{credential_or_empty, GeniusApi, SearchRequest};
pub use error::{FetchError, PipelineError, SearchError, SelectionError};
pub use extract::{extract_lyrics, join_lyrics};
pub use model::{
    canonical_lyrics_url, ApiResponse, Highlight, HighlightResult, MetaResponse, Response,
};
pub use normalize::process_song_lyrics;
pub use pipeline::{start, step, Action, Event, Stage};
pub use search::{search_outcome, status_is_success, SearchReply};
pub use select::first_hit;
