//! What the Genius search service answers: an envelope around a ranked list
//! of hits, each of which describes one song.

use vstd::prelude::*;

verus! {

/// The whole answer to a search.
#[derive(Debug, Clone, PartialEq, Eq)]
pub struct ApiResponse {
    pub meta: MetaResponse,
    pub response: Response,
}

/// The service's own account of how the request went.
#[derive(Debug, Clone, PartialEq, Eq)]
pub struct MetaResponse {
    pub status: u32,
}

/// The hits of a search, best match first. The list may be empty.
#[derive(Debug, Clone, PartialEq, Eq)]
pub struct Response {
    pub hits: Vec<Highlight>,
}

/// One hit of a search.
#[derive(Debug, Clone, PartialEq, Eq)]
pub struct Highlight {
    pub result: HighlightResult,
}

/// The song that a hit points to.
#[derive(Debug, Clone, PartialEq, Eq)]
pub struct HighlightResult {
    pub title: String,
    pub full_title: String,
    pub artist_names: String,
    pub id: u32,
    pub api_path: String,
    pub lyrics_state: String,
    pub song_art_image_url: String,
    /// Where the song's lyrics page is found.
    pub lyrics_url: String,
}

/// The address of a song's lyrics page, which the service may send under
/// either of two names, `url` and `lyrics_url`: the one that was sent. Where
/// neither was sent there is no address, and where both were the answer is
/// taken as malformed: `None` either way.
pub fn canonical_lyrics_url(url: Option<String>, lyrics_url: Option<String>) -> (address: Option<
    String,
>)
    ensures
        address == match (url, lyrics_url) {
            (Some(sent), None) => Some(sent),
            (None, Some(sent)) => Some(sent),
            _ => None,
        },
{
    match (url, lyrics_url) {
        (Some(sent), None) => Some(sent),
        (None, Some(sent)) => Some(sent),
        _ => None,
    }
}

} // verus!
