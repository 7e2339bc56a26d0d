//! The credentials of a Genius client and the search request built on them.

use vstd::prelude::*;
use vstd::string::{StringExecFns, StringSliceAdditionalSpecFns};
use vstd::utf8::encode_utf8;

use crate::error::{FetchError, PipelineError, SearchError};
use crate::extract::{extract_lyrics, page_lyrics};
use crate::model::{ApiResponse, HighlightResult};
use crate::normalize::{is_normal, normalized, process_song_lyrics};
use crate::percent::{percent_encoded, push_percent_encoded};
use crate::search::{search_outcome, search_outcome_of, SearchReply};
use crate::select::{first_hit, first_hit_of};

verus! {

/// Where a search is sent, up to and including the `=` that the term
/// follows.
pub const SEARCH_ENDPOINT: &'static str = "https://api.genius.com/search?q=";

/// What announces the access token in a query.
pub const ACCESS_TOKEN_PARAMETER: &'static str = "&access_token=";

/// The media type that a search asks for and claims to send.
pub const JSON_MEDIA_TYPE: &'static str = "application/json";

/// The three secrets of a Genius client. Each may be empty.
#[derive(Debug, Clone, PartialEq, Eq)]
pub struct GeniusApi {
    pub client_id: String,
    pub client_secret: String,
    pub access_token: String,
}

/// A request to be sent with the method GET.
#[derive(Debug, Clone, PartialEq, Eq)]
pub struct SearchRequest {
    pub url: String,
    /// Header names with their values, in the order in which they are set.
    pub headers: Vec<(String, String)>,
}

/// The address that a search for `term` is sent to, the access token
/// aside: the endpoint and the percent-encoded term.
pub open spec fn search_url(term: Seq<char>) -> Seq<char> {
    SEARCH_ENDPOINT@ + percent_encoded(encode_utf8(term))
}

/// `url` with the access token as its last query parameter. The token is
/// taken as it is.
pub open spec fn with_access_token(url: Seq<char>, token: Seq<char>) -> Seq<char> {
    url + ACCESS_TOKEN_PARAMETER@ + token
}

/// The headers of a search: it accepts JSON and declares JSON.
pub open spec fn is_json_headers(headers: Seq<(String, String)>) -> bool {
    &&& headers.len() == 2
    &&& headers[0].0@ == "Accept"@
    &&& headers[0].1@ == JSON_MEDIA_TYPE@
    &&& headers[1].0@ == "Content-Type"@
    &&& headers[1].1@ == JSON_MEDIA_TYPE@
}

/// The best match of a search, given what the search request brought back:
/// the song of the first hit, or the error of the stage that failed, the
/// search before the selection.
pub open spec fn first_result_of(reply: SearchReply) -> Result<HighlightResult, PipelineError> {
    match search_outcome_of(reply) {
        Err(error) => Err(PipelineError::Search(error)),
        Ok(answer) => match first_hit_of(answer) {
            Err(error) => Err(PipelineError::Selection(error)),
            Ok(song) => Ok(song),
        },
    }
}

/// What is loaded for a credential that was looked up: its value where one
/// was found, the empty string where none was. The flag says that none was
/// found, so that the caller can warn.
pub fn credential_or_empty(found: Option<String>) -> (loaded: (String, bool))
    ensures
        found matches Some(value) ==> loaded.0 == value && !loaded.1,
        found is None ==> loaded.0@ == Seq::<char>::empty() && loaded.1,
{
    match found {
        Some(value) => (value, false),
        None => (String::new(), true),
    }
}

impl GeniusApi {
    /// A client with the given secrets.
    pub fn new(client_id: String, client_secret: String, access_token: String) -> (api: Self)
        ensures
            api.client_id == client_id,
            api.client_secret == client_secret,
            api.access_token == access_token,
    {
        GeniusApi { client_id, client_secret, access_token }
    }

    /// The request that searches for `search_term`. The term goes into the
    /// address percent-encoded, whatever it holds, the empty term too; the
    /// access token follows it as a second query parameter.
    pub fn search_request(&self, search_term: &str) -> (request: SearchRequest)
        ensures
            request.url@ == with_access_token(search_url(search_term@), self.access_token@),
            is_json_headers(request.headers@),
    {
        let mut url = String::from_str(SEARCH_ENDPOINT);
        push_percent_encoded(&mut url, search_term);
        url.append(ACCESS_TOKEN_PARAMETER);
        url.append(self.access_token.as_str());
        let mut headers: Vec<(String, String)> = Vec::new();
        headers.push((String::from_str("Accept"), String::from_str(JSON_MEDIA_TYPE)));
        headers.push((String::from_str("Content-Type"), String::from_str(JSON_MEDIA_TYPE)));
        SearchRequest { url, headers }
    }

    /// The answer to a search, given what the search request brought back,
    /// or the reason why there is none.
    pub fn search_songs(&self, reply: SearchReply) -> (outcome: Result<ApiResponse, SearchError>)
        ensures
            outcome == search_outcome_of(reply),
    {
        search_outcome(reply)
    }

    /// The best match of a search, given what the search request brought
    /// back. A search that failed gives its own error; one that went through
    /// and found nothing gives `NoResults`.
    pub fn search_song_first_res(&self, reply: SearchReply) -> (first: Result<
        HighlightResult,
        PipelineError,
    >)
        ensures
            first == first_result_of(reply),
            first is Ok <==> (search_outcome_of(reply) matches Ok(answer)
                && answer.response.hits@.len() > 0),
    {
        match search_outcome(reply) {
            Err(error) => Err(PipelineError::Search(error)),
            Ok(answer) => match first_hit(answer) {
                Err(error) => Err(PipelineError::Selection(error)),
                Ok(song) => Ok(song),
            },
        }
    }

    /// The lyrics on a song's page as they stand there, given what the
    /// request for the page brought back: its text, or `None` where the
    /// request failed or brought no text. A page without lyrics gives the
    /// empty text; only a page that could not be had is an error.
    pub fn scrape_song_lyrics(&self, song_page: Option<String>) -> (lyrics: Result<
        String,
        FetchError,
    >)
        ensures
            song_page is None ==> lyrics == Err::<String, FetchError>(FetchError::FetchFailure),
            song_page matches Some(page) ==> lyrics matches Ok(text) && text@ == page_lyrics(
                page@,
            ),
    {
        match song_page {
            Some(page) => Ok(extract_lyrics(page.as_str())),
            None => Err(FetchError::FetchFailure),
        }
    }

    /// The lyrics on a song's page in their normal form, given what the
    /// request for the page brought back.
    pub fn scrape_song_lyrics_processed(&self, song_page: Option<String>) -> (lyrics: Result<
        String,
        FetchError,
    >)
        ensures
            song_page is None ==> lyrics == Err::<String, FetchError>(FetchError::FetchFailure),
            song_page matches Some(page) ==> lyrics matches Ok(text) && text@ == normalized(
                page_lyrics(page@),
            ) && is_normal(text@),
    {
        match self.scrape_song_lyrics(song_page) {
            Ok(lyrics) => Ok(process_song_lyrics(lyrics)),
            Err(error) => Err(error),
        }
    }
}

} // verus!
