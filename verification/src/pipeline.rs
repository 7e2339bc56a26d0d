//! The retrieval of a song's lyrics, from the search term to the normalized
//! text, as a machine that decides and leaves the sending to its driver.
//!
//! A retrieval starts with a search request. Whoever drives it sends the
//! request and hands back what came of it; the machine answers with what to
//! do next: fetch the lyrics page of the best match, or finish. The first
//! failure finishes the retrieval with the error of the stage that failed,
//! and a finished retrieval asks for nothing more.

use vstd::prelude::*;

use crate::api::{
    first_result_of, is_json_headers, search_url, with_access_token, GeniusApi, SearchRequest,
};
use crate::error::{FetchError, PipelineError, SearchError};
use crate::extract::page_lyrics;
use crate::normalize::{is_normal, normalized};
use crate::search::{search_outcome_of, SearchReply};

verus! {

/// How far a retrieval has come.
#[derive(Debug, Clone, Copy, PartialEq, Eq, Structural)]
pub enum Stage {
    /// The search request is out; its reply is awaited.
    Searching,
    /// The request for the lyrics page is out; the page is awaited.
    Fetching,
    /// The retrieval has ended, with lyrics or with an error.
    Finished,
}

/// What the driver hands back after it has done what it was asked.
#[derive(Debug, Clone, PartialEq, Eq)]
pub enum Event {
    /// What came of the search request.
    SearchReplied(SearchReply),
    /// The text of the lyrics page, or `None` where the request failed or
    /// brought no text.
    PageReplied(Option<String>),
}

/// What the driver is to do next.
#[derive(Debug, PartialEq, Eq)]
pub enum Action {
    /// Get the page at `url` with a plain GET and hand back its text.
    FetchPage { url: String },
    /// Stop: the retrieval has ended with this result.
    Finish(Result<String, PipelineError>),
    /// Nothing: the event was not the one awaited and changed nothing.
    Ignore,
}

/// An action, with its strings taken as sequences of characters.
pub enum ActionView {
    FetchPage { url: Seq<char> },
    Finish(Result<Seq<char>, PipelineError>),
    Ignore,
}

impl View for Action {
    type V = ActionView;

    open spec fn view(&self) -> ActionView {
        match *self {
            Action::FetchPage { url } => ActionView::FetchPage { url: url@ },
            Action::Finish(Ok(lyrics)) => ActionView::Finish(Ok(lyrics@)),
            Action::Finish(Err(error)) => ActionView::Finish(Err(error)),
            Action::Ignore => ActionView::Ignore,
        }
    }
}

/// The step of the machine: the stage that follows and the action asked
/// for, given the stage and the event.
///
/// While searching, a reply to the search is judged and the best match
/// picked; a failure of either finishes the retrieval, else the page of the
/// best match is asked for. While fetching, a failed fetch finishes the
/// retrieval, and a page finishes it with the normalized lyrics that the
/// page holds. Any other event is ignored.
pub open spec fn next_step(stage: Stage, event: Event) -> (Stage, ActionView) {
    match (stage, event) {
        (Stage::Searching, Event::SearchReplied(reply)) => match first_result_of(reply) {
            Err(error) => (Stage::Finished, ActionView::Finish(Err(error))),
            Ok(song) => (Stage::Fetching, ActionView::FetchPage { url: song.lyrics_url@ }),
        },
        (Stage::Fetching, Event::PageReplied(None)) => (
            Stage::Finished,
            ActionView::Finish(Err(PipelineError::Fetch(FetchError::FetchFailure))),
        ),
        (Stage::Fetching, Event::PageReplied(Some(page))) => (
            Stage::Finished,
            ActionView::Finish(Ok(normalized(page_lyrics(page@)))),
        ),
        _ => (stage, ActionView::Ignore),
    }
}

/// The actions that a run of events draws from the machine, one for each
/// event, starting in `stage`.
pub open spec fn actions_of(stage: Stage, events: Seq<Event>) -> Seq<ActionView>
    decreases events.len(),
{
    if events.len() == 0 {
        Seq::empty()
    } else {
        let (after, action) = next_step(stage, events[0]);
        seq![action] + actions_of(after, events.drop_first())
    }
}

/// A finished retrieval ignores whatever follows.
pub proof fn lemma_finished_ignores_all(events: Seq<Event>)
    ensures
        actions_of(Stage::Finished, events).len() == events.len(),
        forall|k: int|
            0 <= k < events.len() ==> actions_of(Stage::Finished, events)[k] == ActionView::Ignore,
    decreases events.len(),
{
    if events.len() > 0 {
        lemma_finished_ignores_all(events.drop_first());
    }
}

/// A search that fails ends the retrieval with the search's own error, and
/// no page is fetched afterwards, whatever events may follow.
pub proof fn law_failed_search_fetches_no_page(reply: SearchReply, later: Seq<Event>)
    requires
        search_outcome_of(reply) is Err,
    ensures
        ({
            let actions = actions_of(Stage::Searching, seq![Event::SearchReplied(reply)] + later);
            &&& actions.len() == 1 + later.len()
            &&& actions[0] == ActionView::Finish(
                Err(PipelineError::Search(search_outcome_of(reply)->Err_0)),
            )
            &&& forall|k: int| 0 <= k < actions.len() ==> !(actions[k] is FetchPage)
        }),
{
    let events = seq![Event::SearchReplied(reply)] + later;
    assert(events.drop_first() =~= later);
    lemma_finished_ignores_all(later);
}

/// A search request that brings no response ends the retrieval with
/// `TransportFailure`, and no page is fetched afterwards, whatever events
/// may follow.
pub proof fn law_transport_failure_fetches_no_page(later: Seq<Event>)
    ensures
        ({
            let lost = Event::SearchReplied(SearchReply::NoResponse);
            let actions = actions_of(Stage::Searching, seq![lost] + later);
            &&& actions.len() == 1 + later.len()
            &&& actions[0] == ActionView::Finish(
                Err(PipelineError::Search(SearchError::TransportFailure)),
            )
            &&& forall|k: int| 0 <= k < actions.len() ==> !(actions[k] is FetchPage)
        }),
{
    law_failed_search_fetches_no_page(SearchReply::NoResponse, later);
}

/// Starts a retrieval: the stage to go on from and the search request to
/// send for `search_term`.
pub fn start(api: &GeniusApi, search_term: &str) -> (begun: (Stage, SearchRequest))
    ensures
        begun.0 == Stage::Searching,
        begun.1.url@ == with_access_token(search_url(search_term@), api.access_token@),
        is_json_headers(begun.1.headers@),
{
    (Stage::Searching, api.search_request(search_term))
}

/// Takes one step: judges `event` in `stage` and says what follows.
pub fn step(api: &GeniusApi, stage: Stage, event: Event) -> (taken: (Stage, Action))
    ensures
        taken.0 == next_step(stage, event).0,
        taken.1@ == next_step(stage, event).1,
        taken.1 is Finish ==> taken.0 == Stage::Finished,
        taken.1 matches Action::Finish(Ok(lyrics)) ==> is_normal(lyrics@),
{
    match stage {
        Stage::Searching => match event {
            Event::SearchReplied(reply) => match api.search_song_first_res(reply) {
                Err(error) => (Stage::Finished, Action::Finish(Err(error))),
                Ok(song) => (Stage::Fetching, Action::FetchPage { url: song.lyrics_url }),
            },
            Event::PageReplied(_) => (stage, Action::Ignore),
        },
        Stage::Fetching => match event {
            Event::PageReplied(song_page) => match api.scrape_song_lyrics_processed(song_page) {
                Ok(lyrics) => (Stage::Finished, Action::Finish(Ok(lyrics))),
                Err(error) => (Stage::Finished, Action::Finish(Err(PipelineError::Fetch(error)))),
            },
            Event::SearchReplied(_) => (stage, Action::Ignore),
        },
        Stage::Finished => (stage, Action::Ignore),
    }
}

} // verus!
