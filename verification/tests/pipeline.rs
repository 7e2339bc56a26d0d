use genius_lyrics::{
    start, step, Action, ApiResponse, Event, FetchError, GeniusApi, Highlight, HighlightResult,
    MetaResponse, PipelineError, Response, SearchError, SearchReply, SelectionError, Stage,
};

const PAGE: &str = "<html><head><title>Unpeeled</title></head><body>\
    <div data-lyrics-container=\"true\">[Verse 1]<br>Peel it back<br>Layer by layer</div>\
    <div class=\"ad\">buy things</div>\
    <div data-lyrics-container=\"true\">[Chorus]<br>Unpeeled, unpeeled</div>\
    </body></html>";

fn unpeeled() -> HighlightResult {
    HighlightResult {
        title: "Unpeeled".to_string(),
        full_title: "Unpeeled by Cage the Elephant".to_string(),
        artist_names: "Cage the Elephant".to_string(),
        id: 3176131,
        api_path: "/songs/3176131".to_string(),
        lyrics_state: "complete".to_string(),
        song_art_image_url: "https://images.genius.com/unpeeled.jpg".to_string(),
        lyrics_url: "https://genius.com/Cage-the-elephant-unpeeled-lyrics".to_string(),
    }
}

fn answer(songs: Vec<HighlightResult>) -> ApiResponse {
    ApiResponse {
        meta: MetaResponse { status: 200 },
        response: Response {
            hits: songs.into_iter().map(|result| Highlight { result }).collect(),
        },
    }
}

fn api() -> GeniusApi {
    GeniusApi::new("id".to_string(), "secret".to_string(), "token".to_string())
}

fn answered(songs: Vec<HighlightResult>) -> Event {
    Event::SearchReplied(SearchReply::Answered { status: 200, body: Some(answer(songs)) })
}

#[test]
fn genius_api_search_song_request() {
    let ga = api();
    let (stage, request) = start(&ga, "Unpeeled");
    assert_eq!(stage, Stage::Searching);
    assert_eq!(request.url, "https://api.genius.com/search?q=Unpeeled&access_token=token");

    let (stage, action) = step(&ga, stage, answered(vec![unpeeled()]));
    let url = match action {
        Action::FetchPage { url } => url,
        other => panic!("{other:?}"),
    };
    assert_eq!(stage, Stage::Fetching);
    assert_eq!(url, unpeeled().lyrics_url);

    let (stage, action) = step(&ga, stage, Event::PageReplied(Some(PAGE.to_string())));
    assert_eq!(stage, Stage::Finished);
    let lyrics = match action {
        Action::Finish(Ok(lyrics)) => lyrics,
        other => panic!("{other:?}"),
    };
    println!("{lyrics}");
    assert_eq!(lyrics, "Peel it back Layer by layer Unpeeled, unpeeled");
    assert!(!lyrics.is_empty());
    assert!(!lyrics.contains('\n'));
    assert!(!lyrics.contains('[') && !lyrics.contains(']'));
}

#[test]
fn transport_failure_ends_the_retrieval_without_a_fetch() {
    let ga = api();
    let (stage, action) = step(&api(), Stage::Searching, Event::SearchReplied(SearchReply::NoResponse));
    assert_eq!(stage, Stage::Finished);
    assert_eq!(action, Action::Finish(Err(PipelineError::Search(SearchError::TransportFailure))));

    let (stage, action) = step(&ga, stage, Event::PageReplied(Some(PAGE.to_string())));
    assert_eq!((stage, action), (Stage::Finished, Action::Ignore));
    let (stage, action) = step(&ga, stage, answered(vec![unpeeled()]));
    assert_eq!((stage, action), (Stage::Finished, Action::Ignore));
}

#[test]
fn unsuccessful_status_ends_the_retrieval() {
    let reply = SearchReply::Answered { status: 403, body: None };
    assert_eq!(
        step(&api(), Stage::Searching, Event::SearchReplied(reply)),
        (
            Stage::Finished,
            Action::Finish(Err(PipelineError::Search(SearchError::UnsuccessfulStatus(403))))
        )
    );
}

#[test]
fn unreadable_answer_ends_the_retrieval() {
    let reply = SearchReply::Answered { status: 200, body: None };
    assert_eq!(
        step(&api(), Stage::Searching, Event::SearchReplied(reply)),
        (
            Stage::Finished,
            Action::Finish(Err(PipelineError::Search(SearchError::DeserializationFailure)))
        )
    );
}

#[test]
fn search_without_hits_ends_with_no_results() {
    assert_eq!(
        step(&api(), Stage::Searching, answered(Vec::new())),
        (Stage::Finished, Action::Finish(Err(PipelineError::Selection(SelectionError::NoResults))))
    );
}

#[test]
fn failed_fetch_ends_with_fetch_failure() {
    assert_eq!(
        step(&api(), Stage::Fetching, Event::PageReplied(None)),
        (Stage::Finished, Action::Finish(Err(PipelineError::Fetch(FetchError::FetchFailure))))
    );
}

#[test]
fn page_without_lyrics_finishes_with_empty_lyrics() {
    let page = "<html><body><p>Lyrics for this song have yet to be released.</p></body></html>";
    assert_eq!(
        step(&api(), Stage::Fetching, Event::PageReplied(Some(page.to_string()))),
        (Stage::Finished, Action::Finish(Ok(String::new())))
    );
}

#[test]
fn event_out_of_turn_changes_nothing() {
    assert_eq!(
        step(&api(), Stage::Searching, Event::PageReplied(Some(PAGE.to_string()))),
        (Stage::Searching, Action::Ignore)
    );
    assert_eq!(step(&api(), Stage::Searching, Event::PageReplied(None)), (Stage::Searching, Action::Ignore));
    assert_eq!(
        step(&api(), Stage::Fetching, Event::SearchReplied(SearchReply::NoResponse)),
        (Stage::Fetching, Action::Ignore)
    );
    assert_eq!(step(&api(), Stage::Fetching, answered(vec![unpeeled()])), (Stage::Fetching, Action::Ignore));
}

#[test]
fn best_match_is_the_one_fetched() {
    let mut second = unpeeled();
    second.title = "Other".to_string();
    second.lyrics_url = "https://genius.com/other".to_string();
    let (stage, action) = step(&api(), Stage::Searching, answered(vec![unpeeled(), second]));
    assert_eq!(stage, Stage::Fetching);
    assert_eq!(action, Action::FetchPage { url: unpeeled().lyrics_url });
}
