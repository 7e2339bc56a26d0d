//! The lyrics held in the markup of a lyrics page.
//!
//! A page keeps its lyrics in `div` elements marked with the attribute
//! `data-lyrics-container="true"`, often more than one. The text inside one
//! container comes in fragments, one for each text node below it. The
//! fragments of a container are joined by a line break, the containers by a
//! blank line, both in the order in which the document yields them.

use vstd::prelude::*;
use vstd::string::StringExecFns;

verus! {

/// The selector that finds the lyrics containers of a page.
pub const LYRICS_CONTAINER: &'static str = "div[data-lyrics-container=true]";

/// What `scraper` finds in a document under a selector: for each element
/// that matches, in the order in which `Html::select` yields them, the
/// contents of the text nodes below it, in the order in which
/// `ElementRef::text` yields them. `None` where `selector` is no selector
/// that `Selector::parse` accepts. Nothing else is claimed of it.
pub uninterp spec fn selected_text(document: Seq<char>, selector: Seq<char>) -> Option<
    Seq<Seq<Seq<char>>>,
>;

/// Parses `selector` with `scraper::Selector::parse` and `document` with
/// `scraper::Html::parse_document`, which takes any text and never fails,
/// walks the matching elements with `Html::select` and reads each one's text
/// nodes with `ElementRef::text`. The contract gives the outcome its name
/// and says nothing of what it holds.
#[verifier::external_body]
fn select_text(document: &str, selector: &str) -> (found: Option<Vec<Vec<String>>>)
    ensures
        found matches Some(nodes) ==> selected_text(document@, selector@) == Some(
            nodes.deep_view(),
        ),
        found is None ==> selected_text(document@, selector@) is None,
{
    let selector = scraper::Selector::parse(selector).ok()?;
    let html = scraper::Html::parse_document(document);
    Some(html.select(&selector).map(|node| node.text().map(String::from).collect()).collect())
}

/// The parts in order, with the separator between each two neighbours.
pub open spec fn joined(parts: Seq<Seq<char>>, separator: Seq<char>) -> Seq<char>
    decreases parts.len(),
{
    if parts.len() == 0 {
        Seq::empty()
    } else if parts.len() == 1 {
        parts[0]
    } else {
        joined(parts.drop_last(), separator) + separator + parts.last()
    }
}

/// The text of one container: its fragments, joined by a line break.
pub open spec fn container_text(fragments: Seq<Seq<char>>) -> Seq<char> {
    joined(fragments, seq!['\n'])
}

/// The text of each container, in order.
pub open spec fn container_texts(containers: Seq<Seq<Seq<char>>>) -> Seq<Seq<char>> {
    Seq::new(containers.len(), |i: int| container_text(containers[i]))
}

/// The lyrics of a page: the texts of its containers, joined by a blank
/// line. A page without containers has the empty text.
pub open spec fn lyrics_text(containers: Seq<Seq<Seq<char>>>) -> Seq<char> {
    joined(container_texts(containers), seq!['\n', '\n'])
}

/// The lyrics of the page `document`: what its lyrics containers hold.
pub open spec fn page_lyrics(document: Seq<char>) -> Seq<char> {
    match selected_text(document, LYRICS_CONTAINER@) {
        Some(containers) => lyrics_text(containers),
        None => Seq::empty(),
    }
}

/// Appends the fragments of one container to `out`, a line break between
/// each two.
fn push_container_text(out: &mut String, fragments: &Vec<String>)
    ensures
        final(out)@ == old(out)@ + container_text(fragments.deep_view()),
{
    let ghost before = out@;
    let ghost parts = fragments.deep_view();
    let mut k: usize = 0;
    while k < fragments.len()
        invariant
            k <= fragments.len(),
            parts == fragments.deep_view(),
            out@ == before + container_text(parts.take(k as int)),
        decreases fragments.len() - k,
    {
        proof {
            assert(parts.take(k + 1).drop_last() =~= parts.take(k as int));
            assert(parts.take(k + 1).last() == fragments@[k as int]@);
        }
        if k > 0 {
            out.push('\n');
        }
        out.append(fragments[k].as_str());
        k += 1;
        assert(out@ =~= before + container_text(parts.take(k as int)));
    }
    assert(parts.take(fragments.len() as int) =~= parts);
}

/// Joins the text found in the containers of a page: the fragments of a
/// container by a line break, the containers by a blank line. Without
/// containers the lyrics are empty.
pub fn join_lyrics(containers: &Vec<Vec<String>>) -> (lyrics: String)
    ensures
        lyrics@ == lyrics_text(containers.deep_view()),
        containers@.len() == 0 ==> lyrics@.len() == 0,
{
    let ghost all = containers.deep_view();
    let mut lyrics = String::new();
    let mut i: usize = 0;
    while i < containers.len()
        invariant
            i <= containers.len(),
            all == containers.deep_view(),
            lyrics@ == lyrics_text(all.take(i as int)),
        decreases containers.len() - i,
    {
        proof {
            let now = container_texts(all.take(i + 1));
            assert(now.drop_last() =~= container_texts(all.take(i as int)));
            assert(now.last() == container_text(containers@[i as int].deep_view()));
        }
        if i > 0 {
            lyrics.push('\n');
            lyrics.push('\n');
        }
        push_container_text(&mut lyrics, &containers[i]);
        i += 1;
        assert(lyrics@ =~= lyrics_text(all.take(i as int)));
    }
    assert(all.take(containers.len() as int) =~= all);
    lyrics
}

/// Reads the lyrics off a lyrics page. The page is parsed as an HTML
/// document, which never fails; every lyrics container in it gives its
/// text. A page without such a container gives the empty text.
pub fn extract_lyrics(page: &str) -> (lyrics: String)
    ensures
        lyrics@ == page_lyrics(page@),
        selected_text(page@, LYRICS_CONTAINER@) matches Some(containers) && containers.len() == 0
            ==> lyrics@.len() == 0,
{
    match select_text(page, LYRICS_CONTAINER) {
        Some(containers) => join_lyrics(&containers),
        None => String::new(),
    }
}

} // verus!
