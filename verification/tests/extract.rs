use genius_lyrics::{extract_lyrics, join_lyrics};

fn fragments(parts: &[&str]) -> Vec<String> {
    parts.iter().map(|part| part.to_string()).collect()
}

#[test]
fn two_containers_are_joined_by_a_blank_line() {
    let page = "<html><body>\
        <div data-lyrics-container=\"true\">A\nB</div>\
        <p>between</p>\
        <div data-lyrics-container=\"true\">C</div>\
        </body></html>";
    assert_eq!(extract_lyrics(page), "A\nB\n\nC");
}

#[test]
fn fragments_of_a_container_are_joined_by_a_line_break() {
    let page = "<div data-lyrics-container=\"true\">A<br>B<i>C</i></div>";
    assert_eq!(extract_lyrics(page), "A\nB\nC");
}

#[test]
fn page_without_container_gives_empty_lyrics() {
    assert_eq!(extract_lyrics("<html><body><p>nothing to sing</p></body></html>"), "");
    assert_eq!(extract_lyrics(""), "");
}

#[test]
fn only_marked_divs_count() {
    let page = "<div>plain</div>\
        <span data-lyrics-container=\"true\">span</span>\
        <div data-lyrics-container=\"false\">off</div>\
        <div data-lyrics-container=\"true\">kept</div>";
    assert_eq!(extract_lyrics(page), "kept");
}

#[test]
fn malformed_markup_is_read_as_far_as_it_goes() {
    let page = "<div data-lyrics-container=\"true\">open <b>bold";
    assert_eq!(extract_lyrics(page), "open \nbold");
    assert_eq!(extract_lyrics("<<<>>> & </div>"), "");
}

#[test]
fn container_inside_container_is_read_twice() {
    let page = "<div data-lyrics-container=\"true\">out\
        <div data-lyrics-container=\"true\">in</div></div>";
    assert_eq!(extract_lyrics(page), "out\nin\n\nin");
}

#[test]
fn lyrics_are_not_the_page() {
    let page = "<div data-lyrics-container=\"true\">word</div>";
    assert_ne!(extract_lyrics(page), page);
}

#[test]
fn joining_nothing_gives_nothing() {
    assert_eq!(join_lyrics(&Vec::new()), "");
}

#[test]
fn joining_keeps_order_and_separators() {
    let containers = vec![fragments(&["A", "B"]), fragments(&["C"]), fragments(&["D", "E", "F"])];
    assert_eq!(join_lyrics(&containers), "A\nB\n\nC\n\nD\nE\nF");
}

#[test]
fn joining_keeps_empty_containers_and_fragments() {
    let containers = vec![fragments(&[]), fragments(&["", "x"]), fragments(&[])];
    assert_eq!(join_lyrics(&containers), "\n\n\nx\n\n");
}
