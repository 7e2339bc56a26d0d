use genius_lyrics::annotation::strip_annotations;
use genius_lyrics::line_break::collapse_line_breaks;
use genius_lyrics::process_song_lyrics;
use genius_lyrics::whitespace::{is_whitespace_char, trim_whitespace};

fn normalize(text: &str) -> String {
    process_song_lyrics(text.to_string())
}

/// The same three steps, written with patterns.
fn normalize_by_pattern(text: &str) -> String {
    let annotation = regex::Regex::new(r"(?s)\[.*?\]").unwrap();
    let breaks = regex::Regex::new(r"\n+").unwrap();
    let stripped = annotation.replace_all(text, "").to_string();
    breaks.replace_all(&stripped, " ").trim().to_string()
}

#[test]
fn annotations_and_breaks_are_removed() {
    assert_eq!(normalize("[Chorus]\nHello\n\n[Verse]\nWorld"), "Hello World");
}

#[test]
fn empty_text_stays_empty() {
    assert_eq!(normalize(""), "");
}

#[test]
fn text_of_breaks_and_annotations_only_is_empty() {
    assert_eq!(normalize("\n\n[Intro]\n\n\n[Outro]\n"), "");
}

#[test]
fn every_annotation_is_removed_not_just_the_first() {
    assert_eq!(strip_annotations("[a]x[b]y[c]"), "xy");
    assert_eq!(strip_annotations("[Verse 1: Artist]la[Chorus]"), "la");
}

#[test]
fn annotation_ends_at_the_nearest_closing_bracket() {
    assert_eq!(strip_annotations("a[b]c]d"), "ac]d");
    assert_eq!(strip_annotations("[[a]b]"), "b]");
    assert_eq!(strip_annotations("[]"), "");
}

#[test]
fn annotation_may_span_lines() {
    assert_eq!(strip_annotations("one[Verse\n2]two"), "onetwo");
    assert_eq!(normalize("[Produced by\nSomeone]\nLine"), "Line");
}

#[test]
fn bracket_without_partner_stays() {
    assert_eq!(strip_annotations("a[b"), "a[b");
    assert_eq!(strip_annotations("a]b"), "a]b");
    assert_eq!(strip_annotations("a]b[c"), "a]b[c");
    assert_eq!(strip_annotations("[x]a[b"), "a[b");
    assert_eq!(normalize("] and ["), "] and [");
}

#[test]
fn single_break_becomes_one_space() {
    assert_eq!(collapse_line_breaks("a\nb"), "a b");
}

#[test]
fn run_of_breaks_becomes_one_space() {
    assert_eq!(collapse_line_breaks("a\n\nb"), "a b");
    assert_eq!(collapse_line_breaks("a\n\n\nb"), "a b");
    assert_eq!(collapse_line_breaks("a\n\n\n\n\nb\nc"), "a b c");
    assert_eq!(collapse_line_breaks("\n\na\n\n"), " a ");
}

#[test]
fn spaces_between_words_are_kept_as_they_are() {
    assert_eq!(collapse_line_breaks("a  b \n c"), "a  b   c");
    assert_eq!(normalize("a  b \n c"), "a  b   c");
}

#[test]
fn trimming_removes_whitespace_at_both_ends_only() {
    assert_eq!(trim_whitespace("  a b  "), "a b");
    assert_eq!(trim_whitespace("\t\r\n a\u{a0}b \u{2003}\u{3000}"), "a\u{a0}b");
    assert_eq!(trim_whitespace(" \u{85}\u{1680} "), "");
    assert_eq!(trim_whitespace("x"), "x");
    assert_eq!(trim_whitespace("\u{200b}x\u{200b}"), "\u{200b}x\u{200b}");
}

#[test]
fn whitespace_is_what_the_standard_library_calls_whitespace() {
    let mut code: u32 = 0;
    while code <= 0x10FFFF {
        if let Some(c) = char::from_u32(code) {
            assert_eq!(is_whitespace_char(c), c.is_whitespace());
        }
        code += 1;
    }
}

#[test]
fn normal_form_holds_no_line_break() {
    let samples = ["a\nb", "\n", "a\r\nb", "[x\n]\n\ny\n", "no break at all", "\n\n\n"];
    for sample in samples {
        assert!(!normalize(sample).contains('\n'));
    }
}

#[test]
fn normalizing_twice_changes_nothing() {
    let samples = [
        "[Chorus]\nHello\n\n[Verse]\nWorld",
        "[a\nb]",
        "  padded  ",
        "a[b",
        "]x[",
        "[[a]b]",
        "x [y] z\n\n\n[w]",
        " \n [q] \n ",
        "la la\u{2003}\n",
    ];
    for sample in samples {
        let once = normalize(sample);
        assert_eq!(normalize(&once), once);
    }
}

#[test]
fn normal_form_agrees_with_patterns() {
    let samples = [
        "",
        "[Chorus]\nHello\n\n[Verse]\nWorld",
        "[Intro: A & B]\nFirst line\nSecond line\n\n[Hook]\nla la la\n\n\n\n[Outro]\n",
        "no annotations here",
        "broken [annotation\nover lines] rest",
        "stray ] bracket [ pair",
        "[[nested] one] two",
        "  [x]  spaced  [y]  ",
        "tabs\tand\u{a0}other\u{2003}space\n",
        "caf\u{e9} [\u{266a}] \u{6b4c}\u{8a5e}\n\n\u{1f3b5}",
    ];
    for sample in samples {
        assert_eq!(normalize(sample), normalize_by_pattern(sample));
    }
}
