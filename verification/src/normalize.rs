//! The normal form of lyrics: one line of text without annotations.
//!
//! Lyrics come off a page as lines and sections, strewn with annotations
//! such as `[Chorus]`. Their normal form is reached in three steps, each on
//! the result of the one before: the annotations are taken out; every run of
//! line breaks becomes one space; the whitespace at both ends is dropped.

use vstd::prelude::*;

use crate::annotation::{
    annotation_free, lemma_stripped_is_annotation_free, lemma_stripped_of_annotation_free,
    strip_annotation_chars, without_annotations,
};
use crate::line_break::{
    collapse_line_break_chars, lemma_collapsed_is_single_line, lemma_collapsed_of_single_line,
    lemma_collapsed_stays_annotation_free, line_breaks_collapsed, single_line,
};
use crate::text::{chars_of, string_of};
use crate::whitespace::{lemma_trimmed_is_tight, lemma_trimmed_of_tight, tight, trim_chars, trimmed};

verus! {

/// The normal form of `s`.
pub open spec fn normalized(s: Seq<char>) -> Seq<char> {
    trimmed(line_breaks_collapsed(without_annotations(s)))
}

/// `s` is in normal form: a single line that holds no annotation and neither
/// starts nor ends with whitespace.
pub open spec fn is_normal(s: Seq<char>) -> bool {
    &&& annotation_free(s)
    &&& single_line(s)
    &&& tight(s)
}

/// The normal form of any text is a single line, holds no annotation and has
/// no whitespace at either end.
pub proof fn lemma_normalized_is_normal(s: Seq<char>)
    ensures
        is_normal(normalized(s)),
{
    let stripped = without_annotations(s);
    let flat = line_breaks_collapsed(stripped);
    lemma_stripped_is_annotation_free(s, 0);
    lemma_collapsed_stays_annotation_free(stripped, 0);
    lemma_collapsed_is_single_line(stripped, 0);
    lemma_trimmed_is_tight(flat);
}

/// Text in normal form is its own normal form.
pub proof fn lemma_normal_is_fixed(s: Seq<char>)
    requires
        is_normal(s),
    ensures
        normalized(s) == s,
{
    lemma_stripped_of_annotation_free(s, 0);
    lemma_collapsed_of_single_line(s, 0);
    lemma_trimmed_of_tight(s);
    assert(s.subrange(0, s.len() as int) =~= s);
}

/// Normalizing is idempotent: to normalize what is already normalized
/// changes nothing.
pub proof fn law_normalize_idempotent(s: Seq<char>)
    ensures
        normalized(normalized(s)) == normalized(s),
{
    lemma_normalized_is_normal(s);
    lemma_normal_is_fixed(normalized(s));
}

/// The normal form of any text holds no line break.
pub proof fn law_normalized_holds_no_line_break(s: Seq<char>)
    ensures
        !normalized(s).contains('\n'),
{
    lemma_normalized_is_normal(s);
}

/// Brings lyrics into their normal form: removes the annotations, turns
/// every run of line breaks into one space and trims the whitespace at both
/// ends.
pub fn process_song_lyrics(lyrics: String) -> (clean: String)
    ensures
        clean@ == normalized(lyrics@),
        is_normal(clean@),
        !clean@.contains('\n'),
{
    let chars = chars_of(lyrics.as_str());
    let stripped = strip_annotation_chars(&chars);
    let flat = collapse_line_break_chars(&stripped);
    let kept = trim_chars(&flat);
    proof {
        lemma_normalized_is_normal(lyrics@);
    }
    string_of(&kept)
}

} // verus!
