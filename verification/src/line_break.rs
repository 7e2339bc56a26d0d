//! Line breaks in lyrics text, and their flattening into single spaces.
//!
//! A run of one or more consecutive line breaks, whether it ends a line or
//! parts two sections, becomes exactly one space.

use vstd::prelude::*;

use crate::annotation::annotation_free;
use crate::text::{chars_of, string_of};

verus! {

/// The character that breaks a line.
pub const LINE_BREAK: char = '\n';

/// The character that takes the place of a run of line breaks.
pub const SEPARATOR: char = ' ';

/// `s` holds no line break.
pub open spec fn single_line(s: Seq<char>) -> bool {
    forall|i: int| 0 <= i < s.len() ==> s[i] != LINE_BREAK
}

/// `s` from index `from` on, with every run of line breaks replaced by one
/// separator. The separator stands where the run's last line break stood.
pub open spec fn collapsed_from(s: Seq<char>, from: int) -> Seq<char>
    decreases s.len() - from,
{
    if from < 0 || from >= s.len() {
        Seq::empty()
    } else if s[from] != LINE_BREAK {
        seq![s[from]] + collapsed_from(s, from + 1)
    } else if from + 1 < s.len() && s[from + 1] == LINE_BREAK {
        collapsed_from(s, from + 1)
    } else {
        seq![SEPARATOR] + collapsed_from(s, from + 1)
    }
}

/// `s` with every run of line breaks replaced by one separator.
pub open spec fn line_breaks_collapsed(s: Seq<char>) -> Seq<char> {
    collapsed_from(s, 0)
}

/// No line break survives the flattening.
pub proof fn lemma_collapsed_is_single_line(s: Seq<char>, from: int)
    requires
        0 <= from <= s.len(),
    ensures
        single_line(collapsed_from(s, from)),
    decreases s.len() - from,
{
    if from < s.len() {
        lemma_collapsed_is_single_line(s, from + 1);
    }
}

/// Text without line breaks is left as it is.
pub proof fn lemma_collapsed_of_single_line(s: Seq<char>, from: int)
    requires
        0 <= from <= s.len(),
        single_line(s),
    ensures
        collapsed_from(s, from) == s.subrange(from, s.len() as int),
    decreases s.len() - from,
{
    if from < s.len() {
        lemma_collapsed_of_single_line(s, from + 1);
        assert(seq![s[from]] + s.subrange(from + 1, s.len() as int) =~= s.subrange(
            from,
            s.len() as int,
        ));
    } else {
        assert(s.subrange(from, s.len() as int) =~= Seq::<char>::empty());
    }
}

/// Flattening brings in no `]`: where `s` holds none from `from` on, neither
/// does the result.
proof fn lemma_collapsed_keeps_out_closing(s: Seq<char>, from: int)
    requires
        0 <= from <= s.len(),
        forall|k: int| from <= k < s.len() ==> s[k] != ']',
    ensures
        forall|k: int|
            0 <= k < collapsed_from(s, from).len() ==> collapsed_from(s, from)[k] != ']',
    decreases s.len() - from,
{
    if from < s.len() {
        lemma_collapsed_keeps_out_closing(s, from + 1);
        let rest = collapsed_from(s, from + 1);
        let all = collapsed_from(s, from);
        assert forall|k: int| 0 <= k < all.len() implies all[k] != ']' by {
            if all.len() == rest.len() + 1 && k > 0 {
                assert(all[k] == rest[k - 1]);
            }
        }
    }
}

/// Flattening makes no annotation: where no `[` at or after `from` is
/// followed by a `]`, the same holds of the result.
pub proof fn lemma_collapsed_stays_annotation_free(s: Seq<char>, from: int)
    requires
        0 <= from <= s.len(),
        forall|i: int, j: int| from <= i < j < s.len() ==> !(s[i] == '[' && s[j] == ']'),
    ensures
        annotation_free(collapsed_from(s, from)),
    decreases s.len() - from,
{
    if from < s.len() {
        lemma_collapsed_stays_annotation_free(s, from + 1);
        let rest = collapsed_from(s, from + 1);
        let all = collapsed_from(s, from);
        if all.len() == rest.len() + 1 {
            if all[0] == '[' {
                assert(s[from] == '[');
                lemma_collapsed_keeps_out_closing(s, from + 1);
            }
            assert forall|i: int, j: int| 0 <= i < j < all.len() implies !(all[i] == '['
                && all[j] == ']') by {
                assert(all[j] == rest[j - 1]);
                if i > 0 {
                    assert(all[i] == rest[i - 1]);
                }
            }
        }
    }
}

/// Replaces every run of line breaks in a sequence of characters by one
/// space.
pub fn collapse_line_break_chars(chars: &Vec<char>) -> (flat: Vec<char>)
    ensures
        flat@ == line_breaks_collapsed(chars@),
        single_line(flat@),
{
    let n = chars.len();
    let mut flat: Vec<char> = Vec::new();
    let mut i: usize = 0;
    while i < n
        invariant
            n == chars.len(),
            i <= n,
            flat@ + collapsed_from(chars@, i as int) == line_breaks_collapsed(chars@),
        decreases n - i,
    {
        let c = chars[i];
        let ghost rest = collapsed_from(chars@, i + 1);
        if c != LINE_BREAK {
            flat.push(c);
            assert((flat@ + rest) =~= (flat@.drop_last() + (seq![c] + rest)));
        } else if i + 1 >= n || chars[i + 1] != LINE_BREAK {
            flat.push(SEPARATOR);
            assert((flat@ + rest) =~= (flat@.drop_last() + (seq![SEPARATOR] + rest)));
        }
        i += 1;
    }
    proof {
        assert(flat@ + Seq::<char>::empty() =~= flat@);
        lemma_collapsed_is_single_line(chars@, 0);
    }
    flat
}

/// Replaces every run of one or more line breaks in `text` by one space.
pub fn collapse_line_breaks(text: &str) -> (flat: String)
    ensures
        flat@ == line_breaks_collapsed(text@),
        single_line(flat@),
{
    let chars = chars_of(text);
    let flat = collapse_line_break_chars(&chars);
    string_of(&flat)
}

} // verus!
