//! Bracketed annotations such as `[Chorus]` or `[Verse 1: Artist]`, and their
//! removal from lyrics text.
//!
//! An annotation opens at a `[` and closes at the nearest `]` after it,
//! whatever stands between the two, a line break included. Annotations are
//! found from left to right and do not overlap. A `[` that no `]` follows
//! opens nothing and stays in the text.

use vstd::prelude::*;

use crate::text::{chars_of, string_of};

verus! {

/// The least index at or after `from` at which `s` holds a `]`, or the length
/// of `s` where there is none.
pub open spec fn closing_bracket(s: Seq<char>, from: int) -> int
    decreases s.len() - from,
{
    if from < 0 || from >= s.len() {
        s.len() as int
    } else if s[from] == ']' {
        from
    } else {
        closing_bracket(s, from + 1)
    }
}

/// What is left of `s` from index `from` on once every annotation that opens
/// at or after `from` is taken out.
pub open spec fn stripped_from(s: Seq<char>, from: int) -> Seq<char>
    decreases s.len() - from,
{
    if from < 0 || from >= s.len() {
        Seq::empty()
    } else if s[from] == '[' {
        let close = closing_bracket(s, from + 1);
        if from < close < s.len() {
            stripped_from(s, close + 1)
        } else {
            s.subrange(from, s.len() as int)
        }
    } else {
        seq![s[from]] + stripped_from(s, from + 1)
    }
}

/// `s` without its annotations.
pub open spec fn without_annotations(s: Seq<char>) -> Seq<char> {
    stripped_from(s, 0)
}

/// No `[` in `s` is followed, anywhere later, by a `]`: `s` holds no
/// annotation.
pub open spec fn annotation_free(s: Seq<char>) -> bool {
    forall|i: int, j: int| 0 <= i < j < s.len() ==> !(s[i] == '[' && s[j] == ']')
}

/// `closing_bracket` lands on the first `]` at or after `from`, or on the
/// length when the rest of `s` holds none.
pub proof fn lemma_closing_bracket(s: Seq<char>, from: int)
    requires
        0 <= from <= s.len(),
    ensures
        from <= closing_bracket(s, from) <= s.len(),
        closing_bracket(s, from) < s.len() ==> s[closing_bracket(s, from)] == ']',
        forall|k: int| from <= k < closing_bracket(s, from) ==> s[k] != ']',
    decreases s.len() - from,
{
    if from < s.len() && s[from] != ']' {
        lemma_closing_bracket(s, from + 1);
    }
}

/// Taking the annotations out leaves none behind.
pub proof fn lemma_stripped_is_annotation_free(s: Seq<char>, from: int)
    requires
        0 <= from <= s.len(),
    ensures
        annotation_free(stripped_from(s, from)),
    decreases s.len() - from,
{
    if from < s.len() {
        if s[from] == '[' {
            lemma_closing_bracket(s, from + 1);
            let close = closing_bracket(s, from + 1);
            if close < s.len() {
                lemma_stripped_is_annotation_free(s, close + 1);
            }
        } else {
            lemma_stripped_is_annotation_free(s, from + 1);
            let rest = stripped_from(s, from + 1);
            let all = seq![s[from]] + rest;
            assert forall|i: int, j: int| 0 <= i < j < all.len() implies !(all[i] == '['
                && all[j] == ']') by {
                if i > 0 {
                    assert(all[i] == rest[i - 1]);
                    assert(all[j] == rest[j - 1]);
                }
            }
        }
    }
}

/// Text that holds no annotation is left as it is.
pub proof fn lemma_stripped_of_annotation_free(s: Seq<char>, from: int)
    requires
        0 <= from <= s.len(),
        annotation_free(s),
    ensures
        stripped_from(s, from) == s.subrange(from, s.len() as int),
    decreases s.len() - from,
{
    if from < s.len() {
        if s[from] == '[' {
            lemma_closing_bracket(s, from + 1);
        } else {
            lemma_stripped_of_annotation_free(s, from + 1);
            assert(seq![s[from]] + s.subrange(from + 1, s.len() as int) =~= s.subrange(
                from,
                s.len() as int,
            ));
        }
    } else {
        assert(s.subrange(from, s.len() as int) =~= Seq::<char>::empty());
    }
}

/// The index of the first `]` at or after `from`, or the length of `chars`.
fn find_closing_bracket(chars: &Vec<char>, from: usize) -> (close: usize)
    requires
        from <= chars.len(),
    ensures
        close == closing_bracket(chars@, from as int),
        from <= close <= chars.len(),
{
    let mut k: usize = from;
    while k < chars.len() && chars[k] != ']'
        invariant
            from <= k <= chars.len(),
            closing_bracket(chars@, k as int) == closing_bracket(chars@, from as int),
        decreases chars.len() - k,
    {
        k += 1;
    }
    proof {
        lemma_closing_bracket(chars@, from as int);
    }
    k
}

/// Removes every annotation from a sequence of characters.
pub fn strip_annotation_chars(chars: &Vec<char>) -> (kept: Vec<char>)
    ensures
        kept@ == without_annotations(chars@),
        annotation_free(kept@),
{
    let n = chars.len();
    let mut kept: Vec<char> = Vec::new();
    let mut i: usize = 0;
    while i < n
        invariant
            n == chars.len(),
            i <= n,
            kept@ + stripped_from(chars@, i as int) == without_annotations(chars@),
        decreases n - i,
    {
        let c = chars[i];
        if c == '[' {
            let close = find_closing_bracket(chars, i + 1);
            if close < n {
                i = close + 1;
            } else {
                let ghost before = kept@;
                let start = i;
                while i < n
                    invariant
                        n == chars.len(),
                        start <= i <= n,
                        kept@ == before + chars@.subrange(start as int, i as int),
                    decreases n - i,
                {
                    kept.push(chars[i]);
                    i += 1;
                }
                assert(stripped_from(chars@, n as int) =~= Seq::<char>::empty());
            }
        } else {
            kept.push(c);
            proof {
                let rest = stripped_from(chars@, i + 1);
                assert((kept@ + rest) =~= (kept@.drop_last() + (seq![c] + rest)));
            }
            i += 1;
        }
    }
    proof {
        assert(kept@ + Seq::<char>::empty() =~= kept@);
        lemma_stripped_is_annotation_free(chars@, 0);
    }
    kept
}

/// Removes every annotation from `text`: each `[` together with everything
/// up to and including the nearest `]` after it.
pub fn strip_annotations(text: &str) -> (stripped: String)
    ensures
        stripped@ == without_annotations(text@),
        annotation_free(stripped@),
{
    let chars = chars_of(text);
    let kept = strip_annotation_chars(&chars);
    string_of(&kept)
}

} // verus!
