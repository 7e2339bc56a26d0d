//! Whitespace, and its removal from both ends of a text.

use vstd::prelude::*;

use crate::annotation::annotation_free;
use crate::line_break::single_line;
use crate::text::{chars_of, string_of};

verus! {

/// The characters that Unicode gives the property `White_Space`: the
/// controls U+0009 to U+000D, the space, U+0085, the no-break space, the
/// Ogham space mark, U+2000 to U+200A, the line and paragraph separators,
/// the narrow no-break space, the medium mathematical space and the
/// ideographic space.
pub open spec fn is_whitespace(c: char) -> bool {
    let code = c as u32;
    ||| 0x09 <= code <= 0x0D
    ||| code == 0x20
    ||| code == 0x85
    ||| code == 0xA0
    ||| code == 0x1680
    ||| 0x2000 <= code <= 0x200A
    ||| code == 0x2028
    ||| code == 0x2029
    ||| code == 0x202F
    ||| code == 0x205F
    ||| code == 0x3000
}

/// The least index at or after `from` at which `s` holds a character that is
/// no whitespace, or the length of `s` where there is none.
pub open spec fn content_start(s: Seq<char>, from: int) -> int
    decreases s.len() - from,
{
    if 0 <= from < s.len() && is_whitespace(s[from]) {
        content_start(s, from + 1)
    } else {
        from
    }
}

/// The least end `e` with `floor <= e <= to` such that `s` holds nothing but
/// whitespace from `e` up to `to`.
pub open spec fn content_end(s: Seq<char>, floor: int, to: int) -> int
    decreases to - floor,
{
    if floor < to <= s.len() && is_whitespace(s[to - 1]) {
        content_end(s, floor, to - 1)
    } else {
        to
    }
}

/// `s` without the whitespace at its start and at its end.
pub open spec fn trimmed(s: Seq<char>) -> Seq<char> {
    let start = content_start(s, 0);
    s.subrange(start, content_end(s, start, s.len() as int))
}

/// `s` neither starts nor ends with whitespace.
pub open spec fn tight(s: Seq<char>) -> bool {
    s.len() > 0 ==> !is_whitespace(s[0]) && !is_whitespace(s[s.len() - 1])
}

/// Where `content_start` lands.
pub proof fn lemma_content_start(s: Seq<char>, from: int)
    requires
        0 <= from <= s.len(),
    ensures
        from <= content_start(s, from) <= s.len(),
        content_start(s, from) < s.len() ==> !is_whitespace(s[content_start(s, from)]),
        forall|k: int| from <= k < content_start(s, from) ==> is_whitespace(s[k]),
    decreases s.len() - from,
{
    if from < s.len() && is_whitespace(s[from]) {
        lemma_content_start(s, from + 1);
    }
}

/// Where `content_end` lands.
pub proof fn lemma_content_end(s: Seq<char>, floor: int, to: int)
    requires
        0 <= floor <= to <= s.len(),
    ensures
        floor <= content_end(s, floor, to) <= to,
        content_end(s, floor, to) > floor ==> !is_whitespace(s[content_end(s, floor, to) - 1]),
        forall|k: int| content_end(s, floor, to) <= k < to ==> is_whitespace(s[k]),
    decreases to - floor,
{
    if floor < to && is_whitespace(s[to - 1]) {
        lemma_content_end(s, floor, to - 1);
    }
}

/// What trimming gives is a stretch of the text that neither starts nor ends
/// with whitespace.
pub proof fn lemma_trimmed_is_tight(s: Seq<char>)
    ensures
        tight(trimmed(s)),
        single_line(s) ==> single_line(trimmed(s)),
        annotation_free(s) ==> annotation_free(trimmed(s)),
{
    lemma_content_start(s, 0);
    let start = content_start(s, 0);
    lemma_content_end(s, start, s.len() as int);
}

/// Text that neither starts nor ends with whitespace is left as it is.
pub proof fn lemma_trimmed_of_tight(s: Seq<char>)
    requires
        tight(s),
    ensures
        trimmed(s) == s,
{
    assert(content_start(s, 0) == 0);
    assert(content_end(s, 0, s.len() as int) == s.len());
    assert(s.subrange(0, s.len() as int) =~= s);
}

/// Whether `c` is whitespace.
pub fn is_whitespace_char(c: char) -> (yes: bool)
    ensures
        yes == is_whitespace(c),
{
    let code: u32 = c as u32;
    (0x09 <= code && code <= 0x0D) || code == 0x20 || code == 0x85 || code == 0xA0 || code
        == 0x1680 || (0x2000 <= code && code <= 0x200A) || code == 0x2028 || code == 0x2029
        || code == 0x202F || code == 0x205F || code == 0x3000
}

/// Removes the whitespace at the start and at the end of a sequence of
/// characters.
pub fn trim_chars(chars: &Vec<char>) -> (kept: Vec<char>)
    ensures
        kept@ == trimmed(chars@),
        tight(kept@),
{
    let n = chars.len();
    let mut start: usize = 0;
    while start < n && is_whitespace_char(chars[start])
        invariant
            n == chars.len(),
            start <= n,
            content_start(chars@, start as int) == content_start(chars@, 0),
        decreases n - start,
    {
        start += 1;
    }
    let mut end: usize = n;
    while start < end && is_whitespace_char(chars[end - 1])
        invariant
            n == chars.len(),
            start <= end <= n,
            content_end(chars@, start as int, end as int) == content_end(
                chars@,
                start as int,
                n as int,
            ),
        decreases end - start,
    {
        end -= 1;
    }
    let mut kept: Vec<char> = Vec::new();
    let mut i: usize = start;
    while i < end
        invariant
            n == chars.len(),
            start <= i <= end <= n,
            kept@ == chars@.subrange(start as int, i as int),
        decreases end - i,
    {
        kept.push(chars[i]);
        i += 1;
    }
    proof {
        lemma_trimmed_is_tight(chars@);
    }
    kept
}

/// Removes the whitespace at the start and at the end of `text`.
pub fn trim_whitespace(text: &str) -> (kept: String)
    ensures
        kept@ == trimmed(text@),
        tight(kept@),
{
    let chars = chars_of(text);
    let kept = trim_chars(&chars);
    string_of(&kept)
}

} // verus!
