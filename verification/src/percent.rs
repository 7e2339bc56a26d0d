//! Percent-encoding of a query component.
//!
//! Letters, digits and the four marks `-`, `.`, `_` and `~` stand for
//! themselves. Every other byte of the text's UTF-8 form is written as `%`
//! and two upper-case hexadecimal digits, so that what comes out can stand
//! behind a `=` in a query without ending or splitting it.

use vstd::prelude::*;
use vstd::string::StringSliceAdditionalSpecFns;

verus! {

/// The bytes that stand for themselves: ASCII letters and digits, `-`, `.`,
/// `_` and `~`.
pub open spec fn is_unreserved(byte: u8) -> bool {
    ||| 0x41 <= byte <= 0x5A
    ||| 0x61 <= byte <= 0x7A
    ||| 0x30 <= byte <= 0x39
    ||| byte == 0x2D
    ||| byte == 0x2E
    ||| byte == 0x5F
    ||| byte == 0x7E
}

/// The upper-case hexadecimal digit for a value below sixteen.
pub open spec fn hex_digit(nibble: u8) -> char
    recommends
        nibble < 16,
{
    if nibble < 10 {
        (0x30 + nibble) as char
    } else {
        (0x41 + (nibble - 10)) as char
    }
}

/// One byte, encoded.
pub open spec fn encoded_byte(byte: u8) -> Seq<char> {
    if is_unreserved(byte) {
        seq![byte as char]
    } else {
        seq!['%', hex_digit(byte / 16), hex_digit(byte % 16)]
    }
}

/// A sequence of bytes, encoded byte by byte.
pub open spec fn percent_encoded(bytes: Seq<u8>) -> Seq<char>
    decreases bytes.len(),
{
    if bytes.len() == 0 {
        Seq::empty()
    } else {
        percent_encoded(bytes.drop_last()) + encoded_byte(bytes.last())
    }
}

/// A character that encoded text may hold: an unreserved one, `%`, or a
/// hexadecimal digit.
pub open spec fn is_query_safe(c: char) -> bool {
    let code = c as u32;
    ||| 0x41 <= code <= 0x5A
    ||| 0x61 <= code <= 0x7A
    ||| 0x30 <= code <= 0x39
    ||| c == '-'
    ||| c == '.'
    ||| c == '_'
    ||| c == '~'
    ||| c == '%'
}

/// Every character of an encoded byte is query-safe.
proof fn lemma_encoded_byte_is_query_safe(byte: u8)
    ensures
        1 <= encoded_byte(byte).len() <= 3,
        forall|k: int|
            0 <= k < encoded_byte(byte).len() ==> is_query_safe(#[trigger] encoded_byte(byte)[k]),
{
    let high = byte / 16;
    let low = byte % 16;
    assert(high < 16 && low < 16);
    assert(is_query_safe(hex_digit(high)));
    assert(is_query_safe(hex_digit(low)));
    if is_unreserved(byte) {
        assert(is_query_safe(byte as char));
    }
}

/// Encoded text holds nothing but query-safe characters: none of `&`, `=`,
/// `#`, `?`, `+`, `/`, no space and no control.
pub proof fn lemma_percent_encoded_is_query_safe(bytes: Seq<u8>)
    ensures
        forall|i: int|
            0 <= i < percent_encoded(bytes).len() ==> is_query_safe(
                #[trigger] percent_encoded(bytes)[i],
            ),
    decreases bytes.len(),
{
    if bytes.len() > 0 {
        lemma_percent_encoded_is_query_safe(bytes.drop_last());
        lemma_encoded_byte_is_query_safe(bytes.last());
        let head = percent_encoded(bytes.drop_last());
        let tail = encoded_byte(bytes.last());
        assert forall|i: int| 0 <= i < percent_encoded(bytes).len() implies is_query_safe(
            #[trigger] percent_encoded(bytes)[i],
        ) by {
            if i < head.len() {
                assert(percent_encoded(bytes)[i] == head[i]);
            } else {
                assert(percent_encoded(bytes)[i] == tail[i - head.len()]);
            }
        }
    }
}

fn hex_digit_of(nibble: u8) -> (digit: char)
    requires
        nibble < 16,
    ensures
        digit == hex_digit(nibble),
{
    if nibble < 10 {
        (0x30 + nibble) as char
    } else {
        (0x41 + (nibble - 10)) as char
    }
}

fn is_unreserved_byte(byte: u8) -> (yes: bool)
    ensures
        yes == is_unreserved(byte),
{
    (0x41 <= byte && byte <= 0x5A) || (0x61 <= byte && byte <= 0x7A) || (0x30 <= byte && byte
        <= 0x39) || byte == 0x2D || byte == 0x2E || byte == 0x5F || byte == 0x7E
}

/// Appends the percent-encoding of `text` to `out`.
pub fn push_percent_encoded(out: &mut String, text: &str)
    ensures
        final(out)@ == old(out)@ + percent_encoded(text.spec_bytes()),
{
    let bytes = text.as_bytes();
    let ghost before = out@;
    let mut i: usize = 0;
    while i < bytes.len()
        invariant
            i <= bytes.len(),
            bytes@ == text.spec_bytes(),
            out@ == before + percent_encoded(bytes@.take(i as int)),
        decreases bytes.len() - i,
    {
        let byte = bytes[i];
        proof {
            assert(bytes@.take(i + 1).drop_last() =~= bytes@.take(i as int));
        }
        if is_unreserved_byte(byte) {
            out.push(byte as char);
        } else {
            out.push('%');
            out.push(hex_digit_of(byte / 16));
            out.push(hex_digit_of(byte % 16));
        }
        i += 1;
        assert(out@ =~= before + percent_encoded(bytes@.take(i as int)));
    }
    assert(bytes@.take(bytes@.len() as int) =~= bytes@);
}

/// The percent-encoding of `text`.
pub fn percent_encode(text: &str) -> (encoded: String)
    ensures
        encoded@ == percent_encoded(text.spec_bytes()),
        forall|i: int| 0 <= i < encoded@.len() ==> is_query_safe(#[trigger] encoded@[i]),
{
    let mut encoded = String::new();
    push_percent_encoded(&mut encoded, text);
    proof {
        lemma_percent_encoded_is_query_safe(text.spec_bytes());
    }
    encoded
}

} // verus!
