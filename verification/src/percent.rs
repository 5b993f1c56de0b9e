//! Percent-encoding of a text for use as a value in a URL's query.

use vstd::prelude::*;
use vstd::utf8::encode_utf8;

verus! {

/// The bytes that stand for themselves in a URL: the ASCII letters and
/// digits, `-`, `.`, `_` and `~`.
pub open spec fn is_unreserved(b: u8) -> bool {
    ||| 0x41 <= b <= 0x5a
    ||| 0x61 <= b <= 0x7a
    ||| 0x30 <= b <= 0x39
    ||| b == 0x2d
    ||| b == 0x2e
    ||| b == 0x5f
    ||| b == 0x7e
}

/// The hexadecimal digit, in upper case, of a number below sixteen.
pub open spec fn hex_digit(n: int) -> char
    recommends
        0 <= n < 16,
{
    if n < 10 {
        (n + 0x30) as char
    } else {
        (n - 10 + 0x41) as char
    }
}

/// One byte as it stands in the encoded text: itself, or `%` and its two
/// hexadecimal digits.
pub open spec fn encoded_byte(b: u8) -> Seq<char> {
    if is_unreserved(b) {
        seq![b as char]
    } else {
        seq!['%', hex_digit(b as int / 16), hex_digit(b as int % 16)]
    }
}

/// The encoded text of a run of bytes.
pub open spec fn encoded_bytes(bytes: Seq<u8>) -> Seq<char>
    decreases bytes.len(),
{
    if bytes.len() == 0 {
        Seq::<char>::empty()
    } else {
        encoded_bytes(bytes.drop_last()) + encoded_byte(bytes.last())
    }
}

/// A text, percent-encoded: the encoding of its bytes in UTF-8.
pub open spec fn percent_encoded(text: Seq<char>) -> Seq<char> {
    encoded_bytes(encode_utf8(text))
}

/// Whether `c` may stand in an encoded text: a letter or digit of ASCII, one
/// of `-`, `.`, `_`, `~`, or `%`.
pub open spec fn is_query_safe(c: char) -> bool {
    c == '%' || (c as u32 <= 0x7f && is_unreserved(c as u8))
}

/// An encoded text holds nothing but characters that are safe in a query: no
/// `&`, `=`, `?`, `#`, `/` or space can come out of a value.
pub proof fn lemma_encoded_is_safe(bytes: Seq<u8>)
    ensures
        forall|i: int|
            0 <= i < encoded_bytes(bytes).len() ==> is_query_safe(#[trigger] encoded_bytes(bytes)[i]),
    decreases bytes.len(),
{
    if bytes.len() > 0 {
        lemma_encoded_is_safe(bytes.drop_last());
        let front = encoded_bytes(bytes.drop_last());
        let piece = encoded_byte(bytes.last());
        let b = bytes.last();
        assert(forall|k: int| 0 <= k < piece.len() ==> is_query_safe(#[trigger] piece[k])) by {
            if !is_unreserved(b) {
                assert(is_query_safe(hex_digit(b as int / 16)));
                assert(is_query_safe(hex_digit(b as int % 16)));
            }
        }
        assert forall|i: int| 0 <= i < encoded_bytes(bytes).len() implies is_query_safe(
            #[trigger] encoded_bytes(bytes)[i],
        ) by {
            if i < front.len() {
                assert(encoded_bytes(bytes)[i] == front[i]);
            } else {
                assert(encoded_bytes(bytes)[i] == piece[i - front.len()]);
            }
        }
    }
}

/// The hexadecimal digit of a number below sixteen.
fn hex_char(n: u8) -> (c: char)
    requires
        n < 16,
    ensures
        c == hex_digit(n as int),
{
    if n < 10 {
        (n + 0x30u8) as char
    } else {
        (n - 10u8 + 0x41u8) as char
    }
}

/// Whether a byte stands for itself.
fn unreserved(b: u8) -> (r: bool)
    ensures
        r == is_unreserved(b),
{
    (0x41 <= b && b <= 0x5a) || (0x61 <= b && b <= 0x7a) || (0x30 <= b && b <= 0x39) || b == 0x2d
        || b == 0x2e || b == 0x5f || b == 0x7e
}

/// Appends the percent-encoding of `text` to `out`.
pub fn push_percent_encoded(out: &mut String, text: &str)
    ensures
        final(out)@ == old(out)@ + percent_encoded(text@),
{
    let bytes = text.as_bytes();
    let mut i: usize = 0;
    proof {
        assert(bytes@.subrange(0, 0) == Seq::<u8>::empty());
    }
    while i < bytes.len()
        invariant
            i <= bytes@.len(),
            out@ == old(out)@ + encoded_bytes(bytes@.subrange(0, i as int)),
        decreases bytes.len() - i,
    {
        let b: u8 = bytes[i];
        proof {
            let longer = bytes@.subrange(0, i + 1);
            assert(longer.drop_last() == bytes@.subrange(0, i as int));
            assert(longer.last() == b);
        }
        if unreserved(b) {
            out.push(b as char);
        } else {
            out.push('%');
            out.push(hex_char(b / 16));
            out.push(hex_char(b % 16));
        }
        i += 1;
    }
    proof {
        assert(bytes@.subrange(0, bytes@.len() as int) == bytes@);
    }
}

/// The percent-encoding of `text`.
pub fn percent_encode(text: &str) -> (encoded: String)
    ensures
        encoded@ == percent_encoded(text@),
{
    let mut encoded = String::new();
    push_percent_encoded(&mut encoded, text);
    encoded
}

} // verus!
