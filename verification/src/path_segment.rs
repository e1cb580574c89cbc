//! Percent-encoding of a single URL path segment.

use vstd::prelude::*;
use vstd::string::*;
use crate::text::{hex_upper_digit, hex_upper_char, push_char};

verus! {

/// Bytes that stand for themselves in an encoded segment: ASCII letters,
/// digits, `-`, `.`, `_` and `~`.
pub open spec fn is_unreserved(b: u8) -> bool {
    (48 <= b <= 57) || (65 <= b <= 90) || (97 <= b <= 122) || b == 45 || b == 46 || b == 95
        || b == 126
}

/// One byte of a segment, encoded: itself when unreserved, else `%` and two
/// uppercase hexadecimal digits.
pub open spec fn encode_byte(b: u8) -> Seq<char> {
    if is_unreserved(b) {
        seq![b as char]
    } else {
        seq!['%', hex_upper_digit(b as int / 16), hex_upper_digit(b as int % 16)]
    }
}

/// The encoding of a whole byte string, byte by byte.
pub open spec fn encode_segment(bytes: Seq<u8>) -> Seq<char>
    decreases bytes.len(),
{
    if bytes.len() == 0 {
        Seq::empty()
    } else {
        encode_byte(bytes[0]) + encode_segment(bytes.drop_first())
    }
}

/// The value of an uppercase hexadecimal digit.
pub open spec fn hex_value(c: char) -> int {
    if c <= '9' {
        c as int - '0' as int
    } else {
        c as int - 'A' as int + 10
    }
}

/// Percent-decoding: `%` and two digits give one byte, any other character
/// gives its own code.
pub open spec fn decode_segment(chars: Seq<char>) -> Seq<u8>
    decreases chars.len(),
{
    if chars.len() == 0 {
        Seq::empty()
    } else if chars[0] == '%' && chars.len() >= 3 {
        seq![(hex_value(chars[1]) * 16 + hex_value(chars[2])) as u8] + decode_segment(
            chars.skip(3),
        )
    } else {
        seq![chars[0] as u8] + decode_segment(chars.drop_first())
    }
}

proof fn lemma_encode_push(bytes: Seq<u8>, b: u8)
    ensures
        encode_segment(bytes.push(b)) == encode_segment(bytes) + encode_byte(b),
    decreases bytes.len(),
{
    if bytes.len() == 0 {
        assert(bytes.push(b).drop_first() =~= Seq::<u8>::empty());
        assert(encode_segment(bytes.push(b)) =~= encode_byte(b) + encode_segment(Seq::empty()));
    } else {
        lemma_encode_push(bytes.drop_first(), b);
        assert(bytes.push(b).drop_first() =~= bytes.drop_first().push(b));
        assert(encode_segment(bytes.push(b)) =~= encode_byte(bytes[0]) + (encode_segment(
            bytes.drop_first(),
        ) + encode_byte(b)));
    }
}

/// Percent-decoding gives back the bytes of every encoded segment, so two
/// different byte strings never encode to the same segment.
pub proof fn lemma_encode_segment_roundtrip(bytes: Seq<u8>)
    ensures
        decode_segment(encode_segment(bytes)) == bytes,
    decreases bytes.len(),
{
    if bytes.len() > 0 {
        let b = bytes[0];
        let rest = encode_segment(bytes.drop_first());
        lemma_encode_segment_roundtrip(bytes.drop_first());
        let e = encode_segment(bytes);
        assert(e == encode_byte(b) + rest);
        if is_unreserved(b) {
            assert(e[0] == b as char);
            assert(e.drop_first() =~= rest);
            assert(decode_segment(e) =~= seq![b] + bytes.drop_first());
        } else {
            assert(e[0] == '%');
            assert(e.skip(3) =~= rest);
            let hi = b as int / 16;
            let lo = b as int % 16;
            assert(hex_value(hex_upper_digit(hi)) == hi);
            assert(hex_value(hex_upper_digit(lo)) == lo);
            assert(e[1] == hex_upper_digit(hi));
            assert(e[2] == hex_upper_digit(lo));
            assert(decode_segment(e) =~= seq![b] + bytes.drop_first());
        }
        assert(seq![b] + bytes.drop_first() =~= bytes);
    }
}

fn is_unreserved_byte(b: u8) -> (r: bool)
    ensures
        r == is_unreserved(b),
{
    (48 <= b && b <= 57) || (65 <= b && b <= 90) || (97 <= b && b <= 122) || b == 45 || b == 46
        || b == 95 || b == 126
}

/// Percent-encodes the UTF-8 bytes of `value` for use as one path segment.
pub fn encode_path_segment(value: &str) -> (encoded: String)
    ensures
        encoded@ == encode_segment(value.spec_bytes()),
{
    let bytes = value.as_bytes();
    let mut encoded = String::new();
    let mut i: usize = 0;
    while i < bytes.len()
        invariant
            bytes@ == value.spec_bytes(),
            i <= bytes@.len(),
            encoded@ == encode_segment(bytes@.take(i as int)),
        decreases bytes@.len() - i,
    {
        let b = bytes[i];
        proof {
            lemma_encode_push(bytes@.take(i as int), b);
            assert(bytes@.take(i as int).push(b) =~= bytes@.take(i + 1));
        }
        if is_unreserved_byte(b) {
            push_char(&mut encoded, b as char);
        } else {
            push_char(&mut encoded, '%');
            push_char(&mut encoded, hex_upper_char(b / 16));
            push_char(&mut encoded, hex_upper_char(b % 16));
        }
        assert(encoded@ =~= encode_segment(bytes@.take(i + 1)));
        i = i + 1;
    }
    assert(bytes@.take(bytes@.len() as int) =~= bytes@);
    encoded
}

} // verus!
