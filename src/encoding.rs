//! RFC 3986 percent-encoding as used in OAuth1 base strings.

use vstd::prelude::*;
use vstd::utf8::*;

verus! {

/// The unreserved bytes of RFC 3986: `A-Z a-z 0-9 - . _ ~`.
pub open spec fn is_unreserved_byte(b: u8) -> bool {
    (0x30 <= b <= 0x39) || (0x41 <= b <= 0x5a) || (0x61 <= b <= 0x7a) || b == 0x2d || b == 0x2e
        || b == 0x5f || b == 0x7e
}

/// The unreserved characters of RFC 3986.
pub open spec fn is_unreserved_char(c: char) -> bool {
    ('0' <= c <= '9') || ('A' <= c <= 'Z') || ('a' <= c <= 'z') || c == '-' || c == '.' || c
        == '_' || c == '~'
}

/// Upper-case hexadecimal digit of a value below 16.
pub open spec fn hex_upper(d: u8) -> char {
    seq!['0', '1', '2', '3', '4', '5', '6', '7', '8', '9', 'A', 'B', 'C', 'D', 'E', 'F'][d as int]
}

/// Value of a hexadecimal digit, either case.
pub open spec fn hex_value(c: char) -> Option<u8> {
    if '0' <= c <= '9' {
        Some((c as u32 - '0' as u32) as u8)
    } else if 'A' <= c <= 'F' {
        Some((c as u32 - 'A' as u32 + 10) as u8)
    } else if 'a' <= c <= 'f' {
        Some((c as u32 - 'a' as u32 + 10) as u8)
    } else {
        None
    }
}

/// One byte, percent-encoded.
pub open spec fn encode_byte(b: u8) -> Seq<char> {
    if is_unreserved_byte(b) {
        seq![b as char]
    } else {
        seq!['%', hex_upper(b / 16), hex_upper(b % 16)]
    }
}

/// A byte string, percent-encoded byte by byte.
pub open spec fn encode_bytes(bs: Seq<u8>) -> Seq<char>
    decreases bs.len(),
{
    if bs.len() == 0 {
        seq![]
    } else {
        encode_byte(bs[0]) + encode_bytes(bs.drop_first())
    }
}

/// Text percent-encoded over its UTF-8 bytes.
pub open spec fn percent_encoded(s: Seq<char>) -> Seq<char> {
    encode_bytes(encode_utf8(s))
}

/// Bytes that percent-encoded ASCII text stands for: each `%` with two hex
/// digits is one byte, every other character is its own byte.
pub open spec fn decode_bytes(cs: Seq<char>) -> Seq<u8>
    decreases cs.len(),
{
    if cs.len() == 0 {
        seq![]
    } else if cs.len() >= 3 && cs[0] == '%' && hex_value(cs[1]) is Some && hex_value(cs[2]) is Some {
        seq![(hex_value(cs[1])->0 * 16 + hex_value(cs[2])->0) as u8] + decode_bytes(cs.skip(3))
    } else {
        seq![cs[0] as u8] + decode_bytes(cs.drop_first())
    }
}

/// The text that percent-encoded ASCII text stands for.
pub open spec fn percent_decoded(cs: Seq<char>) -> Seq<char> {
    decode_utf8(decode_bytes(cs))
}

proof fn lemma_hex_round_trip(d: u8)
    requires
        d < 16,
    ensures
        hex_value(hex_upper(d)) == Some(d),
        is_unreserved_char(hex_upper(d)),
{
}

proof fn lemma_decode_encoded_byte(b: u8, rest: Seq<char>)
    ensures
        decode_bytes(encode_byte(b) + rest) == seq![b] + decode_bytes(rest),
{
    let cs = encode_byte(b) + rest;
    if is_unreserved_byte(b) {
        assert(cs[0] == b as char);
        assert(cs.drop_first() =~= rest);
        assert((b as char) as u8 == b);
    } else {
        lemma_hex_round_trip(b / 16);
        lemma_hex_round_trip(b % 16);
        assert(cs[0] == '%');
        assert(cs.skip(3) =~= rest);
        assert(((b / 16) * 16 + b % 16) as u8 == b);
    }
}

proof fn lemma_decode_encoded_bytes(bs: Seq<u8>)
    ensures
        decode_bytes(encode_bytes(bs)) == bs,
    decreases bs.len(),
{
    if bs.len() > 0 {
        lemma_decode_encoded_bytes(bs.drop_first());
        lemma_decode_encoded_byte(bs[0], encode_bytes(bs.drop_first()));
        assert(seq![bs[0]] + bs.drop_first() =~= bs);
    }
}

/// Decoding undoes percent-encoding: any text comes back unchanged from its
/// encoded form, so no two texts share an encoding.
pub proof fn lemma_percent_round_trip(s: Seq<char>)
    ensures
        percent_decoded(percent_encoded(s)) == s,
{
    lemma_decode_encoded_bytes(encode_utf8(s));
    encode_utf8_decode_utf8(s);
}

/// Two texts with the same percent-encoding are the same text.
pub proof fn lemma_percent_encoding_injective(s: Seq<char>, t: Seq<char>)
    requires
        percent_encoded(s) == percent_encoded(t),
    ensures
        s == t,
{
    lemma_percent_round_trip(s);
    lemma_percent_round_trip(t);
}

proof fn lemma_encode_bytes_safe(bs: Seq<u8>)
    ensures
        forall|i: int|
            0 <= i < encode_bytes(bs).len() ==> is_unreserved_char(#[trigger] encode_bytes(bs)[i])
                || encode_bytes(bs)[i] == '%',
    decreases bs.len(),
{
    if bs.len() > 0 {
        lemma_encode_bytes_safe(bs.drop_first());
        let b = bs[0];
        if !is_unreserved_byte(b) {
            lemma_hex_round_trip(b / 16);
            lemma_hex_round_trip(b % 16);
        }
        let e = encode_byte(b);
        let r = encode_bytes(bs.drop_first());
        assert forall|i: int| 0 <= i < (e + r).len() implies is_unreserved_char(#[trigger] (e
            + r)[i]) || (e + r)[i] == '%' by {
            if i >= e.len() {
                assert((e + r)[i] == r[i - e.len()]);
            }
        }
    }
}

/// Encoded text holds only unreserved characters and `%`.
pub proof fn lemma_percent_encoded_is_safe(s: Seq<char>)
    ensures
        forall|i: int|
            0 <= i < percent_encoded(s).len() ==> is_unreserved_char(
                #[trigger] percent_encoded(s)[i],
            ) || percent_encoded(s)[i] == '%',
{
    lemma_encode_bytes_safe(encode_utf8(s));
}

proof fn lemma_encode_unreserved_bytes(bs: Seq<u8>, s: Seq<char>)
    requires
        bs.len() == s.len(),
        forall|i: int| 0 <= i < s.len() ==> is_unreserved_char(#[trigger] s[i]) && bs[i] == s[i] as u8,
    ensures
        encode_bytes(bs) == s,
    decreases bs.len(),
{
    if bs.len() > 0 {
        let c = s[0];
        assert(is_unreserved_char(c) && bs[0] == c as u8);
        lemma_encode_unreserved_bytes(bs.drop_first(), s.drop_first());
        assert(is_unreserved_byte(bs[0]));
        assert(bs[0] as char == c);
        assert(seq![c] + s.drop_first() =~= s);
    }
}

/// Text made only of unreserved characters is never encoded: it is its own
/// encoding.
pub proof fn lemma_unreserved_unchanged(s: Seq<char>)
    requires
        forall|i: int| 0 <= i < s.len() ==> is_unreserved_char(#[trigger] s[i]),
    ensures
        percent_encoded(s) == s,
{
    assert(is_ascii_chars(s));
    is_ascii_chars_encode_utf8(s);
    lemma_encode_unreserved_bytes(encode_utf8(s), s);
}

/// Relies on urlencoding::encode: every UTF-8 byte of `s` other than
/// `A-Z a-z 0-9 - . _ ~` becomes `%` and two upper-case hex digits; the rest
/// are kept.
#[verifier::external_body]
pub(crate) fn url_encode(s: &str) -> (r: String)
    ensures
        r@ == percent_encoded(s@),
{
    urlencoding::encode(s).into_owned()
}

} // verus!
