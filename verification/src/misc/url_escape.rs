use vstd::prelude::*;
use vstd::utf8::{encode_utf8, decode_utf8, valid_utf8, is_ascii_chars, is_ascii_chars_encode_utf8, encode_utf8_valid_utf8, encode_utf8_decode_utf8};

verus! {

/// An ASCII letter or digit: the bytes that escaping leaves as they are.
pub open spec fn is_ascii_alnum(b: u8) -> bool {
    (0x30 <= b <= 0x39) || (0x41 <= b <= 0x5A) || (0x61 <= b <= 0x7A)
}

/// The upper-case hexadecimal digit for `n` in `0..16`.
pub open spec fn hex_digit_upper(n: int) -> char {
    if n < 10 {
        (0x30 + n) as char
    } else {
        (0x41 + n - 10) as char
    }
}

/// One byte escaped: itself when a letter or digit, else `%` and two upper-case hex digits.
pub open spec fn escaped_byte(b: u8) -> Seq<char> {
    if is_ascii_alnum(b) {
        seq![b as char]
    } else {
        seq!['%', hex_digit_upper(b as int / 16), hex_digit_upper(b as int % 16)]
    }
}

/// Bytes escaped one by one.
pub open spec fn escaped_bytes(bs: Seq<u8>) -> Seq<char>
    decreases bs.len(),
{
    if bs.len() == 0 {
        Seq::empty()
    } else {
        escaped_byte(bs[0]) + escaped_bytes(bs.drop_first())
    }
}

/// The url escape of a string: its UTF-8 bytes escaped one by one.
pub open spec fn url_escaped(s: Seq<char>) -> Seq<char> {
    escaped_bytes(encode_utf8(s))
}

/// The value of a hexadecimal digit, either case.
pub open spec fn hex_value(b: u8) -> Option<int> {
    if 0x30 <= b <= 0x39 {
        Some(b - 0x30)
    } else if 0x41 <= b <= 0x46 {
        Some(b - 0x41 + 10)
    } else if 0x61 <= b <= 0x66 {
        Some(b - 0x61 + 10)
    } else {
        None
    }
}

/// Percent-decoding of bytes: each `%` followed by two hex digits becomes the byte they
/// spell; every other byte, a lone `%` among them, stays as it is.
pub open spec fn percent_decoded(bs: Seq<u8>) -> Seq<u8>
    decreases bs.len(),
{
    if bs.len() == 0 {
        Seq::empty()
    } else if bs[0] == 0x25 && bs.len() >= 3 && hex_value(bs[1]) is Some && hex_value(
        bs[2],
    ) is Some {
        seq![(hex_value(bs[1])->0 * 16 + hex_value(bs[2])->0) as u8] + percent_decoded(
            bs.subrange(3, bs.len() as int),
        )
    } else {
        seq![bs[0]] + percent_decoded(bs.drop_first())
    }
}

/// The bytes that unescaping `s` gives, before they are read as UTF-8.
pub open spec fn unescaped_bytes(s: Seq<char>) -> Seq<u8> {
    percent_decoded(encode_utf8(s))
}

/// Whether the unescaped bytes of `s` are well-formed UTF-8.
pub open spec fn unescapes_to_text(s: Seq<char>) -> bool {
    valid_utf8(unescaped_bytes(s))
}

/// Percent-encodes the UTF-8 bytes of `s` with `percent_encoding::utf8_percent_encode`
/// and the set `NON_ALPHANUMERIC` (every byte but an ASCII letter or digit is encoded,
/// as `%` and two upper-case hex digits).
#[verifier::external_body]
fn utf8_percent_encode_alnum(s: &str) -> (r: String)
    ensures
        r@ == url_escaped(s@),
{
    percent_encoding::utf8_percent_encode(s, percent_encoding::NON_ALPHANUMERIC).to_string()
}

/// Percent-decodes `s` with `percent_encoding::percent_decode_str` and reads the bytes as
/// UTF-8 with `decode_utf8`: `None` exactly when they are not well-formed UTF-8.
#[verifier::external_body]
fn percent_decode_utf8(s: &str) -> (r: Option<String>)
    ensures
        match r {
            Some(t) => valid_utf8(unescaped_bytes(s@)) && t@ == decode_utf8(unescaped_bytes(s@)),
            None => !valid_utf8(unescaped_bytes(s@)),
        },
{
    match percent_encoding::percent_decode_str(s).decode_utf8() {
        Ok(text) => Some(text.into_owned()),
        Err(_) => None,
    }
}

/// Url escape a string.
pub fn url_escape(s: &str) -> (escaped: String)
    ensures
        escaped@ == url_escaped(s@),
{
    utf8_percent_encode_alnum(s)
}

/// Decrypt a url escaped string.
pub fn url_unescape(s: &str) -> (unescaped: String)
    requires
        unescapes_to_text(s@),
    ensures
        unescaped@ == decode_utf8(unescaped_bytes(s@)),
{
    match percent_decode_utf8(s) {
        Some(t) => t,
        None => String::new(),
    }
}

/// The bytes of plain ASCII characters, one each.
pub open spec fn ascii_bytes(cs: Seq<char>) -> Seq<u8> {
    Seq::new(cs.len(), |i: int| cs[i] as u8)
}

/// Escaped bytes are plain ASCII.
proof fn lemma_escaped_bytes_ascii(bs: Seq<u8>)
    ensures
        is_ascii_chars(escaped_bytes(bs)),
    decreases bs.len(),
{
    if bs.len() > 0 {
        lemma_escaped_bytes_ascii(bs.drop_first());
        let e = escaped_byte(bs[0]);
        let r = escaped_bytes(bs.drop_first());
        assert forall|i: int| 0 <= i < (e + r).len() implies '\0' <= #[trigger] (e + r)[i]
            <= '\u{7f}' by {
            if i >= e.len() {
                assert((e + r)[i] == r[i - e.len()]);
            }
        }
    }
}

/// Decoding the bytes of escaped bytes gives the bytes back.
proof fn lemma_decode_escaped_bytes(bs: Seq<u8>)
    ensures
        percent_decoded(ascii_bytes(escaped_bytes(bs))) == bs,
    decreases bs.len(),
{
    if bs.len() == 0 {
        assert(ascii_bytes(escaped_bytes(bs)) =~= Seq::<u8>::empty());
    } else {
        let b = bs[0];
        let rest = bs.drop_first();
        lemma_decode_escaped_bytes(rest);
        let tail = ascii_bytes(escaped_bytes(rest));
        let whole = ascii_bytes(escaped_bytes(bs));
        if is_ascii_alnum(b) {
            assert(whole =~= seq![b] + tail);
            assert(whole.drop_first() =~= tail);
        } else {
            let hi = hex_digit_upper(b as int / 16) as u8;
            let lo = hex_digit_upper(b as int % 16) as u8;
            assert(whole =~= seq![0x25u8, hi, lo] + tail);
            assert(whole.subrange(3, whole.len() as int) =~= tail);
            assert(hex_value(hi) == Some((b / 16) as int));
            assert(hex_value(lo) == Some((b % 16) as int));
        }
        assert(bs =~= seq![b] + rest);
    }
}

/// Unescaping undoes escaping: the escape of any string unescapes to well-formed UTF-8,
/// which reads back as the string itself.
pub proof fn lemma_unescape_escaped(s: Seq<char>)
    ensures
        unescaped_bytes(url_escaped(s)) == encode_utf8(s),
        unescapes_to_text(url_escaped(s)),
        decode_utf8(unescaped_bytes(url_escaped(s))) == s,
{
    let e = url_escaped(s);
    lemma_escaped_bytes_ascii(encode_utf8(s));
    is_ascii_chars_encode_utf8(e);
    assert(encode_utf8(e) =~= ascii_bytes(e));
    lemma_decode_escaped_bytes(encode_utf8(s));
    encode_utf8_valid_utf8(s);
    encode_utf8_decode_utf8(s);
}

} // verus!
