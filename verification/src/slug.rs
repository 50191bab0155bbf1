//! Slug derivation.
//!
//! An article's slug is re-derived from its title: spaces become dashes
//! and ASCII capitals become their lowercase letters, byte by byte; other
//! bytes pass through unchanged. For an ASCII title the result is pinned
//! down character by character.

use vstd::prelude::*;
use vstd::string::StrSliceExecFns;
use vstd::string::StringSliceAdditionalSpecFns;
use vstd::utf8::{
    encode_utf8, encode_utf8_decode_utf8, encode_utf8_valid_utf8, is_ascii_chars,
    is_ascii_chars_encode_utf8, valid_utf8,
};

verus! {

/// What slug derivation does to one character: a space becomes a dash, an
/// ASCII capital its lowercase letter, anything else stays.
pub open spec fn slug_char(c: char) -> char {
    if c == ' ' {
        '-'
    } else if 'A' <= c && c <= 'Z' {
        (((c as u32) + 32) as char)
    } else {
        c
    }
}

/// The slug of a title, character by character.
pub open spec fn spec_slug(s: Seq<char>) -> Seq<char> {
    Seq::new(s.len(), |i| slug_char(s[i]))
}

/// `slug_char` on the byte of an ASCII character.
pub open spec fn slug_byte(b: u8) -> u8 {
    if b == 32 {
        45
    } else if 65 <= b && b <= 90 {
        (b + 32) as u8
    } else {
        b
    }
}

fn slug_byte_exec(b: u8) -> (r: u8)
    ensures
        r == slug_byte(b),
{
    if b == 32 {
        45
    } else if 65 <= b && b <= 90 {
        b + 32
    } else {
        b
    }
}

/// Relies on String::from_utf8: a byte vector that is valid UTF-8 becomes
/// a string of exactly those bytes (an invalid one yields the empty
/// string here; no caller passes one).
#[verifier::external_body]
fn utf8_to_string(v: Vec<u8>) -> (r: String)
    ensures
        valid_utf8(v@) ==> encode_utf8(r@) == v@,
{
    String::from_utf8(v).unwrap_or_default()
}

/// Derives the slug of a title. For an ASCII title the result is exactly
/// `spec_slug` of its characters, and remains ASCII.
pub fn slug_from_title(title: &str) -> (r: String)
    ensures
        vstd::string::is_ascii(title) ==> r@ == spec_slug(title@) && is_ascii_chars(r@),
{
    let bytes = title.as_bytes_vec();
    let mut out: Vec<u8> = Vec::new();
    let mut i: usize = 0;
    while i < bytes.len()
        invariant
            i <= bytes@.len(),
            out@.len() == i,
            forall|j: int| 0 <= j < i ==> out@[j] == slug_byte(bytes@[j]),
        decreases bytes@.len() - i,
    {
        out.push(slug_byte_exec(bytes[i]));
        i += 1;
    }
    let s = utf8_to_string(out);
    proof {
        if vstd::string::is_ascii(title) {
            vstd::string::is_ascii_spec_bytes(title);
            let cs = spec_slug(title@);
            assert forall|j: int| 0 <= j < cs.len() implies '\0' <= #[trigger] cs[j]
                <= '\u{7f}' by {
                assert('\0' <= title@[j] <= '\u{7f}');
            }
            assert(is_ascii_chars(cs));
            is_ascii_chars_encode_utf8(cs);
            assert forall|j: int| 0 <= j < cs.len() implies encode_utf8(cs)[j] == out@[j] by {
                let c = title@[j];
                assert('\0' <= c <= '\u{7f}');
                assert(bytes@[j] == c as u8);
                assert(encode_utf8(cs)[j] == slug_char(c) as u8);
                assert(out@[j] == slug_byte(c as u8));
                assert(slug_char(c) as u8 == slug_byte(c as u8));
            }
            assert(encode_utf8(cs) =~= out@);
            encode_utf8_valid_utf8(cs);
            assert(valid_utf8(out@));
            assert(encode_utf8(s@) == out@);
            encode_utf8_decode_utf8(s@);
            encode_utf8_decode_utf8(cs);
            assert(s@ == cs);
        }
    }
    s
}

} // verus!
