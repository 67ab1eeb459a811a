use vstd::prelude::*;
use vstd::string::{StringExecFns, StringSliceAdditionalSpecFns};
use vstd::utf8::{decode_utf8, encode_utf8_decode_utf8, encode_utf8_valid_utf8, valid_utf8};

verus! {

/// The text that stands in for engine output that is not valid UTF-8.
pub const ENCODING_ERROR: &'static str = "<encoding error>";

/// The zero-terminated form of a byte string, which exists only when the
/// bytes hold no zero of their own.
pub open spec fn spec_c_string(b: Seq<u8>) -> Option<Seq<u8>> {
    if b.contains(0u8) {
        None
    } else {
        Some(b.push(0u8))
    }
}

/// What the host shows for bytes that the engine rendered: their text when
/// they are valid UTF-8, else the marker.
pub open spec fn spec_render(b: Seq<u8>) -> Seq<char> {
    if valid_utf8(b) {
        decode_utf8(b)
    } else {
        ENCODING_ERROR@
    }
}

/// Relies on `String::from_utf8`: it succeeds exactly on valid UTF-8 and then
/// holds the characters that the bytes encode.
#[verifier::external_body]
fn utf8_text(b: Vec<u8>) -> (r: Option<String>)
    ensures
        r is Some <==> valid_utf8(b@),
        r matches Some(s) ==> s@ == decode_utf8(b@),
{
    String::from_utf8(b).ok()
}

/// Frames host text for an engine entry point that reads a zero-terminated
/// string. Text with a zero byte of its own would be cut short there, so it is
/// refused.
pub fn c_string(s: &str) -> (r: Option<Vec<u8>>)
    ensures
        r matches Some(v) ==> Some(v@) == spec_c_string(s.spec_bytes()),
        r is None <==> spec_c_string(s.spec_bytes()) is None,
{
    let b = s.as_bytes();
    let mut out: Vec<u8> = Vec::new();
    let mut i: usize = 0;
    while i < b.len()
        invariant
            i <= b@.len(),
            b@ == s.spec_bytes(),
            out@ == b@.subrange(0, i as int),
            !out@.contains(0u8),
        decreases b@.len() - i,
    {
        if b[i] == 0 {
            assert(b@[i as int] == 0u8);
            return None;
        }
        out.push(b[i]);
        i = i + 1;
        assert(out@ == b@.subrange(0, i as int));
    }
    assert(out@ == b@);
    out.push(0);
    Some(out)
}

/// The byte length of host text as the engine's `int` length, when it fits.
pub fn text_length(s: &str) -> (r: Option<i32>)
    ensures
        r is Some <==> s.spec_bytes().len() <= i32::MAX,
        r matches Some(n) ==> n == s.spec_bytes().len(),
{
    crate::call::c_int(s.as_bytes().len())
}

/// Reads back text that the engine rendered, putting the marker in place of
/// output that is not valid UTF-8.
pub fn render(b: Vec<u8>) -> (r: String)
    ensures
        r@ == spec_render(b@),
{
    match utf8_text(b) {
        Some(s) => s,
        None => <String as StringExecFns>::from_str(ENCODING_ERROR),
    }
}

/// Host text stored as its bytes and rendered back is the same text: the
/// bytes of a `str` are always valid UTF-8, so the marker never appears.
pub proof fn lemma_text_round_trip(s: &str)
    ensures
        spec_render(s.spec_bytes()) == s@,
{
    encode_utf8_valid_utf8(s@);
    encode_utf8_decode_utf8(s@);
}

} // verus!
