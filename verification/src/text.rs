use vstd::prelude::*;

verus! {

/// The characters `String::from_utf8_lossy` produces for a byte sequence:
/// a pure function of the bytes alone.
pub uninterp spec fn lossy_utf8_of(b: Seq<u8>) -> Seq<char>;

/// The characters `str::trim` leaves of a character sequence: a pure
/// function of the characters alone.
pub uninterp spec fn trimmed_of(s: Seq<char>) -> Seq<char>;

/// Relies on `String::from_utf8_lossy`: decodes the bytes as UTF-8, replacing
/// every invalid sequence with the replacement character; the result depends
/// on the bytes alone.
#[verifier::external_body]
fn lossy_utf8(b: &[u8]) -> (r: String)
    ensures
        r@ == lossy_utf8_of(b@),
{
    String::from_utf8_lossy(b).into_owned()
}

/// Relies on `str::trim`: returns the subslice of `s` left after removing
/// leading and trailing whitespace, so the result is never longer than `s`.
#[verifier::external_body]
fn trim_ws(s: &str) -> (r: &str)
    ensures
        r@ == trimmed_of(s@),
        r@.len() <= s@.len(),
{
    s.trim()
}

/// The free-form reading of a chunk that is not a typed envelope: its lossy
/// UTF-8 decoding, trimmed of surrounding whitespace.
pub open spec fn spec_chunk_text(b: Seq<u8>) -> Seq<char> {
    trimmed_of(lossy_utf8_of(b))
}

/// Reads a chunk as free-form text: lossy UTF-8 decoding, trimmed of
/// surrounding whitespace.
pub fn chunk_text(b: &[u8]) -> (r: String)
    ensures
        r@ == spec_chunk_text(b@),
{
    let s = lossy_utf8(b);
    trim_ws(s.as_str()).to_owned()
}

} // verus!
