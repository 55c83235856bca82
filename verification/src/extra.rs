//! Wraps and unwraps the additional, filter-metadata-invisible zlib layer
//! that some PDF producers apply around embedded JPEG data. Unwrapping is
//! best-effort: a broken layer yields an empty result instead of failing, so
//! that one corrupt stream never aborts processing of the whole document.

use vstd::prelude::*;

verus! {

/// What flate2's zlib encoder produces for a byte sequence at the maximum
/// compression level.
pub uninterp spec fn zlib_deflate_of(s: Seq<u8>) -> Seq<u8>;

/// What flate2's zlib decoder recovers from a byte sequence: the decoded
/// bytes when the sequence opens with a well-formed zlib stream, `None`
/// when decoding fails.
pub uninterp spec fn zlib_inflate_of(s: Seq<u8>) -> Option<Seq<u8>>;

/// Relies on flate2::write::ZlibEncoder at `Compression::best()`: the output
/// is a function of the input bytes alone, it is never empty (a zlib stream
/// carries at least a header and a checksum), and inflating it recovers the
/// input exactly. Writing into an in-memory buffer cannot fail.
#[verifier::external_body]
fn zlib_deflate(input: &[u8]) -> (out: Vec<u8>)
    ensures
        out@ == zlib_deflate_of(input@),
        out@.len() > 0,
        zlib_inflate_of(out@) == Some(input@),
{
    let mut encoder = flate2::write::ZlibEncoder::new(Vec::new(), flate2::Compression::best());
    std::io::Write::write_all(&mut encoder, input).expect("write into an in-memory buffer");
    encoder.finish().expect("finish an in-memory zlib stream")
}

/// Relies on flate2::read::ZlibDecoder: decoding is a function of the input
/// bytes alone, and a malformed stream is reported as an error rather than
/// a panic.
#[verifier::external_body]
fn zlib_inflate(input: &[u8]) -> (out: Vec<u8>)
    ensures
        match zlib_inflate_of(input@) {
            Some(plain) => out@ == plain,
            None => out@ == Seq::<u8>::empty(),
        },
{
    let mut decoder = flate2::read::ZlibDecoder::new(input);
    let mut out = Vec::new();
    match std::io::Read::read_to_end(&mut decoder, &mut out) {
        Ok(_) => out,
        Err(_) => Vec::new(),
    }
}

/// What unwrapping yields: empty input stays empty, a well-formed layer is
/// inflated, and a broken layer degrades to an empty result.
pub open spec fn unwrap_extra_spec(s: Seq<u8>) -> Seq<u8> {
    if s.len() == 0 {
        Seq::empty()
    } else {
        match zlib_inflate_of(s) {
            Some(plain) => plain,
            None => Seq::empty(),
        }
    }
}

/// What wrapping yields: the zlib encoding of the input at the maximum
/// compression level.
pub open spec fn wrap_extra_spec(s: Seq<u8>) -> Seq<u8> {
    zlib_deflate_of(s)
}

/// Remove the extra zlib layer. On empty input returns empty output; on a
/// decode error returns an empty result rather than failing.
pub fn unwrap_extra(content: &[u8]) -> (out: Vec<u8>)
    ensures
        out@ == unwrap_extra_spec(content@),
{
    if content.len() == 0 {
        Vec::new()
    } else {
        zlib_inflate(content)
    }
}

/// Apply the extra zlib layer at the maximum compression level; this
/// direction cannot fail for in-memory input.
///
/// Law: unwrapping a freshly wrapped buffer restores it byte for byte, for
/// every input, stated by the second postcondition.
pub fn wrap_extra(content: &[u8]) -> (out: Vec<u8>)
    ensures
        out@ == wrap_extra_spec(content@),
        unwrap_extra_spec(out@) == content@,
{
    zlib_deflate(content)
}

} // verus!
